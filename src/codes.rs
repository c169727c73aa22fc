use vstd::prelude::*;

verus! {

/// Reason sent with a disconnect message.
#[derive(Clone, Copy, Debug, PartialEq, Eq, Structural)]
pub enum DisconnectCode {
    HostNotAllowedToConnect,
    ProtocolError,
    KeyExchangeFailed,
    Reserved,
    MacError,
    CompressionError,
    ServiceNotAvailable,
    ProtocolVersionNotSupported,
    HostKeyNotVerifiable,
    ConnectionLost,
    ByApplication,
    TooManyConnections,
    AuthCancelledByUser,
    NoMoreAuthMethodsAvailable,
    IllegalUserName,
}

impl DisconnectCode {
    /// The reason code of the SSH transport protocol.
    pub open spec fn spec_code(self) -> i32 {
        match self {
            DisconnectCode::HostNotAllowedToConnect => 1,
            DisconnectCode::ProtocolError => 2,
            DisconnectCode::KeyExchangeFailed => 3,
            DisconnectCode::Reserved => 4,
            DisconnectCode::MacError => 5,
            DisconnectCode::CompressionError => 6,
            DisconnectCode::ServiceNotAvailable => 7,
            DisconnectCode::ProtocolVersionNotSupported => 8,
            DisconnectCode::HostKeyNotVerifiable => 9,
            DisconnectCode::ConnectionLost => 10,
            DisconnectCode::ByApplication => 11,
            DisconnectCode::TooManyConnections => 12,
            DisconnectCode::AuthCancelledByUser => 13,
            DisconnectCode::NoMoreAuthMethodsAvailable => 14,
            DisconnectCode::IllegalUserName => 15,
        }
    }

    pub fn code(self) -> (r: i32)
        ensures
            r == self.spec_code(),
    {
        match self {
            DisconnectCode::HostNotAllowedToConnect => 1,
            DisconnectCode::ProtocolError => 2,
            DisconnectCode::KeyExchangeFailed => 3,
            DisconnectCode::Reserved => 4,
            DisconnectCode::MacError => 5,
            DisconnectCode::CompressionError => 6,
            DisconnectCode::ServiceNotAvailable => 7,
            DisconnectCode::ProtocolVersionNotSupported => 8,
            DisconnectCode::HostKeyNotVerifiable => 9,
            DisconnectCode::ConnectionLost => 10,
            DisconnectCode::ByApplication => 11,
            DisconnectCode::TooManyConnections => 12,
            DisconnectCode::AuthCancelledByUser => 13,
            DisconnectCode::NoMoreAuthMethodsAvailable => 14,
            DisconnectCode::IllegalUserName => 15,
        }
    }

    /// The reason code to send for an optional reason: a disconnect without a
    /// reason is one by the application.
    pub fn code_or_default(reason: Option<DisconnectCode>) -> (r: i32)
        ensures
            r == (match reason {
                Some(c) => c.spec_code(),
                None => DisconnectCode::ByApplication.spec_code(),
            }),
    {
        match reason {
            Some(c) => c.code(),
            None => DisconnectCode::ByApplication.code(),
        }
    }
}

/// A session-level switch of the engine.
#[derive(Clone, Copy, Debug, PartialEq, Eq, Structural)]
pub enum SessionFlag {
    /// Let the engine's socket writes raise SIGPIPE.
    PipeSignal,
    /// Negotiate compression of the transport.
    Compress,
}

impl SessionFlag {
    pub open spec fn spec_code(self) -> i32 {
        match self {
            SessionFlag::PipeSignal => 1,
            SessionFlag::Compress => 2,
        }
    }

    pub fn code(self) -> (r: i32)
        ensures
            r == self.spec_code(),
    {
        match self {
            SessionFlag::PipeSignal => 1,
            SessionFlag::Compress => 2,
        }
    }
}

/// The kind of the server's host key.
#[derive(Clone, Copy, Debug, PartialEq, Eq, Structural)]
pub enum HostKeyType {
    Rsa,
    Dss,
    Unknown,
}

impl HostKeyType {
    /// The kind that an engine key-type code stands for.
    pub open spec fn spec_from_code(kind: i32) -> HostKeyType {
        if kind == 1 {
            HostKeyType::Rsa
        } else if kind == 2 {
            HostKeyType::Dss
        } else {
            HostKeyType::Unknown
        }
    }

    pub fn from_code(kind: i32) -> (r: HostKeyType)
        ensures
            r == Self::spec_from_code(kind),
    {
        if kind == 1 {
            HostKeyType::Rsa
        } else if kind == 2 {
            HostKeyType::Dss
        } else {
            HostKeyType::Unknown
        }
    }
}

/// A negotiation category of the transport; `Cs` is client to server, `Sc`
/// server to client.
#[derive(Clone, Copy, Debug, PartialEq, Eq, Structural)]
pub enum MethodType {
    Kex,
    HostKey,
    CryptCs,
    CryptSc,
    MacCs,
    MacSc,
    CompCs,
    CompSc,
    LangCs,
    LangSc,
}

impl MethodType {
    pub open spec fn spec_code(self) -> i32 {
        match self {
            MethodType::Kex => 0,
            MethodType::HostKey => 1,
            MethodType::CryptCs => 2,
            MethodType::CryptSc => 3,
            MethodType::MacCs => 4,
            MethodType::MacSc => 5,
            MethodType::CompCs => 6,
            MethodType::CompSc => 7,
            MethodType::LangCs => 8,
            MethodType::LangSc => 9,
        }
    }

    pub fn code(self) -> (r: i32)
        ensures
            r == self.spec_code(),
    {
        match self {
            MethodType::Kex => 0,
            MethodType::HostKey => 1,
            MethodType::CryptCs => 2,
            MethodType::CryptSc => 3,
            MethodType::MacCs => 4,
            MethodType::MacSc => 5,
            MethodType::CompCs => 6,
            MethodType::CompSc => 7,
            MethodType::LangCs => 8,
            MethodType::LangSc => 9,
        }
    }
}

} // verus!
