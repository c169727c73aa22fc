//! Session-level control logic of an SSH client over the libssh2 engine.
//!
//! The engine itself is driven through raw handles; this library holds the
//! decisions taken around every engine call: how a status code or a null
//! result becomes a `Result`, how the ambiguous answer of an authentication
//! listing is resolved, which numeric codes the engine expects, and which
//! answers are withheld until the transport has been negotiated.

mod codes;
mod error;
mod negotiation;
mod status;

pub use codes::{DisconnectCode, HostKeyType, MethodType, SessionFlag};
pub use error::{Error, ERROR_EAGAIN, ERROR_NONE, ERROR_TIMEOUT};
pub use negotiation::{
    failed_handshake_keeps_unavailable, spec_negotiated, unavailable_before_handshake, Negotiation,
};
pub use status::{auth_list_result, handle_result, listing_len, status_result};
