use vstd::prelude::*;
use crate::codes::HostKeyType;
use crate::error::Error;

verus! {

/// What a session knows of its transport negotiation: whether a handshake
/// may have taken place on its engine handle.
///
/// Answers that depend on negotiated state (host key, negotiated methods,
/// authentication) are passed through only once it may have; before that
/// they are unavailable, whatever the engine holds.
#[derive(Clone, Copy, Debug, PartialEq, Eq, Structural)]
pub struct Negotiation {
    started: bool,
}

/// The answer of a query on negotiated state, given the state of the
/// negotiation and the engine's answer.
pub open spec fn spec_negotiated<T>(started: bool, answer: Option<T>) -> Option<T> {
    if started {
        answer
    } else {
        None
    }
}

impl Negotiation {
    /// Whether a handshake may have taken place.
    pub closed spec fn spec_started(&self) -> bool {
        self.started
    }

    /// The state of a freshly allocated session: no handshake yet.
    pub fn new() -> (r: Negotiation)
        ensures
            !r.spec_started(),
    {
        Negotiation { started: false }
    }

    /// The state of a session adopted from a handle made elsewhere, whose
    /// history is not known: the engine's answers are passed through.
    pub fn adopted() -> (r: Negotiation)
        ensures
            r.spec_started(),
    {
        Negotiation { started: true }
    }

    /// Records the outcome of a handshake: a successful one starts the
    /// transport, a failed one changes nothing.
    pub fn record_handshake(&mut self, outcome: &Result<(), Error>)
        ensures
            final(self).spec_started() == (old(self).spec_started() || outcome is Ok),
    {
        if outcome.is_ok() {
            self.started = true;
        }
    }

    pub fn is_started(&self) -> (r: bool)
        ensures
            r == self.spec_started(),
    {
        self.started
    }

    /// The answer of a query on negotiated state.
    pub fn negotiated<T>(&self, answer: Option<T>) -> (r: Option<T>)
        ensures
            r == spec_negotiated(self.spec_started(), answer),
    {
        if self.started {
            answer
        } else {
            None
        }
    }

    /// The host key with its kind, from the engine's key material and
    /// key-type code; unavailable where the engine has no key or no handshake
    /// has taken place.
    pub fn host_key<T>(&self, key: Option<T>, kind: i32) -> (r: Option<(T, HostKeyType)>)
        ensures
            r == (match spec_negotiated(self.spec_started(), key) {
                Some(k) => Some((k, HostKeyType::spec_from_code(kind))),
                None => None,
            }),
    {
        match self.negotiated(key) {
            Some(k) => Some((k, HostKeyType::from_code(kind))),
            None => None,
        }
    }

    /// Whether the session is authenticated, given the engine's answer: never
    /// before a handshake.
    pub fn authenticated(&self, engine: bool) -> (r: bool)
        ensures
            r == (self.spec_started() && engine),
    {
        self.started && engine
    }
}

/// Before a handshake has succeeded, every query on negotiated state (host
/// key, negotiated method, authentication) is unavailable, whatever the
/// engine answers.
pub proof fn unavailable_before_handshake<T>(s: Negotiation, answer: Option<T>, engine: bool)
    requires
        !s.spec_started(),
    ensures
        spec_negotiated(s.spec_started(), answer) is None,
        !(s.spec_started() && engine),
{
}

/// A failed handshake leaves negotiated state unavailable on a session that
/// had none.
pub proof fn failed_handshake_keeps_unavailable(
    before: Negotiation,
    after: Negotiation,
    outcome: Result<(), Error>,
)
    requires
        !before.spec_started(),
        outcome is Err,
        after.spec_started() == (before.spec_started() || outcome is Ok),
    ensures
        !after.spec_started(),
{
}

} // verus!
