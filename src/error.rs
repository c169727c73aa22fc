use vstd::prelude::*;

verus! {

/// Status code with which the engine reports that nothing went wrong.
pub const ERROR_NONE: i32 = 0;

/// Status code of a blocking operation whose time limit ran out.
pub const ERROR_TIMEOUT: i32 = -9;

/// Status code of a non-blocking operation that could not complete at once.
pub const ERROR_EAGAIN: i32 = -37;

/// An error reported by the engine: its numeric code and its message.
#[derive(Clone, Debug, PartialEq, Eq)]
pub struct Error {
    code: i32,
    msg: String,
}

impl Error {
    /// The numeric code of the error.
    pub closed spec fn spec_code(&self) -> i32 {
        self.code
    }

    /// The message of the error.
    pub closed spec fn spec_message(&self) -> Seq<char> {
        self.msg@
    }

    /// Builds an error from a code and a message.
    pub fn new(code: i32, msg: String) -> (r: Error)
        ensures
            r.spec_code() == code,
            r.spec_message() == msg@,
    {
        Error { code, msg }
    }

    /// Builds the error that a session's last-error record describes.
    ///
    /// The engine keeps `ERROR_NONE` as the code while nothing has gone wrong:
    /// then there is no error to report.
    pub fn from_last(code: i32, msg: String) -> (r: Option<Error>)
        ensures
            code == ERROR_NONE <==> r is None,
            r matches Some(e) ==> e.spec_code() == code && e.spec_message() == msg@,
    {
        if code == ERROR_NONE {
            None
        } else {
            Some(Error { code, msg })
        }
    }

    /// The numeric code of the error.
    pub fn code(&self) -> (r: i32)
        ensures
            r == self.spec_code(),
    {
        self.code
    }

    /// The message of the error.
    pub fn message(&self) -> (r: &str)
        ensures
            r@ == self.spec_message(),
    {
        self.msg.as_str()
    }

    /// Whether a non-blocking operation stopped because it could not complete
    /// at once.
    pub fn would_block(&self) -> (r: bool)
        ensures
            r == (self.spec_code() == ERROR_EAGAIN),
    {
        self.code == ERROR_EAGAIN
    }

    /// Whether a blocking operation stopped because its time limit ran out.
    pub fn timed_out(&self) -> (r: bool)
        ensures
            r == (self.spec_code() == ERROR_TIMEOUT),
    {
        self.code == ERROR_TIMEOUT
    }
}

} // verus!
