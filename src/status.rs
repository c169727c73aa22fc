use vstd::prelude::*;
use crate::error::Error;

verus! {

/// Turns an engine status code into a `Result`.
///
/// Zero is success. On any other code the session's last-error record,
/// `last`, is authoritative: the error it holds is returned, and where it
/// holds none the call is taken to have succeeded.
pub fn status_result(code: i32, last: Option<Error>) -> (r: Result<(), Error>)
    ensures
        code == 0 ==> r is Ok,
        code != 0 && last is Some ==> r == Err::<(), Error>(last->0),
        code != 0 && last is None ==> r is Ok,
{
    if code == 0 {
        Ok(())
    } else {
        match last {
            Some(e) => Err(e),
            None => Ok(()),
        }
    }
}

/// Turns the result of an engine call that signals failure by a null handle
/// into a `Result`: a handle (`Some`) is returned as it is, and on a null
/// result the session's last-error record explains the failure.
pub fn handle_result<T>(handle: Option<T>, last: Option<Error>) -> (r: Result<T, Error>)
    requires
        handle is Some || last is Some,
    ensures
        handle is Some ==> r == Ok::<T, Error>(handle->0),
        handle is None ==> r == Err::<T, Error>(last->0),
{
    match handle {
        Some(h) => Ok(h),
        None => Err(last.unwrap()),
    }
}

/// Resolves the answer of an authentication-method listing.
///
/// A list from the engine is returned as it is. No list is ambiguous: when
/// the session is authenticated the server accepted authentication by `none`
/// and nothing more is needed (an empty list); otherwise the last-error
/// record explains the failure.
pub fn auth_list_result(list: Option<String>, authenticated: bool, last: Option<Error>) -> (r:
    Result<String, Error>)
    requires
        list is Some || authenticated || last is Some,
    ensures
        list is Some ==> r is Ok && r->Ok_0@ == list->0@,
        list is None && authenticated ==> r is Ok && r->Ok_0@.len() == 0,
        list is None && !authenticated ==> r == Err::<String, Error>(last->0),
{
    match list {
        Some(s) => Ok(s),
        None => {
            if authenticated {
                Ok(String::new())
            } else {
                Err(last.unwrap())
            }
        },
    }
}

/// How many names of a supported-algorithm listing are to be read, given the
/// count that the engine returned.
///
/// A positive count is the number of names. A count of zero or below always
/// signals failure: the error in the last-error record is returned, and where
/// the record holds none there are no names to read.
pub fn listing_len(count: i32, last: Option<Error>) -> (r: Result<usize, Error>)
    ensures
        count > 0 ==> r == Ok::<usize, Error>(count as usize),
        count <= 0 && last is Some ==> r == Err::<usize, Error>(last->0),
        count <= 0 && last is None ==> r == Ok::<usize, Error>(0),
{
    if count > 0 {
        Ok(count as usize)
    } else {
        match last {
            Some(e) => Err(e),
            None => Ok(0),
        }
    }
}

} // verus!
