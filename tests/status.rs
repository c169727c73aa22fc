use ssh2::{auth_list_result, handle_result, listing_len, status_result, Error};

fn err(code: i32, msg: &str) -> Error {
    Error::new(code, msg.to_string())
}

#[test]
fn zero_status_is_success_even_with_a_recorded_error() {
    assert_eq!(status_result(0, None), Ok(()));
    assert_eq!(status_result(0, Some(err(-1, "stale"))), Ok(()));
}

#[test]
fn nonzero_status_yields_the_last_error() {
    let r = status_result(-18, Some(err(-18, "Authentication failed")));
    assert_eq!(r, Err(err(-18, "Authentication failed")));
    let r = status_result(7, Some(err(-7, "Unable to send")));
    assert_eq!(r, Err(err(-7, "Unable to send")));
}

#[test]
fn nonzero_status_without_last_error_is_success() {
    assert_eq!(status_result(-1, None), Ok(()));
    assert_eq!(status_result(i32::MIN, None), Ok(()));
}

#[test]
fn handle_is_passed_through() {
    let r: Result<u32, Error> = handle_result(Some(5u32), None);
    assert_eq!(r, Ok(5));
    let r: Result<u32, Error> = handle_result(Some(5u32), Some(err(-1, "ignored")));
    assert_eq!(r, Ok(5));
}

#[test]
fn null_channel_reports_the_last_error() {
    let r: Result<u32, Error> =
        handle_result(None, Some(err(-22, "Channel open failure (unknown channel type)")));
    let e = r.unwrap_err();
    assert_eq!(e.code(), -22);
    assert_eq!(e.message(), "Channel open failure (unknown channel type)");
}

#[test]
fn auth_list_is_passed_through() {
    let r = auth_list_result(Some("publickey,password".to_string()), false, None);
    assert_eq!(r, Ok("publickey,password".to_string()));
}

#[test]
fn null_auth_list_when_authenticated_is_success() {
    let r = auth_list_result(None, true, None);
    assert_eq!(r, Ok(String::new()));
    let r = auth_list_result(None, true, Some(err(-18, "unused")));
    assert_eq!(r, Ok(String::new()));
}

#[test]
fn null_auth_list_when_not_authenticated_is_the_last_error() {
    let r = auth_list_result(None, false, Some(err(-13, "Unable to send userauth-none request")));
    assert_eq!(r, Err(err(-13, "Unable to send userauth-none request")));
}

#[test]
fn listing_len_positive_count() {
    assert_eq!(listing_len(4, None), Ok(4));
    assert_eq!(listing_len(1, Some(err(-1, "ignored"))), Ok(1));
    assert_eq!(listing_len(i32::MAX, None), Ok(i32::MAX as usize));
}

#[test]
fn listing_len_non_positive_count() {
    assert_eq!(listing_len(0, None), Ok(0));
    assert_eq!(listing_len(0, Some(err(-34, "Invalid parameter"))), Err(err(-34, "Invalid parameter")));
    assert_eq!(listing_len(-34, None), Ok(0));
    assert_eq!(listing_len(-34, Some(err(-34, "Invalid parameter"))), Err(err(-34, "Invalid parameter")));
}

#[test]
fn last_error_record() {
    assert_eq!(Error::from_last(0, "nothing".to_string()), None);
    let e = Error::from_last(-9, "Timed out".to_string()).unwrap();
    assert_eq!(e.code(), -9);
    assert_eq!(e.message(), "Timed out");
}

#[test]
fn would_block_and_timeout_are_told_apart() {
    let again = err(-37, "Would block");
    assert!(again.would_block());
    assert!(!again.timed_out());
    let timeout = err(-9, "Timed out");
    assert!(timeout.timed_out());
    assert!(!timeout.would_block());
    let other = err(-7, "Unable to send");
    assert!(!other.timed_out());
    assert!(!other.would_block());
}
