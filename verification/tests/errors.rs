use realsense_rust::error::{classify, starts_with, Error, ErrorChecker, ErrorKind};
use realsense_rust::foreign::ForeignCall;
use realsense_rust::handle::Handle;

fn handle(addr: usize) -> Handle {
    Handle::new(addr).unwrap()
}

#[test]
fn null_address_is_no_handle() {
    assert_eq!(Handle::new(0), None);
    assert_eq!(Handle::new(7).map(|h| h.addr()), Some(7));
    assert_eq!(Handle::new(usize::MAX).map(|h| h.addr()), Some(usize::MAX));
}

#[test]
fn timeout_message_classifies_as_timeout() {
    assert_eq!(classify("Frame didn't arrive within 50"), ErrorKind::Timeout);
    assert_eq!(classify("Frame didn't arrive within "), ErrorKind::Timeout);
}

#[test]
fn unsupported_option_message_classifies_as_unsupported_option() {
    assert_eq!(classify("object doesn't support option #36"), ErrorKind::UnsupportedOption);
    assert_eq!(classify("object doesn't support option #"), ErrorKind::UnsupportedOption);
}

#[test]
fn any_other_message_classifies_as_other() {
    assert_eq!(classify(""), ErrorKind::Other);
    assert_eq!(classify("null pointer passed for argument \"frame\""), ErrorKind::Other);
    assert_eq!(classify("Frame didn't arrive within"), ErrorKind::Other);
    assert_eq!(classify("frame didn't arrive within 50"), ErrorKind::Other);
    assert_eq!(classify("object doesn't support option"), ErrorKind::Other);
    assert_eq!(classify(" Frame didn't arrive within 50"), ErrorKind::Other);
}

#[test]
fn starts_with_compares_characters() {
    assert!(starts_with("abc", ""));
    assert!(starts_with("", ""));
    assert!(starts_with("abc", "abc"));
    assert!(starts_with("abcd", "abc"));
    assert!(!starts_with("ab", "abc"));
    assert!(!starts_with("abd", "abc"));
    assert!(!starts_with("", "a"));
    assert!(starts_with("été chaud", "été"));
    assert!(!starts_with("ete chaud", "été"));
}

#[test]
fn empty_slot_checks_as_success() {
    let checker = ErrorChecker::new();
    assert_eq!(checker.message_call(), None);
    assert_eq!(checker.check(""), Ok(()));

    let mut checker = ErrorChecker::new();
    checker.record(0);
    assert_eq!(checker.message_call(), None);
    assert_eq!(checker.check("Frame didn't arrive within 50"), Ok(()));
}

#[test]
fn full_slot_checks_as_classified_error() {
    let mut checker = ErrorChecker::new();
    checker.record(0x50);
    assert_eq!(
        checker.message_call(),
        Some(ForeignCall::GetErrorMessage { error: handle(0x50) })
    );
    let error = checker.check("Frame didn't arrive within 50").unwrap_err();
    assert_eq!(
        error,
        Error::Timeout {
            error: handle(0x50),
            message: String::from("Frame didn't arrive within 50")
        }
    );
    assert_eq!(error.kind(), Some(ErrorKind::Timeout));
    assert_eq!(error.error_message(), "Frame didn't arrive within 50");
    assert_eq!(error.ptr(), Some(handle(0x50)));

    let mut checker = ErrorChecker::new();
    checker.record(0x51);
    let error = checker.check("object doesn't support option #3").unwrap_err();
    assert_eq!(error.kind(), Some(ErrorKind::UnsupportedOption));
    assert_eq!(error.ptr(), Some(handle(0x51)));

    let mut checker = ErrorChecker::new();
    checker.record(0x52);
    let error = checker.check("out of range value for argument \"index\"").unwrap_err();
    assert_eq!(error.kind(), Some(ErrorKind::Other));
    assert_eq!(error.error_message(), "out of range value for argument \"index\"");
}

#[test]
fn a_later_call_overwrites_the_slot() {
    let mut checker = ErrorChecker::new();
    checker.record(0x52);
    checker.record(0);
    assert_eq!(checker.check("anything"), Ok(()));
}

#[test]
fn native_error_is_freed_once_and_local_error_never() {
    let error = Error::Other { error: handle(9), message: String::from("broken") };
    assert_eq!(error.release(), Some(ForeignCall::FreeError { error: handle(9) }));
    assert_eq!(error.into_raw(), Some(handle(9)));

    let local = Error::ToCStrConversion("interior NUL");
    assert_eq!(local.kind(), None);
    assert_eq!(local.ptr(), None);
    assert_eq!(local.error_message(), "interior NUL");
    assert_eq!(local.release(), None);
    assert_eq!(local.into_raw(), None);
}
