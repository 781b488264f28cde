use beluga::crt::{Error, AWS_ERROR_OVERFLOW_DETECTED, AWS_ERROR_SUCCESS, AWS_ERROR_UNKNOWN};

#[test]
fn error_codes() {
    assert_eq!(Error::unknown(), Error(AWS_ERROR_UNKNOWN));
    assert_eq!(Error::overflow_detected(), Error(AWS_ERROR_OVERFLOW_DETECTED));
    assert!(Error(AWS_ERROR_SUCCESS).is_success());
    assert!(!Error::unknown().is_success());
}

#[test]
fn failures_are_never_success() {
    assert_eq!(Error::from_last_error(0), Error::unknown());
    assert_eq!(Error::from_last_error(1), Error(1));
    assert_eq!(Error::check_rc(0, 42), Ok(()));
    assert_eq!(Error::check_rc(-1, 1), Err(Error(1)));
    assert_eq!(Error::check_rc(-1, 0), Err(Error::unknown()));
}

#[test]
fn refused_packets_carry_the_thread_error() {
    assert_eq!(Error::check_packet_id(7, 0), Ok(7));
    assert_eq!(Error::check_packet_id(0, 9), Err(Error(9)));
    assert_eq!(Error::check_packet_id(0, 0), Err(Error::unknown()));
}
