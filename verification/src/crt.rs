//! Error codes of the AWS C libraries, and how a return code becomes a
//! result.
use vstd::prelude::*;

verus! {

/// `AWS_ERROR_SUCCESS`: no error.
pub const AWS_ERROR_SUCCESS: i32 = 0;

/// `AWS_ERROR_UNKNOWN`.
pub const AWS_ERROR_UNKNOWN: i32 = 3;

/// `AWS_ERROR_OVERFLOW_DETECTED`.
pub const AWS_ERROR_OVERFLOW_DETECTED: i32 = 5;

/// An error of the AWS C libraries, by its code.
#[derive(Clone, Copy, Debug, PartialEq, Eq, Structural)]
pub struct Error(pub i32);

/// The error a failed call reports, given the calling thread's last error
/// code: that code, or the unknown error when the code says success.
pub open spec fn error_of_last(last: i32) -> Error {
    if last == AWS_ERROR_SUCCESS {
        Error(AWS_ERROR_UNKNOWN)
    } else {
        Error(last)
    }
}

/// A failed call is never reported with the success code, whatever the
/// thread's last error says.
pub proof fn lemma_failure_is_not_success(last: i32)
    ensures
        error_of_last(last).0 != AWS_ERROR_SUCCESS,
        last != AWS_ERROR_SUCCESS ==> error_of_last(last) == Error(last),
{
}

impl Error {
    /// The unknown error.
    pub fn unknown() -> (r: Error)
        ensures
            r == Error(AWS_ERROR_UNKNOWN),
    {
        Error(AWS_ERROR_UNKNOWN)
    }

    /// An arithmetic overflow was detected.
    pub fn overflow_detected() -> (r: Error)
        ensures
            r == Error(AWS_ERROR_OVERFLOW_DETECTED),
    {
        Error(AWS_ERROR_OVERFLOW_DETECTED)
    }

    /// The code says success.
    pub fn is_success(self) -> (r: bool)
        ensures
            r == (self.0 == AWS_ERROR_SUCCESS),
    {
        self.0 == AWS_ERROR_SUCCESS
    }

    /// The error of a failed call, from the calling thread's last error
    /// code (`aws_last_error`): a failure is never reported as success.
    pub fn from_last_error(last: i32) -> (r: Error)
        ensures
            r == error_of_last(last),
            !(r.0 == AWS_ERROR_SUCCESS),
    {
        let err = Error(last);
        if err.is_success() {
            Error::unknown()
        } else {
            err
        }
    }

    /// The result of a call that returned `rc`: zero is success, anything
    /// else the error of the calling thread (`last_error`, read after the
    /// call).
    pub fn check_rc(rc: i32, last_error: i32) -> (r: Result<(), Error>)
        ensures
            rc == 0 ==> r is Ok,
            rc != 0 ==> r == Err::<(), Error>(error_of_last(last_error)),
    {
        if rc == 0 {
            return Ok(());
        }
        Err(Error::from_last_error(last_error))
    }

    /// The state of a request the library answered with `packet_id`: packet
    /// id 0 means it refused, with the error of the calling thread
    /// (`last_error`, read after the call).
    pub fn check_packet_id(packet_id: u16, last_error: i32) -> (r: Result<u16, Error>)
        ensures
            packet_id != 0 ==> r == Ok::<u16, Error>(packet_id),
            packet_id == 0 ==> r == Err::<u16, Error>(error_of_last(last_error)),
    {
        if packet_id == 0 {
            Err(Error::from_last_error(last_error))
        } else {
            Ok(packet_id)
        }
    }
}

} // verus!
