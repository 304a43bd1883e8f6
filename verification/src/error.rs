//! Error kinds and the classification of raw operating-system results.

use vstd::prelude::*;

verus! {

/// Why an operating-system call or a stream operation failed.
#[derive(Clone, Copy, Debug, PartialEq, Eq, Structural)]
pub enum IoError {
    /// The call failed and the system reported this error code.
    Os(i32),
    /// The input ended before a requested byte could be read.
    UnexpectedEof,
}

/// The two ways in which an operation of this library fails.
#[derive(Clone, Copy, Debug, PartialEq, Eq, Structural)]
pub enum Error {
    /// An underlying operating-system call failed.
    Io(IoError),
    /// A reply arrived but did not follow the cursor-position report grammar.
    Protocol,
}

/// What a boolean-style system call means: success when `succeeded` holds,
/// otherwise the failure carrying `os_error`.
pub open spec fn result_spec(succeeded: bool, os_error: i32) -> Result<(), Error> {
    if succeeded {
        Ok(())
    } else {
        Err(Error::Io(IoError::Os(os_error)))
    }
}

/// Classifies the outcome of a system call that reports success as a boolean.
/// `os_error` is the error code that the system holds for the calling thread.
pub fn result(succeeded: bool, os_error: i32) -> (r: Result<(), Error>)
    ensures
        r == result_spec(succeeded, os_error),
{
    if succeeded {
        Ok(())
    } else {
        Err(Error::Io(IoError::Os(os_error)))
    }
}

/// What a status-returning system call means: `-1` is failure with
/// `os_error`, every other status is handed back.
pub open spec fn cvt_spec(status: i32, os_error: i32) -> Result<i32, Error> {
    if status == -1 {
        Err(Error::Io(IoError::Os(os_error)))
    } else {
        Ok(status)
    }
}

/// Classifies the outcome of a system call that returns `-1` on failure.
pub fn cvt(status: i32, os_error: i32) -> (r: Result<i32, Error>)
    ensures
        r == cvt_spec(status, os_error),
{
    if status == -1 {
        Err(Error::Io(IoError::Os(os_error)))
    } else {
        Ok(status)
    }
}

} // verus!
