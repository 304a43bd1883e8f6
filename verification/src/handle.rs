//! Raw handles, and telling a handle apart from the values by which the
//! system reports that it has none to give.

use vstd::prelude::*;
use crate::error::{Error, IoError};

verus! {

/// The raw value by which the system reports an invalid handle.
pub const INVALID_HANDLE_VALUE: isize = -1;
/// The raw value of a null handle.
pub const NULL_HANDLE_VALUE: isize = 0;

/// A handle to a console, a stream or a kernel object, held by its raw value.
#[derive(Clone, Copy, Debug, PartialEq, Eq, Structural)]
pub struct Handle {
    /// The raw value, as the system gave it.
    pub raw: isize,
}

impl Handle {
    /// The handle with the raw value `raw`.
    pub fn from_raw(raw: isize) -> (r: Handle)
        ensures
            r.raw == raw,
    {
        Handle { raw }
    }
}

/// What a raw handle means where the system reports failure by the invalid
/// value: the handle, or the failure carrying `os_error`.
pub open spec fn handle_result_spec(raw: isize, os_error: i32) -> Result<Handle, Error> {
    if raw == INVALID_HANDLE_VALUE {
        Err(Error::Io(IoError::Os(os_error)))
    } else {
        Ok(Handle { raw })
    }
}

/// Classifies a raw handle from a call that returns the invalid value on
/// failure.
pub fn handle_result(raw: isize, os_error: i32) -> (r: Result<Handle, Error>)
    ensures
        r == handle_result_spec(raw, os_error),
{
    if raw == INVALID_HANDLE_VALUE {
        Err(Error::Io(IoError::Os(os_error)))
    } else {
        Ok(Handle { raw })
    }
}

/// What a raw handle means where the system reports failure by a null
/// handle: the handle, or the failure carrying `os_error`.
pub open spec fn nonnull_handle_result_spec(raw: isize, os_error: i32) -> Result<Handle, Error> {
    if raw == NULL_HANDLE_VALUE {
        Err(Error::Io(IoError::Os(os_error)))
    } else {
        Ok(Handle { raw })
    }
}

/// Classifies a raw handle from a call that returns a null handle on
/// failure.
pub fn nonnull_handle_result(raw: isize, os_error: i32) -> (r: Result<Handle, Error>)
    ensures
        r == nonnull_handle_result_spec(raw, os_error),
{
    if raw == NULL_HANDLE_VALUE {
        Err(Error::Io(IoError::Os(os_error)))
    } else {
        Ok(Handle { raw })
    }
}

} // verus!
