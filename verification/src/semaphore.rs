//! A counting semaphore of the system, held by its handle.

use vstd::prelude::*;
use crate::error::Error;
use crate::handle::{nonnull_handle_result, nonnull_handle_result_spec, Handle};

verus! {

/// The count with which a semaphore is created.
pub const INITIAL_COUNT: i32 = 0;
/// The highest count that a semaphore reaches.
pub const MAXIMUM_COUNT: i32 = 1;
/// The number of permits that one release adds.
pub const RELEASE_COUNT: i32 = 1;

/// A semaphore of the system.
#[derive(Clone, Debug)]
pub struct Semaphore(pub Handle);

impl Semaphore {
    /// What `new` returns.
    pub open spec fn new_spec(raw: isize, os_error: i32) -> Result<Semaphore, Error> {
        match nonnull_handle_result_spec(raw, os_error) {
            Ok(handle) => Ok(Semaphore(handle)),
            Err(e) => Err(e),
        }
    }

    /// The semaphore that the system created. `raw` is the handle it
    /// returned for a semaphore of `INITIAL_COUNT` and `MAXIMUM_COUNT`, and
    /// `os_error` the error code it holds. Fails exactly where that handle is
    /// null.
    pub fn new(raw: isize, os_error: i32) -> (r: Result<Semaphore, Error>)
        ensures
            r == Self::new_spec(raw, os_error),
    {
        match nonnull_handle_result(raw, os_error) {
            Ok(handle) => Ok(Semaphore(handle)),
            Err(e) => Err(e),
        }
    }

    /// Access the underlying handle to the semaphore.
    pub fn handle(&self) -> (r: &Handle)
        ensures
            *r == self.0,
    {
        &self.0
    }
}

} // verus!
