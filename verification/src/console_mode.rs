//! The console mode of one screen buffer or input buffer.

use vstd::prelude::*;
use vstd::std_specs::convert::FromSpecImpl;
use crate::error::Error;
use crate::handle::{handle_result, handle_result_spec, Handle};
use crate::mode::RAW_CLEARED_CONSOLE_FLAGS;

verus! {

/// Names the handle on which the console mode is read and set, and carries
/// the flag names of the console mode.
#[derive(Debug, Clone)]
pub struct ConsoleMode {
    /// The handle used for reading and setting the mode.
    pub handle: Handle,
}

impl ConsoleMode {
    /// Input flag: typed characters are echoed.
    pub const ENABLE_ECHO_INPUT: u32 = 0x0004;
    /// Input flag: typed characters replace what follows.
    pub const ENABLE_INSERT_MODE: u32 = 0x0020;
    /// Input flag: reads return only once a line is complete.
    pub const ENABLE_LINE_INPUT: u32 = 0x0002;
    /// Input flag: mouse events are reported.
    pub const ENABLE_MOUSE_INPUT: u32 = 0x0010;
    /// Input flag: control keys are processed by the system.
    pub const ENABLE_PROCESSED_INPUT: u32 = 0x0001;
    /// Input flag: the mouse selects and edits text.
    pub const ENABLE_QUICK_EDIT_MODE: u32 = 0x0040;
    /// Input flag: window-size changes are reported.
    pub const ENABLE_WINDOW_INPUT: u32 = 0x0008;
    /// Input flag: input is delivered as virtual-terminal sequences.
    pub const ENABLE_VIRTUAL_TERMINAL_INPUT: u32 = 0x0200;
    /// Output flag: control characters in the output are processed.
    pub const ENABLE_PROCESSED_OUTPUT: u32 = 0x0001;
    /// Output flag: the cursor wraps at the end of a line.
    pub const ENABLE_WRAP_AT_EOL_OUTPUT: u32 = 0x0002;
    /// Output flag: virtual-terminal escape sequences are processed.
    pub const ENABLE_VIRTUAL_TERMINAL_PROCESSING: u32 = 0x0004;
    /// Output flag: a newline does not return the cursor to the first column.
    pub const DISABLE_NEWLINE_AUTO_RETURN: u32 = 0x0008;
    /// Output flag: grid attributes apply in every locale.
    pub const ENABLE_LVB_GRID_WORLDWIDE: u32 = 0x0010;

    /// What `new` returns.
    pub open spec fn new_spec(raw_output: isize, os_error: i32) -> Result<ConsoleMode, Error> {
        match handle_result_spec(raw_output, os_error) {
            Ok(handle) => Ok(ConsoleMode { handle }),
            Err(e) => Err(e),
        }
    }

    /// A console mode on the standard output. `raw_output` is what the
    /// system returned for the standard output handle and `os_error` the error
    /// code it holds. Fails exactly where that handle is the invalid value.
    pub fn new(raw_output: isize, os_error: i32) -> (r: Result<ConsoleMode, Error>)
        ensures
            r == Self::new_spec(raw_output, os_error),
    {
        match handle_result(raw_output, os_error) {
            Ok(handle) => Ok(ConsoleMode { handle }),
            Err(e) => Err(e),
        }
    }

    /// The handle on which the mode is read and set.
    pub fn handle(&self) -> (r: &Handle)
        ensures
            *r == self.handle,
    {
        &self.handle
    }

    /// The flags that raw mode switches off are echo input, line input and
    /// processed input, and no others.
    pub proof fn lemma_raw_cleared_flags()
        ensures
            RAW_CLEARED_CONSOLE_FLAGS == Self::ENABLE_ECHO_INPUT | Self::ENABLE_LINE_INPUT
                | Self::ENABLE_PROCESSED_INPUT,
    {
        assert(0x0007u32 == 0x0004u32 | 0x0002u32 | 0x0001u32) by (bit_vector);
    }
}

impl From<Handle> for ConsoleMode {
    fn from(handle: Handle) -> (r: ConsoleMode) {
        ConsoleMode { handle }
    }
}

impl FromSpecImpl<Handle> for ConsoleMode {
    open spec fn obeys_from_spec() -> bool {
        true
    }

    open spec fn from_spec(handle: Handle) -> ConsoleMode {
        ConsoleMode { handle }
    }
}

} // verus!
