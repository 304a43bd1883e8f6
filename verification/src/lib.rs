//! Terminal control: console-mode bitmasks, terminal geometry and the
//! cursor-position query protocol, as verified logic on plain values.
//!
//! The library performs no operating-system call itself. A caller owns the
//! handles and streams, performs each requested action and hands the outcome
//! back; every decision in between is made, and proved, here.

pub mod console_mode;
pub mod cursor;
pub mod error;
pub mod handle;
pub mod mode;
pub mod reply;
pub mod semaphore;
pub mod terminal;
