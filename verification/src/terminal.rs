//! Terminal geometry, and the cursor position read from a reply held in
//! memory.

use vstd::prelude::*;
use crate::error::Error;
use crate::reply::{lemma_digits_end, lemma_feed_step, digits_end, parse_reply, state_at, CursorPosition, ReplyParser};

verus! {

/// The window size as the system reports it: counts of cells, and the two
/// pixel sizes that come with them.
#[derive(Clone, Copy, Debug, PartialEq, Eq)]
pub struct UnixSize {
    /// Number of rows.
    pub rows: u16,
    /// Number of columns.
    pub cols: u16,
    /// Width in pixels.
    pub x: u16,
    /// Height in pixels.
    pub y: u16,
}

impl UnixSize {
    /// A report of `rows` rows and `cols` columns, with no pixel sizes.
    pub fn new(rows: u16, cols: u16) -> (r: UnixSize)
        ensures
            r == (UnixSize { rows, cols, x: 0, y: 0 }),
    {
        UnixSize { rows, cols, x: 0, y: 0 }
    }
}

/// The size of a terminal, with the last column and row as zero-based
/// indices. All zero where the size could not be had.
#[derive(Clone, Copy, Debug, PartialEq, Eq, Structural)]
pub struct TerminalGeometry {
    /// Index of the last column.
    pub columns: u16,
    /// Index of the last row.
    pub rows: u16,
}

/// A count of cells as the zero-based index of the last cell; 0 for no cell.
pub open spec fn last_index(count: u16) -> u16 {
    if count == 0 {
        0
    } else {
        (count - 1) as u16
    }
}

/// The geometry that a size query yields: on success, status 0, one less
/// than the reported count on each axis; on failure, all zero.
pub open spec fn geometry_spec(status: i32, size: UnixSize) -> TerminalGeometry {
    if status == 0 {
        TerminalGeometry { columns: last_index(size.cols), rows: last_index(size.rows) }
    } else {
        TerminalGeometry { columns: 0, rows: 0 }
    }
}

/// The terminal's geometry from the outcome of the system's size query:
/// `status` is what the query returned and `size` what it filled in. A
/// failed query gives the zero geometry and never an error.
pub fn terminal_size(status: i32, size: &UnixSize) -> (r: TerminalGeometry)
    ensures
        r == geometry_spec(status, *size),
        status != 0 ==> r.columns == 0 && r.rows == 0,
        status == 0 && size.cols > 0 ==> r.columns == size.cols - 1,
        status == 0 && size.rows > 0 ==> r.rows == size.rows - 1,
{
    if status == 0 {
        let columns: u16 = if size.cols == 0 { 0 } else { size.cols - 1 };
        let rows: u16 = if size.rows == 0 { 0 } else { size.rows - 1 };
        TerminalGeometry { columns, rows }
    } else {
        TerminalGeometry { columns: 0, rows: 0 }
    }
}

/// The cursor position that the reply bytes `reply` report, read one byte
/// at a time from the front and no further than the verdict needs.
///
/// The result is exactly what the grammar makes of the bytes: the position
/// with the second number as column and the first as row; a protocol error at
/// the first byte that does not fit; an input failure where the bytes end
/// before the report does.
pub fn pos(reply: &[u8]) -> (r: Result<CursorPosition, Error>)
    ensures
        r == parse_reply(reply@),
        r == ReplyParser::fed(reply@).verdict(),
{
    let mut parser = ReplyParser::new();
    let mut i: usize = 0;
    while i < reply.len() && !parser.finished()
        invariant
            0 <= i <= reply.len(),
            parser == state_at(reply@, i as int),
        decreases reply.len() - i,
    {
        proof {
            lemma_feed_step(reply@, i as int);
        }
        parser = parser.feed(reply[i]);
        i += 1;
    }
    proof {
        let s = reply@;
        lemma_digits_end(s, 2);
        lemma_digits_end(s, digits_end(s, 2) + 1);
        crate::reply::lemma_fed_is_grammar(s);
    }
    parser.finish()
}

} // verus!
