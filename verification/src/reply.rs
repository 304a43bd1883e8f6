//! The cursor-position report: its grammar on bytes, and the byte-at-a-time
//! parser that recognises it.
//!
//! A report is `ESC '[' <digits> ';' <digits> 'R'`. The first number is the
//! row, the second the column.

use vstd::prelude::*;
use crate::error::{Error, IoError};

verus! {

/// The escape byte that opens a report.
pub const ESC: u8 = 0x1B;
/// `[`, the second byte of a report.
pub const BRACKET: u8 = 0x5B;
/// `;`, which ends the row.
pub const SEMICOLON: u8 = 0x3B;
/// `R`, which ends the column and the report.
pub const TERMINATOR: u8 = 0x52;
/// The ceiling at which a parsed number saturates.
pub const MAX_COORDINATE: u16 = 0xFFFF;

/// Where the cursor is. The report gives the row first; this type gives the
/// column first.
#[derive(Clone, Copy, Debug, PartialEq, Eq, Structural)]
pub struct CursorPosition {
    /// The column, as reported.
    pub column: u16,
    /// The row, as reported.
    pub row: u16,
}

/// Whether `b` is an ASCII decimal digit.
pub open spec fn is_digit(b: u8) -> bool {
    0x30 <= b <= 0x39
}

/// The index of the first byte at or after `from` that is no digit, or the
/// length of `s` where every byte from there on is one.
pub open spec fn digits_end(s: Seq<u8>, from: int) -> int
    decreases s.len() - from,
{
    if 0 <= from < s.len() && is_digit(s[from]) {
        digits_end(s, from + 1)
    } else {
        from
    }
}

/// The number that the digits `s[from..to]` write in base ten.
pub open spec fn decimal(s: Seq<u8>, from: int, to: int) -> nat
    decreases to - from,
{
    if from < to && 0 < to <= s.len() {
        (decimal(s, from, to - 1) * 10 + (s[to - 1] - 0x30)) as nat
    } else {
        0
    }
}

/// `n`, saturated at the coordinate ceiling.
pub open spec fn capped(n: int) -> u16 {
    if n > MAX_COORDINATE {
        MAX_COORDINATE
    } else if n < 0 {
        0
    } else {
        n as u16
    }
}

/// What the grammar makes of the bytes `s`, read from the front. Bytes after
/// the report are left alone. Where `s` ends before the report does, the
/// missing byte is an input failure; a byte that the grammar does not allow
/// at its place is a protocol error, and an empty run of digits counts as 0.
pub open spec fn parse_reply(s: Seq<u8>) -> Result<CursorPosition, Error> {
    let row_end = digits_end(s, 2);
    let col_end = digits_end(s, row_end + 1);
    if s.len() < 2 {
        Err(Error::Io(IoError::UnexpectedEof))
    } else if s[0] != ESC || s[1] != BRACKET {
        Err(Error::Protocol)
    } else if row_end >= s.len() {
        Err(Error::Io(IoError::UnexpectedEof))
    } else if s[row_end] != SEMICOLON {
        Err(Error::Protocol)
    } else if col_end >= s.len() {
        Err(Error::Io(IoError::UnexpectedEof))
    } else if s[col_end] != TERMINATOR {
        Err(Error::Protocol)
    } else {
        Ok(
            CursorPosition {
                column: capped(decimal(s, row_end + 1, col_end) as int),
                row: capped(decimal(s, 2, row_end) as int),
            },
        )
    }
}

/// The accumulator `acc` after one more digit `b`.
pub open spec fn push_digit_spec(acc: u16, b: u8) -> u16 {
    capped(acc * 10 + (b - 0x30))
}

/// Appends the digit `b` to the number `acc`, saturating at the ceiling.
pub fn push_digit(acc: u16, b: u8) -> (r: u16)
    requires
        is_digit(b),
    ensures
        r == push_digit_spec(acc, b),
{
    let wide: u32 = (acc as u32) * 10 + ((b - 0x30) as u32);
    if wide > MAX_COORDINATE as u32 {
        MAX_COORDINATE
    } else {
        wide as u16
    }
}

/// The state of the parser between two bytes.
#[derive(Clone, Copy, Debug, PartialEq, Eq, Structural)]
pub enum ReplyParser {
    /// Nothing read yet; the escape byte is due.
    AwaitEscPrefix,
    /// One byte read; the bracket is due. The pair is judged once both are in.
    AwaitBracket { first: u8 },
    /// Reading the row; `row` is the number so far.
    ParsingRow { row: u16 },
    /// The row is complete; reading the column.
    ParsingCol { row: u16, col: u16 },
    /// The report is complete.
    Done { position: CursorPosition },
    /// A byte did not fit the grammar. Nothing more is read.
    Malformed,
}

impl ReplyParser {
    /// Whether the parser has reached a verdict and reads no further byte.
    pub open spec fn is_final(self) -> bool {
        self is Done || self is Malformed
    }

    /// The state after the byte `b`.
    pub open spec fn feed_spec(self, b: u8) -> ReplyParser {
        match self {
            ReplyParser::AwaitEscPrefix => ReplyParser::AwaitBracket { first: b },
            ReplyParser::AwaitBracket { first } => if first == ESC && b == BRACKET {
                ReplyParser::ParsingRow { row: 0 }
            } else {
                ReplyParser::Malformed
            },
            ReplyParser::ParsingRow { row } => if is_digit(b) {
                ReplyParser::ParsingRow { row: push_digit_spec(row, b) }
            } else if b == SEMICOLON {
                ReplyParser::ParsingCol { row, col: 0 }
            } else {
                ReplyParser::Malformed
            },
            ReplyParser::ParsingCol { row, col } => if is_digit(b) {
                ReplyParser::ParsingCol { row, col: push_digit_spec(col, b) }
            } else if b == TERMINATOR {
                ReplyParser::Done { position: CursorPosition { column: col, row } }
            } else {
                ReplyParser::Malformed
            },
            ReplyParser::Done { .. } => self,
            ReplyParser::Malformed => self,
        }
    }

    /// The state after the bytes of `s`, fed one at a time from the start.
    pub open spec fn fed(s: Seq<u8>) -> ReplyParser
        decreases s.len(),
    {
        if s.len() == 0 {
            ReplyParser::AwaitEscPrefix
        } else {
            Self::fed(s.drop_last()).feed_spec(s.last())
        }
    }

    /// The verdict, where the input ends in this state.
    pub open spec fn verdict(self) -> Result<CursorPosition, Error> {
        match self {
            ReplyParser::Done { position } => Ok(position),
            ReplyParser::Malformed => Err(Error::Protocol),
            _ => Err(Error::Io(IoError::UnexpectedEof)),
        }
    }

    /// A parser that has read nothing.
    pub fn new() -> (r: ReplyParser)
        ensures
            r == ReplyParser::AwaitEscPrefix,
    {
        ReplyParser::AwaitEscPrefix
    }

    /// Whether a verdict is reached, so that no further byte is to be read.
    pub fn finished(&self) -> (r: bool)
        ensures
            r == self.is_final(),
    {
        match self {
            ReplyParser::Done { .. } => true,
            ReplyParser::Malformed => true,
            _ => false,
        }
    }

    /// Takes one byte. A parser that has reached its verdict stays as it is.
    pub fn feed(self, b: u8) -> (r: ReplyParser)
        ensures
            r == self.feed_spec(b),
    {
        let digit: bool = 0x30 <= b && b <= 0x39;
        match self {
            ReplyParser::AwaitEscPrefix => ReplyParser::AwaitBracket { first: b },
            ReplyParser::AwaitBracket { first } => {
                if first == ESC && b == BRACKET {
                    ReplyParser::ParsingRow { row: 0 }
                } else {
                    ReplyParser::Malformed
                }
            },
            ReplyParser::ParsingRow { row } => {
                if digit {
                    ReplyParser::ParsingRow { row: push_digit(row, b) }
                } else if b == SEMICOLON {
                    ReplyParser::ParsingCol { row, col: 0 }
                } else {
                    ReplyParser::Malformed
                }
            },
            ReplyParser::ParsingCol { row, col } => {
                if digit {
                    ReplyParser::ParsingCol { row, col: push_digit(col, b) }
                } else if b == TERMINATOR {
                    ReplyParser::Done { position: CursorPosition { column: col, row } }
                } else {
                    ReplyParser::Malformed
                }
            },
            ReplyParser::Done { position } => ReplyParser::Done { position },
            ReplyParser::Malformed => ReplyParser::Malformed,
        }
    }

    /// The verdict where the input has ended: the position, a protocol
    /// error, or the input failure of a report cut short.
    pub fn finish(self) -> (r: Result<CursorPosition, Error>)
        ensures
            r == self.verdict(),
    {
        match self {
            ReplyParser::Done { position } => Ok(position),
            ReplyParser::Malformed => Err(Error::Protocol),
            _ => Err(Error::Io(IoError::UnexpectedEof)),
        }
    }
}

/// The state that the grammar prescribes after the first `i` bytes of `s`.
pub open spec fn state_at(s: Seq<u8>, i: int) -> ReplyParser {
    let row_end = digits_end(s, 2);
    let col_end = digits_end(s, row_end + 1);
    if i <= 0 {
        ReplyParser::AwaitEscPrefix
    } else if i == 1 {
        ReplyParser::AwaitBracket { first: s[0] }
    } else if s[0] != ESC || s[1] != BRACKET {
        ReplyParser::Malformed
    } else if i <= row_end {
        ReplyParser::ParsingRow { row: capped(decimal(s, 2, i) as int) }
    } else if s[row_end] != SEMICOLON {
        ReplyParser::Malformed
    } else if i <= col_end {
        ReplyParser::ParsingCol {
            row: capped(decimal(s, 2, row_end) as int),
            col: capped(decimal(s, row_end + 1, i) as int),
        }
    } else if s[col_end] != TERMINATOR {
        ReplyParser::Malformed
    } else {
        ReplyParser::Done {
            position: CursorPosition {
                column: capped(decimal(s, row_end + 1, col_end) as int),
                row: capped(decimal(s, 2, row_end) as int),
            },
        }
    }
}

/// `digits_end` stays within the bytes, passes digits only and stops at a
/// byte that is none.
pub proof fn lemma_digits_end(s: Seq<u8>, from: int)
    requires
        0 <= from,
    ensures
        from <= digits_end(s, from),
        from <= s.len() ==> digits_end(s, from) <= s.len(),
        forall|k: int| from <= k < digits_end(s, from) ==> is_digit(#[trigger] s[k]),
        digits_end(s, from) < s.len() ==> !is_digit(s[digits_end(s, from)]),
    decreases s.len() - from,
{
    if from < s.len() && is_digit(s[from]) {
        lemma_digits_end(s, from + 1);
    }
}

/// Saturating after every digit gives what saturating once at the end gives.
pub proof fn lemma_capped_push(n: nat, b: u8)
    requires
        is_digit(b),
    ensures
        push_digit_spec(capped(n as int), b) == capped(n * 10 + (b - 0x30)),
{
}

/// One byte takes the state prescribed at `i` to the state prescribed at
/// `i + 1`.
pub proof fn lemma_feed_step(s: Seq<u8>, i: int)
    requires
        0 <= i < s.len(),
    ensures
        state_at(s, i).feed_spec(s[i]) == state_at(s, i + 1),
{
    let row_end = digits_end(s, 2);
    let col_end = digits_end(s, row_end + 1);
    lemma_digits_end(s, 2);
    lemma_digits_end(s, row_end + 1);
    if i >= 2 && s[0] == ESC && s[1] == BRACKET {
        if i < row_end {
            lemma_capped_push(decimal(s, 2, i), s[i]);
        } else if i == row_end {
        } else if s[row_end] == SEMICOLON {
            if i < col_end {
                lemma_capped_push(decimal(s, row_end + 1, i), s[i]);
            }
        }
    }
}

/// Feeding the bytes of `s` one at a time reaches the state that the grammar
/// prescribes, and the verdict there is what the grammar makes of `s`.
pub proof fn lemma_fed_is_grammar(s: Seq<u8>)
    ensures
        ReplyParser::fed(s) == state_at(s, s.len() as int),
        ReplyParser::fed(s).verdict() == parse_reply(s),
{
    lemma_fed_prefix(s, s.len() as int);
    assert(s.take(s.len() as int) =~= s);
    lemma_digits_end(s, 2);
    lemma_digits_end(s, digits_end(s, 2) + 1);
}

/// Feeding the first `i` bytes of `s` reaches the state prescribed at `i`.
pub proof fn lemma_fed_prefix(s: Seq<u8>, i: int)
    requires
        0 <= i <= s.len(),
    ensures
        ReplyParser::fed(s.take(i)) == state_at(s, i),
    decreases i,
{
    if i > 0 {
        lemma_fed_prefix(s, i - 1);
        lemma_feed_step(s, i - 1);
        assert(s.take(i).drop_last() =~= s.take(i - 1));
        assert(s.take(i).last() == s[i - 1]);
    }
}

/// The digits that write `n` in base ten, without leading zeros.
pub open spec fn decimal_digits(n: nat) -> Seq<u8>
    decreases n,
{
    if n < 10 {
        seq![(0x30 + n) as u8]
    } else {
        decimal_digits(n / 10).push((0x30 + n % 10) as u8)
    }
}

/// The report that a terminal sends for a cursor at `row` and `column`.
pub open spec fn report(row: nat, column: nat) -> Seq<u8> {
    seq![ESC, BRACKET] + decimal_digits(row) + seq![SEMICOLON] + decimal_digits(column)
        + seq![TERMINATOR]
}

/// Whether every byte of `s[from..to]` is a digit.
pub open spec fn all_digits(s: Seq<u8>, from: int, to: int) -> bool {
    forall|k: int| from <= k < to ==> is_digit(#[trigger] s[k])
}

/// The digits of a number are digits, and there is at least one.
pub proof fn lemma_decimal_digits(n: nat)
    ensures
        decimal_digits(n).len() >= 1,
        all_digits(decimal_digits(n), 0, decimal_digits(n).len() as int),
    decreases n,
{
    if n >= 10 {
        lemma_decimal_digits(n / 10);
    }
}

/// A run of digits that ends at `to`, at a byte that is no digit or at the
/// end of the bytes, is where `digits_end` stops.
pub proof fn lemma_digits_end_of_run(s: Seq<u8>, from: int, to: int)
    requires
        0 <= from <= to <= s.len(),
        all_digits(s, from, to),
        to == s.len() || !is_digit(s[to]),
    ensures
        digits_end(s, from) == to,
    decreases to - from,
{
    if from < to {
        assert(is_digit(s[from]));
        lemma_digits_end_of_run(s, from + 1, to);
    }
}

/// Reading back the digits of `n`, where they stand in `s` at `from`, gives
/// `n`.
pub proof fn lemma_decimal_of_digits(s: Seq<u8>, from: int, n: nat)
    requires
        0 <= from,
        from + decimal_digits(n).len() <= s.len(),
        s.subrange(from, from + decimal_digits(n).len()) == decimal_digits(n),
    ensures
        decimal(s, from, from + decimal_digits(n).len()) == n,
    decreases n,
{
    let d = decimal_digits(n);
    let to = from + d.len();
    lemma_decimal_digits(n);
    assert(s[to - 1] == s.subrange(from, to)[d.len() - 1]);
    if n < 10 {
        assert(decimal(s, from, from) == 0);
    } else {
        let e = decimal_digits(n / 10);
        assert(d.drop_last() =~= e);
        assert(s.subrange(from, from + e.len()) =~= s.subrange(from, to).drop_last());
        lemma_decimal_of_digits(s, from, n / 10);
    }
}

/// Every well-formed report parses to the position it was written for, the
/// second number as the column and the first as the row, each saturated at
/// the ceiling; whatever follows the report plays no part.
pub proof fn lemma_report_parses(row: nat, column: nat, rest: Seq<u8>)
    ensures
        parse_reply(report(row, column) + rest) == Ok::<CursorPosition, Error>(
            CursorPosition { column: capped(column as int), row: capped(row as int) },
        ),
        row <= MAX_COORDINATE && column <= MAX_COORDINATE ==> parse_reply(
            report(row, column) + rest,
        ) == Ok::<CursorPosition, Error>(
            CursorPosition { column: column as u16, row: row as u16 },
        ),
{
    let r = decimal_digits(row);
    let c = decimal_digits(column);
    let s = report(row, column) + rest;
    let row_end = 2 + r.len() as int;
    let col_start = row_end + 1;
    let col_end = col_start + c.len() as int;
    lemma_decimal_digits(row);
    lemma_decimal_digits(column);
    assert(s.len() == col_end + 1 + rest.len());
    assert(s[0] == ESC && s[1] == BRACKET);
    assert forall|k: int| 2 <= k < row_end implies is_digit(#[trigger] s[k]) by {
        assert(s[k] == r[k - 2]);
    }
    assert(s[row_end] == SEMICOLON);
    assert forall|k: int| col_start <= k < col_end implies is_digit(#[trigger] s[k]) by {
        assert(s[k] == c[k - col_start]);
    }
    assert(s[col_end] == TERMINATOR);
    lemma_digits_end_of_run(s, 2, row_end);
    lemma_digits_end_of_run(s, col_start, col_end);
    assert(s.subrange(2, row_end) =~= r);
    assert(s.subrange(col_start, col_end) =~= c);
    lemma_decimal_of_digits(s, 2, row);
    lemma_decimal_of_digits(s, col_start, column);
}

/// A reply of two bytes or more that does not open with `ESC [` is a
/// protocol error, whatever follows: no position comes out of it.
pub proof fn lemma_missing_prefix_is_rejected(s: Seq<u8>)
    requires
        s.len() >= 2,
        s[0] != ESC || s[1] != BRACKET,
    ensures
        parse_reply(s) == Err::<CursorPosition, Error>(Error::Protocol),
{
}

/// Where the first number is followed by a byte other than `;`, the reply is
/// a protocol error.
pub proof fn lemma_wrong_separator_is_rejected(s: Seq<u8>, row_end: int)
    requires
        2 <= row_end < s.len(),
        s[0] == ESC && s[1] == BRACKET,
        all_digits(s, 2, row_end),
        !is_digit(s[row_end]),
        s[row_end] != SEMICOLON,
    ensures
        parse_reply(s) == Err::<CursorPosition, Error>(Error::Protocol),
{
    lemma_digits_end_of_run(s, 2, row_end);
}

/// Where the second number is followed by a byte other than `R`, the reply
/// is a protocol error.
pub proof fn lemma_wrong_terminator_is_rejected(s: Seq<u8>, row_end: int, col_end: int)
    requires
        2 <= row_end < col_end < s.len(),
        s[0] == ESC && s[1] == BRACKET,
        all_digits(s, 2, row_end),
        s[row_end] == SEMICOLON,
        all_digits(s, row_end + 1, col_end),
        !is_digit(s[col_end]),
        s[col_end] != TERMINATOR,
    ensures
        parse_reply(s) == Err::<CursorPosition, Error>(Error::Protocol),
{
    lemma_digits_end_of_run(s, 2, row_end);
    lemma_digits_end_of_run(s, row_end + 1, col_end);
}

} // verus!
