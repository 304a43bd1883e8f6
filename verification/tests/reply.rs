use term_control::error::{Error, IoError};
use term_control::reply::{
    push_digit, CursorPosition, ReplyParser, BRACKET, ESC, MAX_COORDINATE, SEMICOLON, TERMINATOR,
};
use term_control::terminal::pos;

fn feed_all(bytes: &[u8]) -> ReplyParser {
    let mut parser = ReplyParser::new();
    for b in bytes {
        parser = parser.feed(*b);
    }
    parser
}

#[test]
fn reply_three_seven_gives_column_seven_row_three() {
    let reply = [0x1Bu8, 0x5B, 0x33, 0x3B, 0x37, 0x52];
    assert_eq!(pos(&reply), Ok(CursorPosition { column: 7, row: 3 }));
}

#[test]
fn reply_esc_x_is_protocol_error() {
    assert_eq!(pos(&[0x1B, 0x58]), Err(Error::Protocol));
}

#[test]
fn field_order_is_swapped_from_wire_order() {
    assert_eq!(pos(b"\x1B[24;80R"), Ok(CursorPosition { column: 80, row: 24 }));
    assert_eq!(pos(b"\x1B[1;1R"), Ok(CursorPosition { column: 1, row: 1 }));
    assert_eq!(pos(b"\x1B[65535;65535R"), Ok(CursorPosition { column: 65535, row: 65535 }));
    assert_eq!(pos(b"\x1B[120;5R"), Ok(CursorPosition { column: 5, row: 120 }));
}

#[test]
fn bytes_after_the_report_are_left_alone() {
    assert_eq!(pos(b"\x1B[3;7Rgarbage\x1B[9;9R"), Ok(CursorPosition { column: 7, row: 3 }));
}

#[test]
fn leading_zeros_are_read_as_digits() {
    assert_eq!(pos(b"\x1B[003;0007R"), Ok(CursorPosition { column: 7, row: 3 }));
}

#[test]
fn empty_digit_runs_count_as_zero() {
    assert_eq!(pos(b"\x1B[;R"), Ok(CursorPosition { column: 0, row: 0 }));
    assert_eq!(pos(b"\x1B[5;R"), Ok(CursorPosition { column: 0, row: 5 }));
}

#[test]
fn numbers_saturate_at_the_ceiling() {
    assert_eq!(MAX_COORDINATE, 65535);
    assert_eq!(pos(b"\x1B[65536;1R"), Ok(CursorPosition { column: 1, row: 65535 }));
    assert_eq!(
        pos(b"\x1B[2;99999999999999999999999999R"),
        Ok(CursorPosition { column: 65535, row: 2 })
    );
    assert_eq!(pos(b"\x1B[65534;65535R"), Ok(CursorPosition { column: 65535, row: 65534 }));
}

#[test]
fn missing_prefix_is_protocol_error() {
    assert_eq!(pos(b"X[3;7R"), Err(Error::Protocol));
    assert_eq!(pos(b"\x1BX3;7R"), Err(Error::Protocol));
    assert_eq!(pos(b"3;7R"), Err(Error::Protocol));
    assert_eq!(pos(b"[\x1B3;7R"), Err(Error::Protocol));
}

#[test]
fn wrong_separator_is_protocol_error() {
    assert_eq!(pos(b"\x1B[3:7R"), Err(Error::Protocol));
    assert_eq!(pos(b"\x1B[3R"), Err(Error::Protocol));
    assert_eq!(pos(b"\x1B[3 ;7R"), Err(Error::Protocol));
}

#[test]
fn wrong_terminator_is_protocol_error() {
    assert_eq!(pos(b"\x1B[3;7r"), Err(Error::Protocol));
    assert_eq!(pos(b"\x1B[3;7;"), Err(Error::Protocol));
    assert_eq!(pos(b"\x1B[3;7\n"), Err(Error::Protocol));
}

#[test]
fn truncated_reply_is_an_input_failure() {
    assert_eq!(pos(b""), Err(Error::Io(IoError::UnexpectedEof)));
    assert_eq!(pos(b"\x1B"), Err(Error::Io(IoError::UnexpectedEof)));
    assert_eq!(pos(b"X"), Err(Error::Io(IoError::UnexpectedEof)));
    assert_eq!(pos(b"\x1B["), Err(Error::Io(IoError::UnexpectedEof)));
    assert_eq!(pos(b"\x1B[12"), Err(Error::Io(IoError::UnexpectedEof)));
    assert_eq!(pos(b"\x1B[12;"), Err(Error::Io(IoError::UnexpectedEof)));
    assert_eq!(pos(b"\x1B[12;34"), Err(Error::Io(IoError::UnexpectedEof)));
}

#[test]
fn grammar_bytes_have_their_ascii_values() {
    assert_eq!(ESC, 0x1B);
    assert_eq!(BRACKET, b'[');
    assert_eq!(SEMICOLON, b';');
    assert_eq!(TERMINATOR, b'R');
}

#[test]
fn push_digit_accumulates_in_base_ten() {
    assert_eq!(push_digit(0, b'0'), 0);
    assert_eq!(push_digit(0, b'7'), 7);
    assert_eq!(push_digit(12, b'3'), 123);
    assert_eq!(push_digit(6553, b'5'), 65535);
    assert_eq!(push_digit(6553, b'6'), 65535);
    assert_eq!(push_digit(65535, b'0'), 65535);
}

#[test]
fn parser_walks_through_its_states() {
    assert_eq!(ReplyParser::new(), ReplyParser::AwaitEscPrefix);
    assert_eq!(feed_all(b"\x1B"), ReplyParser::AwaitBracket { first: 0x1B });
    assert_eq!(feed_all(b"\x1B["), ReplyParser::ParsingRow { row: 0 });
    assert_eq!(feed_all(b"\x1B[12"), ReplyParser::ParsingRow { row: 12 });
    assert_eq!(feed_all(b"\x1B[12;"), ReplyParser::ParsingCol { row: 12, col: 0 });
    assert_eq!(feed_all(b"\x1B[12;34"), ReplyParser::ParsingCol { row: 12, col: 34 });
    assert_eq!(
        feed_all(b"\x1B[12;34R"),
        ReplyParser::Done { position: CursorPosition { column: 34, row: 12 } }
    );
    assert_eq!(feed_all(b"\x1B[12x"), ReplyParser::Malformed);
}

#[test]
fn parser_judges_the_prefix_once_both_bytes_are_in() {
    let first = ReplyParser::new().feed(b'X');
    assert_eq!(first, ReplyParser::AwaitBracket { first: b'X' });
    assert!(!first.finished());
    assert_eq!(first.feed(b'['), ReplyParser::Malformed);
}

#[test]
fn parser_stays_at_its_verdict() {
    let done = feed_all(b"\x1B[1;2R");
    assert!(done.finished());
    assert_eq!(done.feed(b'9'), done);
    let bad = feed_all(b"\x1BX");
    assert!(bad.finished());
    assert_eq!(bad.feed(b'['), ReplyParser::Malformed);
}

#[test]
fn parser_verdicts() {
    assert_eq!(feed_all(b"\x1B[1;2R").finish(), Ok(CursorPosition { column: 2, row: 1 }));
    assert_eq!(feed_all(b"\x1B[1;2x").finish(), Err(Error::Protocol));
    assert_eq!(feed_all(b"\x1B[1;2").finish(), Err(Error::Io(IoError::UnexpectedEof)));
    assert_eq!(ReplyParser::new().finish(), Err(Error::Io(IoError::UnexpectedEof)));
}

#[test]
fn feeding_byte_by_byte_agrees_with_pos() {
    let replies: [&[u8]; 8] = [
        b"\x1B[3;7R",
        b"\x1B[3;7Rtail",
        b"\x1BX",
        b"\x1B[3:7R",
        b"\x1B[3;7x",
        b"\x1B[3;",
        b"",
        b"\x1B[70000;70000R",
    ];
    for reply in replies {
        assert_eq!(feed_all(reply).finish(), pos(reply));
    }
}
