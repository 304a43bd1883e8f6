use term_control::console_mode::ConsoleMode;
use term_control::error::{cvt, result, Error, IoError};
use term_control::handle::{
    handle_result, nonnull_handle_result, Handle, INVALID_HANDLE_VALUE, NULL_HANDLE_VALUE,
};
use term_control::mode::{
    ModeBitmask, TerminalMode, Termios, CONTROL_CHARS, ECHO, ICANON, ISIG,
    RAW_CLEARED_CONSOLE_FLAGS, RAW_CLEARED_LOCAL_FLAGS,
};
use windows::Win32::System::Console::CONSOLE_MODE;
use term_control::semaphore::{Semaphore, INITIAL_COUNT, MAXIMUM_COUNT, RELEASE_COUNT};

fn sample_termios() -> Termios {
    Termios {
        input_flags: 0x0000_2d02,
        output_flags: 0x0000_0005,
        control_flags: 0x0000_04bf,
        local_flags: 0x0000_8a3b,
        line: 0,
        control_chars: [7u8; 32],
        input_speed: 15,
        output_speed: 15,
    }
}

#[test]
fn console_flags_have_the_platform_values() {
    assert_eq!(ConsoleMode::ENABLE_PROCESSED_INPUT, 0x0001);
    assert_eq!(ConsoleMode::ENABLE_LINE_INPUT, 0x0002);
    assert_eq!(ConsoleMode::ENABLE_ECHO_INPUT, 0x0004);
    assert_eq!(ConsoleMode::ENABLE_WINDOW_INPUT, 0x0008);
    assert_eq!(ConsoleMode::ENABLE_MOUSE_INPUT, 0x0010);
    assert_eq!(ConsoleMode::ENABLE_INSERT_MODE, 0x0020);
    assert_eq!(ConsoleMode::ENABLE_QUICK_EDIT_MODE, 0x0040);
    assert_eq!(ConsoleMode::ENABLE_VIRTUAL_TERMINAL_INPUT, 0x0200);
    assert_eq!(ConsoleMode::ENABLE_PROCESSED_OUTPUT, 0x0001);
    assert_eq!(ConsoleMode::ENABLE_WRAP_AT_EOL_OUTPUT, 0x0002);
    assert_eq!(ConsoleMode::ENABLE_VIRTUAL_TERMINAL_PROCESSING, 0x0004);
    assert_eq!(ConsoleMode::DISABLE_NEWLINE_AUTO_RETURN, 0x0008);
    assert_eq!(ConsoleMode::ENABLE_LVB_GRID_WORLDWIDE, 0x0010);
    assert_eq!(
        RAW_CLEARED_CONSOLE_FLAGS,
        ConsoleMode::ENABLE_ECHO_INPUT
            | ConsoleMode::ENABLE_LINE_INPUT
            | ConsoleMode::ENABLE_PROCESSED_INPUT
    );
}

#[test]
fn local_flags_have_the_system_values() {
    assert_eq!(ECHO, libc::ECHO);
    assert_eq!(ICANON, libc::ICANON);
    assert_eq!(ISIG, libc::ISIG);
    assert_eq!(CONTROL_CHARS, libc::NCCS);
    assert_eq!(RAW_CLEARED_LOCAL_FLAGS, libc::ECHO | libc::ICANON | libc::ISIG);
}

#[test]
fn bitmask_operations_keep_unnamed_bits() {
    let m = ModeBitmask::from_bits(0x8000_0107);
    assert_eq!(m.to_bits(), 0x8000_0107);
    assert!(m.contains(ConsoleMode::ENABLE_ECHO_INPUT));
    assert!(m.contains(ConsoleMode::ENABLE_ECHO_INPUT | ConsoleMode::ENABLE_LINE_INPUT));
    assert!(!m.contains(ConsoleMode::ENABLE_WINDOW_INPUT));
    assert!(!m.contains(ConsoleMode::ENABLE_ECHO_INPUT | ConsoleMode::ENABLE_WINDOW_INPUT));
    assert_eq!(m.with(ConsoleMode::ENABLE_WINDOW_INPUT).to_bits(), 0x8000_010f);
    assert_eq!(m.without(ConsoleMode::ENABLE_ECHO_INPUT).to_bits(), 0x8000_0103);
    assert_eq!(m.without(ConsoleMode::ENABLE_MOUSE_INPUT), m);
    assert_eq!(m.with(ConsoleMode::ENABLE_ECHO_INPUT), m);
}

#[test]
fn raw_console_mode_clears_echo_line_and_processed_only() {
    let m = ModeBitmask::from_bits(0x8000_01f7);
    assert_eq!(m.raw().to_bits(), 0x8000_01f0);
    assert_eq!(m.raw().raw(), m.raw());
    assert_eq!(
        TerminalMode::Console(m).raw(),
        TerminalMode::Console(ModeBitmask::from_bits(0x8000_01f0))
    );
}

#[test]
fn raw_termios_clears_three_local_flags_only() {
    let t = sample_termios();
    let raw = t.raw();
    assert_eq!(raw.local_flags, 0x0000_8a30);
    assert_eq!(raw.local_flags & (libc::ECHO | libc::ICANON | libc::ISIG), 0);
    assert_eq!(raw, Termios { local_flags: 0x0000_8a30, ..t });
    assert_eq!(TerminalMode::Termios(t).raw(), TerminalMode::Termios(raw));
    assert_eq!(raw.raw(), raw);
}

#[test]
fn result_classifies_boolean_outcomes() {
    assert_eq!(result(true, 5), Ok(()));
    assert_eq!(result(false, 5), Err(Error::Io(IoError::Os(5))));
}

#[test]
fn cvt_classifies_status_outcomes() {
    assert_eq!(cvt(0, 9), Ok(0));
    assert_eq!(cvt(3, 9), Ok(3));
    assert_eq!(cvt(-2, 9), Ok(-2));
    assert_eq!(cvt(-1, 9), Err(Error::Io(IoError::Os(9))));
}

#[test]
fn handle_results() {
    assert_eq!(INVALID_HANDLE_VALUE, -1);
    assert_eq!(NULL_HANDLE_VALUE, 0);
    assert_eq!(handle_result(12, 6), Ok(Handle { raw: 12 }));
    assert_eq!(handle_result(0, 6), Ok(Handle { raw: 0 }));
    assert_eq!(handle_result(-1, 6), Err(Error::Io(IoError::Os(6))));
    assert_eq!(nonnull_handle_result(12, 6), Ok(Handle { raw: 12 }));
    assert_eq!(nonnull_handle_result(-1, 6), Ok(Handle { raw: -1 }));
    assert_eq!(nonnull_handle_result(0, 6), Err(Error::Io(IoError::Os(6))));
    assert_eq!(Handle::from_raw(44), Handle { raw: 44 });
}

#[test]
fn console_mode_new_fails_on_the_invalid_handle() {
    assert_eq!(ConsoleMode::new(40, 0).unwrap().handle, Handle { raw: 40 });
    match ConsoleMode::new(-1, 6) {
        Err(e) => assert_eq!(e, Error::Io(IoError::Os(6))),
        Ok(_) => panic!("the invalid handle was accepted"),
    }
}

#[test]
fn console_mode_from_handle_keeps_the_handle() {
    let mode = ConsoleMode::from(Handle::from_raw(91));
    assert_eq!(*mode.handle(), Handle { raw: 91 });
}

#[test]
fn semaphore_counts() {
    assert_eq!(INITIAL_COUNT, 0);
    assert_eq!(MAXIMUM_COUNT, 1);
    assert_eq!(RELEASE_COUNT, 1);
}

#[test]
fn semaphore_new_fails_on_the_null_handle() {
    let s = Semaphore::new(17, 0).unwrap();
    assert_eq!(*s.handle(), Handle { raw: 17 });
    match Semaphore::new(0, 8) {
        Err(e) => assert_eq!(e, Error::Io(IoError::Os(8))),
        Ok(_) => panic!("the null handle was accepted"),
    }
}

#[test]
fn console_flags_agree_with_the_platform_bindings() {
    assert_eq!(ConsoleMode::ENABLE_ECHO_INPUT, windows::Win32::System::Console::ENABLE_ECHO_INPUT.0);
    assert_eq!(ConsoleMode::ENABLE_INSERT_MODE, windows::Win32::System::Console::ENABLE_INSERT_MODE.0);
    assert_eq!(ConsoleMode::ENABLE_LINE_INPUT, windows::Win32::System::Console::ENABLE_LINE_INPUT.0);
    assert_eq!(ConsoleMode::ENABLE_MOUSE_INPUT, windows::Win32::System::Console::ENABLE_MOUSE_INPUT.0);
    assert_eq!(ConsoleMode::ENABLE_PROCESSED_INPUT, windows::Win32::System::Console::ENABLE_PROCESSED_INPUT.0);
    assert_eq!(ConsoleMode::ENABLE_QUICK_EDIT_MODE, windows::Win32::System::Console::ENABLE_QUICK_EDIT_MODE.0);
    assert_eq!(ConsoleMode::ENABLE_WINDOW_INPUT, windows::Win32::System::Console::ENABLE_WINDOW_INPUT.0);
    assert_eq!(ConsoleMode::ENABLE_VIRTUAL_TERMINAL_INPUT, windows::Win32::System::Console::ENABLE_VIRTUAL_TERMINAL_INPUT.0);
    assert_eq!(ConsoleMode::ENABLE_PROCESSED_OUTPUT, windows::Win32::System::Console::ENABLE_PROCESSED_OUTPUT.0);
    assert_eq!(ConsoleMode::ENABLE_WRAP_AT_EOL_OUTPUT, windows::Win32::System::Console::ENABLE_WRAP_AT_EOL_OUTPUT.0);
    assert_eq!(
        ConsoleMode::ENABLE_VIRTUAL_TERMINAL_PROCESSING,
        windows::Win32::System::Console::ENABLE_VIRTUAL_TERMINAL_PROCESSING.0
    );
    assert_eq!(ConsoleMode::DISABLE_NEWLINE_AUTO_RETURN, windows::Win32::System::Console::DISABLE_NEWLINE_AUTO_RETURN.0);
    assert_eq!(ConsoleMode::ENABLE_LVB_GRID_WORLDWIDE, windows::Win32::System::Console::ENABLE_LVB_GRID_WORLDWIDE.0);
}

#[test]
fn bitmask_operations_agree_with_the_platform_bindings() {
    let a: u32 = 0x8000_0107;
    let b: u32 = 0x0000_020c;
    let m = ModeBitmask::from_bits(a);
    assert_eq!(m.with(b).to_bits(), (CONSOLE_MODE(a) | CONSOLE_MODE(b)).0);
    assert_eq!(m.without(b).to_bits(), (CONSOLE_MODE(a) & !CONSOLE_MODE(b)).0);
    assert_eq!(m.contains(b), CONSOLE_MODE(a).contains(CONSOLE_MODE(b)));
    assert_eq!(m.contains(0x0003), CONSOLE_MODE(a).contains(CONSOLE_MODE(0x0003)));
    assert_eq!(ModeBitmask::from_bits(0).to_bits(), CONSOLE_MODE::default().0);
}

#[test]
fn handle_values_agree_with_the_platform_bindings() {
    assert_eq!(INVALID_HANDLE_VALUE, windows::Win32::Foundation::INVALID_HANDLE_VALUE.0);
}
