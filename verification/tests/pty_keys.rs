use typed_shell::pty::{handle_terminal_event, utf8_encode_char, PtyInput, PtyResponse, PTYStatus};

fn bytes_of(ev: PtyInput) -> Vec<u8> {
    match handle_terminal_event(&ev) {
        PtyResponse::Write(b) => b,
        PtyResponse::Exit => panic!("expected bytes for this event"),
    }
}

#[test]
fn enter_becomes_carriage_return() {
    assert_eq!(bytes_of(PtyInput::Char('\n')), vec![13u8]);
}

#[test]
fn escape_and_backspace_control_bytes() {
    assert_eq!(bytes_of(PtyInput::Esc), vec![0x1bu8]);
    assert_eq!(bytes_of(PtyInput::Backspace), vec![0x8u8]);
}

#[test]
fn printable_ascii_passes_through() {
    assert_eq!(bytes_of(PtyInput::Char('a')), vec![97u8]);
    assert_eq!(bytes_of(PtyInput::Char(' ')), vec![32u8]);
}

#[test]
fn non_ascii_characters_pass_through_as_utf8() {
    assert_eq!(bytes_of(PtyInput::Char('\u{e9}')), vec![0xC3, 0xA9]);
    assert_eq!(bytes_of(PtyInput::Char('\u{20ac}')), vec![0xE2, 0x82, 0xAC]);
    assert_eq!(bytes_of(PtyInput::Char('\u{1d11e}')), vec![0xF0, 0x9D, 0x84, 0x9E]);
}

#[test]
fn utf8_encoder_matches_std() {
    for c in ['x', '\u{7f}', '\u{80}', '\u{7ff}', '\u{800}', '\u{ffff}', '\u{10000}', '\u{10ffff}']
    {
        let mut buf = [0u8; 4];
        let expected = c.encode_utf8(&mut buf).as_bytes().to_vec();
        assert_eq!(utf8_encode_char(c), expected);
    }
}

#[test]
fn arrow_keys_become_ansi_cursor_sequences() {
    assert_eq!(bytes_of(PtyInput::Up), vec![0x1b, b'[', b'A']);
    assert_eq!(bytes_of(PtyInput::Down), vec![0x1b, b'[', b'B']);
    assert_eq!(bytes_of(PtyInput::Right), vec![0x1b, b'[', b'C']);
    assert_eq!(bytes_of(PtyInput::Left), vec![0x1b, b'[', b'D']);
}

#[test]
fn function_keys_use_offset_and_reserved_codes() {
    assert_eq!(bytes_of(PtyInput::F(1)), vec![0x1b, 0x0a, 59]);
    assert_eq!(bytes_of(PtyInput::F(10)), vec![0x1b, 0x0a, 68]);
    assert_eq!(bytes_of(PtyInput::F(11)), vec![0x1b, 0x0a, 133]);
    assert_eq!(bytes_of(PtyInput::F(12)), vec![0x1b, 0x0a, 134]);
}

#[test]
fn control_keys_are_not_for_the_child() {
    assert!(matches!(handle_terminal_event(&PtyInput::Ctrl('d')), PtyResponse::Exit));
    assert!(matches!(handle_terminal_event(&PtyInput::Other), PtyResponse::Exit));
}

#[test]
fn default_status_is_running_with_placeholder_pid() {
    assert!(matches!(PTYStatus::default(), PTYStatus::Running { pid: 0 }));
}
