use kilo::keys::{ctrl_key, decode_key, is_ctrl, DecodeError, Key};
use kilo::probe::{cursor_motion_bytes, parse_cursor_report, probe_request_bytes, ProbeParseError};
use kilo::rawmode::{raw_mode_settings, TermFlagBits, TermSettings};
use kilo::render::{clear_screen_bytes, render_frame};
use kilo::state::EditorState;

#[test]
fn test_is_ctrl() {
    assert!(!is_ctrl('a'));
    assert!(!is_ctrl('9'));
    assert!(is_ctrl(7 as char));
}

#[test]
fn test_ctrl_key() {
    assert_eq!(ctrl_key(b'j'), 10);
    assert_eq!(ctrl_key(b'a'), 1);
}

#[test]
fn test_ctrl_key_q() {
    assert_eq!(ctrl_key(b'q'), 17);
}

#[test]
fn test_is_ctrl_del_and_non_ascii() {
    assert!(is_ctrl(0x7f as char));
    assert!(is_ctrl('\n'));
    assert!(!is_ctrl(' '));
    assert!(!is_ctrl('\u{e9}'));
}

#[test]
fn test_decode_arrow_up() {
    assert_eq!(decode_key(&[0x1b, b'[', b'A', 0]), Ok(Key::Up));
}

#[test]
fn test_decode_delete() {
    assert_eq!(decode_key(&[0x1b, b'[', b'3', b'~']), Ok(Key::Delete));
}

#[test]
fn test_decode_esc_o_home() {
    assert_eq!(decode_key(&[0x1b, b'O', b'H', 0]), Ok(Key::Home));
}

#[test]
fn test_decode_vi_up() {
    assert_eq!(decode_key(&[b'k', 0, 0, 0]), Ok(Key::Up));
}

#[test]
fn test_decode_vi_motions() {
    assert_eq!(decode_key(&[b'h', 0, 0, 0]), Ok(Key::Left));
    assert_eq!(decode_key(&[b'j', 0, 0, 0]), Ok(Key::Down));
    assert_eq!(decode_key(&[b'l', 0, 0, 0]), Ok(Key::Right));
}

#[test]
fn test_decode_ctrl_q() {
    assert_eq!(decode_key(&[0x11, 0, 0, 0]), Ok(Key::Ctrl(b'q')));
}

#[test]
fn test_decode_plain_char() {
    assert_eq!(decode_key(&[b'x', 0, 0, 0]), Ok(Key::Char(b'x')));
}

#[test]
fn test_decode_tilde_sequences() {
    assert_eq!(decode_key(&[0x1b, b'[', b'1', b'~']), Ok(Key::Home));
    assert_eq!(decode_key(&[0x1b, b'[', b'4', b'~']), Ok(Key::End));
    assert_eq!(decode_key(&[0x1b, b'[', b'5', b'~']), Ok(Key::PageUp));
    assert_eq!(decode_key(&[0x1b, b'[', b'6', b'~']), Ok(Key::PageDown));
    assert_eq!(decode_key(&[0x1b, b'[', b'7', b'~']), Ok(Key::Home));
    assert_eq!(decode_key(&[0x1b, b'[', b'8', b'~']), Ok(Key::End));
}

#[test]
fn test_decode_letter_sequences() {
    assert_eq!(decode_key(&[0x1b, b'[', b'B', 0]), Ok(Key::Down));
    assert_eq!(decode_key(&[0x1b, b'[', b'C', 0]), Ok(Key::Right));
    assert_eq!(decode_key(&[0x1b, b'[', b'D', 0]), Ok(Key::Left));
    assert_eq!(decode_key(&[0x1b, b'[', b'H', 0]), Ok(Key::Home));
    assert_eq!(decode_key(&[0x1b, b'[', b'F', 0]), Ok(Key::End));
}

#[test]
fn test_decode_unrecognized_sequences() {
    assert_eq!(
        decode_key(&[0x1b, b'[', b'Z', 0]),
        Err(DecodeError::UnrecognizedSequence)
    );
    assert_eq!(
        decode_key(&[0x1b, b'[', b'2', b'~']),
        Err(DecodeError::UnrecognizedSequence)
    );
    assert_eq!(
        decode_key(&[0x1b, b'O', b'A', 0]),
        Err(DecodeError::UnrecognizedSequence)
    );
    assert_eq!(
        decode_key(&[0x1b, b'X', 0, 0]),
        Err(DecodeError::UnrecognizedSequence)
    );
    assert_eq!(
        decode_key(&[0x1b, 0, 0, 0]),
        Err(DecodeError::UnrecognizedSequence)
    );
}

#[test]
fn test_cursor_stays_in_viewport() {
    let mut s = EditorState::new(4, 3);
    for _ in 0..10 {
        s.move_cursor(Key::Left);
    }
    assert_eq!(s.cursor_x, 0);
    for _ in 0..10 {
        s.move_cursor(Key::Right);
    }
    assert_eq!(s.cursor_x, 3);
    for _ in 0..10 {
        s.move_cursor(Key::Down);
    }
    assert_eq!(s.cursor_y, 3);
    for _ in 0..10 {
        s.move_cursor(Key::Up);
    }
    assert_eq!(s.cursor_y, 0);
    let keys = [
        Key::Right, Key::Down, Key::Down, Key::Left, Key::Left, Key::Up,
        Key::Right, Key::Right, Key::Right, Key::Right, Key::Down,
    ];
    for k in keys {
        s.move_cursor(k);
        assert!(s.cursor_x <= 3);
        assert!(s.cursor_y < 4);
    }
}

#[test]
fn test_page_keys_saturate() {
    let mut s = EditorState::new(24, 80);
    for _ in 0..5 {
        s.move_cursor(Key::Down);
    }
    assert_eq!(s.cursor_y, 5);
    assert!(s.process_key(Key::PageUp));
    assert_eq!(s.cursor_y, 0);
    for _ in 0..7 {
        s.move_cursor(Key::Down);
    }
    assert!(s.process_key(Key::PageDown));
    assert_eq!(s.cursor_y, 23);
    assert!(s.process_key(Key::PageUp));
    assert_eq!(s.cursor_y, 0);
}

#[test]
fn test_home_and_end() {
    let mut s = EditorState::new(24, 80);
    for _ in 0..5 {
        s.move_cursor(Key::Down);
    }
    assert!(s.process_key(Key::End));
    assert_eq!(s.cursor_y, 23);
    assert!(s.process_key(Key::Home));
    assert_eq!(s.cursor_y, 0);
}

#[test]
fn test_other_keys_leave_state_unchanged() {
    let mut s = EditorState::new(24, 80);
    s.move_cursor(Key::Right);
    s.move_cursor(Key::Down);
    assert!(s.process_key(Key::Delete));
    assert!(s.process_key(Key::Char(b'z')));
    assert!(s.process_key(Key::Ctrl(b'a')));
    assert_eq!(s.cursor_x, 1);
    assert_eq!(s.cursor_y, 1);
}

#[test]
fn test_render_idempotent() {
    let mut s = EditorState::new(24, 80);
    s.load_row(b"hello".to_vec());
    s.move_cursor(Key::Right);
    s.move_cursor(Key::Down);
    let first = render_frame(&s);
    let second = render_frame(&s);
    assert_eq!(first, second);
}

#[test]
fn test_empty_buffer_frame() {
    let s = EditorState::new(24, 80);
    let frame = render_frame(&s);
    let mut expected = String::new();
    expected.push_str("\x1b[?25l\x1b[H");
    for y in 0..24 {
        if y == 8 {
            expected.push('~');
            expected.push_str(&" ".repeat(25));
            expected.push_str("kilo editor -- version 0.1.0");
        } else {
            expected.push('~');
        }
        expected.push_str("\x1b[K");
        if y != 23 {
            expected.push_str("\r\n");
        }
    }
    expected.push_str("\x1b[1;1H\x1b[?25h");
    assert_eq!(frame.as_slice(), expected.as_bytes());
}

#[test]
fn test_quit_clears_screen() {
    let mut s = EditorState::new(24, 80);
    let cont = s.process_input(&[0x11, 0, 0, 0]);
    assert!(!cont);
    assert_eq!(clear_screen_bytes().as_slice(), b"\x1b[2J\x1b[H");
}

#[test]
fn test_loaded_row_renders_untruncated() {
    let mut s = EditorState::new(24, 10);
    s.load_row(b"hello".to_vec());
    let frame = render_frame(&s);
    let expected_start = b"\x1b[?25l\x1b[Hhello\x1b[K\r\n~";
    assert_eq!(&frame[..expected_start.len()], expected_start);
}

#[test]
fn test_loaded_row_truncates_to_width() {
    let mut s = EditorState::new(24, 4);
    s.load_row(b"hello".to_vec());
    let frame = render_frame(&s);
    let expected_start = b"\x1b[?25l\x1b[Hhell\x1b[K\r\n~";
    assert_eq!(&frame[..expected_start.len()], expected_start);
}

#[test]
fn test_banner_truncates_on_narrow_viewport() {
    let s = EditorState::new(3, 10);
    let frame = render_frame(&s);
    let mut expected = String::new();
    expected.push_str("\x1b[?25l\x1b[H");
    expected.push_str("~\x1b[K\r\n");
    expected.push_str("kilo edito\x1b[K\r\n");
    expected.push_str("~\x1b[K");
    expected.push_str("\x1b[1;1H\x1b[?25h");
    assert_eq!(frame.as_slice(), expected.as_bytes());
}

#[test]
fn test_process_input_ignores_unrecognized_sequence() {
    let mut s = EditorState::new(24, 80);
    s.move_cursor(Key::Right);
    let cont = s.process_input(&[0x1b, b'[', b'Z', 0]);
    assert!(cont);
    assert_eq!(s.cursor_x, 1);
    assert_eq!(s.cursor_y, 0);
}

#[test]
fn test_process_input_moves_cursor() {
    let mut s = EditorState::new(24, 80);
    assert!(s.process_input(&[0x1b, b'[', b'B', 0]));
    assert_eq!(s.cursor_y, 1);
    assert!(s.process_input(&[b'k', 0, 0, 0]));
    assert_eq!(s.cursor_y, 0);
}

#[test]
fn test_parse_cursor_report() {
    let mut buf = b"\x1b[24;80R".to_vec();
    buf.extend([0u8; 24]);
    assert_eq!(parse_cursor_report(&buf), Ok((24, 80)));
}

#[test]
fn test_parse_cursor_report_large() {
    assert_eq!(parse_cursor_report(b"\x1b[999;999R"), Ok((999, 999)));
}

#[test]
fn test_parse_cursor_report_malformed() {
    assert_eq!(
        parse_cursor_report(b""),
        Err(ProbeParseError::MalformedReply)
    );
    assert_eq!(
        parse_cursor_report(b"\x1b[24;80"),
        Err(ProbeParseError::MalformedReply)
    );
    assert_eq!(
        parse_cursor_report(b"\x1b[;80R"),
        Err(ProbeParseError::MalformedReply)
    );
    assert_eq!(
        parse_cursor_report(b"\x1b[24:80R"),
        Err(ProbeParseError::MalformedReply)
    );
    assert_eq!(
        parse_cursor_report(b"x[24;80R"),
        Err(ProbeParseError::MalformedReply)
    );
    assert_eq!(
        parse_cursor_report(b"\x1b[24;R"),
        Err(ProbeParseError::MalformedReply)
    );
}

#[test]
fn test_parse_cursor_report_overflow() {
    assert_eq!(
        parse_cursor_report(b"\x1b[99999999999999999999999999;80R"),
        Err(ProbeParseError::MalformedReply)
    );
}

#[test]
fn test_cursor_motion_bytes() {
    assert_eq!(
        cursor_motion_bytes(999, 999).as_slice(),
        b"\x1b[999C\x1b[999B"
    );
    assert_eq!(cursor_motion_bytes(1, 20).as_slice(), b"\x1b[1C\x1b[20B");
}

#[test]
fn test_probe_request_bytes() {
    assert_eq!(probe_request_bytes().as_slice(), b"\x1b[6n");
}

#[test]
fn test_raw_mode_settings() {
    let orig = TermSettings {
        input_flags: 0xffff_ffff,
        output_flags: 0xffff_ffff,
        control_flags: 0,
        local_flags: 0xffff_ffff,
        min_bytes: 1,
        timeout_deciseconds: 0,
    };
    let bits = TermFlagBits {
        brkint: 0x2,
        icrnl: 0x100,
        inpck: 0x10,
        istrip: 0x20,
        ixon: 0x400,
        opost: 0x1,
        cs8: 0x30,
        echo: 0x8,
        icanon: 0x2,
        iexten: 0x8000,
        isig: 0x1,
    };
    let raw = raw_mode_settings(&orig, &bits);
    assert_eq!(raw.input_flags, 0xffff_ffff & !(0x2 | 0x100 | 0x10 | 0x20 | 0x400));
    assert_eq!(raw.output_flags, 0xffff_ffff & !0x1);
    assert_eq!(raw.control_flags, 0x30);
    assert_eq!(raw.local_flags, 0xffff_ffff & !(0x8 | 0x2 | 0x8000 | 0x1));
    assert_eq!(raw.min_bytes, 0);
    assert_eq!(raw.timeout_deciseconds, 1);
}

#[test]
fn test_new_and_load_row() {
    let mut s = EditorState::new(24, 80);
    assert_eq!(s.cursor_x, 0);
    assert_eq!(s.cursor_y, 0);
    assert_eq!(s.viewport_height, 24);
    assert_eq!(s.viewport_width, 80);
    assert_eq!(s.row_count, 0);
    assert_eq!(s.row.size, 0);
    s.load_row(b"Ninja og bolle".to_vec());
    assert_eq!(s.row_count, 1);
    assert_eq!(s.row.size, 14);
    assert_eq!(s.row.chars, b"Ninja og bolle".to_vec());
}
