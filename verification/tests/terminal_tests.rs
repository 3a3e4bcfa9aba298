use mirante::events::{KeyCode, KeyModifiers, MouseEventKind};
use mirante::position::Rect;
use mirante::terminal::{detect_terminal_modes, encode_key, encode_mouse, get_char_bytes, get_function_key_sequence, get_modifier_code};

#[test]
fn encodes_plain_and_control_characters() {
    assert_eq!(Some(b"a".to_vec()), encode_key(KeyCode::Char('a'), KeyModifiers::none(), false));
    assert_eq!(Some(vec![3]), encode_key(KeyCode::Char('c'), KeyModifiers::control(), false));
    assert_eq!(Some(vec![3]), encode_key(KeyCode::Char('C'), KeyModifiers::control(), false));
    assert_eq!("ą".as_bytes().to_vec(), get_char_bytes('ą', KeyModifiers::none()));
}

#[test]
fn encodes_special_keys() {
    assert_eq!(Some(vec![27]), encode_key(KeyCode::Esc, KeyModifiers::none(), false));
    assert_eq!(Some(vec![127]), encode_key(KeyCode::Backspace, KeyModifiers::none(), false));
    assert_eq!(Some(vec![13]), encode_key(KeyCode::Enter, KeyModifiers::none(), false));
    assert_eq!(Some(vec![9]), encode_key(KeyCode::Tab, KeyModifiers::none(), false));
    assert_eq!(Some(vec![27, 91, 90]), encode_key(KeyCode::BackTab, KeyModifiers::none(), false));
    assert_eq!(Some(vec![27, 91, 53, 126]), encode_key(KeyCode::PageUp, KeyModifiers::none(), false));
    assert_eq!(Some(vec![27, 91, 51, 126]), encode_key(KeyCode::Delete, KeyModifiers::none(), false));
    assert_eq!(None, encode_key(KeyCode::CapsLock, KeyModifiers::none(), false));
}

#[test]
fn cursor_keys_follow_application_mode() {
    assert_eq!(Some(b"\x1b[A".to_vec()), encode_key(KeyCode::Up, KeyModifiers::none(), false));
    assert_eq!(Some(b"\x1bOA".to_vec()), encode_key(KeyCode::Up, KeyModifiers::none(), true));
    assert_eq!(Some(b"\x1bOH".to_vec()), encode_key(KeyCode::Home, KeyModifiers::none(), true));
    assert_eq!(Some(b"\x1b[D".to_vec()), encode_key(KeyCode::Left, KeyModifiers::none(), false));
}

#[test]
fn function_keys() {
    assert_eq!(Some(b"\x1bOP".to_vec()), get_function_key_sequence(1, KeyModifiers::none()));
    assert_eq!(Some(vec![27, 91, 49, 59, 2, 81]), get_function_key_sequence(2, KeyModifiers::shift()));
    assert_eq!(Some(b"\x1b[15~".to_vec()), get_function_key_sequence(5, KeyModifiers::none()));
    assert_eq!(Some(b"\x1b[24;5~".to_vec()), get_function_key_sequence(12, KeyModifiers::control()));
    assert_eq!(None, get_function_key_sequence(13, KeyModifiers::none()));
    assert_eq!(None, get_function_key_sequence(0, KeyModifiers::none()));
}

#[test]
fn modifier_codes() {
    assert_eq!(0, get_modifier_code(KeyModifiers::none()));
    assert_eq!(2, get_modifier_code(KeyModifiers::shift()));
    assert_eq!(3, get_modifier_code(KeyModifiers::alt()));
    assert_eq!(5, get_modifier_code(KeyModifiers::control()));
    let all = KeyModifiers { shift: true, control: true, alt: true, super_key: false, hyper: false, meta: false };
    assert_eq!(8, get_modifier_code(all));
}

#[test]
fn encodes_mouse_in_sgr_format() {
    let area = Rect::new(2, 1, 80, 24);
    assert_eq!(
        Some(b"\x1b[<0;4;3M".to_vec()),
        encode_mouse(MouseEventKind::LeftClick, 5, 3, area, KeyModifiers::none())
    );
    assert_eq!(
        Some(b"\x1b[<0;4;3m".to_vec()),
        encode_mouse(MouseEventKind::LeftUp, 5, 3, area, KeyModifiers::none())
    );
    assert_eq!(
        Some(b"\x1b[<80;1;1M".to_vec()),
        encode_mouse(MouseEventKind::ScrollUp, 0, 0, area, KeyModifiers::control())
    );
    assert_eq!(None, encode_mouse(MouseEventKind::ScrollLeft, 5, 3, area, KeyModifiers::none()));
}

#[test]
fn detects_terminal_modes() {
    assert_eq!((None, None), detect_terminal_modes(b"plain output"));
    assert_eq!((Some(true), None), detect_terminal_modes(b"\x1b[?1h"));
    assert_eq!((Some(false), Some(true)), detect_terminal_modes(b"ab\x1b[?1000;1006h\x1b[?1l"));
    assert_eq!((None, Some(false)), detect_terminal_modes(b"\x1b[?1002l"));
    assert_eq!((Some(true), None), detect_terminal_modes(b"\x1b[?1;25h"));
    assert_eq!((None, None), detect_terminal_modes(b"\x1b[?1x\x1b[?1h"));
    assert_eq!((None, None), detect_terminal_modes(b"\x1b[?"));
}
