use openlipi::keyboard::{get_key_name, is_modifier_non_shift, is_shift, key_char, Key, ModifierState};

#[test]
fn letters_resolve_to_lower_case() {
    assert_eq!(get_key_name(Key::KeyA), Some("a".to_string()));
    assert_eq!(get_key_name(Key::KeyZ), Some("z".to_string()));
    assert_eq!(key_char(Key::KeyQ), Some('q'));
}

#[test]
fn digits_and_punctuation_resolve() {
    assert_eq!(get_key_name(Key::Num0), Some("0".to_string()));
    assert_eq!(get_key_name(Key::Num9), Some("9".to_string()));
    assert_eq!(get_key_name(Key::SemiColon), Some(";".to_string()));
    assert_eq!(get_key_name(Key::Quote), Some("'".to_string()));
    assert_eq!(get_key_name(Key::LeftBracket), Some("[".to_string()));
    assert_eq!(get_key_name(Key::RightBracket), Some("]".to_string()));
    assert_eq!(get_key_name(Key::Comma), Some(",".to_string()));
    assert_eq!(get_key_name(Key::Dot), Some(".".to_string()));
    assert_eq!(get_key_name(Key::Slash), Some("/".to_string()));
    assert_eq!(get_key_name(Key::BackSlash), Some("\\".to_string()));
}

#[test]
fn other_keys_do_not_resolve() {
    assert_eq!(get_key_name(Key::F10), None);
    assert_eq!(get_key_name(Key::Space), None);
    assert_eq!(get_key_name(Key::ShiftLeft), None);
    assert_eq!(get_key_name(Key::Kp1), None);
    assert_eq!(get_key_name(Key::Unknown(7)), None);
}

#[test]
fn shift_and_modifier_classes() {
    assert!(is_shift(Key::ShiftLeft));
    assert!(is_shift(Key::ShiftRight));
    assert!(!is_shift(Key::ControlLeft));
    for k in [Key::MetaLeft, Key::MetaRight, Key::Alt, Key::AltGr, Key::ControlLeft, Key::ControlRight] {
        assert!(is_modifier_non_shift(k));
    }
    assert!(!is_modifier_non_shift(Key::ShiftLeft));
    assert!(!is_modifier_non_shift(Key::KeyA));
}

#[test]
fn modifier_state_tracks_presses() {
    let mut m = ModifierState::new();
    assert!(!m.is_active());
    m.update(Key::AltGr, true);
    assert!(m.alt && m.is_active());
    m.update(Key::ControlRight, true);
    m.update(Key::Alt, false);
    assert!(!m.alt && m.ctrl && m.is_active());
    m.update(Key::KeyA, true);
    assert_eq!(m, ModifierState { meta: false, alt: false, ctrl: true });
    m.update(Key::ControlLeft, false);
    m.update(Key::MetaLeft, true);
    assert!(m.meta && m.is_active());
    m.update(Key::MetaRight, false);
    assert!(!m.is_active());
}
