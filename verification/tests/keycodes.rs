use winit::keycodes::{
    modifiers_from_android, to_logical, Key, KeyMapChar, Keycode, MetaState, NamedKey, NativeKey,
};

#[test]
fn enter_remains_named_when_android_character_map_returns_newline() {
    for code in [Keycode::Enter, Keycode::NumpadEnter] {
        assert_eq!(to_logical(Some(KeyMapChar::Unicode('\n')), code), Key::Named(NamedKey::Enter));
    }
}

#[test]
fn ctrl_j_is_not_rewritten_to_enter() {
    assert_eq!(
        to_logical(Some(KeyMapChar::Unicode('\n')), Keycode::J),
        Key::Character("\n".into())
    );
}

#[test]
fn modifier_sample_preserves_ctrl_and_shift_from_android() {
    let state = MetaState(0x1001);
    let modifiers = modifiers_from_android(state);
    assert!(modifiers.control_key());
    assert!(modifiers.shift_key());
    assert!(!modifiers.alt_key());
    assert!(!modifiers.meta_key());
}

#[test]
fn other_named_control_keys_keep_their_names() {
    assert_eq!(to_logical(Some(KeyMapChar::Unicode('\t')), Keycode::Tab), Key::Named(NamedKey::Tab));
    assert_eq!(
        to_logical(Some(KeyMapChar::Unicode('\u{8}')), Keycode::Del),
        Key::Named(NamedKey::Backspace)
    );
    assert_eq!(
        to_logical(Some(KeyMapChar::Unicode('\u{7f}')), Keycode::ForwardDel),
        Key::Named(NamedKey::Delete)
    );
    assert_eq!(
        to_logical(Some(KeyMapChar::Unicode('\u{1b}')), Keycode::Escape),
        Key::Named(NamedKey::Escape)
    );
    assert_eq!(to_logical(None, Keycode::Enter), Key::Named(NamedKey::Enter));
}

#[test]
fn character_map_decides_for_other_keys() {
    assert_eq!(to_logical(Some(KeyMapChar::Unicode('A')), Keycode::A), Key::Character("A".into()));
    assert_eq!(to_logical(Some(KeyMapChar::Unicode(' ')), Keycode::Space), Key::Character(" ".into()));
    assert_eq!(to_logical(Some(KeyMapChar::CombiningAccent('`')), Keycode::Grave), Key::Dead(Some('`')));
}

#[test]
fn keys_without_a_character_are_named_or_printed_or_unidentified() {
    assert_eq!(to_logical(None, Keycode::DpadUp), Key::Named(NamedKey::ArrowUp));
    assert_eq!(to_logical(Some(KeyMapChar::Unmapped), Keycode::F5), Key::Named(NamedKey::F5));
    assert_eq!(to_logical(None, Keycode::ShiftLeft), Key::Named(NamedKey::Shift));
    assert_eq!(to_logical(None, Keycode::Q), Key::Character("q".into()));
    assert_eq!(to_logical(None, Keycode::Numpad7), Key::Character("7".into()));
    assert_eq!(
        to_logical(None, Keycode::ButtonA),
        Key::Unidentified(NativeKey::Android(Keycode::ButtonA))
    );
    assert_eq!(
        to_logical(None, Keycode::Unrecognized(999)),
        Key::Unidentified(NativeKey::Android(Keycode::Unrecognized(999)))
    );
}

#[test]
fn meta_state_bits_select_modifiers() {
    let all = modifiers_from_android(MetaState(0x1 | 0x2 | 0x1000 | 0x10000));
    assert!(all.shift_key() && all.alt_key() && all.control_key() && all.meta_key());
    let none = modifiers_from_android(MetaState(0x4 | 0x8 | 0x100000));
    assert!(!none.shift_key() && !none.alt_key() && !none.control_key() && !none.meta_key());
    assert!(MetaState(0x2).alt_on());
    assert!(MetaState(0x10000).meta_on());
}
