use winit::ime::{EditorActionKey, Ime, ImeState, TextInputAction, TextInputState, TextSpan};
use winit::text::utf16_byte;

#[test]
fn editor_actions_distinguish_acceptance_from_field_navigation() {
    assert_eq!(
        EditorActionKey::from_android(TextInputAction::Done),
        Some(EditorActionKey::Enter)
    );
    assert_eq!(
        EditorActionKey::from_android(TextInputAction::Next),
        Some(EditorActionKey::Tab { reverse: false })
    );
    assert_eq!(
        EditorActionKey::from_android(TextInputAction::Previous),
        Some(EditorActionKey::Tab { reverse: true })
    );
}

#[test]
fn reopening_composition_does_not_delete_accepted_text_before_commit() {
    let mut ime = ImeState::default();
    ime.update(&TextInputState {
        text: "hello ".into(),
        selection: TextSpan { start: 6, end: 6 },
        compose_region: None,
    });
    assert_eq!(
        ime.update(&TextInputState {
            text: "hello".into(),
            selection: TextSpan { start: 5, end: 5 },
            compose_region: Some(TextSpan { start: 0, end: 5 }),
        }),
        vec![Ime::Preedit("hello".into(), Some((5, 5)))]
    );
    assert_eq!(ime.finish(), vec![
        Ime::Preedit(String::new(), None),
        Ime::DeleteSurrounding { before_bytes: 1, after_bytes: 0 },
        Ime::Commit(String::new()),
    ]);
}

#[test]
fn composition_is_not_committed_until_finished_and_never_duplicated() {
    let mut ime = ImeState::default();
    let mut state = TextInputState {
        text: "你好".into(),
        selection: TextSpan { start: 2, end: 2 },
        compose_region: Some(TextSpan { start: 0, end: 2 }),
    };
    assert_eq!(ime.update(&state), vec![Ime::Preedit("你好".into(), Some((6, 6)))]);
    state.compose_region = None;
    assert_eq!(ime.update(&state), vec![
        Ime::Preedit(String::new(), None),
        Ime::Commit("你好".into())
    ]);
    assert!(ime.update(&state).is_empty());
}

#[test]
fn autocorrection_replaces_committed_text_instead_of_duplicating_it() {
    let mut ime = ImeState::default();
    let mut state = TextInputState {
        text: "helllo ".into(),
        selection: TextSpan { start: 7, end: 7 },
        compose_region: None,
    };
    ime.update(&state);
    state.text = "hello ".into();
    state.selection = TextSpan { start: 6, end: 6 };
    assert_eq!(ime.update(&state), vec![
        Ime::Preedit(String::new(), None),
        Ime::DeleteSurrounding { before_bytes: 3, after_bytes: 0 },
        Ime::Commit("o ".into()),
    ]);
}

#[test]
fn emoji_composition_uses_utf16_spans_and_cancellation_does_not_insert() {
    let mut ime = ImeState::default();
    let state = TextInputState {
        text: "😀".into(),
        selection: TextSpan { start: 2, end: 2 },
        compose_region: Some(TextSpan { start: 0, end: 2 }),
    };
    assert_eq!(ime.update(&state), vec![Ime::Preedit("😀".into(), Some((4, 4)))]);
    assert_eq!(ime.update(&TextInputState::default()), vec![Ime::Preedit(String::new(), None)]);
}

#[test]
fn editor_action_commits_active_composition_before_resetting_context() {
    let mut ime = ImeState::default();
    ime.update(&TextInputState {
        text: "hello".into(),
        selection: TextSpan { start: 5, end: 5 },
        compose_region: Some(TextSpan { start: 0, end: 5 }),
    });
    assert_eq!(ime.finish(), vec![
        Ime::Preedit(String::new(), None),
        Ime::Commit("hello".into())
    ]);
    assert!(ime.update(&TextInputState::default()).is_empty());
}

#[test]
fn every_accepting_action_is_enter_and_unknown_actions_are_ignored() {
    for action in [
        TextInputAction::Unspecified,
        TextInputAction::NoAction,
        TextInputAction::Go,
        TextInputAction::Search,
        TextInputAction::Send,
        TextInputAction::Done,
    ] {
        assert_eq!(EditorActionKey::from_android(action), Some(EditorActionKey::Enter));
    }
    assert_eq!(EditorActionKey::from_android(TextInputAction::Unknown(42)), None);
}

#[test]
fn utf16_offsets_map_to_utf8_bytes() {
    assert_eq!(utf16_byte("", 0), Some(0));
    assert_eq!(utf16_byte("", 1), None);
    assert_eq!(utf16_byte("abc", 2), Some(2));
    assert_eq!(utf16_byte("abc", 3), Some(3));
    assert_eq!(utf16_byte("abc", 4), None);
    assert_eq!(utf16_byte("é好", 1), Some(2));
    assert_eq!(utf16_byte("é好", 2), Some(5));
    // The emoji takes two UTF-16 units and four bytes.
    assert_eq!(utf16_byte("a😀b", 1), Some(1));
    assert_eq!(utf16_byte("a😀b", 2), None);
    assert_eq!(utf16_byte("a😀b", 3), Some(5));
    assert_eq!(utf16_byte("a😀b", 4), Some(6));
}

#[test]
fn composing_region_off_character_boundaries_is_ignored() {
    let mut ime = ImeState::default();
    // Region end inside the surrogate pair of the emoji.
    assert!(ime
        .update(&TextInputState {
            text: "😀".into(),
            selection: TextSpan { start: 0, end: 0 },
            compose_region: Some(TextSpan { start: 0, end: 1 }),
        })
        .is_empty());
    // Region past the end of the text.
    assert!(ime
        .update(&TextInputState {
            text: "ab".into(),
            selection: TextSpan { start: 0, end: 0 },
            compose_region: Some(TextSpan { start: 0, end: 3 }),
        })
        .is_empty());
    // Region that ends before it starts.
    assert!(ime
        .update(&TextInputState {
            text: "ab".into(),
            selection: TextSpan { start: 0, end: 0 },
            compose_region: Some(TextSpan { start: 2, end: 1 }),
        })
        .is_empty());
    // Nothing was recorded: finishing reports nothing.
    assert!(ime.finish().is_empty());
}

#[test]
fn preedit_selection_is_clamped_to_the_composing_region() {
    let mut ime = ImeState::default();
    // Selection before the region clamps to its start, an invalid one to its end.
    assert_eq!(
        ime.update(&TextInputState {
            text: "ab你好".into(),
            selection: TextSpan { start: 0, end: 9 },
            compose_region: Some(TextSpan { start: 2, end: 4 }),
        }),
        vec![Ime::Preedit("你好".into(), Some((0, 6)))]
    );
    // Selection inside the region becomes an offset into the preedit.
    assert_eq!(
        ime.update(&TextInputState {
            text: "ab你好".into(),
            selection: TextSpan { start: 3, end: 3 },
            compose_region: Some(TextSpan { start: 2, end: 4 }),
        }),
        vec![Ime::Preedit("你好".into(), Some((3, 3)))]
    );
}

#[test]
fn replayed_snapshots_are_silent() {
    let mut ime = ImeState::default();
    let composing = TextInputState {
        text: "abc".into(),
        selection: TextSpan { start: 3, end: 3 },
        compose_region: Some(TextSpan { start: 1, end: 3 }),
    };
    assert_eq!(ime.update(&composing), vec![Ime::Preedit("bc".into(), Some((2, 2)))]);
    assert!(ime.update(&composing).is_empty());
    let accepted = TextInputState {
        text: "abd".into(),
        selection: TextSpan { start: 3, end: 3 },
        compose_region: None,
    };
    assert_eq!(ime.update(&accepted), vec![
        Ime::Preedit(String::new(), None),
        Ime::Commit("abd".into())
    ]);
    assert!(ime.update(&accepted).is_empty());
}

#[test]
fn deletion_counts_bytes_of_multibyte_text() {
    let mut ime = ImeState::default();
    let mut state = TextInputState {
        text: "a你好".into(),
        selection: TextSpan { start: 3, end: 3 },
        compose_region: None,
    };
    ime.update(&state);
    state.text = "a".into();
    assert_eq!(ime.update(&state), vec![
        Ime::Preedit(String::new(), None),
        Ime::DeleteSurrounding { before_bytes: 6, after_bytes: 0 },
        Ime::Commit(String::new()),
    ]);
}

#[test]
fn finishing_without_composition_reports_nothing() {
    let mut ime = ImeState::default();
    ime.update(&TextInputState {
        text: "x".into(),
        selection: TextSpan { start: 1, end: 1 },
        compose_region: None,
    });
    assert!(ime.finish().is_empty());
    // The accepted text was forgotten: the same text is accepted anew.
    assert_eq!(
        ime.update(&TextInputState {
            text: "x".into(),
            selection: TextSpan { start: 1, end: 1 },
            compose_region: None,
        }),
        vec![Ime::Preedit(String::new(), None), Ime::Commit("x".into())]
    );
}
