use waywin::event::{Event, Key, KeyCode, LogicalKey, LogicalKeyRef, PhysicalKey};
use waywin::keymap::{
    logical_key_from_keysym, make_key_down_event, make_key_up_event, physical_key_from_code,
};

#[test]
fn scancode_table_samples() {
    assert!(matches!(physical_key_from_code(30), PhysicalKey::KeyCode(KeyCode::A)));
    assert!(matches!(physical_key_from_code(44), PhysicalKey::KeyCode(KeyCode::Z)));
    assert!(matches!(physical_key_from_code(1), PhysicalKey::KeyCode(KeyCode::Escape)));
    assert!(matches!(physical_key_from_code(57), PhysicalKey::KeyCode(KeyCode::Space)));
    assert!(matches!(physical_key_from_code(88), PhysicalKey::KeyCode(KeyCode::F12)));
    assert!(matches!(physical_key_from_code(119), PhysicalKey::KeyCode(KeyCode::Pause)));
    assert!(matches!(physical_key_from_code(82), PhysicalKey::KeyCode(KeyCode::Numpad0)));
}

#[test]
fn unknown_scancode_is_preserved() {
    assert!(matches!(physical_key_from_code(240), PhysicalKey::Unknown(240)));
}

#[test]
fn keysym_table_samples() {
    assert!(matches!(logical_key_from_keysym(0xff09, "\t".to_string()), LogicalKey::Key(Key::Tab)));
    assert!(matches!(logical_key_from_keysym(0xff0d, "\r".to_string()), LogicalKey::Key(Key::Enter)));
    assert!(matches!(logical_key_from_keysym(0xffe1, String::new()), LogicalKey::Key(Key::LShift)));
    assert!(matches!(logical_key_from_keysym(0x31, "1".to_string()), LogicalKey::Key(Key::Key1)));
    assert!(matches!(logical_key_from_keysym(0xffb0, "0".to_string()), LogicalKey::Key(Key::Numpad0)));
    assert!(matches!(logical_key_from_keysym(0xffc9, String::new()), LogicalKey::Key(Key::F12)));
}

#[test]
fn keysym_fallback_is_the_symbol_text() {
    // 'a' is not in the named-key table; it resolves to its text
    match logical_key_from_keysym(0x61, "a".to_string()) {
        LogicalKey::Character(s) => assert_eq!(s, "a"),
        other => panic!("expected Character, got {:?}", other),
    }
    // latin small letter e with acute
    match logical_key_from_keysym(0xe9, "\u{e9}".to_string()) {
        LogicalKey::Character(s) => assert_eq!(s, "\u{e9}"),
        other => panic!("expected Character, got {:?}", other),
    }
}

#[test]
fn keysym_without_text_stays_unknown() {
    // the audio-mute multimedia key produces no text
    assert!(matches!(
        logical_key_from_keysym(0x1008ff12, String::new()),
        LogicalKey::Unknown(0x1008ff12)
    ));
}

#[test]
fn key_down_event_carries_translation() {
    let ev = make_key_down_event(30, 0x61, 0x61, "a".to_string(), "a".to_string(), "A".to_string());
    match ev {
        Event::Key { down, physical_key, logical_key, text, text_raw, logical_key_unmodified } => {
            assert!(down);
            assert!(matches!(physical_key, PhysicalKey::KeyCode(KeyCode::A)));
            assert!(matches!(logical_key, LogicalKey::Character(ref s) if s == "a"));
            assert_eq!(text, "a");
            assert_eq!(text_raw, "A");
            assert!(matches!(logical_key_unmodified, LogicalKey::Character(ref s) if s == "a"));
        },
        other => panic!("expected Key, got {:?}", other),
    }
}

#[test]
fn key_down_event_named_key_text() {
    // Enter is a named key; its text is still the symbol's text
    let ev = make_key_down_event(28, 0xff0d, 0xff0d, "\r".to_string(), "\r".to_string(), "\r".to_string());
    match ev {
        Event::Key { down, physical_key, logical_key, text, .. } => {
            assert!(down);
            assert!(matches!(physical_key, PhysicalKey::KeyCode(KeyCode::Enter)));
            assert!(matches!(logical_key, LogicalKey::Key(Key::Enter)));
            assert_eq!(text, "\r");
        },
        other => panic!("expected Key, got {:?}", other),
    }
}

#[test]
fn key_up_event_has_no_text() {
    let ev = make_key_up_event(30, 0x61, 0x61, "a".to_string(), "a".to_string());
    match ev {
        Event::Key { down, text, text_raw, .. } => {
            assert!(!down);
            assert_eq!(text, "");
            assert_eq!(text_raw, "");
        },
        other => panic!("expected Key, got {:?}", other),
    }
}

#[test]
fn logical_key_as_ref_borrows_text() {
    let k = LogicalKey::Character("ab".to_string());
    match k.as_ref() {
        LogicalKeyRef::Character(s) => assert_eq!(s, "ab"),
        other => panic!("expected Character, got {:?}", other),
    }
    let k = LogicalKey::Key(Key::Tab);
    assert!(matches!(k.as_ref(), LogicalKeyRef::Key(Key::Tab)));
    let k = LogicalKey::Unknown(9);
    assert!(matches!(k.as_ref(), LogicalKeyRef::Unknown(9)));
}

#[test]
fn event_duplicate_is_deep_equal() {
    let ev = make_key_down_event(30, 0x61, 0x61, "a".to_string(), "a".to_string(), "a".to_string());
    let copy = ev.duplicate();
    match (ev, copy) {
        (
            Event::Key { text: t1, text_raw: r1, .. },
            Event::Key { text: t2, text_raw: r2, .. },
        ) => {
            assert_eq!(t1, t2);
            assert_eq!(r1, r2);
        },
        _ => panic!("expected Key events"),
    }
}
