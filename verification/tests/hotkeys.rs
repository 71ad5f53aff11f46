use nanotrans::keys::KeyName;
use nanotrans::mnemonic::{
    format_hotkey, normalize_hotkey_string, normalize_key_name, parse_hotkey, parse_key_code,
    Hotkey, ParseError,
};
use nanotrans::registry::{event_hotkey_id, HotkeyError, HotkeyManager, DEFAULT_HOTKEY};

#[test]
fn event_identifier_is_read_from_the_event() {
    let event = global_hotkey::GlobalHotKeyEvent {
        id: 0x1234_5678,
        state: global_hotkey::HotKeyState::Pressed,
    };
    assert_eq!(event_hotkey_id(&event), 0x1234_5678);
    let other = global_hotkey::GlobalHotKeyEvent {
        id: 7,
        state: global_hotkey::HotKeyState::Released,
    };
    assert_eq!(event_hotkey_id(&other), 7);
}

#[test]
fn test_parse_hotkey() {
    let hotkey = parse_hotkey("Alt+Q").unwrap();
    assert!(hotkey.id() > 0);

    let hotkey2 = parse_hotkey("Ctrl+Shift+T").unwrap();
    assert!(hotkey2.id() > 0);

    let hotkey3 = parse_hotkey("Cmd+Shift+T").unwrap();
    assert!(hotkey3.id() > 0);

    let hotkey4 = parse_hotkey("Option+Q").unwrap();
    assert!(hotkey4.id() > 0);
}

#[test]
fn test_parse_key_code() {
    assert!(parse_key_code("a").is_ok());
    assert!(parse_key_code("F1").is_ok());
    assert!(parse_key_code("space").is_ok());
    assert!(parse_key_code("invalid").is_err());
}

#[test]
fn canonicalizes_case_order_and_synonyms() {
    assert_eq!(normalize_hotkey_string("ctrl+shift+t").unwrap(), "Ctrl+Shift+T");
    assert_eq!(normalize_hotkey_string("Control+Shift+T").unwrap(), "Ctrl+Shift+T");
    assert_eq!(normalize_hotkey_string("Shift+Ctrl+T").unwrap(), "Ctrl+Shift+T");
    assert_eq!(normalize_hotkey_string("Alt+Q").unwrap(), "Alt+Q");
    assert_eq!(normalize_hotkey_string("option+q").unwrap(), "Alt+Q");
    assert_eq!(normalize_hotkey_string("opt + q").unwrap(), "Alt+Q");
    assert_eq!(normalize_hotkey_string("cmd+shift+t").unwrap(), "Shift+Meta+T");
    assert_eq!(normalize_hotkey_string("win+super+meta+x").unwrap(), "Meta+X");
    assert_eq!(normalize_hotkey_string("CTRL+PGUP").unwrap(), "Ctrl+PageUp");
    assert_eq!(normalize_hotkey_string("shift+return").unwrap(), "Shift+Enter");
}

#[test]
fn canonical_form_is_a_fixed_point() {
    for m in ["ctrl+shift+t", "Option+Q", "cmd + SPACE", "win+f11", "alt+pgdn"] {
        let first = normalize_hotkey_string(m).unwrap();
        let second = normalize_hotkey_string(&first).unwrap();
        assert_eq!(first, second);
        assert_eq!(parse_hotkey(m).unwrap(), parse_hotkey(&first).unwrap());
    }
}

#[test]
fn rejection_set() {
    assert_eq!(parse_hotkey("Q"), Err(ParseError::NoModifier));
    assert_eq!(parse_hotkey("Ctrl+"), Err(ParseError::NoMainKey));
    assert_eq!(parse_hotkey("Ctrl+Alt+Q+W"), Err(ParseError::MultipleMainKeys));
    assert_eq!(parse_hotkey(""), Err(ParseError::EmptyInput));
    // The unknown token is reported case folded, as the grammar folds
    // every token before resolving it.
    assert_eq!(
        parse_hotkey("Ctrl+Banana"),
        Err(ParseError::UnknownKey(String::from("banana")))
    );
    assert_eq!(parse_hotkey("   "), Err(ParseError::EmptyInput));
    assert_eq!(parse_hotkey("ctrl+alt"), Err(ParseError::NoMainKey));
    // An unresolvable token is reported even when a main key was already
    // seen: MultipleMainKeys is only for a second resolvable key.
    assert_eq!(
        parse_hotkey("Ctrl+Q+Banana"),
        Err(ParseError::UnknownKey(String::from("banana")))
    );
}

#[test]
fn format_orders_modifiers_canonically() {
    let h = Hotkey { ctrl: true, alt: true, shift: true, meta: true, key: KeyName::A };
    assert_eq!(format_hotkey(&h), "Ctrl+Alt+Shift+Meta+A");
    let h2 = Hotkey { ctrl: false, alt: false, shift: false, meta: true, key: KeyName::F12 };
    assert_eq!(format_hotkey(&h2), "Meta+F12");
}

#[test]
fn hotkey_ids_distinguish_bindings() {
    let a = parse_hotkey("Ctrl+Q").unwrap();
    let b = parse_hotkey("Alt+Q").unwrap();
    let c = parse_hotkey("Ctrl+W").unwrap();
    assert_ne!(a.id(), b.id());
    assert_ne!(a.id(), c.id());
    assert_eq!(a.id(), parse_hotkey("control + q").unwrap().id());
}

#[test]
fn normalize_key_name_resolves_synonyms() {
    assert_eq!(normalize_key_name("q"), Some("Q"));
    assert_eq!(normalize_key_name("SPACE"), Some("Space"));
    assert_eq!(normalize_key_name("spacebar"), Some("Space"));
    assert_eq!(normalize_key_name("esc"), Some("Escape"));
    assert_eq!(normalize_key_name("pgdn"), Some("PageDown"));
    assert_eq!(normalize_key_name("banana"), None);
}

#[test]
fn registry_rejects_bad_mnemonics_before_touching_the_platform() {
    match HotkeyManager::new("Q") {
        Err(HotkeyError::Parse(e)) => assert_eq!(e, ParseError::NoModifier),
        _ => panic!("a bare key must be rejected as a parse error"),
    }
    match HotkeyManager::new("") {
        Err(HotkeyError::Parse(e)) => assert_eq!(e, ParseError::EmptyInput),
        _ => panic!("a blank mnemonic must be rejected as a parse error"),
    }
    assert_eq!(normalize_hotkey_string(DEFAULT_HOTKEY).unwrap(), "Alt+Q");
}
