use hotkey_manager::key::{Code, Key, Modifiers};
use hotkey_manager::Error;

#[test]
fn test_parse_simple_keys() {
    let key = Key::parse("a").unwrap();
    assert_eq!(key.code, Code::KeyA);
    assert_eq!(key.modifiers, None);

    let key = Key::parse("f1").unwrap();
    assert_eq!(key.code, Code::F1);
    assert_eq!(key.modifiers, None);

    let key = Key::parse("space").unwrap();
    assert_eq!(key.code, Code::Space);
    assert_eq!(key.modifiers, None);
}

#[test]
fn test_parse_with_modifiers() {
    let key = Key::parse("ctrl+a").unwrap();
    assert_eq!(key.code, Code::KeyA);
    assert_eq!(key.modifiers, Some(Modifiers::only_control()));

    let key = Key::parse("cmd+shift+n").unwrap();
    assert_eq!(key.code, Code::KeyN);
    assert_eq!(key.modifiers, Some(Modifiers::only_super() | Modifiers::only_shift()));

    let key = Key::parse("ctrl+alt+delete").unwrap();
    assert_eq!(key.code, Code::Delete);
    assert_eq!(key.modifiers, Some(Modifiers::only_control() | Modifiers::only_alt()));
}

#[test]
fn test_parse_alternative_names() {
    let key1 = Key::parse("control+a").unwrap();
    let key2 = Key::parse("ctrl+a").unwrap();
    assert_eq!(key1, key2);

    let key1 = Key::parse("cmd+a").unwrap();
    let key2 = Key::parse("super+a").unwrap();
    let key3 = Key::parse("win+a").unwrap();
    assert_eq!(key1, key2);
    assert_eq!(key2, key3);

    let key1 = Key::parse("option+a").unwrap();
    let key2 = Key::parse("alt+a").unwrap();
    assert_eq!(key1, key2);
}

#[test]
fn test_display() {
    let key = Key::parse("ctrl+a").unwrap();
    assert_eq!(key.to_string(), "ctrl+a");

    let key = Key::parse("cmd+shift+n").unwrap();
    assert_eq!(key.to_string(), "shift+cmd+n");

    let key = Key::parse("f1").unwrap();
    assert_eq!(key.to_string(), "f1");

    let key = Key::parse("ctrl+1").unwrap();
    assert_eq!(key.to_string(), "ctrl+1");

    let key = Key::parse("alt+tab").unwrap();
    assert_eq!(key.to_string(), "alt+tab");

    let key = Key::parse("cmd+space").unwrap();
    assert_eq!(key.to_string(), "cmd+space");
}

#[test]
fn test_from_str() {
    let key: Key = "ctrl+a".parse().unwrap();
    assert_eq!(key.code, Code::KeyA);
    assert_eq!(key.modifiers, Some(Modifiers::only_control()));
}

#[test]
fn test_parse_errors() {
    assert!(Key::parse("").is_err());
    assert!(Key::parse("ctrl+").is_err());
    assert!(Key::parse("unknown+a").is_err());
    assert!(Key::parse("ctrl+unknown").is_err());
}

#[test]
fn parse_ignores_case_of_names() {
    let key = Key::parse("CTRL+Shift+Escape").unwrap();
    assert_eq!(key.code, Code::Escape);
    assert_eq!(key.modifiers, Some(Modifiers::only_control() | Modifiers::only_shift()));
    assert_eq!(key.to_string(), "ctrl+shift+escape");
}

#[test]
fn parse_trims_pieces() {
    let key = Key::parse(" alt + pgup ").unwrap();
    assert_eq!(key, Key::new(Code::PageUp, Some(Modifiers::only_alt())));
}

#[test]
fn parse_aliases_of_codes() {
    assert_eq!(Key::parse("digit7").unwrap().code, Code::Digit7);
    assert_eq!(Key::parse("esc").unwrap().code, Code::Escape);
    assert_eq!(Key::parse("return").unwrap().code, Code::Enter);
    assert_eq!(Key::parse("page_down").unwrap().code, Code::PageDown);
    assert_eq!(Key::parse("arrowleft").unwrap().code, Code::ArrowLeft);
    assert_eq!(Key::parse("grave").unwrap().code, Code::Backquote);
    assert_eq!(Key::parse("\\").unwrap().code, Code::Backslash);
    assert_eq!(Key::parse("[").unwrap().code, Code::BracketLeft);
}

#[test]
fn parse_error_messages() {
    assert_eq!(
        Key::parse("ctrl+unknown"),
        Err(Error::InvalidKey("Unknown key code: unknown".to_string()))
    );
    assert_eq!(
        Key::parse("bad+a"),
        Err(Error::InvalidKey("Unknown modifier: bad".to_string()))
    );
    assert_eq!(
        Key::parse("ctrl+"),
        Err(Error::InvalidKey("Unknown key code: ".to_string()))
    );
    assert_eq!(
        Key::parse("bad+nokey"),
        Err(Error::InvalidKey("Unknown key code: nokey".to_string()))
    );
    let e = Key::parse("x+y+z").unwrap_err();
    assert_eq!(e.message(), "Invalid key: Unknown modifier: x");
}

#[test]
fn format_then_parse_gives_the_key_back() {
    let all = [
        Modifiers::empty(),
        Modifiers::only_control(),
        Modifiers::only_alt() | Modifiers::only_super(),
        Modifiers::only_control() | Modifiers::only_alt() | Modifiers::only_shift() | Modifiers::only_super(),
    ];
    let codes = [Code::KeyQ, Code::Digit0, Code::F12, Code::Backspace, Code::Slash, Code::ArrowDown];
    for code in codes {
        let plain = Key::new(code, None);
        assert_eq!(Key::parse(&plain.to_string()).unwrap(), plain);
        for m in all.iter().skip(1) {
            let k = Key::new(code, Some(*m));
            assert_eq!(Key::parse(&k.to_string()).unwrap(), k);
        }
    }
    let empty = Key::new(Code::KeyQ, Some(all[0]));
    assert_eq!(empty.to_string(), "q");
}

#[test]
fn modifiers_contain_and_empty() {
    let m = Modifiers::only_control() | Modifiers::only_shift();
    assert!(m.contains(Modifiers::only_control()));
    assert!(!m.contains(Modifiers::only_alt()));
    assert!(Modifiers::empty().is_empty());
    assert!(!m.is_empty());
}
