use hotkey_manager::key::Key;
use hotkey_manager::mode::{Action, Attrs, Mode, RawAction, RawMode};

fn key(s: &str) -> Key {
    Key::parse(s).unwrap()
}

fn raw(bindings: Vec<(&str, &str, RawAction, Attrs)>) -> RawMode {
    RawMode {
        keys: bindings
            .into_iter()
            .map(|(k, d, a, t)| (k.to_string(), d.to_string(), a, t))
            .collect(),
    }
}

#[test]
fn get_with_attrs_finds_first_binding() {
    let mode = Mode::from_bindings(vec![
        (key("q"), "Exit".to_string(), Action::Exit),
        (key("s"), "Shell".to_string(), Action::shell("echo hello")),
        (key("q"), "Second".to_string(), Action::Pop),
    ]);
    assert!(matches!(mode.get_with_attrs(&key("q")), Some((Action::Exit, _))));
    assert!(
        matches!(mode.get_with_attrs(&key("s")), Some((Action::Shell(cmd), _)) if cmd == "echo hello")
    );
    assert!(mode.get_with_attrs(&key("x")).is_none());
    let (_, attrs) = mode.get_with_attrs(&key("s")).unwrap();
    assert_eq!(*attrs, Attrs::default());
}

#[test]
fn keys_lists_text_and_descriptions() {
    let mode = Mode::from_bindings(vec![
        (key("ctrl+a"), "Select".to_string(), Action::shell("a")),
        (key("b"), "Bee".to_string(), Action::Pop),
    ]);
    assert_eq!(
        mode.keys(),
        vec![("ctrl+a".to_string(), "Select".to_string()), ("b".to_string(), "Bee".to_string())]
    );
    assert_eq!(mode.key_objects(), vec![key("ctrl+a"), key("b")]);
}

#[test]
fn from_raw_converts_nested_modes() {
    let tree = raw(vec![
        ("q", "Exit", RawAction::Exit, Attrs::default()),
        (
            "m",
            "Submenu",
            RawAction::Mode(raw(vec![("x", "Exit submenu", RawAction::Pop, Attrs::default())])),
            Attrs::default(),
        ),
        (
            "l",
            "Log",
            RawAction::Shell("git log".to_string()),
            Attrs { noexit: true, global: false, hide: false },
        ),
    ]);
    let mode = Mode::from_raw(&tree).unwrap();
    assert!(matches!(mode.get_with_attrs(&key("q")), Some((Action::Exit, _))));
    if let Some((Action::Mode(nested), _)) = mode.get_with_attrs(&key("m")) {
        assert!(matches!(nested.get_with_attrs(&key("x")), Some((Action::Pop, _))));
    } else {
        panic!("Expected nested mode");
    }
    let (action, attrs) = mode.get_with_attrs(&key("l")).unwrap();
    assert!(matches!(action, Action::Shell(cmd) if cmd == "git log"));
    assert!(attrs.noexit);
}

#[test]
fn from_raw_reports_invalid_key() {
    let tree = raw(vec![
        ("ctrl+a", "Valid", RawAction::Shell("valid".to_string()), Attrs::default()),
        ("bad+key", "Bad", RawAction::Shell("bad".to_string()), Attrs::default()),
    ]);
    assert_eq!(
        Mode::from_raw(&tree).unwrap_err(),
        "Invalid key 'bad+key': Invalid key: Unknown key code: key"
    );
}

#[test]
fn from_raw_reports_invalid_nested_key() {
    let tree = raw(vec![(
        "ctrl+1",
        "Level 1",
        RawAction::Mode(raw(vec![(
            "ctrl+2",
            "Level 2",
            RawAction::Mode(raw(vec![
                ("ctrl+3", "Level 3", RawAction::Shell("level3".to_string()), Attrs::default()),
                ("invalid", "Invalid", RawAction::Shell("invalid".to_string()), Attrs::default()),
            ])),
            Attrs::default(),
        )])),
        Attrs::default(),
    )]);
    let err = Mode::from_raw(&tree).unwrap_err();
    assert!(err.contains("Invalid key 'invalid'"));
}

fn shell(cmd: &str) -> RawAction {
    RawAction::Shell(cmd.to_string())
}

fn sub(bindings: Vec<(&str, &str, RawAction, Attrs)>) -> RawAction {
    RawAction::Mode(raw(bindings))
}

fn d() -> Attrs {
    Attrs::default()
}

fn noexit() -> Attrs {
    Attrs { noexit: true, global: false, hide: false }
}

#[test]
fn mode_test_mode() {
    let mode = Mode::from_raw(&raw(vec![
        ("q", "Exit", RawAction::Exit, d()),
        ("s", "Shell", shell("echo hello"), d()),
    ]))
    .unwrap();

    assert!(matches!(mode.get_with_attrs(&key("q")), Some((Action::Exit, _))));
    assert!(
        matches!(mode.get_with_attrs(&key("s")), Some((Action::Shell(cmd), _)) if cmd == "echo hello")
    );
    assert_eq!(mode.get_with_attrs(&key("x")), None);
}

#[test]
fn test_from_ron() {
    let mode = Mode::from_raw(&raw(vec![
        ("q", "Exit", RawAction::Exit, d()),
        ("s", "Shell", shell("echo hello"), d()),
        ("m", "Submenu", sub(vec![("x", "Exit submenu", RawAction::Pop, d())]), d()),
    ]))
    .unwrap();

    assert!(matches!(mode.get_with_attrs(&key("q")), Some((Action::Exit, _))));
    assert!(
        matches!(mode.get_with_attrs(&key("s")), Some((Action::Shell(cmd), _)) if cmd == "echo hello")
    );

    if let Some((Action::Mode(nested), _)) = mode.get_with_attrs(&key("m")) {
        assert!(matches!(nested.get_with_attrs(&key("x")), Some((Action::Pop, _))));
    } else {
        panic!("Expected nested mode");
    }
}

#[test]
fn mode_test_nested_modes() {
    let main_mode = Mode::from_raw(&raw(vec![
        ("q", "Exit", RawAction::Exit, d()),
        (
            "m",
            "Submenu",
            sub(vec![("x", "Exit", shell("exit"), d()), ("p", "Back", RawAction::Pop, d())]),
            d(),
        ),
    ]))
    .unwrap();

    assert!(matches!(main_mode.get_with_attrs(&key("q")), Some((Action::Exit, _))));

    if let Some((Action::Mode(nested), _)) = main_mode.get_with_attrs(&key("m")) {
        assert!(
            matches!(nested.get_with_attrs(&key("x")), Some((Action::Shell(cmd), _)) if cmd == "exit")
        );
    } else {
        panic!("Expected nested mode");
    }
}

#[test]
fn mode_test_ron_deserialization() {
    let written = raw(vec![
        ("q", "Exit", RawAction::Exit, d()),
        ("h", "Hello", shell("echo 'Hello World'"), d()),
        (
            "g",
            "Git",
            sub(vec![
                ("s", "Status", shell("git status"), d()),
                ("l", "Log", shell("git log"), noexit()),
                ("p", "Pull", shell("git pull"), d()),
                (
                    "c",
                    "Commit",
                    sub(vec![
                        ("m", "Message", shell("git commit -m 'Quick commit'"), d()),
                        ("a", "Amend", shell("git commit --amend"), d()),
                        ("p", "Back", RawAction::Pop, d()),
                    ]),
                    d(),
                ),
                ("q", "Back", RawAction::Pop, d()),
            ]),
            d(),
        ),
        (
            "f",
            "Files",
            sub(vec![
                ("l", "List", shell("ls -la"), d()),
                ("t", "Tree", shell("tree"), noexit()),
                ("q", "Back", RawAction::Pop, d()),
            ]),
            d(),
        ),
    ]);

    let commit_mode = Mode::from_bindings_with_attrs(vec![
        (key("m"), "Message".to_string(), Action::shell("git commit -m 'Quick commit'"), d()),
        (key("a"), "Amend".to_string(), Action::shell("git commit --amend"), d()),
        (key("p"), "Back".to_string(), Action::Pop, d()),
    ]);
    let git_mode = Mode::from_bindings_with_attrs(vec![
        (key("s"), "Status".to_string(), Action::shell("git status"), d()),
        (key("l"), "Log".to_string(), Action::shell("git log"), noexit()),
        (key("p"), "Pull".to_string(), Action::shell("git pull"), d()),
        (key("c"), "Commit".to_string(), Action::Mode(commit_mode), d()),
        (key("q"), "Back".to_string(), Action::Pop, d()),
    ]);
    let files_mode = Mode::from_bindings_with_attrs(vec![
        (key("l"), "List".to_string(), Action::shell("ls -la"), d()),
        (key("t"), "Tree".to_string(), Action::shell("tree"), noexit()),
        (key("q"), "Back".to_string(), Action::Pop, d()),
    ]);
    let expected = Mode::from_bindings_with_attrs(vec![
        (key("q"), "Exit".to_string(), Action::Exit, d()),
        (key("h"), "Hello".to_string(), Action::shell("echo 'Hello World'"), d()),
        (key("g"), "Git".to_string(), Action::Mode(git_mode), d()),
        (key("f"), "Files".to_string(), Action::Mode(files_mode), d()),
    ]);

    let deserialized = Mode::from_raw(&written).unwrap();
    assert_eq!(deserialized, expected);
}

#[test]
fn mode_test_attrs_deserialization() {
    let mode = Mode::from_raw(&raw(vec![
        ("a", "Action A", shell("echo a"), d()),
        ("b", "Action B", shell("echo b"), noexit()),
        ("c", "Action C", shell("echo c"), Attrs { noexit: false, global: false, hide: false }),
    ]))
    .unwrap();

    let (action_a, attrs_a) = mode.get_with_attrs(&key("a")).unwrap();
    assert!(matches!(action_a, Action::Shell(cmd) if cmd == "echo a"));
    assert!(!attrs_a.noexit);

    let (action_b, attrs_b) = mode.get_with_attrs(&key("b")).unwrap();
    assert!(matches!(action_b, Action::Shell(cmd) if cmd == "echo b"));
    assert!(attrs_b.noexit);

    let (action_c, attrs_c) = mode.get_with_attrs(&key("c")).unwrap();
    assert!(matches!(action_c, Action::Shell(cmd) if cmd == "echo c"));
    assert!(!attrs_c.noexit);
}

#[test]
fn modes_differing_deep_inside_are_unequal() {
    let a = Mode::from_bindings(vec![(
        key("m"),
        "M".to_string(),
        Action::Mode(Mode::from_bindings(vec![(key("x"), "X".to_string(), Action::shell("one"))])),
    )]);
    let b = Mode::from_bindings(vec![(
        key("m"),
        "M".to_string(),
        Action::Mode(Mode::from_bindings(vec![(key("x"), "X".to_string(), Action::shell("two"))])),
    )]);
    assert_ne!(a, b);
    assert_eq!(a, a);
}
