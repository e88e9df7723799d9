use hotkey_manager::key::Key;
use hotkey_manager::mode::{Action, Attrs, Mode};
use hotkey_manager::state::{Handled, State};

fn key(s: &str) -> Key {
    Key::parse(s).unwrap()
}

fn plain() -> Attrs {
    Attrs::default()
}

fn sticky() -> Attrs {
    Attrs { noexit: true, global: false, hide: false }
}

fn global() -> Attrs {
    Attrs { noexit: false, global: true, hide: false }
}

fn hidden() -> Attrs {
    Attrs { noexit: false, global: false, hide: true }
}

fn mode(bindings: Vec<(&str, &str, Action, Attrs)>) -> Mode {
    Mode::from_bindings_with_attrs(
        bindings
            .into_iter()
            .map(|(k, d, a, t)| (key(k), d.to_string(), a, t))
            .collect(),
    )
}

fn nested(bindings: Vec<(&str, &str, Action, Attrs)>) -> Action {
    Action::Mode(mode(bindings))
}

fn shell(cmd: &str) -> Action {
    Action::shell(cmd)
}

#[test]
fn test_state_navigation() {
    let root = mode(vec![
        ("q", "Exit", Action::Exit, plain()),
        (
            "2",
            "Mode 2",
            nested(vec![
                ("p", "Back", Action::Pop, plain()),
                ("s", "Shell", shell("ls"), plain()),
                ("e", "Exit", Action::Exit, plain()),
            ]),
            plain(),
        ),
        ("h", "Hello", shell("echo hello"), plain()),
        ("p", "Pop", Action::Pop, plain()),
    ]);

    let mut state = State::new(root);

    assert_eq!(state.depth(), 0);
    state.handle_key(&key("q")).unwrap();
    assert_eq!(state.depth(), 0);
    state.handle_key(&key("h")).unwrap();
    assert_eq!(state.depth(), 0);

    state.handle_key(&key("2")).unwrap();
    assert_eq!(state.depth(), 1);

    state.handle_key(&key("s")).unwrap();
    assert_eq!(state.depth(), 0);

    state.handle_key(&key("2")).unwrap();
    state.handle_key(&key("e")).unwrap();
    assert_eq!(state.depth(), 0);

    state.handle_key(&key("2")).unwrap();
    state.handle_key(&key("p")).unwrap();
    assert_eq!(state.depth(), 0);

    state.handle_key(&key("q")).unwrap();

    state.handle_key(&key("p")).unwrap();
}

#[test]
fn test_state_reset() {
    let root = mode(vec![(
        "n",
        "Nested",
        nested(vec![("x", "Exit", Action::Exit, plain())]),
        plain(),
    )]);

    let mut state = State::new(root);

    state.handle_key(&key("n")).unwrap();
    assert_eq!(state.depth(), 1);

    state.reset();
    assert_eq!(state.depth(), 0);
}

#[test]
fn test_unknown_keys() {
    let root = mode(vec![("a", "Action", shell("test"), plain())]);

    let mut state = State::new(root);

    state.handle_key(&key("z")).unwrap();
    state.handle_key(&key("x")).unwrap();
}

#[test]
fn test_noexit_behavior() {
    let root = mode(vec![(
        "m",
        "Menu",
        nested(vec![
            ("n", "Normal", shell("echo normal"), plain()),
            ("s", "Sticky", shell("echo sticky"), sticky()),
            (
                "d",
                "Deep",
                nested(vec![
                    ("x", "Execute", shell("echo deep"), plain()),
                    ("y", "Sticky Deep", shell("echo sticky deep"), sticky()),
                ]),
                plain(),
            ),
        ]),
        plain(),
    )]);
    let mut state = State::new(root);

    state.handle_key(&key("m")).unwrap();
    assert_eq!(state.depth(), 1);

    state.handle_key(&key("n")).unwrap();
    assert_eq!(state.depth(), 0);

    state.handle_key(&key("m")).unwrap();
    assert_eq!(state.depth(), 1);

    state.handle_key(&key("s")).unwrap();
    assert_eq!(state.depth(), 1);

    state.handle_key(&key("d")).unwrap();
    assert_eq!(state.depth(), 2);

    state.handle_key(&key("x")).unwrap();
    assert_eq!(state.depth(), 0);

    state.handle_key(&key("m")).unwrap();
    state.handle_key(&key("d")).unwrap();
    assert_eq!(state.depth(), 2);

    state.handle_key(&key("y")).unwrap();
    assert_eq!(state.depth(), 2);
}

fn global_tree() -> Mode {
    mode(vec![
        ("g", "Global from root", shell("echo global root"), global()),
        ("r", "Regular root", shell("echo regular root"), plain()),
        (
            "m",
            "Menu",
            nested(vec![
                ("a", "Action A", shell("echo action a"), plain()),
                ("h", "Global from menu", shell("echo global menu"), global()),
                (
                    "s",
                    "Submenu",
                    nested(vec![
                        ("x", "Action X", shell("echo action x"), plain()),
                        ("p", "Pop", Action::Pop, plain()),
                    ]),
                    plain(),
                ),
                (
                    "t",
                    "Another submenu",
                    nested(vec![("y", "Action Y", shell("echo action y"), plain())]),
                    plain(),
                ),
            ]),
            plain(),
        ),
        (
            "n",
            "Another menu",
            nested(vec![("z", "Action Z", shell("echo action z"), plain())]),
            plain(),
        ),
    ])
}

#[test]
fn test_global_keys_behavior() {
    let mut state = State::new(global_tree());

    state.handle_key(&key("m")).unwrap();
    assert_eq!(state.depth(), 1);

    state.handle_key(&key("g")).unwrap();
    assert_eq!(state.depth(), 0);

    state.handle_key(&key("m")).unwrap();
    state.handle_key(&key("r")).unwrap();
    assert_eq!(state.depth(), 1);

    state.handle_key(&key("s")).unwrap();
    assert_eq!(state.depth(), 2);

    state.handle_key(&key("h")).unwrap();
    assert_eq!(state.depth(), 0);

    state.handle_key(&key("n")).unwrap();
    assert_eq!(state.depth(), 1);

    state.handle_key(&key("h")).unwrap();
    assert_eq!(state.depth(), 1);

    state.handle_key(&key("g")).unwrap();
    assert_eq!(state.depth(), 0);
}

#[test]
fn test_global_keys_in_keys_list() {
    let root = mode(vec![
        ("g", "Global from root", shell("echo global root"), global()),
        ("r", "Regular root", shell("echo regular root"), plain()),
        (
            "m",
            "Menu",
            nested(vec![
                ("a", "Action A", shell("echo action a"), plain()),
                ("h", "Global from menu", shell("echo global menu"), global()),
                (
                    "s",
                    "Submenu",
                    nested(vec![("x", "Action X", shell("echo action x"), plain())]),
                    plain(),
                ),
            ]),
            plain(),
        ),
    ]);
    let mut state = State::new(root);

    let root_keys = state.keys();
    assert_eq!(root_keys.len(), 3);

    state.handle_key(&key("m")).unwrap();
    let menu_keys = state.keys();
    assert_eq!(menu_keys.len(), 4);
    assert!(menu_keys.iter().any(|(k, _, _)| k.to_string() == "g"));
    assert!(menu_keys.iter().any(|(k, _, _)| k.to_string() == "a"));
    assert!(menu_keys.iter().any(|(k, _, _)| k.to_string() == "h"));
    assert!(menu_keys.iter().any(|(k, _, _)| k.to_string() == "s"));

    state.handle_key(&key("s")).unwrap();
    let submenu_keys = state.keys();
    assert_eq!(submenu_keys.len(), 3);
    assert!(submenu_keys.iter().any(|(k, _, _)| k.to_string() == "g"));
    assert!(submenu_keys.iter().any(|(k, _, _)| k.to_string() == "h"));
    assert!(submenu_keys.iter().any(|(k, _, _)| k.to_string() == "x"));
}

#[test]
fn test_global_keys_with_noexit() {
    let root = mode(vec![
        (
            "g",
            "Global sticky",
            shell("echo global"),
            Attrs { noexit: true, global: true, hide: false },
        ),
        (
            "m",
            "Menu",
            nested(vec![
                ("a", "Action A", shell("echo action a"), plain()),
                (
                    "s",
                    "Submenu",
                    nested(vec![("x", "Action X", shell("echo action x"), plain())]),
                    plain(),
                ),
            ]),
            plain(),
        ),
    ]);
    let mut state = State::new(root);

    state.handle_key(&key("m")).unwrap();
    state.handle_key(&key("s")).unwrap();
    assert_eq!(state.depth(), 2);

    state.handle_key(&key("g")).unwrap();
    assert_eq!(state.depth(), 2);
}

#[test]
fn test_hide_attribute() {
    let root = mode(vec![
        ("v", "Visible key", shell("echo visible"), plain()),
        ("h", "Hidden key", shell("echo hidden"), hidden()),
        (
            "g",
            "Global hidden",
            shell("echo global hidden"),
            Attrs { noexit: false, global: true, hide: true },
        ),
        (
            "m",
            "Menu",
            nested(vec![
                ("a", "Action A", shell("echo action a"), plain()),
                ("s", "Secret action", shell("echo secret"), hidden()),
            ]),
            plain(),
        ),
    ]);
    let mut state = State::new(root);

    state.handle_key(&key("h")).unwrap();
    assert_eq!(state.depth(), 0);

    let root_keys = state.keys();
    assert_eq!(root_keys.len(), 4);

    let visible_keys: Vec<_> = root_keys.iter().filter(|(_, _, attrs)| !attrs.hide).collect();
    assert_eq!(visible_keys.len(), 2);
    assert!(visible_keys.iter().any(|(k, _, _)| k.to_string() == "v"));
    assert!(visible_keys.iter().any(|(k, _, _)| k.to_string() == "m"));

    state.handle_key(&key("m")).unwrap();
    assert_eq!(state.depth(), 1);

    state.handle_key(&key("s")).unwrap();
    assert_eq!(state.depth(), 0);

    state.handle_key(&key("m")).unwrap();
    state.handle_key(&key("g")).unwrap();
    assert_eq!(state.depth(), 0);
}

#[test]
fn outcomes_report_command_mode_change_and_termination() {
    let root = mode(vec![
        ("m", "Menu", nested(vec![("c", "Copy", shell("copy"), plain())]), plain()),
        ("q", "Quit", Action::Exit, plain()),
    ]);
    let mut state = State::new(root);

    let h = state.handle_key(&key("m")).unwrap();
    assert_eq!(
        h,
        Handled { ran_command: None, changed_mode: true, terminated: false, recognized: true }
    );
    let h = state.handle_key(&key("c")).unwrap();
    assert_eq!(h.ran_command, Some("copy".to_string()));
    assert!(h.changed_mode);
    assert!(!h.terminated);
    let h = state.handle_key(&key("z")).unwrap();
    assert_eq!(h, Handled::new());
    assert!(!h.recognized);
    let h = state.handle_key(&key("q")).unwrap();
    assert!(h.terminated);
    assert!(!h.changed_mode);
}

#[test]
fn sticky_command_keeps_depth_and_plain_command_resets() {
    let root = mode(vec![(
        "m",
        "Menu",
        nested(vec![(
            "d",
            "Deeper",
            nested(vec![
                ("s", "Sticky", shell("s"), sticky()),
                ("n", "Normal", shell("n"), plain()),
            ]),
            plain(),
        )]),
        plain(),
    )]);
    let mut state = State::new(root);
    state.handle_key(&key("m")).unwrap();
    state.handle_key(&key("d")).unwrap();
    let h = state.handle_key(&key("s")).unwrap();
    assert_eq!(state.depth(), 2);
    assert!(!h.changed_mode);
    state.handle_key(&key("n")).unwrap();
    assert_eq!(state.depth(), 0);
}

#[test]
fn ascend_at_root_terminates() {
    let root = mode(vec![("b", "Back", Action::Pop, plain())]);
    let mut state = State::new(root);
    let h = state.handle_key(&key("b")).unwrap();
    assert!(h.terminated);
    assert_eq!(state.depth(), 0);
}

#[test]
fn sticky_exit_keeps_depth_but_terminates() {
    let root = mode(vec![(
        "m",
        "Menu",
        nested(vec![("q", "Quit", Action::Exit, sticky())]),
        plain(),
    )]);
    let mut state = State::new(root);
    state.handle_key(&key("m")).unwrap();
    let h = state.handle_key(&key("q")).unwrap();
    assert!(h.terminated);
    assert_eq!(state.depth(), 1);
}

#[test]
fn active_binding_shadows_global_one() {
    let root = mode(vec![
        ("x", "Root x", shell("root"), global()),
        ("m", "Menu", nested(vec![("x", "Menu x", shell("menu"), plain())]), plain()),
    ]);
    let mut state = State::new(root);
    state.handle_key(&key("m")).unwrap();
    let h = state.handle_key(&key("x")).unwrap();
    assert_eq!(h.ran_command, Some("menu".to_string()));
    state.handle_key(&key("m")).unwrap();
    let listed = state.keys();
    assert_eq!(listed.len(), 1);
    assert_eq!(listed[0].1, "Menu x");
}

#[test]
fn nearest_global_binding_wins() {
    let root = mode(vec![
        ("g", "Root g", shell("root"), global()),
        (
            "m",
            "Menu",
            nested(vec![
                ("g", "Menu g", shell("menu"), global()),
                ("s", "Sub", nested(vec![("x", "X", shell("x"), plain())]), plain()),
            ]),
            plain(),
        ),
    ]);
    let mut state = State::new(root);
    state.handle_key(&key("m")).unwrap();
    state.handle_key(&key("s")).unwrap();
    let listed = state.keys();
    assert_eq!(listed.len(), 2);
    assert_eq!(listed[1].1, "Menu g");
    let h = state.handle_key(&key("g")).unwrap();
    assert_eq!(h.ran_command, Some("menu".to_string()));
}

#[test]
fn global_binding_entering_a_mode_from_below() {
    let root = mode(vec![
        ("o", "Open", nested(vec![("k", "K", shell("k"), plain())]), global()),
        ("m", "Menu", nested(vec![("a", "A", shell("a"), plain())]), plain()),
    ]);
    let mut state = State::new(root);
    state.handle_key(&key("m")).unwrap();
    state.handle_key(&key("o")).unwrap();
    assert_eq!(state.depth(), 2);
    let h = state.handle_key(&key("k")).unwrap();
    assert_eq!(h.ran_command, Some("k".to_string()));
}

#[test]
fn same_keys_give_same_outcomes() {
    let presses = ["m", "s", "x", "m", "h", "n", "z", "g"];
    let mut first = State::new(global_tree());
    let mut second = State::new(global_tree());
    for p in presses {
        let a = first.handle_key(&key(p)).unwrap();
        let b = second.handle_key(&key(p)).unwrap();
        assert_eq!(a, b);
        assert_eq!(first.depth(), second.depth());
    }
}
