//! Mode trees: ordered key bindings whose actions may enter nested modes.

use vstd::prelude::*;

use crate::error::Error;
use crate::key::{key_text, parse_key, Key};

verus! {

/// Attributes of one binding.
#[derive(Debug, Clone, Copy, PartialEq, Eq, Structural)]
pub struct Attrs {
    /// Sticky: running the binding's command does not return to the root mode.
    pub noexit: bool,
    /// The binding can be pressed from any mode entered below the one that defines it.
    pub global: bool,
    /// The binding is left out of listings of what can be pressed; it still dispatches.
    pub hide: bool,
}

impl Default for Attrs {
    fn default() -> (r: Attrs)
        ensures
            r == (Attrs { noexit: false, global: false, hide: false }),
    {
        Attrs { noexit: false, global: false, hide: false }
    }
}

/// What pressing a bound key does.
#[derive(Debug)]
pub enum Action {
    /// Run a shell command.
    Shell(String),
    /// Enter a nested mode.
    Mode(Mode),
    /// Return to the mode that was active before the current one.
    Pop,
    /// Leave the hotkey session.
    Exit,
}

impl Action {
    /// A `Shell` action running `cmd`.
    pub fn shell(cmd: &str) -> (r: Action)
        ensures
            r matches Action::Shell(c) && c@ == cmd@,
    {
        Action::Shell(String::from_str(cmd))
    }
}

/// One binding: the key, its description, its action and its attributes.
pub type Binding = (Key, String, Action, Attrs);

/// An ordered collection of key bindings.
#[derive(Debug)]
pub struct Mode {
    pub keys: Vec<Binding>,
}

/// Whether binding `b` answers `key`; with `global_only`, only a global binding does.
pub open spec fn answers(b: Binding, key: Key, global_only: bool) -> bool {
    b.0 == key && (!global_only || b.3.global)
}

/// Index of the first binding from `i` on that answers `key`.
pub open spec fn find_from(bs: Seq<Binding>, key: Key, global_only: bool, i: int) -> Option<int>
    decreases bs.len() - i,
{
    if i < 0 || i >= bs.len() {
        None
    } else if answers(bs[i], key, global_only) {
        Some(i)
    } else {
        find_from(bs, key, global_only, i + 1)
    }
}

/// Index of the first binding that answers `key`.
pub open spec fn find_binding(bs: Seq<Binding>, key: Key, global_only: bool) -> Option<int> {
    find_from(bs, key, global_only, 0)
}

/// The index of the first binding of `m` that answers `key`.
pub fn find_in(m: &Mode, key: &Key, global_only: bool) -> (r: Option<usize>)
    ensures
        match r {
            Some(i) => find_binding(m.keys@, *key, global_only) == Some(i as int) && i < m.keys@.len(),
            None => find_binding(m.keys@, *key, global_only) is None,
        },
{
    let mut i: usize = 0;
    while i < m.keys.len()
        invariant
            i <= m.keys@.len(),
            find_binding(m.keys@, *key, global_only) == find_from(m.keys@, *key, global_only, i as int),
        decreases m.keys@.len() - i,
    {
        let b = &m.keys[i];
        if b.0 == *key && (!global_only || b.3.global) {
            return Some(i);
        }
        i = i + 1;
    }
    None
}

impl Mode {
    /// A mode with no bindings.
    pub fn new() -> (r: Mode)
        ensures
            r.keys@.len() == 0,
    {
        Mode { keys: Vec::new() }
    }

    /// A mode with the given bindings, each with default attributes.
    pub fn from_bindings(bindings: Vec<(Key, String, Action)>) -> (r: Mode)
        ensures
            r.keys@.len() == bindings@.len(),
            forall|i: int|
                0 <= i < bindings@.len() ==> #[trigger] r.keys@[i] == (
                    bindings@[i].0,
                    bindings@[i].1,
                    bindings@[i].2,
                    Attrs { noexit: false, global: false, hide: false },
                ),
    {
        let mut keys: Vec<Binding> = Vec::new();
        let mut rest = bindings;
        let ghost all = rest@;
        while rest.len() > 0
            invariant
                keys@.len() + rest@.len() == all.len(),
                rest@ == all.skip(keys@.len() as int),
                forall|i: int|
                    0 <= i < keys@.len() ==> #[trigger] keys@[i] == (
                        all[i].0,
                        all[i].1,
                        all[i].2,
                        Attrs { noexit: false, global: false, hide: false },
                    ),
            decreases rest@.len(),
        {
            let ghost n = keys@.len() as int;
            let (k, d, a) = rest.remove(0);
            keys.push((k, d, a, Attrs { noexit: false, global: false, hide: false }));
            assert(rest@ =~= all.skip(n + 1));
        }
        Mode { keys }
    }

    /// A mode with the given bindings.
    pub fn from_bindings_with_attrs(bindings: Vec<Binding>) -> (r: Mode)
        ensures
            r.keys@ == bindings@,
    {
        Mode { keys: bindings }
    }

    /// The action and attributes of the first binding for `key`.
    pub fn get_with_attrs(&self, key: &Key) -> (r: Option<(&Action, &Attrs)>)
        ensures
            match find_binding(self.keys@, *key, false) {
                Some(i) => r matches Some((a, t)) && *a == self.keys@[i].2 && *t == self.keys@[i].3,
                None => r is None,
            },
    {
        match find_in(self, key, false) {
            Some(i) => {
                let b = &self.keys[i];
                Some((&b.2, &b.3))
            },
            None => None,
        }
    }

    /// The text and description of every binding, in order.
    pub fn keys(&self) -> (r: Vec<(String, String)>)
        ensures
            r@.len() == self.keys@.len(),
            forall|i: int|
                0 <= i < r@.len() ==> (#[trigger] r@[i]).0@ == key_text(self.keys@[i].0) && r@[i].1
                    == self.keys@[i].1,
    {
        let mut out: Vec<(String, String)> = Vec::new();
        let mut i: usize = 0;
        while i < self.keys.len()
            invariant
                i <= self.keys@.len(),
                out@.len() == i,
                forall|j: int|
                    0 <= j < i ==> (#[trigger] out@[j]).0@ == key_text(self.keys@[j].0) && out@[j].1
                        == self.keys@[j].1,
            decreases self.keys@.len() - i,
        {
            let b = &self.keys[i];
            out.push((b.0.to_string(), b.1.clone()));
            i = i + 1;
        }
        out
    }

    /// The key of every binding, in order.
    pub fn key_objects(&self) -> (r: Vec<Key>)
        ensures
            r@.len() == self.keys@.len(),
            forall|i: int| 0 <= i < r@.len() ==> #[trigger] r@[i] == self.keys@[i].0,
    {
        let mut out: Vec<Key> = Vec::new();
        let mut i: usize = 0;
        while i < self.keys.len()
            invariant
                i <= self.keys@.len(),
                out@.len() == i,
                forall|j: int| 0 <= j < i ==> #[trigger] out@[j] == self.keys@[j].0,
            decreases self.keys@.len() - i,
        {
            out.push(self.keys[i].0);
            i = i + 1;
        }
        out
    }
}

/// Whether two modes are equal: binding by binding, recursively through nested modes.
pub open spec fn same_mode(a: Mode, b: Mode) -> bool
    decreases a,
{
    &&& a.keys@.len() == b.keys@.len()
    &&& forall|i: int|
        0 <= i < a.keys@.len() ==> {
            &&& (#[trigger] a.keys@[i]).0 == b.keys@[i].0
            &&& a.keys@[i].1@ == b.keys@[i].1@
            &&& a.keys@[i].3 == b.keys@[i].3
            &&& match (a.keys@[i].2, b.keys@[i].2) {
                (Action::Shell(c), Action::Shell(d)) => c@ == d@,
                (Action::Mode(m), Action::Mode(n)) => same_mode(m, n),
                (Action::Pop, Action::Pop) => true,
                (Action::Exit, Action::Exit) => true,
                _ => false,
            }
        }
}

/// Whether two actions are equal, comparing nested modes binding by binding.
pub open spec fn same_action(a: Action, b: Action) -> bool {
    match (a, b) {
        (Action::Shell(c), Action::Shell(d)) => c@ == d@,
        (Action::Mode(m), Action::Mode(n)) => same_mode(m, n),
        (Action::Pop, Action::Pop) => true,
        (Action::Exit, Action::Exit) => true,
        _ => false,
    }
}

fn actions_equal(a: &Action, b: &Action) -> (r: bool)
    ensures
        r == same_action(*a, *b),
    decreases a,
{
    match (a, b) {
        (Action::Shell(c), Action::Shell(d)) => *c == *d,
        (Action::Mode(m), Action::Mode(n)) => modes_equal(m, n),
        (Action::Pop, Action::Pop) => true,
        (Action::Exit, Action::Exit) => true,
        _ => false,
    }
}

fn modes_equal(a: &Mode, b: &Mode) -> (r: bool)
    ensures
        r == same_mode(*a, *b),
    decreases a,
{
    if a.keys.len() != b.keys.len() {
        return false;
    }
    let mut i: usize = 0;
    while i < a.keys.len()
        invariant
            i <= a.keys@.len() == b.keys@.len(),
            forall|j: int|
                0 <= j < i ==> {
                    &&& (#[trigger] a.keys@[j]).0 == b.keys@[j].0
                    &&& a.keys@[j].1@ == b.keys@[j].1@
                    &&& a.keys@[j].3 == b.keys@[j].3
                    &&& same_action(a.keys@[j].2, b.keys@[j].2)
                },
        decreases a.keys@.len() - i,
    {
        let x = &a.keys[i];
        let y = &b.keys[i];
        proof {
            assert(decreases_to!(*a => a.keys@[i as int].2));
        }
        if !(x.0 == y.0 && x.1 == y.1 && x.3 == y.3 && actions_equal(&x.2, &y.2)) {
            return false;
        }
        i = i + 1;
    }
    true
}

impl PartialEq for Mode {
    fn eq(&self, other: &Mode) -> (r: bool)
        ensures
            r == same_mode(*self, *other),
    {
        modes_equal(self, other)
    }
}

impl vstd::std_specs::cmp::PartialEqSpecImpl for Mode {
    open spec fn obeys_eq_spec() -> bool {
        true
    }

    open spec fn eq_spec(&self, other: &Mode) -> bool {
        same_mode(*self, *other)
    }
}

impl PartialEq for Action {
    fn eq(&self, other: &Action) -> (r: bool)
        ensures
            r == same_action(*self, *other),
    {
        actions_equal(self, other)
    }
}

impl vstd::std_specs::cmp::PartialEqSpecImpl for Action {
    open spec fn obeys_eq_spec() -> bool {
        true
    }

    open spec fn eq_spec(&self, other: &Action) -> bool {
        same_action(*self, *other)
    }
}

/// A mode tree as written in a configuration file, with its keys still as text.
#[derive(Debug)]
pub struct RawMode {
    pub keys: Vec<RawBinding>,
}

/// A binding as written: key text, description, action and attributes.
pub type RawBinding = (String, String, RawAction, Attrs);

/// An action as written.
#[derive(Debug)]
pub enum RawAction {
    Shell(String),
    Mode(RawMode),
    Pop,
    Exit,
}

/// Whether `a` is the action written as `raw`; a nested mode is compared by its kind.
pub open spec fn action_mirrors(raw: RawAction, a: Action) -> bool {
    match (raw, a) {
        (RawAction::Shell(c), Action::Shell(d)) => c == d,
        (RawAction::Mode(_), Action::Mode(_)) => true,
        (RawAction::Pop, Action::Pop) => true,
        (RawAction::Exit, Action::Exit) => true,
        _ => false,
    }
}

/// Whether binding `b` is the binding written as `raw`, with its key parsed.
pub open spec fn binding_mirrors(raw: RawBinding, b: Binding) -> bool {
    &&& parse_key(raw.0@) == Ok::<Key, Seq<char>>(b.0)
    &&& b.1 == raw.1
    &&& action_mirrors(raw.2, b.2)
    &&& b.3 == raw.3
}

/// The message reporting that key text `k` is invalid, given the parser's message.
pub open spec fn invalid_key_message(k: Seq<char>, msg: Seq<char>) -> Seq<char> {
    "Invalid key '"@ + k + "': "@ + "Invalid key: "@ + msg
}

/// The message for the first key of `bs` that does not parse, if any.
pub open spec fn first_invalid_key(bs: Seq<RawBinding>, i: int) -> Option<Seq<char>>
    decreases bs.len() - i,
{
    if i < 0 || i >= bs.len() {
        None
    } else {
        match parse_key(bs[i].0@) {
            Err(msg) => Some(invalid_key_message(bs[i].0@, msg)),
            Ok(_) => first_invalid_key(bs, i + 1),
        }
    }
}

/// Whether `m` is the mode written as `raw`: every binding mirrors the written one, and every
/// nested mode is in turn the one written.
pub open spec fn converts(raw: RawMode, m: Mode) -> bool
    decreases raw,
{
    &&& raw.keys@.len() == m.keys@.len()
    &&& forall|i: int|
        0 <= i < raw.keys@.len() ==> {
            &&& binding_mirrors(#[trigger] raw.keys@[i], m.keys@[i])
            &&& (raw.keys@[i].2 matches RawAction::Mode(rm) ==> (m.keys@[i].2 matches Action::Mode(
                mm,
            ) && converts(rm, mm)))
        }
}

/// The first error among the nested modes of bindings `i` onward.
pub open spec fn nested_error(raw: RawMode, i: int) -> Option<Seq<char>>
    decreases raw, raw.keys@.len() - i,
{
    if i < 0 || i >= raw.keys@.len() {
        None
    } else {
        match raw.keys@[i].2 {
            RawAction::Mode(rm) => match tree_error(rm) {
                Some(e) => Some(e),
                None => nested_error(raw, i + 1),
            },
            _ => nested_error(raw, i + 1),
        }
    }
}

/// The error that converting a written mode tree reports, if any: nested modes are examined
/// first, in order, then the keys of the mode itself.
pub open spec fn tree_error(raw: RawMode) -> Option<Seq<char>>
    decreases raw, raw.keys@.len() + 1,
{
    match nested_error(raw, 0) {
        Some(e) => Some(e),
        None => first_invalid_key(raw.keys@, 0),
    }
}

/// Whether `a` is the action written as `raw`, nested modes included.
pub open spec fn action_converts(raw: RawAction, a: Action) -> bool {
    &&& action_mirrors(raw, a)
    &&& (raw matches RawAction::Mode(rm) ==> (a matches Action::Mode(mm) && converts(rm, mm)))
}

impl RawAction {
    /// Convert a written action, converting a nested mode.
    fn convert(&self) -> (r: Result<Action, String>)
        ensures
            match *self {
                RawAction::Mode(rm) => match tree_error(rm) {
                    Some(e) => r matches Err(x) && x@ == e,
                    None => r matches Ok(a) && action_converts(*self, a),
                },
                _ => r matches Ok(a) && action_converts(*self, a),
            },
        decreases self,
    {
        match self {
            RawAction::Shell(c) => Ok(Action::Shell(c.clone())),
            RawAction::Mode(m) => match Mode::from_raw(m) {
                Ok(nested) => Ok(Action::Mode(nested)),
                Err(e) => Err(e),
            },
            RawAction::Pop => Ok(Action::Pop),
            RawAction::Exit => Ok(Action::Exit),
        }
    }
}

impl Mode {
    /// Convert a written mode tree, parsing every key.
    ///
    /// Nested modes are converted first, in order, then the keys of this mode in order; the
    /// first key that does not parse is reported with its text.
    pub fn from_raw(raw: &RawMode) -> (r: Result<Mode, String>)
        ensures
            match tree_error(*raw) {
                Some(e) => r matches Err(x) && x@ == e,
                None => r matches Ok(m) && converts(*raw, m),
            },
        decreases raw,
    {
        let mut actions: Vec<Action> = Vec::new();
        let mut i: usize = 0;
        while i < raw.keys.len()
            invariant
                i <= raw.keys@.len(),
                actions@.len() == i,
                nested_error(*raw, 0) == nested_error(*raw, i as int),
                forall|j: int|
                    0 <= j < i ==> action_converts(raw.keys@[j].2, #[trigger] actions@[j]),
            decreases raw.keys@.len() - i,
        {
            proof {
                assert(decreases_to!(raw => raw.keys@[i as int].2));
            }
            match raw.keys[i].2.convert() {
                Ok(a) => actions.push(a),
                Err(e) => {
                    return Err(e);
                },
            }
            i = i + 1;
        }
        let mut keys: Vec<Binding> = Vec::new();
        let mut rest = actions;
        let mut k: usize = 0;
        while k < raw.keys.len()
            invariant
                k <= raw.keys@.len(),
                keys@.len() == k,
                rest@.len() == raw.keys@.len() - k,
                nested_error(*raw, 0) is None,
                forall|j: int|
                    0 <= j < rest@.len() ==> action_converts(raw.keys@[k + j].2, #[trigger] rest@[j]),
                forall|j: int|
                    0 <= j < k ==> binding_mirrors(raw.keys@[j], #[trigger] keys@[j])
                        && action_converts(raw.keys@[j].2, keys@[j].2),
                first_invalid_key(raw.keys@, 0) == first_invalid_key(raw.keys@, k as int),
            decreases raw.keys@.len() - k,
        {
            let b = &raw.keys[k];
            let key = match Key::parse(b.0.as_str()) {
                Ok(key) => key,
                Err(e) => {
                    let detail = e.message();
                    let message = String::from_str("Invalid key '").concat(b.0.as_str()).concat(
                        "': ",
                    ).concat(detail.as_str());
                    proof {
                        let ghost msg = parse_key(b.0@)->Err_0;
                        assert(message@ =~= invalid_key_message(b.0@, msg));
                    }
                    return Err(message);
                },
            };
            let ghost before = rest@;
            let a = rest.remove(0);
            assert(forall|j: int| 0 <= j < rest@.len() ==> rest@[j] == before[j + 1]);
            keys.push((key, b.1.clone(), a, b.3));
            k = k + 1;
        }
        let m = Mode { keys };
        assert forall|j: int| 0 <= j < raw.keys@.len() implies {
            &&& binding_mirrors(#[trigger] raw.keys@[j], m.keys@[j])
            &&& (raw.keys@[j].2 matches RawAction::Mode(rm) ==> (m.keys@[j].2 matches Action::Mode(
                mm,
            ) && converts(rm, mm)))
        } by {
            assert(action_converts(raw.keys@[j].2, m.keys@[j].2));
        }
        Ok(m)
    }
}

} // verus!
