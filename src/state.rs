//! The mode stack: turns key presses into commands, mode changes and termination.

use vstd::prelude::*;

use crate::key::Key;
use crate::mode::{find_binding, find_in, Action, Attrs, Binding, Mode};

verus! {

/// What handling one key press did.
#[derive(Debug, Clone, PartialEq, Eq)]
pub struct Handled {
    /// The command that the pressed binding runs, if it runs one.
    pub ran_command: Option<String>,
    /// The active mode changed.
    pub changed_mode: bool,
    /// The session should end.
    pub terminated: bool,
    /// Some binding answered the key.
    pub recognized: bool,
}

/// The outcome for a key that no binding answers.
pub open spec fn unrecognized() -> Handled {
    Handled { ran_command: None, changed_mode: false, terminated: false, recognized: false }
}

impl Handled {
    /// The outcome for a key that no binding answers.
    pub fn new() -> (r: Handled)
        ensures
            r == unrecognized(),
    {
        Handled { ran_command: None, changed_mode: false, terminated: false, recognized: false }
    }
}

/// Where an entered mode's binding was found: the level of the mode holding it, and its index.
pub type Entry = (usize, usize);

/// The mode active at level `k` of the stack; level 0 is the root.
pub open spec fn mode_at(root: Mode, stack: Seq<Entry>, k: int) -> Mode
    decreases k,
{
    if k <= 0 || k > stack.len() {
        root
    } else {
        let src = stack[k - 1].0 as int;
        let b = stack[k - 1].1 as int;
        if src < k {
            match mode_at(root, stack, src).keys@[b].2 {
                Action::Mode(m) => m,
                _ => root,
            }
        } else {
            root
        }
    }
}

/// Whether every entry of the stack names a binding that enters a mode, held at or below it.
pub open spec fn stack_wf(root: Mode, stack: Seq<Entry>) -> bool {
    forall|k: int|
        #![trigger stack[k]]
        0 <= k < stack.len() ==> {
            &&& stack[k].0 <= k
            &&& stack[k].1 < mode_at(root, stack, stack[k].0 as int).keys@.len()
            &&& mode_at(root, stack, stack[k].0 as int).keys@[stack[k].1 as int].2 is Mode
        }
}

/// The first global binding for `key` among levels `k - 1` down to 0.
pub open spec fn global_lookup(root: Mode, stack: Seq<Entry>, key: Key, k: int) -> Option<(int, int)>
    decreases k,
{
    if k <= 0 {
        None
    } else {
        match find_binding(mode_at(root, stack, k - 1).keys@, key, true) {
            Some(i) => Some((k - 1, i)),
            None => global_lookup(root, stack, key, k - 1),
        }
    }
}

/// The binding that answers `key`: the first one of the active mode, or else the first global
/// one of the nearest mode below it that has one.
pub open spec fn lookup(root: Mode, stack: Seq<Entry>, key: Key) -> Option<(int, int)> {
    let d = stack.len() as int;
    match find_binding(mode_at(root, stack, d).keys@, key, false) {
        Some(i) => Some((d, i)),
        None => global_lookup(root, stack, key, d),
    }
}

/// The stack after a command or an exit: unchanged when sticky, else back at the root.
pub open spec fn after_action(stack: Seq<Entry>, attrs: Attrs) -> Seq<Entry> {
    if attrs.noexit {
        stack
    } else {
        Seq::empty()
    }
}

/// The new stack and the outcome of pressing `key`.
pub open spec fn step(root: Mode, stack: Seq<Entry>, key: Key) -> (Seq<Entry>, Handled) {
    match lookup(root, stack, key) {
        None => (stack, unrecognized()),
        Some((l, i)) => {
            let b = mode_at(root, stack, l).keys@[i];
            match b.2 {
                Action::Mode(_) => (
                    stack.push((l as usize, i as usize)),
                    Handled { ran_command: None, changed_mode: true, terminated: false, recognized: true },
                ),
                Action::Pop => if stack.len() == 0 {
                    (
                        stack,
                        Handled {
                            ran_command: None,
                            changed_mode: false,
                            terminated: true,
                            recognized: true,
                        },
                    )
                } else {
                    (
                        stack.drop_last(),
                        Handled {
                            ran_command: None,
                            changed_mode: true,
                            terminated: false,
                            recognized: true,
                        },
                    )
                },
                Action::Shell(cmd) => {
                    let next = after_action(stack, b.3);
                    (
                        next,
                        Handled {
                            ran_command: Some(cmd),
                            changed_mode: next.len() != stack.len(),
                            terminated: false,
                            recognized: true,
                        },
                    )
                },
                Action::Exit => {
                    let next = after_action(stack, b.3);
                    (
                        next,
                        Handled {
                            ran_command: None,
                            changed_mode: next.len() != stack.len(),
                            terminated: true,
                            recognized: true,
                        },
                    )
                },
            }
        },
    }
}

/// The stack and the outcomes after pressing each key of `keys` in turn.
pub open spec fn run(root: Mode, stack: Seq<Entry>, keys: Seq<Key>) -> (Seq<Entry>, Seq<Handled>)
    decreases keys.len(),
{
    if keys.len() == 0 {
        (stack, Seq::empty())
    } else {
        let (before, outcomes) = run(root, stack, keys.drop_last());
        let (after, h) = step(root, before, keys.last());
        (after, outcomes.push(h))
    }
}

/// A listed binding: its key, description and attributes.
pub type Listed = (Key, String, Attrs);

pub open spec fn listed_of(b: Binding) -> Listed {
    (b.0, b.1, b.3)
}

/// Whether `key` is already listed.
pub open spec fn has_key(listed: Seq<Listed>, key: Key) -> bool {
    exists|i: int| 0 <= i < listed.len() && (#[trigger] listed[i]).0 == key
}

/// `listed` followed by each global binding of `bs` whose key is not listed yet.
pub open spec fn add_globals(listed: Seq<Listed>, bs: Seq<Binding>) -> Seq<Listed>
    decreases bs.len(),
{
    if bs.len() == 0 {
        listed
    } else {
        let a = add_globals(listed, bs.drop_last());
        let b = bs.last();
        if b.3.global && !has_key(a, b.0) {
            a.push(listed_of(b))
        } else {
            a
        }
    }
}

/// `listed` followed by the unshadowed global bindings of levels `k - 1` down to 0.
pub open spec fn add_ancestors(root: Mode, stack: Seq<Entry>, listed: Seq<Listed>, k: int) -> Seq<
    Listed,
>
    decreases k,
{
    if k <= 0 {
        listed
    } else {
        add_ancestors(root, stack, add_globals(listed, mode_at(root, stack, k - 1).keys@), k - 1)
    }
}

/// The bindings in scope: every binding of the active mode, then the global bindings of the
/// modes below it, nearest first, each unless its key is already listed.
pub open spec fn scope(root: Mode, stack: Seq<Entry>) -> Seq<Listed> {
    let d = stack.len() as int;
    add_ancestors(root, stack, mode_at(root, stack, d).keys@.map_values(|b: Binding| listed_of(b)), d)
}

/// Levels up to `k` depend only on the first `k` entries of the stack.
pub proof fn lemma_mode_at_prefix(root: Mode, s1: Seq<Entry>, s2: Seq<Entry>, k: int)
    requires
        0 <= k <= s1.len(),
        k <= s2.len(),
        forall|j: int| 0 <= j < k ==> s1[j] == s2[j],
    ensures
        mode_at(root, s1, k) == mode_at(root, s2, k),
    decreases k,
{
    if k > 0 {
        let src = s1[k - 1].0 as int;
        if src < k {
            lemma_mode_at_prefix(root, s1, s2, src);
        }
    }
}

/// Whether `key` appears among the listed bindings.
fn listed_has(listed: &Vec<Listed>, key: &Key) -> (r: bool)
    ensures
        r == has_key(listed@, *key),
{
    let mut i: usize = 0;
    while i < listed.len()
        invariant
            i <= listed@.len(),
            forall|j: int| 0 <= j < i ==> (#[trigger] listed@[j]).0 != *key,
        decreases listed@.len() - i,
    {
        if listed[i].0 == *key {
            return true;
        }
        i = i + 1;
    }
    false
}

/// The stack of entered modes above a fixed root mode.
#[derive(Debug)]
pub struct State {
    root: Mode,
    mode_stack: Vec<Entry>,
}

impl State {
    /// The root mode.
    pub closed spec fn spec_root(&self) -> Mode {
        self.root
    }

    /// Where each entered mode's binding was found, outermost first.
    pub closed spec fn spec_stack(&self) -> Seq<Entry> {
        self.mode_stack@
    }

    /// Whether the stack only names bindings that enter modes.
    pub closed spec fn wf(&self) -> bool {
        stack_wf(self.root, self.mode_stack@)
    }

    /// A state at the root of `root`.
    pub fn new(root: Mode) -> (r: State)
        ensures
            r.wf(),
            r.spec_root() == root,
            r.spec_stack().len() == 0,
    {
        State { root, mode_stack: Vec::new() }
    }

    /// The mode active at level `k`.
    fn level(&self, k: usize) -> (r: &Mode)
        requires
            self.wf(),
            k <= self.mode_stack@.len(),
        ensures
            *r == mode_at(self.root, self.mode_stack@, k as int),
        decreases k,
    {
        if k == 0 {
            &self.root
        } else {
            let (src, b) = self.mode_stack[k - 1];
            assert(self.mode_stack@[k - 1] == (src, b));
            let parent = self.level(src);
            match &parent.keys[b].2 {
                Action::Mode(m) => m,
                _ => &self.root,
            }
        }
    }

    /// The level and index of the binding that answers `key`.
    fn find(&self, key: &Key) -> (r: Option<(usize, usize)>)
        requires
            self.wf(),
        ensures
            match r {
                Some((l, i)) => lookup(self.root, self.mode_stack@, *key) == Some((l as int, i as int))
                    && l <= self.mode_stack@.len() && i < mode_at(
                    self.root,
                    self.mode_stack@,
                    l as int,
                ).keys@.len(),
                None => lookup(self.root, self.mode_stack@, *key) is None,
            },
    {
        let d = self.mode_stack.len();
        let cur = self.level(d);
        if let Some(i) = find_in(cur, key, false) {
            return Some((d, i));
        }
        let mut k = d;
        while k > 0
            invariant
                self.wf(),
                k <= d == self.mode_stack@.len(),
                lookup(self.root, self.mode_stack@, *key) == global_lookup(
                    self.root,
                    self.mode_stack@,
                    *key,
                    k as int,
                ),
            decreases k,
        {
            let m = self.level(k - 1);
            if let Some(i) = find_in(m, key, true) {
                return Some((k - 1, i));
            }
            k = k - 1;
        }
        None
    }

    /// Handle one key press.
    ///
    /// The answering binding is the first one for `key` in the active mode, or else the first
    /// global one in the nearest mode below it. Entering a mode pushes it; popping at the root
    /// ends the session; a command is handed back to run and, unless sticky, returns to the
    /// root; exiting ends the session and, unless sticky, returns to the root.
    pub fn handle_key(&mut self, key: &Key) -> (r: Result<Handled, String>)
        requires
            old(self).wf(),
        ensures
            final(self).wf(),
            final(self).spec_root() == old(self).spec_root(),
            final(self).spec_stack() == step(old(self).spec_root(), old(self).spec_stack(), *key).0,
            r == Ok::<Handled, String>(step(old(self).spec_root(), old(self).spec_stack(), *key).1),
    {
        let ghost stack0 = self.mode_stack@;
        match self.find(key) {
            None => Ok(Handled::new()),
            Some((l, i)) => {
                let m = self.level(l);
                let b = &m.keys[i];
                let noexit = b.3.noexit;
                match &b.2 {
                    Action::Mode(_) => {
                        self.mode_stack.push((l, i));
                        proof {
                            let s = self.mode_stack@;
                            assert forall|k: int| 0 <= k < s.len() implies #[trigger] s[k].0 <= k
                                && s[k].1 < mode_at(self.root, s, s[k].0 as int).keys@.len()
                                && mode_at(self.root, s, s[k].0 as int).keys@[s[k].1 as int].2 is Mode by {
                                assert(s[k].0 <= k);
                                lemma_mode_at_prefix(self.root, stack0, s, s[k].0 as int);
                                if k < stack0.len() {
                                    assert(stack0[k] == s[k]);
                                }
                            }
                        }
                        Ok(
                            Handled {
                                ran_command: None,
                                changed_mode: true,
                                terminated: false,
                                recognized: true,
                            },
                        )
                    },
                    Action::Pop => {
                        if self.mode_stack.len() == 0 {
                            Ok(
                                Handled {
                                    ran_command: None,
                                    changed_mode: false,
                                    terminated: true,
                                    recognized: true,
                                },
                            )
                        } else {
                            self.mode_stack.pop();
                            proof {
                                let s = self.mode_stack@;
                                assert forall|k: int| 0 <= k < s.len() implies #[trigger] s[k].0 <= k
                                    && s[k].1 < mode_at(self.root, s, s[k].0 as int).keys@.len()
                                    && mode_at(self.root, s, s[k].0 as int).keys@[s[k].1 as int].2 is Mode by {
                                    assert(stack0[k] == s[k]);
                                    lemma_mode_at_prefix(self.root, stack0, s, s[k].0 as int);
                                }
                            }
                            Ok(
                                Handled {
                                    ran_command: None,
                                    changed_mode: true,
                                    terminated: false,
                                    recognized: true,
                                },
                            )
                        }
                    },
                    Action::Shell(cmd) => {
                        let command = cmd.clone();
                        let before = self.mode_stack.len();
                        if !noexit {
                            self.mode_stack.clear();
                        }
                        Ok(
                            Handled {
                                ran_command: Some(command),
                                changed_mode: self.mode_stack.len() != before,
                                terminated: false,
                                recognized: true,
                            },
                        )
                    },
                    Action::Exit => {
                        let before = self.mode_stack.len();
                        if !noexit {
                            self.mode_stack.clear();
                        }
                        Ok(
                            Handled {
                                ran_command: None,
                                changed_mode: self.mode_stack.len() != before,
                                terminated: true,
                                recognized: true,
                            },
                        )
                    },
                }
            },
        }
    }

    /// Return to the root mode.
    pub fn reset(&mut self)
        ensures
            final(self).wf(),
            final(self).spec_root() == old(self).spec_root(),
            final(self).spec_stack().len() == 0,
    {
        self.mode_stack.clear();
    }

    /// How many modes are entered above the root; 0 at the root.
    pub fn depth(&self) -> (r: usize)
        ensures
            r == self.spec_stack().len(),
    {
        self.mode_stack.len()
    }

    /// The bindings in scope: those of the active mode, then the unshadowed global bindings
    /// of the modes below it, nearest first. Hidden bindings are included.
    pub fn keys(&self) -> (r: Vec<Listed>)
        requires
            self.wf(),
        ensures
            r@ == scope(self.spec_root(), self.spec_stack()),
    {
        let d = self.mode_stack.len();
        let cur = self.level(d);
        let mut out: Vec<Listed> = Vec::new();
        let mut i: usize = 0;
        while i < cur.keys.len()
            invariant
                i <= cur.keys@.len(),
                out@ == cur.keys@.take(i as int).map_values(|b: Binding| listed_of(b)),
            decreases cur.keys@.len() - i,
        {
            let b = &cur.keys[i];
            out.push((b.0, b.1.clone(), b.3));
            assert(cur.keys@.take(i + 1).map_values(|b: Binding| listed_of(b)) =~= cur.keys@.take(
                i as int,
            ).map_values(|b: Binding| listed_of(b)).push(listed_of(cur.keys@[i as int])));
            i = i + 1;
        }
        assert(cur.keys@.take(i as int) =~= cur.keys@);
        let mut k = d;
        while k > 0
            invariant
                self.wf(),
                k <= d == self.mode_stack@.len(),
                scope(self.root, self.mode_stack@) == add_ancestors(
                    self.root,
                    self.mode_stack@,
                    out@,
                    k as int,
                ),
            decreases k,
        {
            let m = self.level(k - 1);
            let ghost start = out@;
            let mut j: usize = 0;
            assert(m.keys@.take(0) =~= Seq::<Binding>::empty());
            while j < m.keys.len()
                invariant
                    j <= m.keys@.len(),
                    out@ == add_globals(start, m.keys@.take(j as int)),
                decreases m.keys@.len() - j,
            {
                let b = &m.keys[j];
                assert(m.keys@.take(j + 1).drop_last() =~= m.keys@.take(j as int));
                if b.3.global && !listed_has(&out, &b.0) {
                    out.push((b.0, b.1.clone(), b.3));
                }
                j = j + 1;
            }
            assert(m.keys@.take(j as int) =~= m.keys@);
            k = k - 1;
        }
        out
    }
}

/// Dispatch is deterministic: from the same root and stack, the same keys reach the same
/// stack, hence the same depth, and give the same outcomes.
pub proof fn lemma_dispatch_deterministic(
    root1: Mode,
    stack1: Seq<Entry>,
    root2: Mode,
    stack2: Seq<Entry>,
    keys: Seq<Key>,
)
    requires
        root1 == root2,
        stack1 == stack2,
    ensures
        run(root1, stack1, keys) == run(root2, stack2, keys),
        run(root1, stack1, keys).0.len() == run(root2, stack2, keys).0.len(),
{
}

/// A command bound as sticky leaves the stack at its depth; any other command returns to
/// the root.
pub proof fn lemma_sticky_suppresses_reset(root: Mode, stack: Seq<Entry>, key: Key, l: int, i: int)
    requires
        lookup(root, stack, key) == Some((l, i)),
        mode_at(root, stack, l).keys@[i].2 is Shell,
    ensures
        mode_at(root, stack, l).keys@[i].3.noexit ==> step(root, stack, key).0 == stack,
        !mode_at(root, stack, l).keys@[i].3.noexit ==> step(root, stack, key).0.len() == 0,
        step(root, stack, key).1.ran_command is Some,
{
}

/// Popping with no mode entered ends the session and leaves the stack empty.
pub proof fn lemma_ascend_at_root_terminates(root: Mode, stack: Seq<Entry>, key: Key, l: int, i: int)
    requires
        stack.len() == 0,
        lookup(root, stack, key) == Some((l, i)),
        mode_at(root, stack, l).keys@[i].2 is Pop,
    ensures
        step(root, stack, key).1.terminated,
        step(root, stack, key).0.len() == 0,
{
}

/// A binding of the active mode answers its key, even where a mode below holds a global
/// binding for the same key.
pub proof fn lemma_local_binding_shadows_global(root: Mode, stack: Seq<Entry>, key: Key, i: int)
    requires
        find_binding(mode_at(root, stack, stack.len() as int).keys@, key, false) == Some(i),
    ensures
        lookup(root, stack, key) == Some((stack.len() as int, i)),
{
}

} // verus!
