//! The server's table of active hotkey registrations, replaced as a whole on each rebind.

use vstd::prelude::*;

use crate::key::{key_text, Key};
use crate::text::{decimal, decimal_of};

verus! {

/// One active registration: the id the operating system gave it, its key and its identifier.
#[derive(Debug, Clone)]
pub struct Registration {
    pub id: u32,
    pub key: Key,
    pub identifier: String,
}

/// Whether every outcome of a registration attempt succeeded.
pub open spec fn all_registered(outcomes: Seq<Result<u32, String>>) -> bool {
    forall|i: int| 0 <= i < outcomes.len() ==> (#[trigger] outcomes[i]) is Ok
}

/// How many registration attempts failed.
pub open spec fn failures(outcomes: Seq<Result<u32, String>>) -> nat
    decreases outcomes.len(),
{
    if outcomes.len() == 0 {
        0
    } else {
        failures(outcomes.drop_last()) + if outcomes.last() is Err {
            1nat
        } else {
            0nat
        }
    }
}

/// The ids of the attempts that succeeded, in order.
pub open spec fn registered_ids(outcomes: Seq<Result<u32, String>>) -> Seq<u32>
    decreases outcomes.len(),
{
    if outcomes.len() == 0 {
        Seq::empty()
    } else {
        let rest = registered_ids(outcomes.drop_last());
        match outcomes.last() {
            Ok(id) => rest.push(id),
            Err(_) => rest,
        }
    }
}

/// The registrations that a rebind keeps: one for every key, each identified by the key's
/// canonical text, when every attempt succeeded; none otherwise.
pub open spec fn rebind_result(keys: Seq<Key>, outcomes: Seq<Result<u32, String>>) -> Seq<(u32, Key, Seq<char>)> {
    if all_registered(outcomes) {
        Seq::new(keys.len(), |i: int| (outcomes[i]->Ok_0, keys[i], key_text(keys[i])))
    } else {
        Seq::empty()
    }
}

/// What the server answers to a completed rebind, and which ids it must release.
#[derive(Debug)]
pub struct RebindOutcome {
    /// `Ok` with the number of keys bound, or `Err` with the reason.
    pub reply: Result<String, String>,
    /// Registrations to undo because the rebind as a whole failed.
    pub release: Vec<u32>,
}

/// The operating-system registrations currently active, keyed by their ids.
#[derive(Debug)]
pub struct Registry {
    entries: Vec<Registration>,
}

impl Registry {
    /// The registrations as id, key and identifier.
    pub closed spec fn spec_entries(&self) -> Seq<(u32, Key, Seq<char>)> {
        self.entries@.map_values(|r: Registration| (r.id, r.key, r.identifier@))
    }

    /// An empty registry.
    pub fn new() -> (r: Registry)
        ensures
            r.spec_entries().len() == 0,
    {
        Registry { entries: Vec::new() }
    }

    /// How many registrations are active.
    pub fn len(&self) -> (r: usize)
        ensures
            r == self.spec_entries().len(),
    {
        self.entries.len()
    }

    /// The identifiers of the active registrations, in order.
    pub fn identifiers(&self) -> (r: Vec<String>)
        ensures
            r@.len() == self.spec_entries().len(),
            forall|i: int| 0 <= i < r@.len() ==> (#[trigger] r@[i])@ == self.spec_entries()[i].2,
    {
        let mut out: Vec<String> = Vec::new();
        let mut i: usize = 0;
        while i < self.entries.len()
            invariant
                i <= self.entries@.len(),
                out@.len() == i,
                forall|j: int| 0 <= j < i ==> (#[trigger] out@[j])@ == self.entries@[j].identifier@,
            decreases self.entries@.len() - i,
        {
            out.push(self.entries[i].identifier.clone());
            i = i + 1;
        }
        out
    }

    /// The identifier registered under `id`, for the callback of a pressed hotkey.
    pub fn identifier_of(&self, id: u32) -> (r: Option<String>)
        ensures
            match r {
                Some(s) => exists|i: int|
                    0 <= i < self.spec_entries().len() && (#[trigger] self.spec_entries()[i]).0 == id
                        && self.spec_entries()[i].2 == s@,
                None => forall|i: int|
                    0 <= i < self.spec_entries().len() ==> (#[trigger] self.spec_entries()[i]).0 != id,
            },
    {
        let mut i: usize = 0;
        while i < self.entries.len()
            invariant
                i <= self.entries@.len(),
                forall|j: int| 0 <= j < i ==> (#[trigger] self.entries@[j]).id != id,
            decreases self.entries@.len() - i,
        {
            if self.entries[i].id == id {
                let s = self.entries[i].identifier.clone();
                assert(self.spec_entries()[i as int].0 == id);
                return Some(s);
            }
            i = i + 1;
        }
        None
    }

    /// Empty the registry, handing back the registrations to release.
    pub fn take_all(&mut self) -> (r: Vec<Registration>)
        ensures
            final(self).spec_entries().len() == 0,
            r@.map_values(|x: Registration| (x.id, x.key, x.identifier@)) == old(self).spec_entries(),
    {
        let mut out: Vec<Registration> = Vec::new();
        std::mem::swap(&mut out, &mut self.entries);
        out
    }

    /// Complete a rebind of `keys` after each was tried with the operating system, in order,
    /// giving `outcomes`.
    ///
    /// The registry then holds every key when all attempts succeeded, and nothing otherwise:
    /// the ids that did register are handed back to be released.
    pub fn finish_rebind(&mut self, keys: &Vec<Key>, outcomes: &Vec<Result<u32, String>>) -> (r:
        RebindOutcome)
        requires
            old(self).spec_entries().len() == 0,
            keys@.len() == outcomes@.len(),
        ensures
            final(self).spec_entries() == rebind_result(keys@, outcomes@),
            all_registered(outcomes@) ==> (r.reply matches Ok(m) && m@ == "Successfully bound "@
                + decimal_of(keys@.len() as nat) + " hotkeys"@ && r.release@.len() == 0),
            !all_registered(outcomes@) ==> r.reply is Err && r.release@ == registered_ids(outcomes@),
    {
        let mut ok = true;
        let mut i: usize = 0;
        while i < outcomes.len()
            invariant
                i <= outcomes@.len(),
                ok == forall|j: int| 0 <= j < i ==> (#[trigger] outcomes@[j]) is Ok,
            decreases outcomes@.len() - i,
        {
            if outcomes[i].is_err() {
                ok = false;
            }
            i = i + 1;
        }
        if ok {
            let mut entries: Vec<Registration> = Vec::new();
            let mut k: usize = 0;
            while k < keys.len()
                invariant
                    k <= keys@.len() == outcomes@.len(),
                    all_registered(outcomes@),
                    entries@.map_values(|r: Registration| (r.id, r.key, r.identifier@)) =~= rebind_result(
                        keys@,
                        outcomes@,
                    ).take(k as int),
                decreases keys@.len() - k,
            {
                let id = match &outcomes[k] {
                    Ok(id) => *id,
                    Err(_) => 0,
                };
                assert(outcomes@[k as int] is Ok);
                let identifier = keys[k].to_string();
                let ghost before = entries@.map_values(|r: Registration| (r.id, r.key, r.identifier@));
                let ghost full = rebind_result(keys@, outcomes@);
                assert(full[k as int] == (id, keys@[k as int], identifier@));
                entries.push(Registration { id, key: keys[k], identifier });
                assert(entries@.map_values(|r: Registration| (r.id, r.key, r.identifier@)) =~= before.push(
                    full[k as int],
                ));
                assert(full.take(k + 1) =~= full.take(k as int).push(full[k as int]));
                k = k + 1;
            }
            self.entries = entries;
            assert(rebind_result(keys@, outcomes@).take(k as int) =~= rebind_result(keys@, outcomes@));
            let n = decimal(keys.len() as u64);
            let message = String::from_str("Successfully bound ").concat(n.as_str()).concat(" hotkeys");
            RebindOutcome { reply: Ok(message), release: Vec::new() }
        } else {
            let mut release: Vec<u32> = Vec::new();
            let mut failed: u64 = 0;
            let mut details = String::new();
            let mut k: usize = 0;
            assert(outcomes@.take(0) =~= Seq::<Result<u32, String>>::empty());
            while k < outcomes.len()
                invariant
                    k <= keys@.len() == outcomes@.len(),
                    release@ == registered_ids(outcomes@.take(k as int)),
                    failed <= k,
                decreases outcomes@.len() - k,
            {
                assert(outcomes@.take(k + 1).drop_last() =~= outcomes@.take(k as int));
                match &outcomes[k] {
                    Ok(id) => {
                        release.push(*id);
                    },
                    Err(e) => {
                        if failed > 0 {
                            details.append(", ");
                        }
                        let identifier = keys[k].to_string();
                        details.append(identifier.as_str());
                        details.append(" (");
                        details.append(e.as_str());
                        details.append(")");
                        failed = failed + 1;
                    },
                }
                k = k + 1;
            }
            assert(outcomes@.take(k as int) =~= outcomes@);
            self.entries = Vec::new();
            assert(rebind_result(keys@, outcomes@) =~= Seq::<(u32, Key, Seq<char>)>::empty());
            let message = String::from_str("Failed to bind ").concat(decimal(failed).as_str()).concat(
                " hotkeys: ",
            ).concat(details.as_str());
            RebindOutcome { reply: Err(message), release }
        }
    }
}

/// A rebind in which some attempt failed leaves no registration at all, never all but the
/// failed ones; one in which all succeeded leaves one registration per key.
pub proof fn lemma_rebind_atomic(keys: Seq<Key>, outcomes: Seq<Result<u32, String>>, i: int)
    requires
        keys.len() == outcomes.len(),
        0 <= i < outcomes.len(),
    ensures
        outcomes[i] is Err ==> rebind_result(keys, outcomes).len() == 0,
        all_registered(outcomes) ==> rebind_result(keys, outcomes).len() == keys.len(),
{
}

} // verus!
