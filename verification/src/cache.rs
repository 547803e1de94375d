//! The evaluation cache: what evaluating a file gave, by the file and by
//! the fingerprint of everything that the evaluation reads.

use vstd::prelude::*;
use crate::assoc::{distinct_keys, index_of, insert, lemma_index_of_at, lemma_insert_distinct, lookup};
use crate::diag::{clone_errors, views, Diagnostic, SourceDiagnostic};
use crate::file::{FileIdentity, FileIdentityView};
use crate::value::Module;

verus! {

/// What an evaluation gave, as contracts see it: the module, or the errors.
pub open spec fn outcome_view(outcome: Result<Module, Vec<SourceDiagnostic>>) -> Result<
    Module,
    Seq<Diagnostic>,
> {
    match outcome {
        Ok(module) => Ok(module),
        Err(errors) => Err(views(errors@)),
    }
}

/// Copies the outcome of an evaluation.
pub fn clone_outcome(outcome: &Result<Module, Vec<SourceDiagnostic>>) -> (copy: Result<
    Module,
    Vec<SourceDiagnostic>,
>)
    ensures
        outcome_view(copy) == outcome_view(*outcome),
{
    match outcome {
        Ok(module) => Ok(module.clone()),
        Err(errors) => Err(clone_errors(errors)),
    }
}

/// What the cache holds for a key.
#[derive(Debug, PartialEq)]
pub enum Slot {
    /// The evaluation has begun and has not ended yet.
    InFlight,
    /// The evaluation has ended with this outcome.
    Done(Result<Module, Vec<SourceDiagnostic>>),
}

/// What the cache holds for a key, as contracts see it.
pub enum SlotView {
    InFlight,
    Done(Result<Module, Seq<Diagnostic>>),
}

impl View for Slot {
    type V = SlotView;

    open spec fn view(&self) -> SlotView {
        match self {
            Slot::InFlight => SlotView::InFlight,
            Slot::Done(outcome) => SlotView::Done(outcome_view(*outcome)),
        }
    }
}

/// One entry of the cache.
#[derive(Debug, PartialEq)]
pub struct CacheEntry {
    /// The file that was evaluated.
    pub id: FileIdentity,
    /// The fingerprint of what the evaluation reads.
    pub fingerprint: u128,
    /// How far the evaluation is.
    pub slot: Slot,
}

/// The entries as pairs of a key and what is held for it.
pub open spec fn slots(entries: Seq<CacheEntry>) -> Seq<((FileIdentityView, u128), SlotView)> {
    Seq::new(entries.len(), |i: int| ((entries[i].id@, entries[i].fingerprint), entries[i].slot@))
}

/// What asking the cache for a key gives.
#[derive(Debug, PartialEq)]
pub enum Claim {
    /// The file was evaluated under this fingerprint: this is the outcome.
    Hit(Result<Module, Vec<SourceDiagnostic>>),
    /// The file is being evaluated under this fingerprint.
    Busy,
    /// The file was not evaluated under this fingerprint: the caller is to
    /// evaluate it, and the cache holds the key as in flight from now on.
    Start,
}

/// The outcomes of evaluations by file and fingerprint. Each key has at
/// most one entry, so at most one evaluation per key is in flight.
#[derive(Debug, PartialEq)]
pub struct Cache {
    entries: Vec<CacheEntry>,
}

impl View for Cache {
    type V = Seq<((FileIdentityView, u128), SlotView)>;

    closed spec fn view(&self) -> Seq<((FileIdentityView, u128), SlotView)> {
        slots(self.entries@)
    }
}

impl Cache {
    /// No key has two entries.
    #[verifier::type_invariant]
    pub open spec fn wf(self) -> bool {
        distinct_keys(self@)
    }

    /// The empty cache.
    pub fn new() -> (cache: Self)
        ensures
            cache@ == Seq::<((FileIdentityView, u128), SlotView)>::empty(),
            cache.wf(),
    {
        Cache { entries: Vec::new() }
    }

    /// The number of keys.
    pub fn len(&self) -> (len: usize)
        ensures
            len == self@.len(),
    {
        self.entries.len()
    }

    /// The position of a key.
    fn position(&self, id: &FileIdentity, fingerprint: u128) -> (found: Option<usize>)
        ensures
            found matches Some(i) ==> index_of(self@, (id@, fingerprint)) == Some(i as int) && i
                < self.entries@.len(),
            found is None ==> index_of(self@, (id@, fingerprint)) is None,
    {
        proof {
            use_type_invariant(self);
        }
        let mut i: usize = 0;
        while i < self.entries.len()
            invariant
                self.wf(),
                i <= self.entries.len(),
                forall|j: int| 0 <= j < i ==> (#[trigger] self@[j]).0 != (id@, fingerprint),
            decreases self.entries.len() - i,
        {
            if self.entries[i].fingerprint == fingerprint && self.entries[i].id.same(id) {
                proof {
                    assert(self@[i as int].0 == (id@, fingerprint));
                    lemma_index_of_at(self@, i as int);
                }
                return Some(i);
            }
            i += 1;
        }
        None
    }

    /// Stores a slot under a key.
    fn store(&mut self, id: FileIdentity, fingerprint: u128, slot: Slot)
        ensures
            final(self)@ == insert(old(self)@, (id@, fingerprint), slot@),
            final(self).wf(),
    {
        proof {
            use_type_invariant(&*self);
            lemma_insert_distinct(self@, (id@, fingerprint), slot@);
        }
        let found = self.position(&id, fingerprint);
        let mut taken = Cache::new();
        std::mem::swap(self, &mut taken);
        let mut entries = taken.entries;
        match found {
            Some(i) => {
                entries.set(i, CacheEntry { id, fingerprint, slot });
            },
            None => {
                entries.push(CacheEntry { id, fingerprint, slot });
            },
        }
        assert(slots(entries@) =~= insert(old(self)@, (id@, fingerprint), slot@));
        *self = Cache { entries };
    }

    /// Asks for the outcome of evaluating a file under a fingerprint. An
    /// outcome that the cache holds is handed out. If the evaluation is in
    /// flight, the cache says so. Otherwise the caller is to evaluate the
    /// file, and the key is in flight from now on.
    pub fn claim(&mut self, id: &FileIdentity, fingerprint: u128) -> (claim: Claim)
        ensures
            final(self).wf(),
            match lookup(old(self)@, (id@, fingerprint)) {
                Some(SlotView::Done(outcome)) => claim is Hit && outcome_view(claim->Hit_0)
                    == outcome && final(self)@ == old(self)@,
                Some(SlotView::InFlight) => claim is Busy && final(self)@ == old(self)@,
                None => claim is Start && final(self)@ == insert(
                    old(self)@,
                    (id@, fingerprint),
                    SlotView::InFlight,
                ),
            },
    {
        proof {
            use_type_invariant(&*self);
        }
        match self.position(id, fingerprint) {
            Some(i) => match &self.entries[i].slot {
                Slot::Done(outcome) => Claim::Hit(clone_outcome(outcome)),
                Slot::InFlight => Claim::Busy,
            },
            None => {
                self.store(id.clone(), fingerprint, Slot::InFlight);
                Claim::Start
            },
        }
    }

    /// Records the outcome of evaluating a file under a fingerprint. The
    /// evaluation is no longer in flight.
    pub fn complete(
        &mut self,
        id: FileIdentity,
        fingerprint: u128,
        outcome: Result<Module, Vec<SourceDiagnostic>>,
    )
        ensures
            final(self)@ == insert(
                old(self)@,
                (id@, fingerprint),
                SlotView::Done(outcome_view(outcome)),
            ),
            final(self).wf(),
    {
        self.store(id, fingerprint, Slot::Done(outcome));
    }
}

} // verus!
