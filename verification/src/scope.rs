//! Scopes: ordered maps from names to bindings.

use vstd::prelude::*;
use crate::assoc::{
    distinct_keys, index_of, insert, lemma_index_of_at, lemma_insert_distinct, lookup,
};
use crate::value::Binding;

verus! {

/// A name with its binding.
#[derive(Debug, PartialEq)]
pub struct Entry {
    /// The name.
    pub name: String,
    /// What the name is bound to.
    pub binding: Binding,
}

/// The entries as pairs of a name and its binding.
pub open spec fn pairs(entries: Seq<Entry>) -> Seq<(Seq<char>, Binding)> {
    Seq::new(entries.len(), |i: int| (entries[i].name@, entries[i].binding))
}

/// An ordered map from names to bindings. Names keep the order in which
/// they were first bound; binding a name again replaces what it was bound
/// to.
#[derive(Debug, PartialEq)]
pub struct Scope {
    entries: Vec<Entry>,
}

impl View for Scope {
    type V = Seq<(Seq<char>, Binding)>;

    closed spec fn view(&self) -> Seq<(Seq<char>, Binding)> {
        pairs(self.entries@)
    }
}

impl Clone for Scope {
    fn clone(&self) -> (copy: Self)
        ensures
            copy@ == self@,
    {
        proof {
            use_type_invariant(self);
        }
        let mut entries: Vec<Entry> = Vec::new();
        let mut i: usize = 0;
        while i < self.entries.len()
            invariant
                i <= self.entries.len(),
                entries@.len() == i,
                forall|j: int|
                    0 <= j < i ==> (#[trigger] entries@[j]).name@ == self.entries@[j].name@
                        && entries@[j].binding == self.entries@[j].binding,
            decreases self.entries.len() - i,
        {
            entries.push(
                Entry { name: self.entries[i].name.clone(), binding: self.entries[i].binding.clone() },
            );
            i += 1;
        }
        assert(pairs(entries@) =~= self@);
        Scope { entries }
    }
}

impl Scope {
    /// No name occurs twice.
    #[verifier::type_invariant]
    pub open spec fn wf(self) -> bool {
        distinct_keys(self@)
    }

    /// A scope without bindings.
    pub fn new() -> (scope: Self)
        ensures
            scope@ == Seq::<(Seq<char>, Binding)>::empty(),
            scope.wf(),
    {
        Scope { entries: Vec::new() }
    }

    /// The number of names.
    pub fn len(&self) -> (len: usize)
        ensures
            len == self@.len(),
    {
        self.entries.len()
    }

    /// The position of a name.
    fn position(&self, name: &str) -> (found: Option<usize>)
        ensures
            found matches Some(i) ==> index_of(self@, name@) == Some(i as int) && i < self@.len(),
            found is None ==> index_of(self@, name@) is None,
    {
        proof {
            use_type_invariant(self);
        }
        let mut i: usize = 0;
        while i < self.entries.len()
            invariant
                self.wf(),
                i <= self.entries.len(),
                forall|j: int| 0 <= j < i ==> (#[trigger] self@[j]).0 != name@,
            decreases self.entries.len() - i,
        {
            if *self.entries[i].name.as_str() == *name {
                proof {
                    assert(self@[i as int].0 == name@);
                    lemma_index_of_at(self@, i as int);
                }
                return Some(i);
            }
            i += 1;
        }
        None
    }

    /// The binding of a name, if it has one.
    pub fn get(&self, name: &str) -> (found: Option<&Binding>)
        ensures
            found is Some <==> lookup(self@, name@) is Some,
            found matches Some(binding) ==> lookup(self@, name@) == Some(*binding),
    {
        match self.position(name) {
            Some(i) => Some(&self.entries[i].binding),
            None => None,
        }
    }

    /// Binds a name. A name that is bound already keeps its place and gets
    /// the new binding; a new name goes behind all others.
    pub fn bind(&mut self, name: String, binding: Binding)
        ensures
            final(self)@ == insert(old(self)@, name@, binding),
            final(self).wf(),
    {
        proof {
            use_type_invariant(&*self);
            lemma_insert_distinct(self@, name@, binding);
        }
        let found = self.position(name.as_str());
        let mut taken = Scope::new();
        std::mem::swap(self, &mut taken);
        let mut entries = taken.entries;
        match found {
            Some(i) => {
                entries.set(i, Entry { name, binding });
            },
            None => {
                entries.push(Entry { name, binding });
            },
        }
        assert(pairs(entries@) =~= insert(old(self)@, name@, binding));
        *self = Scope { entries };
    }

    /// The names with their bindings, in the order of the scope.
    pub fn iter(&self) -> (items: Vec<(&str, &Binding)>)
        ensures
            items@.len() == self@.len(),
            forall|i: int|
                0 <= i < items@.len() ==> (#[trigger] items@[i]).0@ == self@[i].0 && *items@[i].1
                    == self@[i].1,
    {
        let mut items: Vec<(&str, &Binding)> = Vec::new();
        let mut i: usize = 0;
        while i < self.entries.len()
            invariant
                i <= self.entries.len(),
                items@.len() == i,
                forall|j: int|
                    0 <= j < i ==> (#[trigger] items@[j]).0@ == self@[j].0 && *items@[j].1
                        == self@[j].1,
            decreases self.entries.len() - i,
        {
            items.push((self.entries[i].name.as_str(), &self.entries[i].binding));
            i += 1;
        }
        items
    }
}

} // verus!
