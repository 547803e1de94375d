//! Description lists: terms with their descriptions.

use std::sync::Arc;
use vstd::prelude::*;
use crate::value::{Content, Value};

verus! {

/// A description list item.
#[derive(Debug, PartialEq)]
pub struct DescItem {
    /// The term described by the list item.
    pub term: Content,
    /// The description of the term.
    pub description: Content,
}

impl Clone for DescItem {
    fn clone(&self) -> (copy: Self)
        ensures
            copy == *self,
    {
        DescItem { term: self.term.clone(), description: self.description.clone() }
    }
}

impl DescItem {
    /// The item as a value: the list of its term and its description.
    pub open spec fn encoded(self) -> Seq<Value> {
        seq![Value::Content(self.term), Value::Content(self.description)]
    }

    /// Encodes the item into a value: the array of its term and its
    /// description.
    pub fn encode(&self) -> (value: Value)
        ensures
            value is Array,
            value->Array_0@ == self.encoded(),
    {
        let mut pair: Vec<Value> = Vec::new();
        pair.push(Value::Content(self.term.clone()));
        pair.push(Value::Content(self.description.clone()));
        assert(pair@ =~= self.encoded());
        Value::Array(Arc::new(pair))
    }
}

/// A list of terms and their descriptions.
#[derive(Debug, PartialEq)]
pub struct DescNode {
    /// If true, the items are separated by leading instead of list spacing.
    pub tight: bool,
    /// The items of the list.
    pub items: Vec<DescItem>,
}

/// The items as values.
pub open spec fn encoded_items(items: Seq<DescItem>) -> Seq<Seq<Value>> {
    Seq::new(items.len(), |i: int| items[i].encoded())
}

/// The arrays behind a list of values. A value that is no array counts as
/// the empty array.
pub open spec fn arrays(values: Seq<Value>) -> Seq<Seq<Value>> {
    Seq::new(
        values.len(),
        |i: int|
            match values[i] {
                Value::Array(array) => array@,
                _ => Seq::empty(),
            },
    )
}

impl DescNode {
    /// A description list of the given items. A list is tight unless it is
    /// said not to be.
    pub fn construct(tight: Option<bool>, items: Vec<DescItem>) -> (node: Self)
        ensures
            node.tight == match tight {
                Some(tight) => tight,
                None => true,
            },
            node.items == items,
    {
        let tight = match tight {
            Some(tight) => tight,
            None => true,
        };
        DescNode { tight, items }
    }

    /// The field of the list with the given name: `tight` is a boolean,
    /// `items` the array of the encoded items. There is no other field.
    pub fn field(&self, name: &str) -> (value: Option<Value>)
        ensures
            name@ == "tight"@ ==> value == Some(Value::Bool(self.tight)),
            name@ != "tight"@ && name@ == "items"@ ==> value is Some && value->0 is Array
                && value->0->Array_0@.len() == self.items@.len() && (forall|i: int|
                0 <= i < self.items@.len() ==> (#[trigger] value->0->Array_0@[i]) is Array)
                && arrays(value->0->Array_0@) == encoded_items(self.items@),
            name@ != "tight"@ && name@ != "items"@ ==> value is None,
    {
        if *name == *"tight" {
            Some(Value::Bool(self.tight))
        } else if *name == *"items" {
            let mut values: Vec<Value> = Vec::new();
            let mut i: usize = 0;
            while i < self.items.len()
                invariant
                    i <= self.items.len(),
                    values@.len() == i,
                    forall|j: int|
                        0 <= j < i ==> (#[trigger] values@[j]) is Array && values@[j]->Array_0@
                            == self.items@[j].encoded(),
                decreases self.items.len() - i,
            {
                values.push(self.items[i].encode());
                i += 1;
            }
            assert(arrays(values@) =~= encoded_items(self.items@));
            Some(Value::Array(Arc::new(values)))
        } else {
            None
        }
    }
}

} // verus!
