//! Small operations on text that the rest of the crate shares.

use vstd::prelude::*;

verus! {

/// The views of a sequence's items, in order.
pub open spec fn views<T: View>(items: Seq<T>) -> Seq<T::V> {
    Seq::new(items.len(), |i: int| items[i]@)
}

/// Whether two pieces of text hold the same characters.
pub fn same_text(a: &str, b: &str) -> (same: bool)
    ensures
        same == (a@ == b@),
{
    a.to_owned() == b.to_owned()
}

/// Whether `wanted` is one of `items`.
pub fn contains_text(items: &Vec<String>, wanted: &str) -> (found: bool)
    ensures
        found == views(items@).contains(wanted@),
{
    let mut i: usize = 0;
    while i < items.len()
        invariant
            i <= items.len(),
            forall|k: int| 0 <= k < i ==> views(items@)[k] != wanted@,
        decreases items.len() - i,
    {
        if same_text(items[i].as_str(), wanted) {
            assert(views(items@)[i as int] == wanted@);
            return true;
        }
        i = i + 1;
    }
    false
}

/// Whether every one of `wanted` is among `items`.
pub open spec fn contains_all(items: Seq<Seq<char>>, wanted: Seq<Seq<char>>) -> bool {
    forall|k: int| 0 <= k < wanted.len() ==> items.contains(#[trigger] wanted[k])
}

/// Whether every one of `wanted` is among `items`.
pub fn contains_all_texts(items: &Vec<String>, wanted: &Vec<String>) -> (all: bool)
    ensures
        all == contains_all(views(items@), views(wanted@)),
{
    let mut i: usize = 0;
    while i < wanted.len()
        invariant
            i <= wanted.len(),
            forall|k: int| 0 <= k < i ==> views(items@).contains(#[trigger] views(wanted@)[k]),
        decreases wanted.len() - i,
    {
        if !contains_text(items, wanted[i].as_str()) {
            assert(!views(items@).contains(views(wanted@)[i as int]));
            return false;
        }
        i = i + 1;
    }
    true
}

/// A copy of `items` that holds the same texts in the same order.
pub fn copy_texts(items: &Vec<String>) -> (copy: Vec<String>)
    ensures
        views(copy@) == views(items@),
{
    let mut copy: Vec<String> = Vec::new();
    let mut i: usize = 0;
    while i < items.len()
        invariant
            i <= items.len(),
            copy@.len() == i,
            forall|k: int| 0 <= k < i ==> copy@[k]@ == items@[k]@,
        decreases items.len() - i,
    {
        copy.push(items[i].clone());
        i = i + 1;
    }
    assert(views(copy@) =~= views(items@));
    copy
}

} // verus!
