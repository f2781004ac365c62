//! The comparison of entries in the currency of the standard library.

use vstd::prelude::*;
use std::cmp::Ordering;
use crate::entry::{entry_sign, PageListEntry};
use crate::sort::PageListSort;

verus! {

/// The sign that stands for an order: -1 for less, 0 for equal, 1 for greater.
pub open spec fn sign_of(o: Ordering) -> int {
    match o {
        Ordering::Less => -1,
        Ordering::Equal => 0,
        Ordering::Greater => 1,
    }
}

impl PageListEntry {
    /// The order of `self` and `other` under `sorter`. An optional key puts
    /// the entries that have it before those that lack it; a descending key
    /// reverses the outcome. Under the random key the outcome is drawn anew
    /// at every call, and is never `Equal`.
    pub fn compare(&self, other: &Self, sorter: &PageListSort, is_wikidata: bool) -> (r: Ordering)
        ensures
            *sorter is Random ==> r != Ordering::Equal,
            !(*sorter is Random) ==> sign_of(r) == entry_sign(self@, other@, *sorter, is_wikidata),
    {
        let sign = self.compare_sign(other, sorter, is_wikidata);
        if sign < 0 {
            Ordering::Less
        } else if sign > 0 {
            Ordering::Greater
        } else {
            Ordering::Equal
        }
    }
}

} // verus!
