//! Sorting entries, and what a sorted result is.

use vstd::prelude::*;
use rayon::slice::ParallelSliceMut;
use crate::entry::{
    entry_sign, lemma_entry_sign_swap, lemma_entry_sign_transitive, EntryView, PageListEntry,
};
use crate::sort::PageListSort;

verus! {

/// Whether `p` names each position below `n` once.
pub open spec fn is_arrangement(p: Seq<int>, n: nat) -> bool {
    &&& p.len() == n
    &&& forall|i: int| 0 <= i < n ==> 0 <= #[trigger] p[i] < n
    &&& forall|i: int, j: int| 0 <= i < j < n ==> #[trigger] p[i] != #[trigger] p[j]
}

/// Whether `after` holds the entries of `before`, the one at position `i`
/// taken from position `p[i]`.
pub open spec fn arranged_by(before: Seq<EntryView>, after: Seq<EntryView>, p: Seq<int>) -> bool {
    &&& is_arrangement(p, before.len())
    &&& after.len() == before.len()
    &&& forall|i: int| 0 <= i < after.len() ==> #[trigger] after[i] == before[p[i]]
}

/// Whether `after` holds the entries of `before`, each as often, in some order.
pub open spec fn is_rearrangement(before: Seq<EntryView>, after: Seq<EntryView>) -> bool {
    exists|p: Seq<int>| arranged_by(before, after, p)
}

/// Whether the entries, taken from the positions `p`, stand in the order of
/// `sorter`, entries of equal rank in the order they had before.
pub open spec fn in_stable_order(
    after: Seq<EntryView>,
    p: Seq<int>,
    sorter: PageListSort,
    is_wikidata: bool,
) -> bool {
    forall|i: int, j: int|
        0 <= i < j < after.len() ==> entry_sign(
            #[trigger] after[i],
            #[trigger] after[j],
            sorter,
            is_wikidata,
        ) < 0 || (entry_sign(after[i], after[j], sorter, is_wikidata) == 0 && p[i] < p[j])
}

/// Whether `after` is `before` sorted by `sorter`, stably.
pub open spec fn stably_sorted(
    before: Seq<EntryView>,
    after: Seq<EntryView>,
    sorter: PageListSort,
    is_wikidata: bool,
) -> bool {
    exists|p: Seq<int>|
        arranged_by(before, after, p) && in_stable_order(after, p, sorter, is_wikidata)
}

/// Whether the comparison under `sorter` is a total preorder on the
/// entries: the key is not the random one, comparing two of them the other
/// way round gives the opposite outcome, and where one does not come after
/// a second, nor the second after a third, the first does not come after
/// the third.
pub open spec fn is_total_preorder(entries: Seq<EntryView>, sorter: PageListSort, is_wikidata: bool) -> bool {
    &&& !(sorter is Random)
    &&& forall|i: int, j: int|
        0 <= i < entries.len() && 0 <= j < entries.len() ==> entry_sign(
            #[trigger] entries[j],
            #[trigger] entries[i],
            sorter,
            is_wikidata,
        ) == -entry_sign(entries[i], entries[j], sorter, is_wikidata)
    &&& forall|i: int, j: int, k: int|
        0 <= i < entries.len() && 0 <= j < entries.len() && 0 <= k < entries.len() && entry_sign(
            #[trigger] entries[i],
            #[trigger] entries[j],
            sorter,
            is_wikidata,
        ) <= 0 && entry_sign(entries[j], #[trigger] entries[k], sorter, is_wikidata) <= 0
            ==> entry_sign(entries[i], entries[k], sorter, is_wikidata) <= 0
}

/// Under every key but the random one the comparison is a total preorder
/// on any entries.
pub proof fn lemma_total_preorder(entries: Seq<EntryView>, sorter: PageListSort, is_wikidata: bool)
    requires
        !(sorter is Random),
    ensures
        is_total_preorder(entries, sorter, is_wikidata),
{
    assert forall|i: int, j: int| 0 <= i < entries.len() && 0 <= j < entries.len() implies entry_sign(
        #[trigger] entries[j],
        #[trigger] entries[i],
        sorter,
        is_wikidata,
    ) == -entry_sign(entries[i], entries[j], sorter, is_wikidata) by {
        lemma_entry_sign_swap(entries[i], entries[j], sorter, is_wikidata);
    }
    assert forall|i: int, j: int, k: int|
        0 <= i < entries.len() && 0 <= j < entries.len() && 0 <= k < entries.len() && entry_sign(
            #[trigger] entries[i],
            #[trigger] entries[j],
            sorter,
            is_wikidata,
        ) <= 0 && entry_sign(
            entries[j],
            #[trigger] entries[k],
            sorter,
            is_wikidata,
        ) <= 0 implies entry_sign(entries[i], entries[k], sorter, is_wikidata) <= 0 by {
        lemma_entry_sign_transitive(entries[i], entries[j], entries[k], sorter, is_wikidata);
    }
}

/// `rayon::slice::ParallelSliceMut::par_sort_by`, with the comparison of
/// entries under `sorter`. The vector keeps its entries. Where the
/// comparison is a total preorder on them, they come out in its order, and
/// the sort is stable: entries that compare as equal keep their order.
/// Where it is none, nothing is known of the order.
#[verifier::external_body]
pub(crate) fn par_sort_entries(v: &mut Vec<PageListEntry>, sorter: &PageListSort, is_wikidata: bool)
    ensures
        is_rearrangement(old(v).deep_view(), final(v).deep_view()),
        is_total_preorder(old(v).deep_view(), *sorter, is_wikidata) ==> stably_sorted(
            old(v).deep_view(),
            final(v).deep_view(),
            *sorter,
            is_wikidata,
        ),
{
    v.par_sort_by(|a, b| a.compare(b, sorter, is_wikidata));
}

} // verus!
