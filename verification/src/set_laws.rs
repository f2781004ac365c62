//! The algebra of the set operations on page lists.
//!
//! The laws are stated over the entry sequences of well-formed lists, and, as
//! the operations keep the annotations of one side only, up to the titles.

use vstd::prelude::*;
use crate::entry::EntryView;
use crate::pagelist::{
    common,
    distinct_titles,
    has_title,
    lemma_put,
    lemma_selected,
    partner_flags,
    position_of,
    proper_titles,
    put_all,
    selected_of,
    title_set,
    without,
};
use crate::title::TitleView;

verus! {

/// Putting a run of entries into a proper list gives a proper list that
/// holds the titles of both and no others.
pub proof fn lemma_put_all(a: Seq<EntryView>, b: Seq<EntryView>)
    requires
        distinct_titles(a),
    ensures
        distinct_titles(put_all(a, b)),
        forall|t: TitleView| has_title(put_all(a, b), t) <==> (has_title(a, t) || has_title(b, t)),
        proper_titles(a) && proper_titles(b) ==> proper_titles(put_all(a, b)),
        put_all(a, b).len() >= a.len(),
    decreases b.len(),
{
    if b.len() > 0 {
        let init = b.drop_last();
        lemma_put_all(a, init);
        let mid = put_all(a, init);
        lemma_put(mid, b.last());
        assert forall|t: TitleView| has_title(put_all(a, b), t) <==> (has_title(a, t) || has_title(
            b,
            t,
        )) by {
            if has_title(init, t) {
                let i = choose|i: int| 0 <= i < init.len() && (#[trigger] init[i]).title == t;
                assert(b[i].title == t);
            }
            if has_title(b, t) {
                let i = choose|i: int| 0 <= i < b.len() && (#[trigger] b[i]).title == t;
                if i < init.len() {
                    assert(init[i].title == t);
                }
            }
        }
        if proper_titles(a) && proper_titles(b) {
            assert forall|i: int| 0 <= i < init.len() implies (#[trigger] init[i]).title.wf() by {
                assert(init[i] == b[i]);
            }
            assert(b.last().title.wf());
        }
    } else {
        assert forall|t: TitleView| has_title(put_all(a, b), t) <==> (has_title(a, t) || has_title(
            b,
            t,
        )) by {}
    }
}

/// Merging into an empty list gives the other list as it is.
pub proof fn lemma_union_into_empty(b: Seq<EntryView>)
    requires
        distinct_titles(b),
    ensures
        put_all(Seq::<EntryView>::empty(), b) == b,
    decreases b.len(),
{
    if b.len() > 0 {
        let init = b.drop_last();
        assert(distinct_titles(init)) by {
            assert forall|i: int, j: int| 0 <= i < j < init.len() implies (#[trigger] init[i]).title
                != (#[trigger] init[j]).title by {
                assert(b[i].title != b[j].title);
            }
        }
        lemma_union_into_empty(init);
        assert(!has_title(init, b.last().title)) by {
            if has_title(init, b.last().title) {
                let i = choose|i: int|
                    0 <= i < init.len() && (#[trigger] init[i]).title == b.last().title;
                assert(b[i].title != b[b.len() - 1].title);
            }
        }
        assert(init.push(b.last()) =~= b);
    } else {
        assert(b =~= Seq::<EntryView>::empty());
    }
}

/// Union is commutative up to the titles: either way the result holds the
/// titles of both lists.
pub proof fn lemma_union_commutes(a: Seq<EntryView>, b: Seq<EntryView>)
    requires
        distinct_titles(a),
        distinct_titles(b),
    ensures
        title_set(put_all(a, b)) == title_set(put_all(b, a)),
        title_set(put_all(a, b)) == title_set(a).union(title_set(b)),
{
    lemma_put_all(a, b);
    lemma_put_all(b, a);
    assert forall|t: TitleView|
        title_set(put_all(a, b)).contains(t) <==> title_set(put_all(b, a)).contains(t) by {
        assert(has_title(put_all(a, b), t) <==> (has_title(a, t) || has_title(b, t)));
        assert(has_title(put_all(b, a), t) <==> (has_title(a, t) || has_title(b, t)));
    }
    assert forall|t: TitleView|
        title_set(put_all(a, b)).contains(t) <==> title_set(a).union(title_set(b)).contains(t) by {
        assert(has_title(put_all(a, b), t) <==> (has_title(a, t) || has_title(b, t)));
    }
    assert(title_set(put_all(a, b)) =~= title_set(put_all(b, a)));
    assert(title_set(put_all(a, b)) =~= title_set(a).union(title_set(b)));
}

/// Putting the first `k` entries of a proper list into it changes nothing.
proof fn lemma_put_own_prefix(a: Seq<EntryView>, k: int)
    requires
        distinct_titles(a),
        0 <= k <= a.len(),
    ensures
        put_all(a, a.take(k)) == a,
    decreases k,
{
    if k > 0 {
        lemma_put_own_prefix(a, k - 1);
        assert(a.take(k).drop_last() =~= a.take(k - 1));
        let e = a.take(k).last();
        assert(e == a[k - 1]);
        assert(has_title(a, e.title));
        let p = position_of(a, e.title);
        if p < k - 1 {
            assert(a[p].title != a[k - 1].title);
        } else if p > k - 1 {
            assert(a[k - 1].title != a[p].title);
        }
        assert(a.update(k - 1, e) =~= a);
    }
}

/// Union is idempotent: a list merged with itself is itself.
pub proof fn lemma_union_idempotent(a: Seq<EntryView>)
    requires
        distinct_titles(a),
    ensures
        put_all(a, a) == a,
{
    lemma_put_own_prefix(a, a.len() as int);
    assert(a.take(a.len() as int) =~= a);
}

/// The titles of an intersection are the titles that both lists hold.
pub proof fn lemma_intersection_titles(a: Seq<EntryView>, b: Seq<EntryView>)
    ensures
        title_set(common(a, b)) == title_set(a).intersect(title_set(b)),
        distinct_titles(a) ==> distinct_titles(common(a, b)),
{
    let flags = partner_flags(a, b, true);
    lemma_selected(a, flags, a.len() as int);
    assert forall|t: TitleView|
        title_set(common(a, b)).contains(t) <==> title_set(a).intersect(title_set(b)).contains(
            t,
        ) by {
        if has_title(common(a, b), t) {
            let i = choose|i: int| 0 <= i < a.len() && (#[trigger] a[i]).title == t && flags[i];
            assert(has_title(a, t));
            assert(has_title(b, t));
        }
        if has_title(a, t) && has_title(b, t) {
            let i = choose|i: int| 0 <= i < a.len() && (#[trigger] a[i]).title == t;
            assert(flags[i]);
        }
    }
    assert(title_set(common(a, b)) =~= title_set(a).intersect(title_set(b)));
}

/// Intersection is commutative up to the titles.
pub proof fn lemma_intersection_commutes(a: Seq<EntryView>, b: Seq<EntryView>)
    ensures
        title_set(common(a, b)) == title_set(common(b, a)),
{
    lemma_intersection_titles(a, b);
    lemma_intersection_titles(b, a);
    assert(title_set(a).intersect(title_set(b)) =~= title_set(b).intersect(title_set(a)));
}

/// Selecting every one of the first `n` entries gives those entries.
proof fn lemma_select_all(a: Seq<EntryView>, flags: Seq<bool>, n: int)
    requires
        0 <= n <= a.len(),
        flags.len() == a.len(),
        forall|i: int| 0 <= i < n ==> flags[i],
    ensures
        selected_of(a, flags, n) == a.take(n),
    decreases n,
{
    if n > 0 {
        lemma_select_all(a, flags, n - 1);
        assert(a.take(n - 1).push(a[n - 1]) =~= a.take(n));
    } else {
        assert(a.take(0) =~= Seq::<EntryView>::empty());
    }
}

/// Selecting none of the first `n` entries gives nothing.
proof fn lemma_select_none(a: Seq<EntryView>, flags: Seq<bool>, n: int)
    requires
        0 <= n <= a.len(),
        flags.len() == a.len(),
        forall|i: int| 0 <= i < n ==> !flags[i],
    ensures
        selected_of(a, flags, n) == Seq::<EntryView>::empty(),
    decreases n,
{
    if n > 0 {
        lemma_select_none(a, flags, n - 1);
    }
}

/// Intersection is idempotent: a list intersected with itself is itself.
pub proof fn lemma_intersection_idempotent(a: Seq<EntryView>)
    ensures
        common(a, a) == a,
{
    let flags = partner_flags(a, a, true);
    assert forall|i: int| 0 <= i < a.len() implies flags[i] by {
        assert(a[i].title == a[i].title);
        assert(has_title(a, a[i].title));
    }
    lemma_select_all(a, flags, a.len() as int);
    assert(a.take(a.len() as int) =~= a);
}

/// The titles of a difference are the titles of the first list that the
/// second lacks; so a difference is part of the first list.
pub proof fn lemma_difference_titles(a: Seq<EntryView>, b: Seq<EntryView>)
    ensures
        title_set(without(a, b)) == title_set(a).difference(title_set(b)),
        title_set(without(a, b)).subset_of(title_set(a)),
        distinct_titles(a) ==> distinct_titles(without(a, b)),
{
    let flags = partner_flags(a, b, false);
    lemma_selected(a, flags, a.len() as int);
    assert forall|t: TitleView|
        title_set(without(a, b)).contains(t) <==> title_set(a).difference(title_set(b)).contains(
            t,
        ) by {
        if has_title(without(a, b), t) {
            let i = choose|i: int| 0 <= i < a.len() && (#[trigger] a[i]).title == t && flags[i];
            assert(has_title(a, t));
            assert(!has_title(b, t));
        }
        if has_title(a, t) && !has_title(b, t) {
            let i = choose|i: int| 0 <= i < a.len() && (#[trigger] a[i]).title == t;
            assert(flags[i]);
        }
    }
    assert(title_set(without(a, b)) =~= title_set(a).difference(title_set(b)));
}

/// A list without its own entries is empty.
pub proof fn lemma_difference_with_self(a: Seq<EntryView>)
    ensures
        without(a, a) == Seq::<EntryView>::empty(),
{
    let flags = partner_flags(a, a, false);
    assert forall|i: int| 0 <= i < a.len() implies !flags[i] by {
        assert(a[i].title == a[i].title);
        assert(has_title(a, a[i].title));
    }
    lemma_select_none(a, flags, a.len() as int);
}

/// What is left of a union when the second list is taken away again was in
/// the first list.
pub proof fn lemma_union_then_difference(a: Seq<EntryView>, b: Seq<EntryView>)
    requires
        distinct_titles(a),
    ensures
        title_set(without(put_all(a, b), b)).subset_of(title_set(a)),
{
    lemma_put_all(a, b);
    lemma_difference_titles(put_all(a, b), b);
    assert forall|t: TitleView| title_set(without(put_all(a, b), b)).contains(t) implies title_set(
        a,
    ).contains(t) by {
        assert(title_set(put_all(a, b)).contains(t));
        assert(!title_set(b).contains(t));
    }
}

} // verus!
