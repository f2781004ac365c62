//! Page lists as query fragments: the titles grouped by namespace and cut
//! into chunks, each chunk a condition with one placeholder for each title.

use vstd::prelude::*;
use crate::entry::{EntryView, PageListEntry};
use crate::numeral::{decimal_of, push_decimal};
use crate::pagelist::PageList;
use crate::sql::{get_questionmarks, question_marks, SQLtuple};
use crate::text::{push_str, string_of};
use crate::title::{database_form, NamespaceID};

verus! {

/// A namespace with the titles of the entries that lie in it, in database form.
pub type NamespaceGroup = (NamespaceID, Vec<String>);

/// The namespaces that occur among the entries, each once, in the order in
/// which they first occur.
pub open spec fn namespaces_of(entries: Seq<EntryView>) -> Seq<NamespaceID>
    decreases entries.len(),
{
    if entries.len() == 0 {
        Seq::<NamespaceID>::empty()
    } else {
        let init = namespaces_of(entries.drop_last());
        if init.contains(entries.last().title.namespace_id) {
            init
        } else {
            init.push(entries.last().title.namespace_id)
        }
    }
}

/// The titles, in database form, of the entries that lie in the namespace `ns`.
pub open spec fn titles_in(entries: Seq<EntryView>, ns: NamespaceID) -> Seq<Seq<char>>
    decreases entries.len(),
{
    if entries.len() == 0 {
        Seq::<Seq<char>>::empty()
    } else {
        let init = titles_in(entries.drop_last(), ns);
        if entries.last().title.namespace_id == ns {
            init.push(database_form(entries.last().title.title))
        } else {
            init
        }
    }
}

/// The entries' titles by namespace.
pub open spec fn grouped(entries: Seq<EntryView>) -> Seq<(NamespaceID, Seq<Seq<char>>)> {
    Seq::new(
        namespaces_of(entries).len(),
        |i: int| (namespaces_of(entries)[i], titles_in(entries, namespaces_of(entries)[i])),
    )
}

/// The condition that selects the pages of namespace `ns` with one of `count` titles.
pub open spec fn fragment(ns: NamespaceID, count: nat) -> Seq<char> {
    "(page_namespace="@ + decimal_of(ns as int) + " AND page_title IN("@ + question_marks(count)
        + "))"@
}

/// The fragment for one chunk of titles: the condition, and the titles that
/// fill its placeholders.
pub open spec fn batch_of(ns: NamespaceID, chunk: Seq<Seq<char>>) -> (Seq<char>, Seq<Seq<char>>) {
    (fragment(ns, chunk.len()), chunk)
}

/// The fragments for the titles of one namespace, cut into chunks of `n`
/// titles, the last one possibly shorter.
pub open spec fn chunk_batches(ns: NamespaceID, titles: Seq<Seq<char>>, n: nat) -> Seq<
    (Seq<char>, Seq<Seq<char>>),
>
    decreases titles.len(),
{
    if titles.len() == 0 || n == 0 {
        Seq::empty()
    } else if titles.len() <= n {
        seq![batch_of(ns, titles)]
    } else {
        seq![batch_of(ns, titles.take(n as int))] + chunk_batches(ns, titles.skip(n as int), n)
    }
}

/// The fragments for a run of namespace groups.
pub open spec fn group_batches(groups: Seq<(NamespaceID, Seq<Seq<char>>)>, n: nat) -> Seq<
    (Seq<char>, Seq<Seq<char>>),
>
    decreases groups.len(),
{
    if groups.len() == 0 {
        Seq::empty()
    } else {
        group_batches(groups.drop_last(), n) + chunk_batches(groups.last().0, groups.last().1, n)
    }
}

/// The fragments for a list: namespace by namespace, chunk by chunk.
pub open spec fn sql_batches(entries: Seq<EntryView>, n: nat) -> Seq<(Seq<char>, Seq<Seq<char>>)> {
    group_batches(grouped(entries), n)
}

/// The values of a run of fragments, one fragment's after the other's.
pub open spec fn all_values(batches: Seq<(Seq<char>, Seq<Seq<char>>)>) -> Seq<Seq<char>>
    decreases batches.len(),
{
    if batches.len() == 0 {
        Seq::<Seq<char>>::empty()
    } else {
        all_values(batches.drop_last()) + batches.last().1
    }
}

/// No chunk is empty or holds more than `n` titles, and each fragment has
/// as many placeholders as values.
pub proof fn lemma_chunks_bounded(ns: NamespaceID, titles: Seq<Seq<char>>, n: nat)
    ensures
        forall|k: int|
            0 <= k < chunk_batches(ns, titles, n).len() ==> 1 <= (#[trigger] chunk_batches(
                ns,
                titles,
                n,
            )[k]).1.len() <= n && chunk_batches(ns, titles, n)[k].0 == fragment(
                ns,
                chunk_batches(ns, titles, n)[k].1.len(),
            ),
    decreases titles.len(),
{
    let r = chunk_batches(ns, titles, n);
    if titles.len() == 0 || n == 0 {
    } else if titles.len() <= n {
        assert(r[0] == batch_of(ns, titles));
    } else {
        lemma_chunks_bounded(ns, titles.skip(n as int), n);
        let tail = chunk_batches(ns, titles.skip(n as int), n);
        assert forall|k: int| 0 <= k < r.len() implies 1 <= (#[trigger] r[k]).1.len() <= n
            && r[k].0 == fragment(ns, r[k].1.len()) by {
            if k == 0 {
                assert(r[0] == batch_of(ns, titles.take(n as int)));
            } else {
                assert(r[k] == tail[k - 1]);
            }
        }
    }
}

/// No fragment of a run of groups holds more than `n` values.
pub proof fn lemma_group_batches_bounded(groups: Seq<(NamespaceID, Seq<Seq<char>>)>, n: nat)
    ensures
        forall|k: int|
            0 <= k < group_batches(groups, n).len() ==> (#[trigger] group_batches(
                groups,
                n,
            )[k]).1.len() <= n,
    decreases groups.len(),
{
    if groups.len() > 0 {
        lemma_group_batches_bounded(groups.drop_last(), n);
        lemma_chunks_bounded(groups.last().0, groups.last().1, n);
        let r = group_batches(groups, n);
        let init = group_batches(groups.drop_last(), n);
        let tail = chunk_batches(groups.last().0, groups.last().1, n);
        assert forall|k: int| 0 <= k < r.len() implies (#[trigger] r[k]).1.len() <= n by {
            if k < init.len() {
                assert(r[k] == init[k]);
            } else {
                assert(r[k] == tail[k - init.len()]);
            }
        }
    }
}

/// No fragment made for a list holds more than `n` titles.
pub proof fn lemma_batches_bounded(entries: Seq<EntryView>, n: nat)
    ensures
        forall|k: int|
            0 <= k < sql_batches(entries, n).len() ==> (#[trigger] sql_batches(
                entries,
                n,
            )[k]).1.len() <= n,
{
    lemma_group_batches_bounded(grouped(entries), n);
}

/// The values of a run of fragments with one more fragment in front.
proof fn lemma_all_values_front(
    first: (Seq<char>, Seq<Seq<char>>),
    rest: Seq<(Seq<char>, Seq<Seq<char>>)>,
)
    ensures
        all_values(seq![first] + rest) == first.1 + all_values(rest),
    decreases rest.len(),
{
    if rest.len() == 0 {
        assert(seq![first] + rest =~= seq![first]);
        assert(seq![first].drop_last() =~= Seq::<(Seq<char>, Seq<Seq<char>>)>::empty());
        assert(all_values(Seq::<(Seq<char>, Seq<Seq<char>>)>::empty()) =~= Seq::<Seq<char>>::empty());
        assert(seq![first].last() == first);
        assert(all_values(seq![first]) =~= first.1);
        assert(first.1 + all_values(rest) =~= first.1);
    } else {
        lemma_all_values_front(first, rest.drop_last());
        assert((seq![first] + rest).drop_last() =~= seq![first] + rest.drop_last());
        assert((seq![first] + rest).last() == rest.last());
        assert(all_values(seq![first] + rest) =~= first.1 + all_values(rest));
    }
}

/// The chunks made of a run of titles, read one after another, are the
/// titles of the run, in order.
pub proof fn lemma_chunks_cover(ns: NamespaceID, titles: Seq<Seq<char>>, n: nat)
    requires
        n > 0,
    ensures
        all_values(chunk_batches(ns, titles, n)) == titles,
    decreases titles.len(),
{
    if titles.len() == 0 {
        assert(titles =~= Seq::<Seq<char>>::empty());
    } else if titles.len() <= n {
        lemma_all_values_front(batch_of(ns, titles), Seq::empty());
        assert(seq![batch_of(ns, titles)] + Seq::empty() =~= seq![batch_of(ns, titles)]);
        assert(titles + Seq::<Seq<char>>::empty() =~= titles);
    } else {
        let head = titles.take(n as int);
        let tail = titles.skip(n as int);
        lemma_chunks_cover(ns, tail, n);
        lemma_all_values_front(batch_of(ns, head), chunk_batches(ns, tail, n));
        assert(head + tail =~= titles);
    }
}

/// Whether `text` is the database form of the title of an entry in namespace `ns`.
pub open spec fn is_title_in(entries: Seq<EntryView>, ns: NamespaceID, text: Seq<char>) -> bool {
    exists|i: int|
        0 <= i < entries.len() && (#[trigger] entries[i]).title.namespace_id == ns && database_form(
            entries[i].title.title,
        ) == text
}

/// Every title of a namespace group comes from an entry of that namespace,
/// and every such entry's title is in the group.
pub proof fn lemma_titles_in_shape(entries: Seq<EntryView>, ns: NamespaceID)
    ensures
        titles_in(entries, ns).len() <= entries.len(),
        forall|k: int|
            0 <= k < titles_in(entries, ns).len() ==> is_title_in(
                entries,
                ns,
                #[trigger] titles_in(entries, ns)[k],
            ),
        forall|text: Seq<char>|
            is_title_in(entries, ns, text) ==> titles_in(entries, ns).contains(text),
    decreases entries.len(),
{
    if entries.len() > 0 {
        let init = entries.drop_last();
        lemma_titles_in_shape(init, ns);
        let t = titles_in(entries, ns);
        let ti = titles_in(init, ns);
        assert forall|k: int| 0 <= k < t.len() implies is_title_in(entries, ns, #[trigger] t[k]) by {
            if k < ti.len() {
                assert(is_title_in(init, ns, ti[k]));
                let i = choose|i: int|
                    0 <= i < init.len() && (#[trigger] init[i]).title.namespace_id == ns
                        && database_form(init[i].title.title) == ti[k];
                assert(entries[i] == init[i]);
            } else {
                assert(entries[entries.len() - 1].title.namespace_id == ns);
            }
        }
        assert forall|text: Seq<char>| is_title_in(entries, ns, text) implies t.contains(text) by {
            let i = choose|i: int|
                0 <= i < entries.len() && (#[trigger] entries[i]).title.namespace_id == ns
                    && database_form(entries[i].title.title) == text;
            if i < init.len() {
                assert(init[i] == entries[i]);
                assert(is_title_in(init, ns, text));
                let k = choose|k: int| 0 <= k < ti.len() && ti[k] == text;
                assert(t[k] == ti[k]);
            } else {
                assert(t[t.len() - 1] == text);
            }
        }
    }
}

/// The chunks made for one namespace, read one after another, are the
/// titles of the list's entries in that namespace, in database form and in
/// the list's order: every entry of the namespace is in a chunk, and
/// nothing else is.
pub proof fn lemma_batches_cover(entries: Seq<EntryView>, ns: NamespaceID, n: nat)
    requires
        n > 0,
    ensures
        all_values(chunk_batches(ns, titles_in(entries, ns), n)) == titles_in(entries, ns),
        forall|text: Seq<char>|
            is_title_in(entries, ns, text) <==> all_values(
                chunk_batches(ns, titles_in(entries, ns), n),
            ).contains(text),
{
    lemma_chunks_cover(ns, titles_in(entries, ns), n);
    lemma_titles_in_shape(entries, ns);
    let t = titles_in(entries, ns);
    assert forall|text: Seq<char>| t.contains(text) implies is_title_in(entries, ns, text) by {
        let k = choose|k: int| 0 <= k < t.len() && t[k] == text;
        assert(is_title_in(entries, ns, t[k]));
    }
}

/// The namespaces of a list are those of its entries, each once.
pub proof fn lemma_namespaces_of(entries: Seq<EntryView>)
    ensures
        namespaces_of(entries).no_duplicates(),
        forall|ns: NamespaceID|
            namespaces_of(entries).contains(ns) <==> exists|i: int|
                0 <= i < entries.len() && (#[trigger] entries[i]).title.namespace_id == ns,
    decreases entries.len(),
{
    if entries.len() > 0 {
        let init = entries.drop_last();
        lemma_namespaces_of(init);
        let last_ns = entries.last().title.namespace_id;
        let r = namespaces_of(entries);
        let ri = namespaces_of(init);
        assert forall|ns: NamespaceID| r.contains(ns) <==> exists|i: int|
            0 <= i < entries.len() && (#[trigger] entries[i]).title.namespace_id == ns by {
            if r.contains(ns) {
                if ri.contains(ns) {
                    let i = choose|i: int|
                        0 <= i < init.len() && (#[trigger] init[i]).title.namespace_id == ns;
                    assert(entries[i].title.namespace_id == ns);
                } else {
                    let k = choose|k: int| 0 <= k < r.len() && r[k] == ns;
                    if k < ri.len() {
                        assert(ri[k] == ns);
                    }
                    assert(entries[entries.len() - 1].title.namespace_id == ns);
                }
            }
            if exists|i: int| 0 <= i < entries.len() && (#[trigger] entries[i]).title.namespace_id == ns {
                let i = choose|i: int|
                    0 <= i < entries.len() && (#[trigger] entries[i]).title.namespace_id == ns;
                if i < init.len() {
                    assert(init[i].title.namespace_id == ns);
                    assert(ri.contains(ns));
                    let k = choose|k: int| 0 <= k < ri.len() && ri[k] == ns;
                    assert(r[k] == ns);
                } else {
                    if ri.contains(ns) {
                        let k = choose|k: int| 0 <= k < ri.len() && ri[k] == ns;
                        assert(r[k] == ns);
                    } else {
                        assert(r[r.len() - 1] == ns);
                    }
                }
            }
        }
    }
}

/// The namespace groups as sequences of texts.
pub open spec fn groups_view(groups: Seq<NamespaceGroup>) -> Seq<(NamespaceID, Seq<Seq<char>>)> {
    Seq::new(groups.len(), |i: int| (groups[i].0, groups[i].1.deep_view()))
}

/// The fragments as sequences of texts.
pub open spec fn batches_view(batches: Seq<SQLtuple>) -> Seq<(Seq<char>, Seq<Seq<char>>)> {
    Seq::new(batches.len(), |i: int| (batches[i].0@, batches[i].1.deep_view()))
}

/// Whether `ns` is among `list`.
fn namespace_listed(list: &Vec<NamespaceID>, ns: NamespaceID) -> (r: bool)
    ensures
        r == list@.contains(ns),
{
    let mut i: usize = 0;
    while i < list.len()
        invariant
            i <= list.len(),
            forall|j: int| 0 <= j < i ==> list@[j] != ns,
        decreases list.len() - i,
    {
        if list[i] == ns {
            return true;
        }
        i += 1;
    }
    false
}

/// The namespaces that occur among the entries.
fn list_namespaces(entries: &Vec<PageListEntry>) -> (r: Vec<NamespaceID>)
    ensures
        r@ == namespaces_of(entries.deep_view()),
{
    let ghost all = entries.deep_view();
    let mut r: Vec<NamespaceID> = Vec::new();
    let mut i: usize = 0;
    proof {
        assert(all.take(0) =~= Seq::<EntryView>::empty());
    }
    while i < entries.len()
        invariant
            i <= entries.len(),
            all == entries.deep_view(),
            r@ == namespaces_of(all.take(i as int)),
        decreases entries.len() - i,
    {
        proof {
            let next = all.take(i + 1);
            assert(next.drop_last() =~= all.take(i as int));
            assert(next.last() == entries@[i as int]@);
        }
        let ns = entries[i].title().namespace_id();
        if !namespace_listed(&r, ns) {
            r.push(ns);
        }
        i += 1;
    }
    proof {
        assert(all.take(all.len() as int) =~= all);
    }
    r
}

/// The titles, in database form, of the entries in namespace `ns`.
fn list_titles_in(entries: &Vec<PageListEntry>, ns: NamespaceID) -> (r: Vec<String>)
    ensures
        r.deep_view() == titles_in(entries.deep_view(), ns),
{
    let ghost all = entries.deep_view();
    let mut r: Vec<String> = Vec::new();
    let mut i: usize = 0;
    proof {
        assert(all.take(0) =~= Seq::<EntryView>::empty());
        assert(r.deep_view() =~= Seq::<Seq<char>>::empty());
    }
    while i < entries.len()
        invariant
            i <= entries.len(),
            all == entries.deep_view(),
            r.deep_view() == titles_in(all.take(i as int), ns),
        decreases entries.len() - i,
    {
        proof {
            let next = all.take(i + 1);
            assert(next.drop_last() =~= all.take(i as int));
            assert(next.last() == entries@[i as int]@);
        }
        if entries[i].title().namespace_id() == ns {
            let ghost before = r.deep_view();
            let t = entries[i].title().with_underscores();
            r.push(t);
            proof {
                assert(r.deep_view() =~= before.push(t@));
            }
        }
        i += 1;
    }
    proof {
        assert(all.take(all.len() as int) =~= all);
    }
    r
}

/// The condition for the pages of namespace `ns` with one of `count` titles.
fn make_fragment(ns: NamespaceID, count: usize) -> (r: String)
    ensures
        r@ == fragment(ns, count as nat),
{
    let mut out: Vec<char> = Vec::new();
    push_str(&mut out, "(page_namespace=");
    push_decimal(&mut out, ns);
    push_str(&mut out, " AND page_title IN(");
    let marks = get_questionmarks(count);
    push_str(&mut out, marks.as_str());
    push_str(&mut out, "))");
    proof {
        assert(out@ =~= fragment(ns, count as nat));
    }
    string_of(&out)
}

/// A copy of `titles[from..to]`.
fn titles_between(titles: &Vec<String>, from: usize, to: usize) -> (r: Vec<String>)
    requires
        from <= to <= titles.len(),
    ensures
        r.deep_view() == titles.deep_view().subrange(from as int, to as int),
{
    let mut r: Vec<String> = Vec::new();
    let mut i: usize = from;
    while i < to
        invariant
            from <= i <= to <= titles.len(),
            r.len() == i - from,
            forall|j: int| 0 <= j < i - from ==> (#[trigger] r@[j])@ == titles@[from + j]@,
        decreases to - i,
    {
        r.push(titles[i].clone());
        i += 1;
    }
    proof {
        assert(r.deep_view() =~= titles.deep_view().subrange(from as int, to as int));
    }
    r
}

/// The fragments for a run of titles of one namespace, in chunks of at most
/// `chunk_size`. A run without titles gives no fragment, whatever the size.
pub fn chunk_titles(ns: NamespaceID, titles: &Vec<String>, chunk_size: usize) -> (r: Vec<SQLtuple>)
    requires
        chunk_size > 0 || titles.len() == 0,
    ensures
        batches_view(r@) == chunk_batches(ns, titles.deep_view(), chunk_size as nat),
{
    let mut ret: Vec<SQLtuple> = Vec::new();
    proof {
        assert(batches_view(ret@) =~= Seq::empty());
    }
    push_chunk_batches(&mut ret, ns, titles, chunk_size);
    proof {
        let spec = chunk_batches(ns, titles.deep_view(), chunk_size as nat);
        assert(Seq::<(Seq<char>, Seq<Seq<char>>)>::empty() + spec =~= spec);
    }
    ret
}

/// Appends to `out` the fragments for the titles of one namespace.
fn push_chunk_batches(out: &mut Vec<SQLtuple>, ns: NamespaceID, titles: &Vec<String>, chunk_size: usize)
    requires
        chunk_size > 0 || titles.len() == 0,
    ensures
        batches_view(final(out)@) == batches_view(old(out)@) + chunk_batches(
            ns,
            titles.deep_view(),
            chunk_size as nat,
        ),
{
    let ghost before = batches_view(out@);
    let ghost all = titles.deep_view();
    let ghost n = chunk_size as nat;
    let mut start: usize = 0;
    proof {
        assert(all.skip(0) =~= all);
    }
    while start < titles.len()
        invariant
            start <= titles.len(),
            chunk_size > 0 || titles.len() == 0,
            n == chunk_size as nat,
            all == titles.deep_view(),
            batches_view(out@) + chunk_batches(ns, all.skip(start as int), n) == before
                + chunk_batches(ns, all, n),
        decreases titles.len() - start,
    {
        let rest = titles.len() - start;
        let end = if rest <= chunk_size {
            titles.len()
        } else {
            start + chunk_size
        };
        let values = titles_between(titles, start, end);
        let text = make_fragment(ns, values.len());
        let ghost now = batches_view(out@);
        let ghost tail = all.skip(start as int);
        out.push((text, values));
        proof {
            let chunk = all.subrange(start as int, end as int);
            assert(values.deep_view().len() == values.len());
            assert(batches_view(out@) =~= now.push(batch_of(ns, chunk)));
            if rest <= chunk_size {
                assert(chunk =~= tail);
                assert(all.skip(end as int) =~= Seq::<Seq<char>>::empty());
                assert(chunk_batches(ns, tail, n) =~= seq![batch_of(ns, chunk)]);
                assert(chunk_batches(ns, all.skip(end as int), n) =~= Seq::empty());
                assert(now.push(batch_of(ns, chunk)) + Seq::empty() =~= now + seq![
                    batch_of(ns, chunk),
                ]);
            } else {
                assert(chunk =~= tail.take(n as int));
                assert(all.skip(end as int) =~= tail.skip(n as int));
                assert(now.push(batch_of(ns, chunk)) + chunk_batches(ns, tail.skip(n as int), n)
                    =~= now + (seq![batch_of(ns, chunk)] + chunk_batches(
                    ns,
                    tail.skip(n as int),
                    n,
                )));
            }
        }
        start = end;
    }
    proof {
        assert(all.skip(all.len() as int) =~= Seq::<Seq<char>>::empty());
        assert(batches_view(out@) + Seq::empty() =~= batches_view(out@));
    }
}

impl PageList {
    /// The titles of the entries, in database form, by namespace: the
    /// namespaces in the order in which they first occur in the list, the
    /// titles of each in the list's order.
    pub fn group_by_namespace(&self) -> (r: Vec<NamespaceGroup>)
        ensures
            groups_view(r@) == grouped(self@.entries),
    {
        let entries = self.entries();
        let namespaces = list_namespaces(entries);
        let mut r: Vec<NamespaceGroup> = Vec::new();
        let mut i: usize = 0;
        while i < namespaces.len()
            invariant
                i <= namespaces.len(),
                namespaces@ == namespaces_of(entries.deep_view()),
                r.len() == i,
                forall|j: int|
                    0 <= j < i ==> (#[trigger] r@[j]).0 == namespaces@[j] && r@[j].1.deep_view()
                        == titles_in(entries.deep_view(), namespaces@[j]),
            decreases namespaces.len() - i,
        {
            let ns = namespaces[i];
            let titles = list_titles_in(entries, ns);
            r.push((ns, titles));
            i += 1;
        }
        proof {
            assert(groups_view(r@) =~= grouped(self@.entries));
        }
        r
    }

    /// The list as query fragments: for each namespace, its titles in chunks
    /// of at most `chunk_size`, each chunk as the condition
    /// `(page_namespace=<id> AND page_title IN(?,...))` with the titles, in
    /// database form, as its values. No fragment has more than `chunk_size`
    /// values, and every entry's title is among the values of one fragment
    /// of its namespace. An empty list gives no fragment, whatever the size.
    pub fn to_sql_batches(&self, chunk_size: usize) -> (r: Vec<SQLtuple>)
        requires
            chunk_size > 0 || self@.entries.len() == 0,
        ensures
            batches_view(r@) == sql_batches(self@.entries, chunk_size as nat),
            forall|k: int| 0 <= k < r.len() ==> (#[trigger] r@[k]).1.len() <= chunk_size,
            self@.entries.len() == 0 ==> r.len() == 0,
    {
        let mut ret: Vec<SQLtuple> = Vec::new();
        if self.is_empty() {
            proof {
                assert(grouped(self@.entries) =~= Seq::empty());
                assert(batches_view(ret@) =~= sql_batches(self@.entries, chunk_size as nat));
            }
            return ret;
        }
        let groups = self.group_by_namespace();
        let ghost gv = groups_view(groups@);
        let mut i: usize = 0;
        proof {
            assert(gv.take(0) =~= Seq::empty());
            assert(batches_view(ret@) =~= Seq::empty());
        }
        while i < groups.len()
            invariant
                i <= groups.len(),
                chunk_size > 0,
                gv == groups_view(groups@),
                batches_view(ret@) == group_batches(gv.take(i as int), chunk_size as nat),
            decreases groups.len() - i,
        {
            proof {
                let next = gv.take(i + 1);
                assert(next.drop_last() =~= gv.take(i as int));
                assert(next.last() == (groups@[i as int].0, groups@[i as int].1.deep_view()));
            }
            push_chunk_batches(&mut ret, groups[i].0, &groups[i].1, chunk_size);
            i += 1;
        }
        proof {
            assert(gv.take(gv.len() as int) =~= gv);
            lemma_batches_bounded(self@.entries, chunk_size as nat);
            let spec = sql_batches(self@.entries, chunk_size as nat);
            assert(batches_view(ret@) == spec);
            assert forall|k: int| 0 <= k < ret.len() implies (#[trigger] ret@[k]).1.len()
                <= chunk_size by {
                assert(spec[k].1.len() <= chunk_size);
                assert(batches_view(ret@)[k].1 == ret@[k].1.deep_view());
                assert(ret@[k].1.deep_view().len() == ret@[k].1.len());
            }
        }
        ret
    }

    /// The fragments for the entries of one namespace only; none where the
    /// list has no entry in it, whatever the size.
    pub fn to_sql_batches_namespace(&self, chunk_size: usize, namespace_id: NamespaceID) -> (r: Vec<
        SQLtuple,
    >)
        requires
            chunk_size > 0 || titles_in(self@.entries, namespace_id).len() == 0,
        ensures
            batches_view(r@) == chunk_batches(
                namespace_id,
                titles_in(self@.entries, namespace_id),
                chunk_size as nat,
            ),
            forall|k: int| 0 <= k < r.len() ==> (#[trigger] r@[k]).1.len() <= chunk_size,
    {
        let titles = list_titles_in(self.entries(), namespace_id);
        let mut ret: Vec<SQLtuple> = Vec::new();
        proof {
            assert(batches_view(ret@) =~= Seq::empty());
        }
        push_chunk_batches(&mut ret, namespace_id, &titles, chunk_size);
        proof {
            let spec = chunk_batches(
                namespace_id,
                titles_in(self@.entries, namespace_id),
                chunk_size as nat,
            );
            assert(Seq::<(Seq<char>, Seq<Seq<char>>)>::empty() + spec =~= spec);
            lemma_chunks_bounded(
                namespace_id,
                titles_in(self@.entries, namespace_id),
                chunk_size as nat,
            );
            assert(batches_view(ret@) == spec);
            assert forall|k: int| 0 <= k < ret.len() implies (#[trigger] ret@[k]).1.len()
                <= chunk_size by {
                assert(spec[k].1.len() <= chunk_size);
                assert(batches_view(ret@)[k].1 == ret@[k].1.deep_view());
                assert(ret@[k].1.deep_view().len() == ret@[k].1.len());
            }
        }
        ret
    }
}

} // verus!
