//! Page lists: a wiki tag and a set of entries, one for each title.
//!
//! The entries are kept in the order in which their titles first came in.
//! An entry that comes in under a title already present takes the place of
//! the one that was there.

use vstd::prelude::*;
use vstd::std_specs::cmp::PartialEqSpecImpl;
use crate::entry::{EntryView, PageListEntry};
use crate::file_info::clone_text;
use crate::regexp::{match_each, regex_compiles, regex_matches};
use crate::sort::PageListSort;
use crate::sorting::{is_rearrangement, lemma_total_preorder, par_sort_entries, stably_sorted};
use crate::text::{concat, str_eq};
use crate::title::{Title, TitleView};

verus! {

/// What a page list is, mathematically.
pub struct PageListView {
    pub wiki: Option<Seq<char>>,
    pub entries: Seq<EntryView>,
}

/// Whether an entry of `entries` has the title `t`.
pub open spec fn has_title(entries: Seq<EntryView>, t: TitleView) -> bool {
    exists|i: int| 0 <= i < entries.len() && (#[trigger] entries[i]).title == t
}

/// Whether no two entries share a title.
pub open spec fn distinct_titles(entries: Seq<EntryView>) -> bool {
    forall|i: int, j: int|
        0 <= i < j < entries.len() ==> (#[trigger] entries[i]).title != (#[trigger] entries[j]).title
}

/// Whether every title is well formed.
pub open spec fn proper_titles(entries: Seq<EntryView>) -> bool {
    forall|i: int| 0 <= i < entries.len() ==> (#[trigger] entries[i]).title.wf()
}

/// The titles of the entries.
pub open spec fn title_set(entries: Seq<EntryView>) -> Set<TitleView> {
    Set::new(|t: TitleView| has_title(entries, t))
}

/// Where the entry with title `t` stands in `entries`.
pub open spec fn position_of(entries: Seq<EntryView>, t: TitleView) -> int {
    choose|i: int| 0 <= i < entries.len() && (#[trigger] entries[i]).title == t
}

/// `entries` with `e` put in: in the place of the entry with its title, or,
/// where there is none, at the end.
pub open spec fn put(entries: Seq<EntryView>, e: EntryView) -> Seq<EntryView> {
    if has_title(entries, e.title) {
        entries.update(position_of(entries, e.title), e)
    } else {
        entries.push(e)
    }
}

/// `entries` with the entries of `more` put in, one after the other.
pub open spec fn put_all(entries: Seq<EntryView>, more: Seq<EntryView>) -> Seq<EntryView>
    decreases more.len(),
{
    if more.len() == 0 {
        entries
    } else {
        put(put_all(entries, more.drop_last()), more.last())
    }
}

impl PageListView {
    /// Whether no two entries share a title and every title is well formed.
    pub open spec fn wf(self) -> bool {
        distinct_titles(self.entries) && proper_titles(self.entries)
    }

    /// Whether the list says which wiki its entries belong to, or has none.
    pub open spec fn tagged(self) -> bool {
        self.wiki is Some || self.entries.len() == 0
    }

    /// Whether the list is tagged as Wikidata's.
    pub open spec fn is_wikidata(self) -> bool {
        self.wiki == Some("wikidatawiki"@)
    }
}

/// Putting an entry into a proper list gives a proper list, with the
/// entry's title in it and no other title new.
pub proof fn lemma_put(entries: Seq<EntryView>, e: EntryView)
    requires
        distinct_titles(entries),
    ensures
        distinct_titles(put(entries, e)),
        has_title(put(entries, e), e.title),
        forall|t: TitleView| has_title(put(entries, e), t) <==> (t == e.title || has_title(entries, t)),
        proper_titles(entries) && e.title.wf() ==> proper_titles(put(entries, e)),
        put(entries, e).len() >= entries.len(),
{
    let r = put(entries, e);
    if has_title(entries, e.title) {
        let p = position_of(entries, e.title);
        assert(r[p].title == e.title);
        assert forall|t: TitleView| has_title(r, t) <==> (t == e.title || has_title(entries, t)) by {
            if has_title(r, t) {
                let i = choose|i: int| 0 <= i < r.len() && (#[trigger] r[i]).title == t;
                if i != p {
                    assert(entries[i].title == t);
                }
            }
            if has_title(entries, t) {
                let i = choose|i: int| 0 <= i < entries.len() && (#[trigger] entries[i]).title == t;
                assert(r[i].title == t);
            }
        }
        assert forall|i: int, j: int| 0 <= i < j < r.len() implies (#[trigger] r[i]).title != (
        #[trigger] r[j]).title by {
            assert(entries[i].title != entries[j].title);
            if i == p {
                assert(entries[p].title != entries[j].title);
            }
            if j == p {
                assert(entries[i].title != entries[p].title);
            }
        }
    } else {
        assert(r[entries.len() as int].title == e.title);
        assert forall|t: TitleView| has_title(r, t) <==> (t == e.title || has_title(entries, t)) by {
            if has_title(r, t) {
                let i = choose|i: int| 0 <= i < r.len() && (#[trigger] r[i]).title == t;
                if i < entries.len() {
                    assert(entries[i].title == t);
                }
            }
            if has_title(entries, t) {
                let i = choose|i: int| 0 <= i < entries.len() && (#[trigger] entries[i]).title == t;
                assert(r[i].title == t);
            }
        }
        assert forall|i: int, j: int| 0 <= i < j < r.len() implies (#[trigger] r[i]).title != (
        #[trigger] r[j]).title by {
            if j == entries.len() {
                assert(entries[i].title != e.title);
            } else {
                assert(entries[i].title != entries[j].title);
            }
        }
    }
}

/// The first `n` entries of `a` without those whose flag is not set.
pub open spec fn selected_of(a: Seq<EntryView>, flags: Seq<bool>, n: int) -> Seq<EntryView>
    decreases n,
{
    if n <= 0 {
        Seq::<EntryView>::empty()
    } else {
        let init = selected_of(a, flags, n - 1);
        if flags[n - 1] {
            init.push(a[n - 1])
        } else {
            init
        }
    }
}

/// The entries of `a` whose flag is set, in order.
pub open spec fn selected(a: Seq<EntryView>, flags: Seq<bool>) -> Seq<EntryView> {
    selected_of(a, flags, a.len() as int)
}

/// A selection from a proper list is proper, and holds exactly the flagged titles.
pub proof fn lemma_selected(a: Seq<EntryView>, flags: Seq<bool>, n: int)
    requires
        0 <= n <= a.len(),
        flags.len() == a.len(),
    ensures
        selected_of(a, flags, n).len() <= n,
        forall|t: TitleView|
            has_title(selected_of(a, flags, n), t) <==> exists|i: int|
                0 <= i < n && (#[trigger] a[i]).title == t && flags[i],
        forall|k: int|
            0 <= k < selected_of(a, flags, n).len() ==> exists|i: int|
                0 <= i < n && #[trigger] a[i] == (#[trigger] selected_of(a, flags, n)[k])
                    && flags[i],
        distinct_titles(a) ==> distinct_titles(selected_of(a, flags, n)),
        proper_titles(a) ==> proper_titles(selected_of(a, flags, n)),
    decreases n,
{
    let r = selected_of(a, flags, n);
    if n > 0 {
        lemma_selected(a, flags, n - 1);
        let init = selected_of(a, flags, n - 1);
        assert forall|t: TitleView| has_title(r, t) <==> exists|i: int|
            0 <= i < n && (#[trigger] a[i]).title == t && flags[i] by {
            if has_title(r, t) {
                let k = choose|k: int| 0 <= k < r.len() && (#[trigger] r[k]).title == t;
                if k < init.len() {
                    assert(init[k].title == t);
                    assert(has_title(init, t));
                    let i = choose|i: int| 0 <= i < n - 1 && (#[trigger] a[i]).title == t && flags[i];
                    assert(0 <= i < n && a[i].title == t && flags[i]);
                } else {
                    assert(a[n - 1].title == t && flags[n - 1]);
                }
            }
            if exists|i: int| 0 <= i < n && (#[trigger] a[i]).title == t && flags[i] {
                let i = choose|i: int| 0 <= i < n && (#[trigger] a[i]).title == t && flags[i];
                if i < n - 1 {
                    assert(has_title(init, t));
                    let k = choose|k: int| 0 <= k < init.len() && (#[trigger] init[k]).title == t;
                    assert(r[k].title == t);
                } else {
                    assert(r[r.len() - 1].title == t);
                }
            }
        }
        assert forall|k: int| 0 <= k < r.len() implies exists|i: int|
            0 <= i < n && #[trigger] a[i] == (#[trigger] r[k]) && flags[i] by {
            if k < init.len() {
                let i = choose|i: int| 0 <= i < n - 1 && #[trigger] a[i] == init[k] && flags[i];
                assert(0 <= i < n && a[i] == r[k] && flags[i]);
            } else {
                assert(a[n - 1] == r[k] && flags[n - 1]);
            }
        }
        if distinct_titles(a) {
            assert forall|i: int, j: int| 0 <= i < j < r.len() implies (#[trigger] r[i]).title != (
            #[trigger] r[j]).title by {
                if j == init.len() {
                    // r[j] is a[n - 1]; r[i] is some a[x] with x < n - 1
                    let x = choose|x: int| 0 <= x < n - 1 && #[trigger] a[x] == init[i] && flags[x];
                    assert(a[x].title != a[n - 1].title);
                } else {
                    assert(init[i].title != init[j].title);
                }
            }
        }
        if proper_titles(a) {
            assert forall|k: int| 0 <= k < r.len() implies (#[trigger] r[k]).title.wf() by {
                let i = choose|i: int| 0 <= i < n && #[trigger] a[i] == r[k] && flags[i];
                assert(a[i].title.wf());
            }
        }
    }
}

/// The flags that mark the entries of `a` with a partner in `b`, or, where
/// `keep` is false, those without one.
pub open spec fn partner_flags(a: Seq<EntryView>, b: Seq<EntryView>, keep: bool) -> Seq<bool> {
    Seq::new(a.len(), |i: int| has_title(b, a[i].title) == keep)
}

/// The entries of `a` whose title occurs in `b`.
pub open spec fn common(a: Seq<EntryView>, b: Seq<EntryView>) -> Seq<EntryView> {
    selected(a, partner_flags(a, b, true))
}

/// The entries of `a` whose title does not occur in `b`.
pub open spec fn without(a: Seq<EntryView>, b: Seq<EntryView>) -> Seq<EntryView> {
    selected(a, partner_flags(a, b, false))
}

/// Why two lists cannot be merged as they are, if they cannot: one of them
/// is not tagged, or their tags differ.
pub open spec fn merge_obstacle(a: PageListView, b: PageListView) -> Option<Seq<char>> {
    if a.wiki is None {
        Some("PageList::check_before_merging self.wiki is not set"@)
    } else if b.wiki is None {
        Some("PageList::check_before_merging pagelist.wiki is not set"@)
    } else if a.wiki != b.wiki {
        Some(
            "PageList::check_before_merging wikis are not identical: "@ + a.wiki->Some_0 + "/"@
                + b.wiki->Some_0,
        )
    } else {
        None
    }
}

/// Whether the second list has to be converted to the wiki of the first
/// before they are merged.
pub open spec fn needs_conversion(a: PageListView, b: PageListView) -> bool {
    a.wiki is Some && b.wiki is Some && a.wiki != b.wiki
}

/// The pattern that `regexp` makes when it has to match a whole text.
pub open spec fn anchored(regexp: Seq<char>) -> Seq<char> {
    "^"@ + regexp + "$"@
}

/// Whether the entry passes a filter by `pattern`: on Wikidata its label is
/// matched, and an entry without label fails; elsewhere its title is matched.
pub open spec fn passes(e: EntryView, pattern: Seq<char>, is_wikidata: bool) -> bool {
    if is_wikidata {
        e.wikidata_label is Some && regex_matches(pattern, e.wikidata_label->Some_0)
    } else {
        regex_matches(pattern, e.title.title)
    }
}

/// For each entry, whether it passes the filter by `pattern`.
pub open spec fn pass_flags(entries: Seq<EntryView>, pattern: Seq<char>, is_wikidata: bool) -> Seq<
    bool,
> {
    Seq::new(entries.len(), |i: int| passes(entries[i], pattern, is_wikidata))
}

/// A set of pages of one wiki.
#[derive(Debug)]
pub struct PageList {
    wiki: Option<String>,
    entries: Vec<PageListEntry>,
}

impl View for PageList {
    type V = PageListView;

    closed spec fn view(&self) -> PageListView {
        PageListView { wiki: self.wiki.deep_view(), entries: self.entries.deep_view() }
    }
}

impl PageList {
    #[verifier::type_invariant]
    pub closed spec fn inv(self) -> bool {
        distinct_titles(self.entries.deep_view()) && proper_titles(self.entries.deep_view())
    }

    /// In every list no two entries share a title, and every title is well formed.
    pub fn is_well_formed(&self)
        ensures
            self@.wf(),
    {
        proof {
            use_type_invariant(self);
        }
    }

    /// The empty list of the wiki `wiki`.
    pub fn new_from_wiki(wiki: &str) -> (r: Self)
        ensures
            r@ == (PageListView { wiki: Some(wiki@), entries: Seq::<EntryView>::empty() }),
            r@.wf(),
            r@.tagged(),
    {
        let r = Self { wiki: Some(String::from_str(wiki)), entries: Vec::new() };
        proof {
            assert(r.entries.deep_view() =~= Seq::<EntryView>::empty());
        }
        r
    }

    /// The empty list of the wiki `wiki`, with room for `capacity` entries.
    pub fn new_from_wiki_with_capacity(wiki: &str, capacity: usize) -> (r: Self)
        ensures
            r@ == (PageListView { wiki: Some(wiki@), entries: Seq::<EntryView>::empty() }),
            r@.wf(),
            r@.tagged(),
    {
        let r = Self { wiki: Some(String::from_str(wiki)), entries: Vec::with_capacity(capacity) };
        proof {
            assert(r.entries.deep_view() =~= Seq::<EntryView>::empty());
        }
        r
    }

    /// The wiki the entries belong to.
    pub fn wiki(&self) -> (r: Option<String>)
        ensures
            r.deep_view() == self@.wiki,
    {
        clone_text(&self.wiki)
    }

    /// Says which wiki the entries belong to.
    pub fn set_wiki(&mut self, wiki: Option<String>)
        ensures
            final(self)@ == (PageListView { wiki: wiki.deep_view(), ..old(self)@ }),
            final(self)@.wf(),
            wiki is Some || old(self)@.entries.len() == 0 ==> final(self)@.tagged(),
    {
        proof {
            use_type_invariant(&*self);
        }
        self.wiki = wiki;
    }

    /// Whether the list is tagged as Wikidata's.
    pub fn is_wikidata(&self) -> (r: bool)
        ensures
            r == self@.is_wikidata(),
    {
        match &self.wiki {
            Some(w) => str_eq(w.as_str(), "wikidatawiki"),
            None => false,
        }
    }

    /// Whether the list has no entries.
    pub fn is_empty(&self) -> (r: bool)
        ensures
            r == (self@.entries.len() == 0),
    {
        self.entries.len() == 0
    }

    /// The number of entries.
    pub fn len(&self) -> (r: usize)
        ensures
            r == self@.entries.len(),
    {
        self.entries.len()
    }

    /// The entries, in the order in which their titles came in.
    pub fn entries(&self) -> (r: &Vec<PageListEntry>)
        ensures
            r.deep_view() == self@.entries,
            r@ == self.items(),
            self@.wf(),
    {
        proof {
            use_type_invariant(self);
        }
        &self.entries
    }

    /// Where the entry with this title stands, if there is one.
    pub fn find(&self, title: &Title) -> (r: Option<usize>)
        ensures
            r is Some <==> has_title(self@.entries, title@),
            r is Some ==> r->Some_0 < self@.entries.len() && self@.entries[r->Some_0 as int].title
                == title@ && r->Some_0 == position_of(self@.entries, title@),
    {
        proof {
            use_type_invariant(self);
        }
        let mut i: usize = 0;
        while i < self.entries.len()
            invariant
                i <= self.entries.len(),
                distinct_titles(self.entries.deep_view()),
                forall|j: int| 0 <= j < i ==> (#[trigger] self.entries.deep_view()[j]).title != title@,
            decreases self.entries.len() - i,
        {
            if self.entries[i].title().same(title) {
                proof {
                    let es = self.entries.deep_view();
                    assert(es[i as int].title == title@);
                    let p = position_of(es, title@);
                    if p != i {
                        if p < i {
                            assert(es[p].title != es[i as int].title);
                        } else {
                            assert(es[i as int].title != es[p].title);
                        }
                    }
                }
                return Some(i);
            }
            i += 1;
        }
        None
    }

    /// Whether the list has an entry with this title.
    pub fn contains(&self, title: &Title) -> (r: bool)
        ensures
            r == has_title(self@.entries, title@),
    {
        self.find(title).is_some()
    }

    /// A copy of the entry with this title, if there is one.
    pub fn get(&self, title: &Title) -> (r: Option<PageListEntry>)
        ensures
            r is Some <==> has_title(self@.entries, title@),
            r is Some ==> r->Some_0@ == self@.entries[position_of(self@.entries, title@)],
    {
        match self.find(title) {
            Some(i) => Some(self.entries[i].clone()),
            None => None,
        }
    }

    /// Puts `entry` into the list: in the place of the entry with its title,
    /// or, where there is none, at the end.
    pub fn add_entry(&mut self, entry: PageListEntry)
        ensures
            final(self)@ == (PageListView { entries: put(old(self)@.entries, entry@), ..old(self)@ }),
            final(self)@.wf(),
            old(self)@.wiki is Some ==> final(self)@.tagged(),
    {
        proof {
            use_type_invariant(&*self);
            lemma_put(self.entries.deep_view(), entry@);
        }
        entry.is_well_formed();
        let found = self.find(entry.title());
        let mut entries = self.take_entries();
        let ghost before = entries.deep_view();
        match found {
            Some(i) => {
                entries.set(i, entry);
                proof {
                    assert(entries.deep_view() =~= before.update(i as int, entry@));
                }
            },
            None => {
                entries.push(entry);
                proof {
                    assert(entries.deep_view() =~= before.push(entry@));
                }
            },
        }
        self.entries = entries;
    }

    /// Takes the entries out and leaves the list empty.
    fn take_entries(&mut self) -> (r: Vec<PageListEntry>)
        ensures
            final(self)@ == (PageListView { entries: Seq::<EntryView>::empty(), ..old(self)@ }),
            r.deep_view() == old(self)@.entries,
            distinct_titles(r.deep_view()),
            proper_titles(r.deep_view()),
    {
        proof {
            use_type_invariant(&*self);
        }
        let mut entries: Vec<PageListEntry> = Vec::new();
        proof {
            assert(entries.deep_view() =~= Seq::<EntryView>::empty());
        }
        std::mem::swap(&mut self.entries, &mut entries);
        entries
    }

    /// Puts the entries into the list, in the order given.
    fn put_entries(&mut self, entries: &Vec<PageListEntry>)
        ensures
            final(self)@ == (PageListView {
                entries: put_all(old(self)@.entries, entries.deep_view()),
                ..old(self)@
            }),
            final(self)@.wf(),
    {
        let ghost start = self@.entries;
        let ghost more = entries.deep_view();
        let ghost wiki = self@.wiki;
        let mut i: usize = 0;
        proof {
            use_type_invariant(&*self);
            assert(more.take(0) =~= Seq::<EntryView>::empty());
        }
        while i < entries.len()
            invariant
                i <= entries.len(),
                more == entries.deep_view(),
                self@.wiki == wiki,
                self@.entries == put_all(start, more.take(i as int)),
                self@.wf(),
            decreases entries.len() - i,
        {
            proof {
                let next = more.take(i + 1);
                assert(next.drop_last() =~= more.take(i as int));
                assert(next.last() == entries@[i as int]@);
            }
            self.add_entry(entries[i].clone());
            i += 1;
        }
        proof {
            assert(more.take(more.len() as int) =~= more);
        }
    }

    /// The list of the wiki `wiki` with the entries of `entries`.
    pub fn new_from_vec(wiki: &str, entries: Vec<PageListEntry>) -> (r: Self)
        ensures
            r@ == (PageListView {
                wiki: Some(wiki@),
                entries: put_all(Seq::<EntryView>::empty(), entries.deep_view()),
            }),
            r@.wf(),
            r@.tagged(),
    {
        let mut r = Self::new_from_wiki(wiki);
        r.put_entries(&entries);
        r
    }

    /// Empties the list and takes its tag away.
    pub fn clear(&mut self)
        ensures
            final(self)@ == (PageListView { wiki: None, entries: Seq::<EntryView>::empty() }),
            final(self)@.wf(),
            final(self)@.tagged(),
    {
        let _ = self.take_entries();
        self.wiki = None;
    }

    /// Empties the list and keeps its tag.
    pub fn clear_entries(&mut self)
        ensures
            final(self)@ == (PageListView { entries: Seq::<EntryView>::empty(), ..old(self)@ }),
            final(self)@.wf(),
            final(self)@.tagged(),
    {
        let _ = self.take_entries();
    }

    /// Makes this list what `other` is.
    pub fn set_from(&mut self, other: Self)
        ensures
            final(self)@ == other@,
            final(self)@.wf(),
            other@.tagged() ==> final(self)@.tagged(),
    {
        proof {
            use_type_invariant(&other);
        }
        let mut other = other;
        let entries = other.take_entries();
        let _ = self.take_entries();
        self.wiki = other.wiki();
        self.entries = entries;
    }

    /// Replaces the entries by those of `entries`, put in in the order given.
    pub fn set_entries(&mut self, entries: Vec<PageListEntry>)
        ensures
            final(self)@ == (PageListView {
                entries: put_all(Seq::<EntryView>::empty(), entries.deep_view()),
                ..old(self)@
            }),
            final(self)@.wf(),
            old(self)@.wiki is Some ==> final(self)@.tagged(),
    {
        let _ = self.take_entries();
        self.put_entries(&entries);
    }

    /// Puts every entry of `other` into this list.
    pub fn replace_entries(&mut self, other: &PageList)
        ensures
            final(self)@ == (PageListView {
                entries: put_all(old(self)@.entries, other@.entries),
                ..old(self)@
            }),
            final(self)@.wf(),
            old(self)@.wiki is Some ==> final(self)@.tagged(),
    {
        self.put_entries(&other.entries);
    }

    /// Whether `pagelist` can be merged into this list. `Ok(false)`: it
    /// can, as it is. `Ok(true)`: it can once it has been converted to this
    /// list's wiki, which is the answer for differing wikis where
    /// `can_convert` says that the caller is able to convert. Otherwise the
    /// obstacle is returned.
    pub fn check_before_merging(&self, pagelist: &PageList, can_convert: bool) -> (r: Result<
        bool,
        String,
    >)
        ensures
            match r {
                Ok(convert) => convert == needs_conversion(self@, pagelist@) && (convert
                    ==> can_convert) && (!convert ==> merge_obstacle(self@, pagelist@) is None),
                Err(msg) => merge_obstacle(self@, pagelist@) == Some(msg@) && !(can_convert
                    && needs_conversion(self@, pagelist@)),
            },
    {
        let my_wiki = match &self.wiki {
            Some(wiki) => wiki,
            None => {
                return Err(
                    String::from_str("PageList::check_before_merging self.wiki is not set"),
                );
            },
        };
        let other_wiki = match &pagelist.wiki {
            Some(wiki) => wiki,
            None => {
                return Err(
                    String::from_str("PageList::check_before_merging pagelist.wiki is not set"),
                );
            },
        };
        if !str_eq(my_wiki.as_str(), other_wiki.as_str()) {
            if can_convert {
                return Ok(true);
            }
            let msg = String::from_str("PageList::check_before_merging wikis are not identical: ");
            let msg = msg.concat(my_wiki.as_str());
            let msg = msg.concat("/");
            let msg = msg.concat(other_wiki.as_str());
            return Err(msg);
        }
        Ok(false)
    }

    /// The entries of `entries` whose flag is set.
    fn select(entries: &Vec<PageListEntry>, flags: &Vec<bool>) -> (r: Vec<PageListEntry>)
        requires
            flags.len() == entries.len(),
        ensures
            r.deep_view() == selected(entries.deep_view(), flags@),
    {
        let mut r: Vec<PageListEntry> = Vec::new();
        let mut i: usize = 0;
        proof {
            assert(r.deep_view() =~= Seq::<EntryView>::empty());
        }
        while i < entries.len()
            invariant
                i <= entries.len(),
                flags.len() == entries.len(),
                r.deep_view() == selected_of(entries.deep_view(), flags@, i as int),
            decreases entries.len() - i,
        {
            if flags[i] {
                let ghost before = r.deep_view();
                r.push(entries[i].clone());
                proof {
                    assert(r.deep_view() =~= before.push(entries@[i as int]@));
                }
            }
            i += 1;
        }
        r
    }

    /// Keeps the entries whose flag is set.
    pub fn retain_flagged(&mut self, flags: &Vec<bool>)
        requires
            flags.len() == old(self)@.entries.len(),
        ensures
            final(self)@ == (PageListView {
                entries: selected(old(self)@.entries, flags@),
                ..old(self)@
            }),
            final(self)@.wf(),
            old(self)@.tagged() ==> final(self)@.tagged(),
    {
        let entries = self.take_entries();
        let kept = Self::select(&entries, flags);
        proof {
            lemma_selected(entries.deep_view(), flags@, entries.len() as int);
        }
        self.entries = kept;
    }

    /// For each entry, whether `other` has its title, or, where `keep` is
    /// false, whether it has not.
    fn flags_against(&self, other: &PageList, keep: bool) -> (flags: Vec<bool>)
        ensures
            flags@ == partner_flags(self@.entries, other@.entries, keep),
    {
        let mut flags: Vec<bool> = Vec::new();
        let mut i: usize = 0;
        while i < self.entries.len()
            invariant
                i <= self.entries.len(),
                flags.len() == i,
                forall|j: int|
                    0 <= j < i ==> flags@[j] == (has_title(
                        other@.entries,
                        (#[trigger] self.entries.deep_view()[j]).title,
                    ) == keep),
            decreases self.entries.len() - i,
        {
            let there = other.contains(self.entries[i].title());
            flags.push(there == keep);
            i += 1;
        }
        proof {
            assert(flags@ =~= partner_flags(self@.entries, other@.entries, keep));
        }
        flags
    }

    /// Puts every entry of `pagelist` into this list. Both lists must be
    /// tagged with the same wiki; otherwise nothing changes and the obstacle
    /// is returned.
    pub fn union(&mut self, pagelist: &PageList) -> (r: Result<(), String>)
        ensures
            final(self)@.wf(),
            old(self)@.tagged() ==> final(self)@.tagged(),
            match r {
                Ok(()) => merge_obstacle(old(self)@, pagelist@) is None && final(self)@ == (
                PageListView {
                    entries: put_all(old(self)@.entries, pagelist@.entries),
                    ..old(self)@
                }),
                Err(msg) => merge_obstacle(old(self)@, pagelist@) == Some(msg@) && final(self)@
                    == old(self)@,
            },
    {
        proof {
            use_type_invariant(&*self);
        }
        match self.check_before_merging(pagelist, false) {
            Ok(_) => {
                self.put_entries(&pagelist.entries);
                Ok(())
            },
            Err(msg) => Err(msg),
        }
    }

    /// Keeps the entries whose title occurs in `pagelist`. Both lists must
    /// be tagged with the same wiki; otherwise nothing changes and the
    /// obstacle is returned.
    pub fn intersection(&mut self, pagelist: &PageList) -> (r: Result<(), String>)
        ensures
            final(self)@.wf(),
            old(self)@.tagged() ==> final(self)@.tagged(),
            match r {
                Ok(()) => merge_obstacle(old(self)@, pagelist@) is None && final(self)@ == (
                PageListView {
                    entries: common(old(self)@.entries, pagelist@.entries),
                    ..old(self)@
                }),
                Err(msg) => merge_obstacle(old(self)@, pagelist@) == Some(msg@) && final(self)@
                    == old(self)@,
            },
    {
        proof {
            use_type_invariant(&*self);
        }
        match self.check_before_merging(pagelist, false) {
            Ok(_) => {
                let flags = self.flags_against(pagelist, true);
                self.retain_flagged(&flags);
                Ok(())
            },
            Err(msg) => Err(msg),
        }
    }

    /// Keeps the entries whose title does not occur in `pagelist`. Both
    /// lists must be tagged with the same wiki; otherwise nothing changes
    /// and the obstacle is returned.
    pub fn difference(&mut self, pagelist: &PageList) -> (r: Result<(), String>)
        ensures
            final(self)@.wf(),
            old(self)@.tagged() ==> final(self)@.tagged(),
            match r {
                Ok(()) => merge_obstacle(old(self)@, pagelist@) is None && final(self)@ == (
                PageListView {
                    entries: without(old(self)@.entries, pagelist@.entries),
                    ..old(self)@
                }),
                Err(msg) => merge_obstacle(old(self)@, pagelist@) == Some(msg@) && final(self)@
                    == old(self)@,
            },
    {
        proof {
            use_type_invariant(&*self);
        }
        match self.check_before_merging(pagelist, false) {
            Ok(_) => {
                let flags = self.flags_against(pagelist, false);
                self.retain_flagged(&flags);
                Ok(())
            },
            Err(msg) => Err(msg),
        }
    }
}

impl PageList {
    /// Takes all entries out of the list and returns them sorted by
    /// `sorter`. The result holds the entries the list had. Under every key
    /// but the random one they stand in the order of the comparison, and
    /// entries of equal rank stand in the order they had in the list.
    pub fn drain_into_sorted_vec(&mut self, sorter: PageListSort) -> (r: Vec<PageListEntry>)
        ensures
            final(self)@ == (PageListView { entries: Seq::<EntryView>::empty(), ..old(self)@ }),
            final(self)@.wf(),
            final(self)@.tagged(),
            is_rearrangement(old(self)@.entries, r.deep_view()),
            !(sorter is Random) ==> stably_sorted(
                old(self)@.entries,
                r.deep_view(),
                sorter,
                old(self)@.is_wikidata(),
            ),
    {
        let is_wikidata = self.is_wikidata();
        let mut ret = self.take_entries();
        proof {
            if !(sorter is Random) {
                lemma_total_preorder(ret.deep_view(), sorter, is_wikidata);
            }
        }
        par_sort_entries(&mut ret, &sorter, is_wikidata);
        ret
    }

    /// Keeps the entries that `regexp` matches as a whole: on Wikidata by
    /// their label, elsewhere by their title. A pattern that does not compile
    /// filters nothing.
    pub fn regexp_filter(&mut self, regexp: &String)
        ensures
            final(self)@.wf(),
            old(self)@.tagged() ==> final(self)@.tagged(),
            final(self)@ == (if regex_compiles(anchored(regexp@)) {
                PageListView {
                    entries: selected(
                        old(self)@.entries,
                        pass_flags(old(self)@.entries, anchored(regexp@), old(self)@.is_wikidata()),
                    ),
                    ..old(self)@
                }
            } else {
                old(self)@
            }),
    {
        proof {
            use_type_invariant(&*self);
        }
        let regexp_all = concat(concat("^", regexp.as_str()).as_str(), "$");
        let is_wikidata = self.is_wikidata();
        let mut texts: Vec<String> = Vec::new();
        let mut known: Vec<bool> = Vec::new();
        let mut i: usize = 0;
        while i < self.entries.len()
            invariant
                i <= self.entries.len(),
                texts.len() == i,
                known.len() == i,
                forall|j: int|
                    0 <= j < i ==> (#[trigger] known@[j]) == (!is_wikidata
                        || self.entries.deep_view()[j].wikidata_label is Some),
                forall|j: int|
                    0 <= j < i && known@[j] ==> (#[trigger] texts@[j])@ == (if is_wikidata {
                        self.entries.deep_view()[j].wikidata_label->Some_0
                    } else {
                        self.entries.deep_view()[j].title.title
                    }),
            decreases self.entries.len() - i,
        {
            if is_wikidata {
                match self.entries[i].get_wikidata_label() {
                    Some(label) => {
                        texts.push(label);
                        known.push(true);
                    },
                    None => {
                        texts.push(String::new());
                        known.push(false);
                    },
                }
            } else {
                texts.push(String::from_str(self.entries[i].title().pretty()));
                known.push(true);
            }
            i += 1;
        }
        match match_each(regexp_all.as_str(), &texts) {
            Some(found) => {
                let mut flags: Vec<bool> = Vec::new();
                let mut k: usize = 0;
                while k < found.len()
                    invariant
                        k <= found.len(),
                        found.len() == known.len(),
                        flags.len() == k,
                        forall|j: int| 0 <= j < k ==> (#[trigger] flags@[j]) == (known@[j] && found@[j]),
                    decreases found.len() - k,
                {
                    flags.push(known[k] && found[k]);
                    k += 1;
                }
                proof {
                    assert(flags@ =~= pass_flags(self@.entries, anchored(regexp@), is_wikidata));
                }
                self.retain_flagged(&flags);
            },
            None => {},
        }
    }

    /// Keeps the entries of which `f` says so. For each entry `f` is asked
    /// once, in the list's order.
    pub fn retain_entries<F: Fn(&PageListEntry) -> bool>(&mut self, f: F)
        requires
            forall|e: &PageListEntry| f.requires((e,)),
        ensures
            final(self)@.wf(),
            final(self)@.wiki == old(self)@.wiki,
            old(self)@.tagged() ==> final(self)@.tagged(),
            exists|flags: Seq<bool>|
                #![auto]
                flags.len() == old(self)@.entries.len() && final(self)@.entries == selected(
                    old(self)@.entries,
                    flags,
                ) && forall|i: int|
                    0 <= i < flags.len() ==> f.ensures((&old(self).items()[i],), #[trigger] flags[i]),
    {
        let mut flags: Vec<bool> = Vec::new();
        let mut i: usize = 0;
        while i < self.entries.len()
            invariant
                i <= self.entries.len(),
                flags.len() == i,
                forall|e: &PageListEntry| f.requires((e,)),
                forall|j: int| 0 <= j < i ==> f.ensures((&self.entries@[j],), #[trigger] flags@[j]),
            decreases self.entries.len() - i,
        {
            let keep = f(&self.entries[i]);
            flags.push(keep);
            i += 1;
        }
        self.retain_flagged(&flags);
        proof {
            assert(flags@.len() == old(self)@.entries.len() && self@.entries == selected(
                old(self)@.entries,
                flags@,
            ) && forall|i: int|
                0 <= i < flags@.len() ==> f.ensures((&old(self).items()[i],), #[trigger] flags@[i]));
        }
    }

    /// The entries as the list holds them.
    pub closed spec fn items(&self) -> Seq<PageListEntry> {
        self.entries@
    }
}

impl PageList {
    /// Whether this list has every title that `other` has.
    pub fn covers(&self, other: &PageList) -> (r: bool)
        ensures
            r == title_set(other@.entries).subset_of(title_set(self@.entries)),
    {
        let mut i: usize = 0;
        while i < other.entries.len()
            invariant
                i <= other.entries.len(),
                forall|j: int|
                    0 <= j < i ==> has_title(
                        self@.entries,
                        (#[trigger] other.entries.deep_view()[j]).title,
                    ),
            decreases other.entries.len() - i,
        {
            if !self.contains(other.entries[i].title()) {
                proof {
                    let t = other.entries.deep_view()[i as int].title;
                    assert(has_title(other@.entries, t));
                    assert(title_set(other@.entries).contains(t));
                    assert(!title_set(self@.entries).contains(t));
                }
                return false;
            }
            i += 1;
        }
        proof {
            assert forall|t: TitleView| title_set(other@.entries).contains(t) implies title_set(
                self@.entries,
            ).contains(t) by {
                let j = choose|j: int|
                    0 <= j < other@.entries.len() && (#[trigger] other@.entries[j]).title == t;
                assert(has_title(self@.entries, other.entries.deep_view()[j].title));
            }
        }
        true
    }
}

impl PartialEq for PageList {
    fn eq(&self, other: &Self) -> (r: bool) {
        let same_wiki = match (&self.wiki, &other.wiki) {
            (Some(a), Some(b)) => str_eq(a.as_str(), b.as_str()),
            (None, None) => true,
            _ => false,
        };
        same_wiki && self.covers(other) && other.covers(self)
    }
}

/// Two lists are the same list if they belong to the same wiki and hold
/// the same titles.
impl PartialEqSpecImpl for PageList {
    open spec fn obeys_eq_spec() -> bool {
        true
    }

    open spec fn eq_spec(&self, other: &Self) -> bool {
        self@.wiki == other@.wiki && title_set(self@.entries) =~= title_set(other@.entries)
    }
}

impl Clone for PageList {
    fn clone(&self) -> (r: Self)
        ensures
            r@ == self@,
    {
        let mut r = Self { wiki: clone_text(&self.wiki), entries: Vec::new() };
        proof {
            use_type_invariant(self);
            assert(r.entries.deep_view() =~= Seq::<EntryView>::empty());
        }
        let mut entries: Vec<PageListEntry> = Vec::new();
        let mut i: usize = 0;
        while i < self.entries.len()
            invariant
                i <= self.entries.len(),
                entries.len() == i,
                forall|j: int| 0 <= j < i ==> entries@[j]@ == self.entries@[j]@,
            decreases self.entries.len() - i,
        {
            entries.push(self.entries[i].clone());
            i += 1;
        }
        proof {
            assert(entries.deep_view() =~= self.entries.deep_view());
        }
        r.entries = entries;
        r
    }
}

} // verus!
