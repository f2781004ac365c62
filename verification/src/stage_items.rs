//! The stages that bring the list to the wiki asked for, hand it to the
//! filters of the category database, note the Wikidata item of each page,
//! and add or filter subpages.

use vstd::prelude::*;
use crate::batch::{batches_view, chunk_batches, chunk_titles};
use crate::entry::EntryView;
use crate::form_parameters::{is_set, param_of, param_or};
use crate::numeral::{decimal_of, push_decimal};
use crate::pagelist::{has_title, lemma_put, position_of, selected, PageList, PageListView};
use crate::pipeline::{Intake, Query, QueryView, StageAction, StageActionView};
use crate::platform::{wiki_of_source, Platform, PlatformView, PAGE_BATCH_SIZE};
use crate::reader::RowReader;
use crate::rewrite::{concat3, quote_batches, quoted_all};
use crate::sql::SQLtuple;
use crate::text::{concat, contains_char, has_char, push_str, str_eq, string_of};
use crate::title::{database_form, Title, TitleView};

verus! {

/// The wiki that the parameters want the result on: none where they leave
/// it to the sources, a message where what they ask cannot be had.
pub open spec fn common_wiki_of(p: PlatformView) -> Result<Option<Seq<char>>, Seq<char>> {
    let mode = param_or(p.params, "common_wiki"@, "auto"@);
    if mode == "auto"@ {
        Ok(None)
    } else if mode == "cats"@ {
        match wiki_of_source(p.wiki_by_source, "categories"@) {
            Some(w) => Ok(Some(w)),
            None => Err("categories wiki requested as output, but not set"@),
        }
    } else if mode == "pagepile"@ {
        match wiki_of_source(p.wiki_by_source, "pagepile"@) {
            Some(w) => Ok(Some(w)),
            None => Err("pagepile wiki requested as output, but not set"@),
        }
    } else if mode == "manual"@ {
        match wiki_of_source(p.wiki_by_source, "manual"@) {
            Some(w) => Ok(Some(w)),
            None => Err("manual wiki requested as output, but not set"@),
        }
    } else if mode == "wikidata"@ {
        Ok(Some("wikidatawiki"@))
    } else if mode == "other"@ {
        match param_of(p.params, "common_wiki_other"@) {
            Some(w) => Ok(Some(w)),
            None => Err("Other wiki for output expected, but not given in text field"@),
        }
    } else {
        Err("Unknown output wiki type '"@ + mode + "'"@)
    }
}

/// A phase of the stage that brings the list to the wiki asked for.
pub open spec fn common_wiki_phase(p: PlatformView, phase: nat) -> StageActionView {
    if phase > 0 {
        StageActionView::Finished
    } else {
        match common_wiki_of(p) {
            Ok(None) => StageActionView::Finished,
            Ok(Some(w)) => StageActionView::Convert(w),
            Err(msg) => StageActionView::Fail(msg),
        }
    }
}

/// A phase of the stage that hands the list to the filters of the category database.
pub open spec fn database_filters_phase(list: PageListView, phase: nat) -> StageActionView {
    if phase > 0 {
        StageActionView::Finished
    } else {
        match list.wiki {
            Some(w) => StageActionView::DatabaseFilters(w),
            None => StageActionView::Fail(
                "Platform::process_missing_database_filters: result has no wiki"@,
            ),
        }
    }
}

/// What the parameters ask about Wikidata items: `any`, `with` or
/// `without`; any other value asks nothing.
pub open spec fn item_mode(p: PlatformView) -> Seq<char> {
    param_or(p.params, "wikidata_item"@, "no"@)
}

/// Whether the stage of Wikidata items has anything to do for a list.
pub open spec fn item_stage_applies(p: PlatformView, list: PageListView) -> bool {
    !list.is_wikidata() && (item_mode(p) == "any"@ || item_mode(p) == "with"@ || item_mode(p)
        == "without"@)
}

/// The statement that asks for the items of pages of the wiki `wiki`, up to the titles.
pub open spec fn item_sql_head(wiki: Seq<char>) -> Seq<char> {
    "SELECT ips_site_page,ips_item_id FROM wb_items_per_site WHERE ips_site_id='"@ + wiki
        + "' and ips_site_page IN ("@
}

/// The statements that ask for the items of pages by their full titles, in
/// chunks; the titles are trimmed, and blank ones are passed over.
pub open spec fn item_batches(wiki: Seq<char>, titles: Seq<Seq<char>>) -> Seq<
    (Seq<char>, Seq<Seq<char>>),
> {
    quoted_all(chunk_batches(0, titles, PAGE_BATCH_SIZE as nat), item_sql_head(wiki), ")"@)
}

/// For each entry, whether it has a Wikidata item, or, where `with` is
/// false, whether it has none.
pub open spec fn item_flags(entries: Seq<EntryView>, with: bool) -> Seq<bool> {
    Seq::new(entries.len(), |i: int| (entries[i].wikidata_item is Some) == with)
}

/// A phase of the stage of Wikidata items. Phase 0 asks for the items of
/// the pages; the statements are made from the full titles of the pages by
/// `wikidata_item_batches`. Phase 1 keeps the pages with an item, or those
/// without, if that is asked.
pub open spec fn items_phase(p: PlatformView, list: PageListView, phase: nat) -> (
    PageListView,
    StageActionView,
) {
    if !item_stage_applies(p, list) || phase >= 2 {
        (list, StageActionView::Finished)
    } else if phase == 0 {
        if list.wiki is None {
            (list, StageActionView::Pass)
        } else {
            (
                list,
                StageActionView::Run(
                    QueryView {
                        wiki: "wikidatawiki"@,
                        batches: Seq::empty(),
                        chunk_size: 0,
                        intake: Intake::WikidataItems,
                    },
                ),
            )
        }
    } else if item_mode(p) == "with"@ {
        (
            PageListView { entries: selected(list.entries, item_flags(list.entries, true)), ..list },
            StageActionView::Finished,
        )
    } else if item_mode(p) == "without"@ {
        (
            PageListView {
                entries: selected(list.entries, item_flags(list.entries, false)),
                ..list
            },
            StageActionView::Finished,
        )
    } else {
        (list, StageActionView::Finished)
    }
}

/// The id of the item with the number `item_id`.
pub open spec fn item_id_text(item_id: i64) -> Seq<char> {
    "Q"@ + decimal_of(item_id as int)
}

/// The entries with the item noted in the entry of the given title, if there is one.
pub open spec fn with_item(entries: Seq<EntryView>, title: TitleView, item_id: i64) -> Seq<EntryView> {
    if has_title(entries, title) {
        entries.update(
            position_of(entries, title),
            EntryView {
                wikidata_item: Some(item_id_text(item_id)),
                ..entries[position_of(entries, title)]
            },
        )
    } else {
        entries
    }
}

/// For each entry, whether it is a subpage, or, where `keep_subpages` is
/// false, whether it is none. A subpage has a slash in its title.
pub open spec fn subpage_flags(entries: Seq<EntryView>, keep_subpages: bool) -> Seq<bool> {
    Seq::new(entries.len(), |i: int| has_char(entries[i].title.title, '/') == keep_subpages)
}

/// The statement that asks for the subpages of a page.
pub open spec fn subpages_sql() -> Seq<char> {
    "SELECT page_title,page_namespace FROM page WHERE page_namespace=? AND page_title LIKE ?"@
}

/// The statements that ask for the subpages of each entry.
pub open spec fn subpage_batches(entries: Seq<EntryView>) -> Seq<(Seq<char>, Seq<Seq<char>>)> {
    Seq::new(
        entries.len(),
        |i: int|
            (
                subpages_sql(),
                seq![
                    decimal_of(entries[i].title.namespace_id as int),
                    database_form(entries[i].title.title) + "/%"@,
                ],
            ),
    )
}

/// What the parameters ask about subpages.
pub open spec fn subpage_filter(p: PlatformView) -> Seq<char> {
    param_or(p.params, "subpage_filter"@, "either"@)
}

/// A phase of the subpages stage. Phase 0 asks for the subpages of every
/// page, if they are to be added. Phase 1 keeps the subpages, or drops
/// them, if that is asked.
pub open spec fn subpages_phase(p: PlatformView, list: PageListView, phase: nat) -> (
    PageListView,
    StageActionView,
) {
    let add = is_set(p.params, "add_subpages"@);
    let filter = subpage_filter(p);
    if phase >= 2 || (!add && filter != "subpages"@ && filter != "no_subpages"@) {
        (list, StageActionView::Finished)
    } else if phase == 0 {
        if !add {
            (list, StageActionView::Pass)
        } else if list.wiki is None {
            (list, StageActionView::Fail("Platform::process_redlinks: no wiki set in result"@))
        } else {
            (
                list,
                StageActionView::Run(
                    QueryView {
                        wiki: list.wiki->Some_0,
                        batches: subpage_batches(list.entries),
                        chunk_size: 0,
                        intake: Intake::AddMissing(RowReader::TitleAndNamespace),
                    },
                ),
            )
        }
    } else if filter == "subpages"@ {
        (
            PageListView {
                entries: selected(list.entries, subpage_flags(list.entries, true)),
                ..list
            },
            StageActionView::Finished,
        )
    } else if filter == "no_subpages"@ {
        (
            PageListView {
                entries: selected(list.entries, subpage_flags(list.entries, false)),
                ..list
            },
            StageActionView::Finished,
        )
    } else {
        (list, StageActionView::Finished)
    }
}

impl PageList {
    /// Notes the Wikidata item with the number `item_id` in the entry of
    /// the page `title`, if the list has that page.
    pub fn note_wikidata_item(&mut self, title: &Title, item_id: i64)
        ensures
            final(self)@ == (PageListView {
                entries: with_item(old(self)@.entries, title@, item_id),
                ..old(self)@
            }),
            final(self)@.wf(),
            old(self)@.tagged() ==> final(self)@.tagged(),
    {
        self.is_well_formed();
        match self.get(title) {
            Some(found) => {
                let mut entry = found;
                let mut q: Vec<char> = Vec::new();
                push_str(&mut q, "Q");
                push_decimal(&mut q, item_id);
                entry.set_wikidata_item(Some(string_of(&q)));
                proof {
                    lemma_put(self@.entries, entry@);
                }
                self.add_entry(entry);
            },
            None => {},
        }
    }

    /// Keeps the entries that have a Wikidata item, or, where `with` is
    /// false, those that have none.
    pub fn retain_by_wikidata_item(&mut self, with: bool)
        ensures
            final(self)@ == (PageListView {
                entries: selected(old(self)@.entries, item_flags(old(self)@.entries, with)),
                ..old(self)@
            }),
            final(self)@.wf(),
            old(self)@.tagged() ==> final(self)@.tagged(),
    {
        let mut flags: Vec<bool> = Vec::new();
        let mut i: usize = 0;
        let entries = self.entries();
        while i < entries.len()
            invariant
                i <= entries.len(),
                flags.len() == i,
                forall|j: int|
                    0 <= j < i ==> (#[trigger] flags@[j]) == ((
                    entries.deep_view()[j].wikidata_item is Some) == with),
            decreases entries.len() - i,
        {
            let has = entries[i].get_wikidata_item().is_some();
            flags.push(has == with);
            i += 1;
        }
        proof {
            assert(flags@ =~= item_flags(self@.entries, with));
        }
        self.retain_flagged(&flags);
    }

    /// Keeps the subpages, or, where `keep_subpages` is false, the pages
    /// that are none.
    pub fn retain_by_subpage(&mut self, keep_subpages: bool)
        ensures
            final(self)@ == (PageListView {
                entries: selected(
                    old(self)@.entries,
                    subpage_flags(old(self)@.entries, keep_subpages),
                ),
                ..old(self)@
            }),
            final(self)@.wf(),
            old(self)@.tagged() ==> final(self)@.tagged(),
    {
        let mut flags: Vec<bool> = Vec::new();
        let mut i: usize = 0;
        let entries = self.entries();
        while i < entries.len()
            invariant
                i <= entries.len(),
                flags.len() == i,
                forall|j: int|
                    0 <= j < i ==> (#[trigger] flags@[j]) == (has_char(
                        entries.deep_view()[j].title.title,
                        '/',
                    ) == keep_subpages),
            decreases entries.len() - i,
        {
            let has_slash = contains_char(entries[i].title().pretty(), '/');
            flags.push(has_slash == keep_subpages);
            i += 1;
        }
        proof {
            assert(flags@ =~= subpage_flags(self@.entries, keep_subpages));
        }
        self.retain_flagged(&flags);
    }

    /// The statements that ask for the subpages of each entry.
    pub fn subpage_queries(&self) -> (r: Vec<SQLtuple>)
        ensures
            batches_view(r@) == subpage_batches(self@.entries),
    {
        let entries = self.entries();
        let mut out: Vec<SQLtuple> = Vec::new();
        let mut i: usize = 0;
        while i < entries.len()
            invariant
                i <= entries.len(),
                out.len() == i,
                forall|j: int|
                    0 <= j < i ==> (#[trigger] out@[j]).0@ == subpages_sql() && out@[j].1.deep_view()
                        == seq![
                        decimal_of(entries.deep_view()[j].title.namespace_id as int),
                        database_form(entries.deep_view()[j].title.title) + "/%"@,
                    ],
            decreases entries.len() - i,
        {
            let title = entries[i].title();
            let mut values: Vec<String> = Vec::new();
            values.push(crate::numeral::i64_to_string(title.namespace_id()));
            values.push(concat(title.with_underscores().as_str(), "/%"));
            proof {
                assert(values.deep_view() =~= seq![
                    decimal_of(entries.deep_view()[i as int].title.namespace_id as int),
                    database_form(entries.deep_view()[i as int].title.title) + "/%"@,
                ]);
            }
            out.push(
                (
                    String::from_str(
                        "SELECT page_title,page_namespace FROM page WHERE page_namespace=? AND page_title LIKE ?",
                    ),
                    values,
                ),
            );
            i += 1;
        }
        proof {
            assert(batches_view(out@) =~= subpage_batches(self@.entries));
        }
        out
    }
}

impl Platform {
    /// The wiki of a source that has run, or the message that it has not.
    fn wiki_of_source_or(&self, source: &str, message: &str) -> (r: StageAction)
        ensures
            r@ == (match wiki_of_source(self@.wiki_by_source, source@) {
                Some(w) => StageActionView::Convert(w),
                None => StageActionView::Fail(message@),
            }),
    {
        match self.wiki_for_source(source) {
            Some(w) => StageAction::Convert(w),
            None => StageAction::Fail(String::from_str(message)),
        }
    }

    /// One phase of the stage that brings the list to the wiki asked for.
    pub fn convert_to_common_wiki(&self, phase: usize) -> (r: StageAction)
        ensures
            r@ == common_wiki_phase(self@, phase as nat),
    {
        if phase > 0 {
            return StageAction::Finished;
        }
        let mode = self.get_param_default("common_wiki", "auto");
        let m = mode.as_str();
        if str_eq(m, "auto") {
            StageAction::Finished
        } else if str_eq(m, "cats") {
            self.wiki_of_source_or("categories", "categories wiki requested as output, but not set")
        } else if str_eq(m, "pagepile") {
            self.wiki_of_source_or("pagepile", "pagepile wiki requested as output, but not set")
        } else if str_eq(m, "manual") {
            self.wiki_of_source_or("manual", "manual wiki requested as output, but not set")
        } else if str_eq(m, "wikidata") {
            StageAction::Convert(String::from_str("wikidatawiki"))
        } else if str_eq(m, "other") {
            match self.get_param("common_wiki_other") {
                Some(w) => StageAction::Convert(w),
                None => StageAction::Fail(
                    String::from_str("Other wiki for output expected, but not given in text field"),
                ),
            }
        } else {
            StageAction::Fail(concat3("Unknown output wiki type '", m, "'"))
        }
    }

    /// One phase of the stage that hands the list to the filters of the category database.
    pub fn process_missing_database_filters(&self, result: &PageList, phase: usize) -> (r:
        StageAction)
        ensures
            r@ == database_filters_phase(result@, phase as nat),
    {
        if phase > 0 {
            return StageAction::Finished;
        }
        match result.wiki() {
            Some(w) => StageAction::DatabaseFilters(w),
            None => StageAction::Fail(
                String::from_str("Platform::process_missing_database_filters: result has no wiki"),
            ),
        }
    }

    /// The statements that ask for the Wikidata items of pages of the wiki
    /// `wiki` by their full titles.
    pub fn wikidata_item_batches(wiki: &str, titles: &Vec<String>) -> (r: Vec<SQLtuple>)
        ensures
            batches_view(r@) == item_batches(wiki@, titles.deep_view()),
    {
        let chunks = chunk_titles(0, titles, PAGE_BATCH_SIZE);
        let head = concat3(
            "SELECT ips_site_page,ips_item_id FROM wb_items_per_site WHERE ips_site_id='",
            wiki,
            "' and ips_site_page IN (",
        );
        quote_batches(&chunks, head.as_str(), ")")
    }

    /// One phase of the stage that notes the Wikidata item of each page
    /// and filters by it.
    pub fn process_by_wikidata_item(&self, result: &mut PageList, phase: usize) -> (r: StageAction)
        ensures
            (final(result)@, r@) == items_phase(self@, old(result)@, phase as nat),
            final(result)@.wf(),
            old(result)@.tagged() ==> final(result)@.tagged(),
    {
        result.is_well_formed();
        if result.is_wikidata() || phase >= 2 {
            return StageAction::Finished;
        }
        let wdi = self.get_param_default("wikidata_item", "no");
        let with = str_eq(wdi.as_str(), "with");
        let without = str_eq(wdi.as_str(), "without");
        if !str_eq(wdi.as_str(), "any") && !with && !without {
            return StageAction::Finished;
        }
        if phase == 0 {
            if result.wiki().is_none() {
                return StageAction::Pass;
            }
            let batches: Vec<SQLtuple> = Vec::new();
            proof {
                assert(batches_view(batches@) =~= Seq::empty());
            }
            return StageAction::Run(
                Query {
                    wiki: String::from_str("wikidatawiki"),
                    batches,
                    chunk_size: 0,
                    intake: Intake::WikidataItems,
                },
            );
        }
        if with {
            result.retain_by_wikidata_item(true);
        } else if without {
            result.retain_by_wikidata_item(false);
        }
        StageAction::Finished
    }

    /// One phase of the stage that adds and filters subpages.
    pub fn process_subpages(&self, result: &mut PageList, phase: usize) -> (r: StageAction)
        ensures
            (final(result)@, r@) == subpages_phase(self@, old(result)@, phase as nat),
            final(result)@.wf(),
            old(result)@.tagged() ==> final(result)@.tagged(),
    {
        result.is_well_formed();
        let add_subpages = self.has_param("add_subpages");
        let filter = self.get_param_default("subpage_filter", "either");
        let keep = str_eq(filter.as_str(), "subpages");
        let drop = str_eq(filter.as_str(), "no_subpages");
        if phase >= 2 || (!add_subpages && !keep && !drop) {
            return StageAction::Finished;
        }
        if phase == 0 {
            if !add_subpages {
                return StageAction::Pass;
            }
            let wiki = match result.wiki() {
                Some(w) => w,
                None => {
                    return StageAction::Fail(
                        String::from_str("Platform::process_redlinks: no wiki set in result"),
                    );
                },
            };
            return StageAction::Run(
                Query {
                    wiki,
                    batches: result.subpage_queries(),
                    chunk_size: 0,
                    intake: Intake::AddMissing(RowReader::TitleAndNamespace),
                },
            );
        }
        if keep {
            result.retain_by_subpage(true);
        } else if drop {
            result.retain_by_subpage(false);
        }
        StageAction::Finished
    }
}

} // verus!
