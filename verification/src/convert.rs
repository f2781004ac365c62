//! Converting a page list from one wiki to another, by way of Wikidata.
//!
//! The pages of the list are first replaced by their Wikidata items, and
//! the items then by the pages they have on the target wiki.

use vstd::prelude::*;
use crate::batch::sql_batches;
use crate::entry::EntryView;
use crate::pagelist::{PageList, PageListView};
use crate::pipeline::{Intake, Query, QueryView, StageAction, StageActionView};
use crate::platform::PAGE_BATCH_SIZE;
use crate::reader::RowReader;
use crate::rewrite::{wrap_batches, wrapped_all};
use crate::text::str_eq;

verus! {

/// The statement that asks for the items of pages, up to its condition.
pub open spec fn items_of_pages_sql() -> Seq<char> {
    "SELECT pp_value FROM page_props,page WHERE page_id=pp_page AND pp_propname='wikibase_item' AND "@
}

/// The statement that asks for the pages of items, up to its condition.
pub open spec fn pages_of_items_sql() -> Seq<char> {
    "SELECT ips_site_page FROM wb_items_per_site,page WHERE ips_item_id=substr(page_title,2)*1 AND "@
}

/// The query that asks for the Wikidata items of the pages of a list.
pub open spec fn to_wikidata_query(list: PageListView) -> QueryView {
    QueryView {
        wiki: list.wiki->Some_0,
        batches: wrapped_all(
            sql_batches(list.entries, PAGE_BATCH_SIZE as nat),
            items_of_pages_sql(),
            Seq::empty(),
            Seq::empty(),
            Seq::empty(),
        ),
        chunk_size: 0,
        intake: Intake::Add(RowReader::MainTitleLossy),
    }
}

/// The query that asks for the pages that the items of a list have on the wiki `target`.
pub open spec fn from_wikidata_query(list: PageListView, target: Seq<char>) -> QueryView {
    QueryView {
        wiki: "wikidatawiki"@,
        batches: wrapped_all(
            sql_batches(list.entries, (PAGE_BATCH_SIZE * 2) as nat),
            pages_of_items_sql(),
            " AND ips_site_id=?"@,
            Seq::empty(),
            seq![target],
        ),
        chunk_size: 5,
        intake: Intake::FullTitles,
    }
}

/// The list without its entries.
pub open spec fn emptied(list: PageListView) -> PageListView {
    PageListView { entries: Seq::<EntryView>::empty(), ..list }
}

/// A phase of a conversion: the list after it, and what it asks for.
///
/// A list without tag, and a list of the target wiki, need nothing. Phase 0
/// asks for the items of the pages, unless the list is Wikidata's already.
/// Phase 1 tags the list as Wikidata's and, unless Wikidata is the target,
/// asks for the pages of the items. Phase 2 tags the list as the target's.
pub open spec fn conversion(list: PageListView, target: Seq<char>, phase: nat) -> (
    PageListView,
    StageActionView,
) {
    if list.wiki is None || list.wiki == Some(target) {
        (list, StageActionView::Finished)
    } else if phase == 0 {
        if list.is_wikidata() {
            (list, StageActionView::Pass)
        } else {
            (emptied(list), StageActionView::Run(to_wikidata_query(list)))
        }
    } else if phase == 1 {
        let tagged = PageListView { wiki: Some("wikidatawiki"@), ..list };
        if target == "wikidatawiki"@ {
            (tagged, StageActionView::Finished)
        } else {
            (emptied(tagged), StageActionView::Run(from_wikidata_query(tagged, target)))
        }
    } else if phase == 2 {
        (PageListView { wiki: Some(target), ..list }, StageActionView::Finished)
    } else {
        (list, StageActionView::Finished)
    }
}

impl PageList {
    /// One phase of the conversion of this list to the wiki `wiki`. The
    /// phases are gone through from 0 on until one is `Finished`; after a
    /// `Run` the rows of the query are taken in before the next phase.
    /// Converting a list to the wiki it has is finished at once, with the
    /// list unchanged.
    pub fn convert_to_wiki(&mut self, wiki: &str, phase: usize) -> (r: StageAction)
        ensures
            (final(self)@, r@) == conversion(old(self)@, wiki@, phase as nat),
            final(self)@.wf(),
            old(self)@.tagged() ==> final(self)@.tagged(),
            old(self)@.wiki == Some(wiki@) ==> r@ is Finished && final(self)@ == old(self)@,
    {
        self.is_well_formed();
        let my_wiki = match self.wiki() {
            Some(w) => w,
            None => {
                return StageAction::Finished;
            },
        };
        if str_eq(my_wiki.as_str(), wiki) {
            return StageAction::Finished;
        }
        let none: Vec<String> = Vec::new();
        proof {
            assert(none.deep_view() =~= Seq::<Seq<char>>::empty());
            reveal_strlit("");
            assert(""@ =~= Seq::<char>::empty());
        }
        if phase == 0 {
            if self.is_wikidata() {
                return StageAction::Pass;
            }
            let batches = self.to_sql_batches(PAGE_BATCH_SIZE);
            let batches = wrap_batches(
                &batches,
                "SELECT pp_value FROM page_props,page WHERE page_id=pp_page AND pp_propname='wikibase_item' AND ",
                "",
                &none,
                &none,
            );
            self.clear_entries();
            StageAction::Run(
                Query {
                    wiki: my_wiki,
                    batches,
                    chunk_size: 0,
                    intake: Intake::Add(RowReader::MainTitleLossy),
                },
            )
        } else if phase == 1 {
            self.set_wiki(Some(String::from_str("wikidatawiki")));
            if str_eq(wiki, "wikidatawiki") {
                return StageAction::Finished;
            }
            let batches = self.to_sql_batches(PAGE_BATCH_SIZE * 2);
            let mut target: Vec<String> = Vec::new();
            target.push(String::from_str(wiki));
            proof {
                assert(target.deep_view() =~= seq![wiki@]);
            }
            let batches = wrap_batches(
                &batches,
                "SELECT ips_site_page FROM wb_items_per_site,page WHERE ips_item_id=substr(page_title,2)*1 AND ",
                " AND ips_site_id=?",
                &none,
                &target,
            );
            self.clear_entries();
            StageAction::Run(
                Query {
                    wiki: String::from_str("wikidatawiki"),
                    batches,
                    chunk_size: 5,
                    intake: Intake::FullTitles,
                },
            )
        } else if phase == 2 {
            self.set_wiki(Some(String::from_str(wiki)));
            StageAction::Finished
        } else {
            StageAction::Finished
        }
    }
}

} // verus!
