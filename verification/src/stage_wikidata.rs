//! The stage that keeps the Wikidata items which use, or do not use, given
//! properties and items, have no statements, or have no sitelinks.

use vstd::prelude::*;
use crate::batch::sql_batches;
use crate::convert::emptied;
use crate::form_parameters::{is_set, param_or, param_or_blank};
use crate::pagelist::{PageList, PageListView};
use crate::pipeline::{Intake, Query, QueryView, StageAction, StageActionView};
use crate::platform::{Platform, PlatformView, PAGE_BATCH_SIZE};
use crate::reader::RowReader;
use crate::rewrite::{wrap_batches, wrapped_all};
use crate::sql::SQLtuple;
use crate::text::{chars_of, push_str, split, split_on, str_eq, string_of, trim, trimmed};

verus! {

/// The condition that a page links to the item or property `entity`: an
/// item by a link into namespace 0, a property by one into namespace 120.
/// Other texts give no condition.
pub open spec fn usage_condition(entity: Seq<char>) -> Option<Seq<char>> {
    if entity.len() > 0 && entity[0] == 'Q' {
        Some(
            "(SELECT * FROM pagelinks WHERE pl_from=page_id AND pl_namespace=0 AND pl_title=?)"@,
        )
    } else if entity.len() > 0 && entity[0] == 'P' {
        Some(
            "(SELECT * FROM pagelinks WHERE pl_from=page_id AND pl_namespace=120 AND pl_title=?)"@,
        )
    } else {
        None
    }
}

/// The items and properties among the pieces of a list.
pub open spec fn usage_entities(pieces: Seq<Seq<char>>) -> Seq<Seq<char>>
    decreases pieces.len(),
{
    if pieces.len() == 0 {
        Seq::<Seq<char>>::empty()
    } else if usage_condition(pieces.last()) is Some {
        usage_entities(pieces.drop_last()).push(pieces.last())
    } else {
        usage_entities(pieces.drop_last())
    }
}

/// The conditions of the entities, each led in by `lead`.
pub open spec fn usage_conditions(entities: Seq<Seq<char>>, lead: Seq<char>) -> Seq<char>
    decreases entities.len(),
{
    if entities.len() == 0 {
        Seq::<char>::empty()
    } else {
        usage_conditions(entities.drop_last(), lead) + lead + (match usage_condition(
            entities.last(),
        ) {
            Some(c) => c,
            None => Seq::<char>::empty(),
        })
    }
}

/// The list of entities that the parameters name, trimmed.
pub open spec fn usage_list(p: PlatformView) -> Seq<char> {
    trimmed(param_or_blank(p.params, "wikidata_prop_item_use"@))
}

/// Whether the parameters ask for this stage.
pub open spec fn wikidata_filter_asked(p: PlatformView) -> bool {
    usage_list(p).len() > 0 || is_set(p.params, "wpiu_no_statements"@) || is_set(
        p.params,
        "wpiu_no_sitelinks"@,
    )
}

/// The part of the statement behind the titles: the conditions on
/// statements, sitelinks and uses, and the values of the uses.
pub open spec fn wikidata_filter_post(p: PlatformView) -> (Seq<char>, Seq<Seq<char>>) {
    let entities = usage_entities(split_on(usage_list(p), ','));
    let wpiu = param_or(p.params, "wpiu"@, "any"@);
    let statements = if is_set(p.params, "wpiu_no_statements"@) {
        " AND EXISTS (SELECT * FROM page_props WHERE page_id=pp_page AND pp_propname='wb-claims' AND pp_sortkey=0)"@
    } else {
        Seq::<char>::empty()
    };
    let sitelinks = if is_set(p.params, "wpiu_no_sitelinks"@) {
        " AND EXISTS (SELECT * FROM page_props WHERE page_id=pp_page AND pp_propname='wb-sitelinks' AND pp_sortkey=0)"@
    } else {
        Seq::<char>::empty()
    };
    if entities.len() == 0 {
        (statements + sitelinks, Seq::<Seq<char>>::empty())
    } else if wpiu == "all"@ {
        (statements + sitelinks + usage_conditions(entities, " AND EXISTS "@), entities)
    } else if wpiu == "any"@ {
        (
            statements + sitelinks + " AND (0"@ + usage_conditions(entities, " OR EXISTS "@)
                + ")"@,
            entities,
        )
    } else if wpiu == "none"@ {
        (statements + sitelinks + usage_conditions(entities, " AND NOT EXISTS "@), entities)
    } else {
        (statements + sitelinks, Seq::<Seq<char>>::empty())
    }
}

/// The query of this stage for a list of Wikidata items.
pub open spec fn wikidata_filter_query(p: PlatformView, list: PageListView) -> QueryView {
    QueryView {
        wiki: list.wiki->Some_0,
        batches: wrapped_all(
            sql_batches(list.entries, PAGE_BATCH_SIZE as nat),
            "SELECT DISTINCT page_title FROM page WHERE "@,
            wikidata_filter_post(p).0,
            Seq::empty(),
            wikidata_filter_post(p).1,
        ),
        chunk_size: 0,
        intake: Intake::Add(RowReader::MainTitle),
    }
}

/// The message of a list that has no wiki to ask.
pub open spec fn no_wiki_message() -> Seq<char> {
    "PageList::run_batch_queries: No wiki"@
}

/// A phase of this stage. Phase 0 asks for the list to be converted to
/// Wikidata, if the list has entries and the parameters ask for the stage.
/// Phase 1 empties the list and asks which of its items meet the conditions.
pub open spec fn wikidata_filter_phase(p: PlatformView, list: PageListView, phase: nat) -> (
    PageListView,
    StageActionView,
) {
    if list.entries.len() == 0 || !wikidata_filter_asked(p) || phase >= 2 {
        (list, StageActionView::Finished)
    } else if phase == 0 {
        (list, StageActionView::Convert("wikidatawiki"@))
    } else if list.wiki is None {
        (list, StageActionView::Fail(no_wiki_message()))
    } else {
        (emptied(list), StageActionView::Run(wikidata_filter_query(p, list)))
    }
}

/// The condition for one entity, if it is an item or a property.
fn condition_for(entity: &str) -> (r: Option<&'static str>)
    ensures
        match r {
            Some(c) => usage_condition(entity@) == Some(c@),
            None => usage_condition(entity@) is None,
        },
{
    let v = chars_of(entity);
    if v.len() > 0 && v[0] == 'Q' {
        Some("(SELECT * FROM pagelinks WHERE pl_from=page_id AND pl_namespace=0 AND pl_title=?)")
    } else if v.len() > 0 && v[0] == 'P' {
        Some("(SELECT * FROM pagelinks WHERE pl_from=page_id AND pl_namespace=120 AND pl_title=?)")
    } else {
        None
    }
}

/// The items and properties among the pieces.
fn entities_among(pieces: &Vec<String>) -> (r: Vec<String>)
    ensures
        r.deep_view() == usage_entities(pieces.deep_view()),
{
    let ghost all = pieces.deep_view();
    let mut out: Vec<String> = Vec::new();
    let mut i: usize = 0;
    proof {
        assert(all.take(0) =~= Seq::<Seq<char>>::empty());
        assert(out.deep_view() =~= Seq::<Seq<char>>::empty());
    }
    while i < pieces.len()
        invariant
            i <= pieces.len(),
            all == pieces.deep_view(),
            out.deep_view() == usage_entities(all.take(i as int)),
        decreases pieces.len() - i,
    {
        proof {
            let next = all.take(i + 1);
            assert(next.drop_last() =~= all.take(i as int));
            assert(next.last() == pieces@[i as int]@);
        }
        if condition_for(pieces[i].as_str()).is_some() {
            let ghost before = out.deep_view();
            out.push(pieces[i].clone());
            proof {
                assert(out.deep_view() =~= before.push(pieces@[i as int]@));
            }
        }
        i += 1;
    }
    proof {
        assert(all.take(all.len() as int) =~= all);
    }
    out
}

/// Appends the conditions of the entities, each led in by `lead`.
fn push_conditions(out: &mut Vec<char>, entities: &Vec<String>, lead: &str)
    ensures
        final(out)@ == old(out)@ + usage_conditions(entities.deep_view(), lead@),
{
    let ghost start = out@;
    let ghost all = entities.deep_view();
    let mut i: usize = 0;
    proof {
        assert(all.take(0) =~= Seq::<Seq<char>>::empty());
        assert(start + Seq::<char>::empty() =~= start);
    }
    while i < entities.len()
        invariant
            i <= entities.len(),
            all == entities.deep_view(),
            out@ == start + usage_conditions(all.take(i as int), lead@),
        decreases entities.len() - i,
    {
        proof {
            let next = all.take(i + 1);
            assert(next.drop_last() =~= all.take(i as int));
            assert(next.last() == entities@[i as int]@);
        }
        let ghost now = out@;
        push_str(out, lead);
        match condition_for(entities[i].as_str()) {
            Some(c) => {
                push_str(out, c);
            },
            None => {
                proof {
                    assert(out@ + Seq::<char>::empty() =~= out@);
                }
            },
        }
        proof {
            let c = match usage_condition(entities@[i as int]@) {
                Some(c) => c,
                None => Seq::<char>::empty(),
            };
            assert(out@ =~= start + (usage_conditions(all.take(i as int), lead@) + lead@ + c));
        }
        i += 1;
    }
    proof {
        assert(all.take(all.len() as int) =~= all);
    }
}

impl Platform {
    /// The part of this stage's statement behind the titles.
    pub fn wikidata_filter_conditions(&self) -> (r: SQLtuple)
        ensures
            (r.0@, r.1.deep_view()) == wikidata_filter_post(self@),
    {
        let list = trim(self.get_param_blank("wikidata_prop_item_use").as_str());
        let pieces = split(list.as_str(), ',');
        let entities = entities_among(&pieces);
        let wpiu = self.get_param_default("wpiu", "any");
        let mut out: Vec<char> = Vec::new();
        if self.has_param("wpiu_no_statements") {
            push_str(
                &mut out,
                " AND EXISTS (SELECT * FROM page_props WHERE page_id=pp_page AND pp_propname='wb-claims' AND pp_sortkey=0)",
            );
        }
        if self.has_param("wpiu_no_sitelinks") {
            push_str(
                &mut out,
                " AND EXISTS (SELECT * FROM page_props WHERE page_id=pp_page AND pp_propname='wb-sitelinks' AND pp_sortkey=0)",
            );
        }
        let ghost base = out@;
        let none: Vec<String> = Vec::new();
        proof {
            assert(none.deep_view() =~= Seq::<Seq<char>>::empty());
            assert(entities.deep_view().len() == entities.len());
        }
        if entities.len() == 0 {
            proof {
                assert(out@ =~= wikidata_filter_post(self@).0);
            }
            (string_of(&out), none)
        } else if str_eq(wpiu.as_str(), "all") {
            push_conditions(&mut out, &entities, " AND EXISTS ");
            proof {
                assert(out@ =~= wikidata_filter_post(self@).0);
            }
            (string_of(&out), entities)
        } else if str_eq(wpiu.as_str(), "any") {
            push_str(&mut out, " AND (0");
            push_conditions(&mut out, &entities, " OR EXISTS ");
            push_str(&mut out, ")");
            proof {
                assert(out@ =~= wikidata_filter_post(self@).0);
            }
            (string_of(&out), entities)
        } else if str_eq(wpiu.as_str(), "none") {
            push_conditions(&mut out, &entities, " AND NOT EXISTS ");
            proof {
                assert(out@ =~= wikidata_filter_post(self@).0);
            }
            (string_of(&out), entities)
        } else {
            proof {
                assert(out@ =~= wikidata_filter_post(self@).0);
            }
            (string_of(&out), none)
        }
    }

    /// One phase of the stage that filters Wikidata items by what they use
    /// and have.
    pub fn filter_wikidata(&self, result: &mut PageList, phase: usize) -> (r: StageAction)
        ensures
            (final(result)@, r@) == wikidata_filter_phase(self@, old(result)@, phase as nat),
            final(result)@.wf(),
            old(result)@.tagged() ==> final(result)@.tagged(),
    {
        result.is_well_formed();
        if result.is_empty() || phase >= 2 {
            return StageAction::Finished;
        }
        let list = trim(self.get_param_blank("wikidata_prop_item_use").as_str());
        if list.as_str().unicode_len() == 0 && !self.has_param("wpiu_no_statements")
            && !self.has_param("wpiu_no_sitelinks") {
            return StageAction::Finished;
        }
        if phase == 0 {
            return StageAction::Convert(String::from_str("wikidatawiki"));
        }
        let wiki = match result.wiki() {
            Some(w) => w,
            None => {
                return StageAction::Fail(String::from_str("PageList::run_batch_queries: No wiki"));
            },
        };
        let post = self.wikidata_filter_conditions();
        let none: Vec<String> = Vec::new();
        proof {
            assert(none.deep_view() =~= Seq::<Seq<char>>::empty());
        }
        let batches = result.to_sql_batches(PAGE_BATCH_SIZE);
        let batches = wrap_batches(
            &batches,
            "SELECT DISTINCT page_title FROM page WHERE ",
            post.0.as_str(),
            &none,
            &post.1,
        );
        result.clear_entries();
        StageAction::Run(
            Query {
                wiki,
                batches,
                chunk_size: 0,
                intake: Intake::Add(RowReader::MainTitle),
            },
        )
    }
}

} // verus!
