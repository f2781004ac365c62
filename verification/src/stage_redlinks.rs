//! The stages that list the missing pages that the pages of the list link
//! to, and that find out which titles exist as labels on Wikidata.

use vstd::prelude::*;
use crate::annotate::rows_view;
use crate::batch::{batches_view, sql_batches};
use crate::form_parameters::{is_set, param_or, param_or_blank};
use crate::numeral::{parse_usize, parsed_usize};
use crate::pagelist::{PageList, PageListView};
use crate::pipeline::{texts_from_rows, texts_in, Intake, Query, QueryView, StageAction, StageActionView};
use crate::platform::{Platform, PlatformView, PAGE_BATCH_SIZE};
use crate::rewrite::{wrap_batches, wrapped_all};
use crate::row::Row;
use crate::sql::{get_questionmarks, question_marks, SQLtuple};
use crate::text::{push_str, str_eq, string_of};
use crate::title::{display_form, Title};

verus! {

/// How many titles a fragment of a redlink query holds at most.
pub const REDLINK_BATCH_SIZE: usize = 100;

/// The statement that asks for the links of pages to missing pages, up to its condition.
pub open spec fn redlinks_head() -> Seq<char> {
    "SELECT pl_title,pl_namespace,(SELECT COUNT(*) FROM page p1 WHERE p1.page_title=pl0.pl_title AND p1.page_namespace=pl0.pl_namespace) AS cnt from page p0,pagelinks pl0 WHERE pl_from=p0.page_id AND "@
}

/// The statement that asks for the links of pages to missing pages, behind its condition.
pub open spec fn redlinks_tail(p: PlatformView) -> Seq<char> {
    (if is_set(p.params, "article_redlinks_only"@) {
        " AND pl_namespace=0"@
    } else {
        " AND pl_namespace>=0"@
    }) + (if is_set(p.params, "remove_template_redlinks"@) {
        " AND NOT EXISTS (SELECT * FROM pagelinks pl1 WHERE pl1.pl_from_namespace=10 AND pl0.pl_namespace=pl1.pl_namespace AND pl0.pl_title=pl1.pl_title LIMIT 1)"@
    } else {
        Seq::<char>::empty()
    }) + " GROUP BY page_id,pl_namespace,pl_title"@ + " HAVING cnt=0"@
}

/// How often a missing page has to be linked to, to be listed.
pub open spec fn min_redlinks(p: PlatformView) -> usize {
    match parsed_usize(param_or(p.params, "min_redlink_count"@, "1"@)) {
        Some(n) => n,
        None => 1,
    }
}

/// A phase of the redlinks stage: phase 0 asks for the links to missing
/// pages, if missing pages are to be shown and the list is not
/// Wikidata's. The list stays as it is until the rows are taken in.
pub open spec fn redlinks_phase(p: PlatformView, list: PageListView, phase: nat) -> StageActionView {
    if phase > 0 || list.entries.len() == 0 || !is_set(p.params, "show_redlinks"@)
        || list.is_wikidata() {
        StageActionView::Finished
    } else if list.wiki is None {
        StageActionView::Fail("Platform::process_redlinks: no wiki set in result"@)
    } else {
        StageActionView::Run(
            QueryView {
                wiki: list.wiki->Some_0,
                batches: wrapped_all(
                    sql_batches(list.entries, REDLINK_BATCH_SIZE as nat),
                    redlinks_head(),
                    redlinks_tail(p),
                    Seq::empty(),
                    Seq::empty(),
                ),
                chunk_size: 0,
                intake: Intake::Redlinks { min: min_redlinks(p) },
            },
        )
    }
}

/// The statement that asks which of `n` texts are labels or aliases of items.
pub open spec fn creator_sql(n: nat) -> Seq<char> {
    "SELECT DISTINCT term_text FROM wb_terms WHERE term_entity_type='item' AND term_type IN ('label','alias') AND term_text IN ("@
        + question_marks(n) + ")"@
}

/// The statements that ask which titles of a list exist as labels: for
/// each fragment of the list one statement, with the titles in display form.
pub open spec fn creator_batches(batches: Seq<(Seq<char>, Seq<Seq<char>>)>) -> Seq<
    (Seq<char>, Seq<Seq<char>>),
> {
    Seq::new(
        batches.len(),
        |i: int|
            (
                creator_sql(batches[i].1.len()),
                Seq::new(batches[i].1.len(), |k: int| display_form(batches[i].1[k])),
            ),
    )
}

/// A phase of the creator stage: phase 0 asks which titles exist as
/// labels, if missing pages are shown or pages without item are asked for,
/// and the list is not Wikidata's.
pub open spec fn creator_phase(p: PlatformView, list: PageListView, phase: nat) -> StageActionView {
    if phase > 0 || list.entries.len() == 0 || list.is_wikidata() || (!is_set(
        p.params,
        "show_redlinks"@,
    ) && param_or_blank(p.params, "wikidata_item"@) != "without"@) {
        StageActionView::Finished
    } else {
        StageActionView::Run(
            QueryView {
                wiki: "wikidatawiki"@,
                batches: creator_batches(sql_batches(list.entries, PAGE_BATCH_SIZE as nat)),
                chunk_size: 0,
                intake: Intake::ExistingLabels,
            },
        )
    }
}

/// The labels with those of `more` that are not among them yet, in order.
pub open spec fn with_labels(labels: Seq<Seq<char>>, more: Seq<Seq<char>>) -> Seq<Seq<char>>
    decreases more.len(),
{
    if more.len() == 0 {
        labels
    } else {
        let init = with_labels(labels, more.drop_last());
        if init.contains(more.last()) {
            init
        } else {
            init.push(more.last())
        }
    }
}

impl Platform {
    /// One phase of the stage that lists missing pages.
    pub fn process_redlinks(&self, result: &PageList, phase: usize) -> (r: StageAction)
        ensures
            r@ == redlinks_phase(self@, result@, phase as nat),
    {
        if phase > 0 || result.is_empty() || !self.has_param("show_redlinks")
            || result.is_wikidata() {
            return StageAction::Finished;
        }
        let wiki = match result.wiki() {
            Some(w) => w,
            None => {
                return StageAction::Fail(
                    String::from_str("Platform::process_redlinks: no wiki set in result"),
                );
            },
        };
        let mut tail: Vec<char> = Vec::new();
        if self.has_param("article_redlinks_only") {
            push_str(&mut tail, " AND pl_namespace=0");
        } else {
            push_str(&mut tail, " AND pl_namespace>=0");
        }
        if self.has_param("remove_template_redlinks") {
            push_str(
                &mut tail,
                " AND NOT EXISTS (SELECT * FROM pagelinks pl1 WHERE pl1.pl_from_namespace=10 AND pl0.pl_namespace=pl1.pl_namespace AND pl0.pl_title=pl1.pl_title LIMIT 1)",
            );
        }
        push_str(&mut tail, " GROUP BY page_id,pl_namespace,pl_title");
        push_str(&mut tail, " HAVING cnt=0");
        proof {
            assert(tail@ =~= redlinks_tail(self@));
        }
        let tail = string_of(&tail);
        let none: Vec<String> = Vec::new();
        proof {
            assert(none.deep_view() =~= Seq::<Seq<char>>::empty());
        }
        let min = match parse_usize(self.get_param_default("min_redlink_count", "1").as_str()) {
            Some(n) => n,
            None => 1,
        };
        let batches = result.to_sql_batches(REDLINK_BATCH_SIZE);
        let batches = wrap_batches(
            &batches,
            "SELECT pl_title,pl_namespace,(SELECT COUNT(*) FROM page p1 WHERE p1.page_title=pl0.pl_title AND p1.page_namespace=pl0.pl_namespace) AS cnt from page p0,pagelinks pl0 WHERE pl_from=p0.page_id AND ",
            tail.as_str(),
            &none,
            &none,
        );
        StageAction::Run(
            Query {
                wiki,
                batches,
                chunk_size: 0,
                intake: Intake::Redlinks { min },
            },
        )
    }

    /// One phase of the stage that finds out which titles exist as labels.
    pub fn process_creator(&self, result: &PageList, phase: usize) -> (r: StageAction)
        ensures
            r@ == creator_phase(self@, result@, phase as nat),
    {
        if phase > 0 || result.is_empty() || result.is_wikidata() {
            return StageAction::Finished;
        }
        if !self.has_param("show_redlinks") && !str_eq(
            self.get_param_blank("wikidata_item").as_str(),
            "without",
        ) {
            return StageAction::Finished;
        }
        let fragments = result.to_sql_batches(PAGE_BATCH_SIZE);
        let mut batches: Vec<SQLtuple> = Vec::new();
        let mut i: usize = 0;
        while i < fragments.len()
            invariant
                i <= fragments.len(),
                batches.len() == i,
                forall|j: int|
                    0 <= j < i ==> (#[trigger] batches@[j]).0@ == creator_sql(
                        fragments@[j].1.deep_view().len(),
                    ) && batches@[j].1.deep_view() == Seq::new(
                        fragments@[j].1.deep_view().len(),
                        |k: int| display_form(fragments@[j].1.deep_view()[k]),
                    ),
            decreases fragments.len() - i,
        {
            let titles = &fragments[i].1;
            let mut out: Vec<char> = Vec::new();
            push_str(
                &mut out,
                "SELECT DISTINCT term_text FROM wb_terms WHERE term_entity_type='item' AND term_type IN ('label','alias') AND term_text IN (",
            );
            push_str(&mut out, get_questionmarks(titles.len()).as_str());
            push_str(&mut out, ")");
            proof {
                assert(titles.deep_view().len() == titles.len());
                assert(out@ =~= creator_sql(titles.deep_view().len()));
            }
            let mut values: Vec<String> = Vec::new();
            let mut k: usize = 0;
            while k < titles.len()
                invariant
                    k <= titles.len(),
                    values.len() == k,
                    forall|j: int| 0 <= j < k ==> (#[trigger] values@[j])@ == display_form(titles@[j]@),
                decreases titles.len() - k,
            {
                values.push(Title::underscores_to_spaces(titles[k].as_str()));
                k += 1;
            }
            proof {
                assert(values.deep_view() =~= Seq::new(
                    titles.deep_view().len(),
                    |k: int| display_form(titles.deep_view()[k]),
                ));
            }
            batches.push((string_of(&out), values));
            i += 1;
        }
        proof {
            assert(batches_view(batches@) =~= creator_batches(batches_view(fragments@)));
        }
        StageAction::Run(
            Query {
                wiki: String::from_str("wikidatawiki"),
                batches,
                chunk_size: 0,
                intake: Intake::ExistingLabels,
            },
        )
    }

    /// Notes the labels that the rows hold, one label a row, as existing.
    pub fn take_in_labels(&mut self, rows: &Vec<Row>)
        ensures
            final(self)@ == (PlatformView {
                existing_labels: with_labels(
                    old(self)@.existing_labels,
                    texts_in(rows_view(rows@)),
                ),
                ..old(self)@
            }),
    {
        let labels = texts_from_rows(rows);
        let ghost start = self@;
        let ghost all = labels.deep_view();
        let mut i: usize = 0;
        proof {
            assert(all.take(0) =~= Seq::<Seq<char>>::empty());
        }
        while i < labels.len()
            invariant
                i <= labels.len(),
                all == labels.deep_view(),
                self@ == (PlatformView {
                    existing_labels: with_labels(start.existing_labels, all.take(i as int)),
                    ..start
                }),
            decreases labels.len() - i,
        {
            proof {
                let next = all.take(i + 1);
                assert(next.drop_last() =~= all.take(i as int));
                assert(next.last() == labels@[i as int]@);
            }
            self.add_existing_label(labels[i].clone());
            i += 1;
        }
        proof {
            assert(all.take(all.len() as int) =~= all);
        }
    }
}

} // verus!
