//! The stage that keeps the pages whose Wikidata items have, or lack,
//! sitelinks to given wikis, or have a number of sitelinks within bounds.

use vstd::prelude::*;
use crate::batch::sql_batches;
use crate::convert::emptied;
use crate::form_parameters::{param_list, param_or_blank};
use crate::numeral::{decimal_of, parse_usize, parsed_usize, push_digits};
use crate::pagelist::{PageList, PageListView};
use crate::pipeline::{Intake, Query, QueryView, StageAction, StageActionView};
use crate::platform::{Platform, PlatformView, PAGE_BATCH_SIZE};
use crate::reader::RowReader;
use crate::rewrite::{wrap_batches, wrapped_all};
use crate::sql::{append_values, clone_texts, prep_quote, question_marks, quotable, SQLtuple};
use crate::stage_wikidata::no_wiki_message;
use crate::text::{push_str, string_of};

verus! {

/// `text`, `n` times.
pub open spec fn repeated(text: Seq<char>, n: nat) -> Seq<char>
    decreases n,
{
    if n == 0 {
        Seq::<char>::empty()
    } else {
        repeated(text, (n - 1) as nat) + text
    }
}

/// The condition that an item has a sitelink to the wiki of a value.
pub open spec fn has_sitelink_sql() -> Seq<char> {
    " AND EXISTS (SELECT * FROM wb_items_per_site WHERE ips_item_id=substr(page_title,2)*1 AND ips_site_id=? LIMIT 1)"@
}

/// The condition that an item has no sitelink to the wiki of a value.
pub open spec fn lacks_sitelink_sql() -> Seq<char> {
    " AND NOT EXISTS (SELECT * FROM wb_items_per_site WHERE ips_item_id=substr(page_title,2)*1 AND ips_site_id=? LIMIT 1)"@
}

/// What the parameters ask of sitelinks.
pub struct SitelinkWishes {
    pub yes: Seq<Seq<char>>,
    pub any: Seq<Seq<char>>,
    pub no: Seq<Seq<char>>,
    pub min: Seq<char>,
    pub max: Seq<char>,
}

/// What the parameters ask of sitelinks.
pub open spec fn sitelink_wishes(p: PlatformView) -> SitelinkWishes {
    SitelinkWishes {
        yes: param_list(p.params, "sitelinks_yes"@, '\n'),
        any: param_list(p.params, "sitelinks_any"@, '\n'),
        no: param_list(p.params, "sitelinks_no"@, '\n'),
        min: param_or_blank(p.params, "min_sitelink_count"@),
        max: param_or_blank(p.params, "max_sitelink_count"@),
    }
}

impl SitelinkWishes {
    /// Whether anything is asked.
    pub open spec fn asked(self) -> bool {
        self.yes.len() > 0 || self.any.len() > 0 || self.no.len() > 0 || self.min.len() > 0
            || self.max.len() > 0
    }

    /// Whether the number of sitelinks is bounded.
    pub open spec fn counted(self) -> bool {
        self.min.len() > 0 || self.max.len() > 0
    }

    /// The statement up to the titles.
    pub open spec fn head(self) -> Seq<char> {
        "SELECT "@ + (if self.counted() {
            "page_title,(SELECT count(*) FROM wb_items_per_site WHERE ips_item_id=substr(page_title,2)*1) AS sitelink_count"@
        } else {
            "DISTINCT page_title,0"@
        }) + " FROM page WHERE page_namespace=0"@ + repeated(has_sitelink_sql(), self.yes.len())
            + (if self.any.len() > 0 {
            " AND EXISTS (SELECT * FROM wb_items_per_site WHERE ips_item_id=substr(page_title,2)*1 AND ips_site_id IN ("@
                + question_marks(quotable(self.any).len()) + ") LIMIT 1)"@
        } else {
            Seq::<char>::empty()
        }) + repeated(lacks_sitelink_sql(), self.no.len()) + " AND "@
    }

    /// The values of the statement's head.
    pub open spec fn head_values(self) -> Seq<Seq<char>> {
        self.yes + (if self.any.len() > 0 {
            quotable(self.any)
        } else {
            Seq::<Seq<char>>::empty()
        }) + self.no
    }

    /// The bounds on the number of sitelinks, as they are written.
    pub open spec fn having(self) -> Seq<char> {
        let lower = match parsed_usize(self.min) {
            Some(n) => Some("sitelink_count>="@ + decimal_of(n as int)),
            None => None,
        };
        let upper = match parsed_usize(self.max) {
            Some(n) => Some("sitelink_count<="@ + decimal_of(n as int)),
            None => None,
        };
        match (lower, upper) {
            (Some(l), Some(u)) => " HAVING "@ + l + " AND "@ + u,
            (Some(l), None) => " HAVING "@ + l,
            (None, Some(u)) => " HAVING "@ + u,
            (None, None) => Seq::<char>::empty(),
        }
    }

    /// The statement behind the titles.
    pub open spec fn tail(self) -> Seq<char> {
        (if self.counted() {
            " GROUP BY page_title"@
        } else {
            Seq::<char>::empty()
        }) + self.having()
    }
}

/// The query of this stage for a list of Wikidata items.
pub open spec fn sitelinks_query(p: PlatformView, list: PageListView) -> QueryView {
    QueryView {
        wiki: list.wiki->Some_0,
        batches: wrapped_all(
            sql_batches(list.entries, PAGE_BATCH_SIZE as nat),
            sitelink_wishes(p).head(),
            sitelink_wishes(p).tail(),
            sitelink_wishes(p).head_values(),
            Seq::empty(),
        ),
        chunk_size: 0,
        intake: Intake::Add(RowReader::CountedMainTitle),
    }
}

/// A phase of this stage: the list after it, the wiki to go back to, and
/// what the phase asks for. Phase 0 notes the list's wiki and asks for the
/// conversion to Wikidata. Phase 1 empties the list and asks which of its
/// items meet the wishes. Phase 2 asks for the conversion back.
pub open spec fn sitelinks_phase(
    p: PlatformView,
    list: PageListView,
    phase: nat,
    old_wiki: Option<Seq<char>>,
) -> (PageListView, Option<Seq<char>>, StageActionView) {
    if phase == 0 {
        if list.entries.len() == 0 || !sitelink_wishes(p).asked() {
            (list, old_wiki, StageActionView::Finished)
        } else {
            (list, list.wiki, StageActionView::Convert("wikidatawiki"@))
        }
    } else if phase == 1 {
        if list.entries.len() == 0 {
            (list, old_wiki, StageActionView::Finished)
        } else if list.wiki is None {
            (list, old_wiki, StageActionView::Fail(no_wiki_message()))
        } else {
            (emptied(list), old_wiki, StageActionView::Run(sitelinks_query(p, list)))
        }
    } else if phase == 2 {
        match old_wiki {
            Some(w) => (list, old_wiki, StageActionView::Convert(w)),
            None => (list, old_wiki, StageActionView::Finished),
        }
    } else {
        (list, old_wiki, StageActionView::Finished)
    }
}

/// Appends `text` `n` times.
fn push_repeated(out: &mut Vec<char>, text: &str, n: usize)
    ensures
        final(out)@ == old(out)@ + repeated(text@, n as nat),
{
    let ghost start = out@;
    let mut i: usize = 0;
    proof {
        assert(start + Seq::<char>::empty() =~= start);
    }
    while i < n
        invariant
            i <= n,
            out@ == start + repeated(text@, i as nat),
        decreases n - i,
    {
        push_str(out, text);
        proof {
            assert(out@ =~= start + (repeated(text@, i as nat) + text@));
        }
        i += 1;
    }
}

/// One bound, as it is written.
fn push_bound(out: &mut Vec<char>, name: &str, n: usize)
    ensures
        final(out)@ == old(out)@ + (name@ + decimal_of(n as int)),
{
    let ghost start = out@;
    push_str(out, name);
    push_digits(out, n as u64);
    proof {
        assert(out@ =~= start + (name@ + decimal_of(n as int)));
    }
}

impl Platform {
    /// The statement of the sitelinks stage: what stands before the
    /// titles, with its values, and what stands behind them.
    pub fn sitelinks_statement(&self) -> (r: (SQLtuple, String))
        ensures
            r.0.0@ == sitelink_wishes(self@).head(),
            r.0.1.deep_view() == sitelink_wishes(self@).head_values(),
            r.1@ == sitelink_wishes(self@).tail(),
    {
        let ghost w = sitelink_wishes(self@);
        let sitelinks_yes = self.get_param_as_vec("sitelinks_yes", '\n');
        let sitelinks_any = self.get_param_as_vec("sitelinks_any", '\n');
        let sitelinks_no = self.get_param_as_vec("sitelinks_no", '\n');
        let sitelinks_min = self.get_param_blank("min_sitelink_count");
        let sitelinks_max = self.get_param_blank("max_sitelink_count");
        let use_min_max = sitelinks_min.as_str().unicode_len() > 0
            || sitelinks_max.as_str().unicode_len() > 0;
        proof {
            assert(sitelinks_yes.deep_view().len() == sitelinks_yes.len());
            assert(sitelinks_any.deep_view().len() == sitelinks_any.len());
            assert(sitelinks_no.deep_view().len() == sitelinks_no.len());
        }
        let mut out: Vec<char> = Vec::new();
        let mut values = clone_texts(&sitelinks_yes);
        push_str(&mut out, "SELECT ");
        if use_min_max {
            push_str(
                &mut out,
                "page_title,(SELECT count(*) FROM wb_items_per_site WHERE ips_item_id=substr(page_title,2)*1) AS sitelink_count",
            );
        } else {
            push_str(&mut out, "DISTINCT page_title,0");
        }
        push_str(&mut out, " FROM page WHERE page_namespace=0");
        push_repeated(
            &mut out,
            " AND EXISTS (SELECT * FROM wb_items_per_site WHERE ips_item_id=substr(page_title,2)*1 AND ips_site_id=? LIMIT 1)",
            sitelinks_yes.len(),
        );
        if sitelinks_any.len() > 0 {
            push_str(
                &mut out,
                " AND EXISTS (SELECT * FROM wb_items_per_site WHERE ips_item_id=substr(page_title,2)*1 AND ips_site_id IN (",
            );
            let tmp = prep_quote(&sitelinks_any);
            proof {
                assert(tmp.1.deep_view().len() == tmp.1.len());
            }
            push_str(&mut out, tmp.0.as_str());
            append_values(&mut values, &tmp.1);
            push_str(&mut out, ") LIMIT 1)");
        } else {
            proof {
                assert(values.deep_view() + Seq::<Seq<char>>::empty() =~= values.deep_view());
            }
        }
        push_repeated(
            &mut out,
            " AND NOT EXISTS (SELECT * FROM wb_items_per_site WHERE ips_item_id=substr(page_title,2)*1 AND ips_site_id=? LIMIT 1)",
            sitelinks_no.len(),
        );
        append_values(&mut values, &sitelinks_no);
        push_str(&mut out, " AND ");
        proof {
            assert(out@ =~= w.head());
            assert(values.deep_view() =~= w.head_values());
        }
        let mut post: Vec<char> = Vec::new();
        if use_min_max {
            push_str(&mut post, " GROUP BY page_title");
        }
        let lower = parse_usize(sitelinks_min.as_str());
        let upper = parse_usize(sitelinks_max.as_str());
        match (lower, upper) {
            (Some(l), Some(u)) => {
                push_str(&mut post, " HAVING ");
                push_bound(&mut post, "sitelink_count>=", l);
                push_str(&mut post, " AND ");
                push_bound(&mut post, "sitelink_count<=", u);
            },
            (Some(l), None) => {
                push_str(&mut post, " HAVING ");
                push_bound(&mut post, "sitelink_count>=", l);
            },
            (None, Some(u)) => {
                push_str(&mut post, " HAVING ");
                push_bound(&mut post, "sitelink_count<=", u);
            },
            (None, None) => {},
        }
        proof {
            assert(post@ =~= w.tail());
        }
        ((string_of(&out), values), string_of(&post))
    }

    /// One phase of the stage that filters by sitelinks. `old_wiki` keeps
    /// the wiki that the list is converted back to in the end.
    pub fn process_sitelinks(
        &self,
        result: &mut PageList,
        phase: usize,
        old_wiki: &mut Option<String>,
    ) -> (r: StageAction)
        ensures
            (final(result)@, final(old_wiki).deep_view(), r@) == sitelinks_phase(
                self@,
                old(result)@,
                phase as nat,
                old(old_wiki).deep_view(),
            ),
            final(result)@.wf(),
            old(result)@.tagged() ==> final(result)@.tagged(),
    {
        result.is_well_formed();
        if phase == 0 {
            if result.is_empty() {
                return StageAction::Finished;
            }
            let sitelinks_yes = self.get_param_as_vec("sitelinks_yes", '\n');
            let sitelinks_any = self.get_param_as_vec("sitelinks_any", '\n');
            let sitelinks_no = self.get_param_as_vec("sitelinks_no", '\n');
            let sitelinks_min = self.get_param_blank("min_sitelink_count");
            let sitelinks_max = self.get_param_blank("max_sitelink_count");
            proof {
                assert(sitelinks_yes.deep_view().len() == sitelinks_yes.len());
                assert(sitelinks_any.deep_view().len() == sitelinks_any.len());
                assert(sitelinks_no.deep_view().len() == sitelinks_no.len());
            }
            if sitelinks_yes.len() == 0 && sitelinks_any.len() == 0 && sitelinks_no.len() == 0
                && sitelinks_min.as_str().unicode_len() == 0 && sitelinks_max.as_str().unicode_len()
                == 0 {
                return StageAction::Finished;
            }
            *old_wiki = result.wiki();
            StageAction::Convert(String::from_str("wikidatawiki"))
        } else if phase == 1 {
            if result.is_empty() {
                return StageAction::Finished;
            }
            let wiki = match result.wiki() {
                Some(w) => w,
                None => {
                    return StageAction::Fail(
                        String::from_str("PageList::run_batch_queries: No wiki"),
                    );
                },
            };
            let statement = self.sitelinks_statement();
            let none: Vec<String> = Vec::new();
            proof {
                assert(none.deep_view() =~= Seq::<Seq<char>>::empty());
            }
            let batches = result.to_sql_batches(PAGE_BATCH_SIZE);
            let batches = wrap_batches(
                &batches,
                statement.0.0.as_str(),
                statement.1.as_str(),
                &statement.0.1,
                &none,
            );
            result.clear_entries();
            StageAction::Run(
                Query {
                    wiki,
                    batches,
                    chunk_size: 0,
                    intake: Intake::Add(RowReader::CountedMainTitle),
                },
            )
        } else if phase == 2 {
            match old_wiki {
                Some(w) => StageAction::Convert(w.clone()),
                None => StageAction::Finished,
            }
        } else {
            StageAction::Finished
        }
    }
}

} // verus!
