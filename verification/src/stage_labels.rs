//! The stage that keeps the Wikidata items whose terms match given texts.

use vstd::prelude::*;
use crate::batch::sql_batches;
use crate::convert::emptied;
use crate::form_parameters::{is_set, param_list};
use crate::pagelist::{PageList, PageListView};
use crate::pipeline::{Intake, Query, QueryView, StageAction, StageActionView};
use crate::platform::{Platform, PlatformView, PAGE_BATCH_SIZE};
use crate::reader::RowReader;
use crate::rewrite::{concat3, list_batches, listed_all};
use crate::sql::{append_values, prep_quote, question_marks, quotable, sql_tuple, SQLtuple};
use crate::stage_wikidata::no_wiki_message;
use crate::text::{concat, push_str, string_of};

verus! {

/// The kinds of term that the parameters tick for a group of texts.
pub open spec fn ticked_types(p: PlatformView, group: Seq<char>) -> Seq<Seq<char>> {
    (if is_set(p.params, "cb_labels_"@ + group + "_l"@) {
        seq!["label"@]
    } else {
        Seq::<Seq<char>>::empty()
    }) + (if is_set(p.params, "cb_labels_"@ + group + "_a"@) {
        seq!["alias"@]
    } else {
        Seq::<Seq<char>>::empty()
    }) + (if is_set(p.params, "cb_labels_"@ + group + "_d"@) {
        seq!["description"@]
    } else {
        Seq::<Seq<char>>::empty()
    })
}

/// The condition on the kind of term, where kinds are ticked.
pub open spec fn type_filter(p: PlatformView, group: Seq<char>, column: Seq<char>) -> (
    Seq<char>,
    Seq<Seq<char>>,
) {
    let types = ticked_types(p, group);
    if types.len() == 0 {
        (Seq::<char>::empty(), Seq::<Seq<char>>::empty())
    } else {
        (
            " AND "@ + column + " IN ("@ + question_marks(quotable(types).len()) + ")"@,
            quotable(types),
        )
    }
}

/// The condition on the language of a term, and with it that on its kind,
/// where languages are given.
pub open spec fn language_filter(
    p: PlatformView,
    langs: Seq<Seq<char>>,
    group: Seq<char>,
    prefix: Seq<char>,
) -> (Seq<char>, Seq<Seq<char>>) {
    if langs.len() == 0 {
        (Seq::<char>::empty(), Seq::<Seq<char>>::empty())
    } else {
        (
            " AND "@ + prefix + "term_language IN ("@ + question_marks(quotable(langs).len())
                + ")"@ + type_filter(p, group, prefix + "term_type"@).0,
            quotable(langs) + type_filter(p, group, prefix + "term_type"@).1,
        )
    }
}

/// `n` clauses one after another: each is `head`, `body` and `tail`, and
/// `sep` stands between two of them.
pub open spec fn each_text(
    n: nat,
    head: Seq<char>,
    body: Seq<char>,
    tail: Seq<char>,
    sep: Seq<char>,
) -> Seq<char>
    decreases n,
{
    if n == 0 {
        Seq::<char>::empty()
    } else {
        each_text((n - 1) as nat, head, body, tail, sep) + (if n > 1 {
            sep
        } else {
            Seq::<char>::empty()
        }) + head + body + tail
    }
}

/// The values of the clauses for `items`: for each item the item and the
/// values of the body.
pub open spec fn each_values(items: Seq<Seq<char>>, body: Seq<Seq<char>>) -> Seq<Seq<char>>
    decreases items.len(),
{
    if items.len() == 0 {
        Seq::<Seq<char>>::empty()
    } else {
        each_values(items.drop_last(), body).push(items.last()) + body
    }
}

/// The clause that a term has a text.
pub open spec fn yes_head() -> Seq<char> {
    " AND term_text LIKE ?"@
}

/// The clause that a term has a text, as one of several.
pub open spec fn any_head() -> Seq<char> {
    " ( term_text LIKE ?"@
}

/// The clause that no term has a text.
pub open spec fn no_head() -> Seq<char> {
    " AND NOT EXISTS (SELECT t2.term_full_entity_id FROM wb_terms t2 WHERE t2.term_full_entity_id=t1.term_full_entity_id AND t2.term_entity_type='item' AND t2.term_text LIKE ?"@
}

/// The statement that asks for the items whose terms match the texts of
/// the parameters, and its values; both empty where no text is given.
///
/// Every text that must occur gets a clause. The texts of which any may
/// occur get a clause each, and these are alternatives. Every text that
/// must not occur gets a clause. A clause holds the condition on the
/// language and the kind of term where languages are given for its group.
pub open spec fn label_sql(p: PlatformView) -> (Seq<char>, Seq<Seq<char>>) {
    let yes = param_list(p.params, "labels_yes"@, '\n');
    let any = param_list(p.params, "labels_any"@, '\n');
    let no = param_list(p.params, "labels_no"@, '\n');
    let f_yes = language_filter(
        p,
        param_list(p.params, "langs_labels_yes"@, ','),
        "yes"@,
        Seq::empty(),
    );
    let f_any = language_filter(
        p,
        param_list(p.params, "langs_labels_any"@, ','),
        "any"@,
        Seq::empty(),
    );
    let f_no = language_filter(p, param_list(p.params, "langs_labels_no"@, ','), "no"@, "t2."@);
    if yes.len() + any.len() + no.len() == 0 {
        (Seq::<char>::empty(), Seq::<Seq<char>>::empty())
    } else {
        (
            "SELECT DISTINCT term_full_entity_id FROM wb_terms t1 WHERE term_entity_type='item'"@
                + each_text(yes.len(), yes_head(), f_yes.0, Seq::empty(), Seq::empty()) + (
            if any.len() > 0 {
                " AND ("@ + each_text(any.len(), any_head(), f_any.0, ")"@, " OR "@) + ")"@
            } else {
                Seq::<char>::empty()
            }) + each_text(no.len(), no_head(), f_no.0, ")"@, Seq::empty()),
            each_values(yes, f_yes.1) + each_values(any, f_any.1) + each_values(no, f_no.1),
        )
    }
}

/// The query of this stage for a list of Wikidata items.
pub open spec fn labels_query(p: PlatformView, list: PageListView) -> QueryView {
    QueryView {
        wiki: list.wiki->Some_0,
        batches: listed_all(
            sql_batches(list.entries, PAGE_BATCH_SIZE as nat),
            label_sql(p).0 + " AND term_full_entity_id IN ("@,
            ")"@,
            label_sql(p).1,
        ),
        chunk_size: 0,
        intake: Intake::Add(RowReader::Entity),
    }
}

/// A phase of this stage. Phase 0 asks for the conversion to Wikidata, if
/// texts are asked for. Phase 1 empties the list and asks which of its
/// items match.
pub open spec fn labels_phase(p: PlatformView, list: PageListView, phase: nat) -> (
    PageListView,
    StageActionView,
) {
    if label_sql(p).1.len() == 0 || phase >= 2 {
        (list, StageActionView::Finished)
    } else if phase == 0 {
        (list, StageActionView::Convert("wikidatawiki"@))
    } else if list.entries.len() == 0 {
        (list, StageActionView::Finished)
    } else if list.wiki is None {
        (list, StageActionView::Fail(no_wiki_message()))
    } else {
        (emptied(list), StageActionView::Run(labels_query(p, list)))
    }
}

/// Appends a clause for each item.
fn push_each(
    out: &mut Vec<char>,
    values: &mut Vec<String>,
    items: &Vec<String>,
    head: &str,
    body: &SQLtuple,
    tail: &str,
    sep: &str,
)
    ensures
        final(out)@ == old(out)@ + each_text(items.len() as nat, head@, body.0@, tail@, sep@),
        final(values).deep_view() == old(values).deep_view() + each_values(
            items.deep_view(),
            body.1.deep_view(),
        ),
{
    let ghost start = out@;
    let ghost start_values = values.deep_view();
    let ghost all = items.deep_view();
    let mut i: usize = 0;
    proof {
        assert(all.take(0) =~= Seq::<Seq<char>>::empty());
        assert(start + Seq::<char>::empty() =~= start);
        assert(start_values + Seq::<Seq<char>>::empty() =~= start_values);
    }
    while i < items.len()
        invariant
            i <= items.len(),
            all == items.deep_view(),
            out@ == start + each_text(i as nat, head@, body.0@, tail@, sep@),
            values.deep_view() == start_values + each_values(all.take(i as int), body.1.deep_view()),
        decreases items.len() - i,
    {
        proof {
            let next = all.take(i + 1);
            assert(next.drop_last() =~= all.take(i as int));
            assert(next.last() == items@[i as int]@);
        }
        let ghost now = out@;
        let ghost now_values = values.deep_view();
        if i > 0 {
            push_str(out, sep);
        }
        push_str(out, head);
        push_str(out, body.0.as_str());
        push_str(out, tail);
        values.push(items[i].clone());
        proof {
            assert(values.deep_view() =~= now_values.push(items@[i as int]@));
        }
        append_values(values, &body.1);
        proof {
            let s = if i > 0 {
                sep@
            } else {
                Seq::<char>::empty()
            };
            assert(out@ =~= start + (each_text(i as nat, head@, body.0@, tail@, sep@) + s + head@
                + body.0@ + tail@));
            assert(values.deep_view() =~= start_values + (each_values(
                all.take(i as int),
                body.1.deep_view(),
            ).push(items@[i as int]@) + body.1.deep_view()));
        }
        i += 1;
    }
    proof {
        assert(all.take(all.len() as int) =~= all);
    }
}

impl Platform {
    /// The kinds of term that the parameters tick for a group of texts.
    fn label_types(&self, group: &str) -> (r: Vec<String>)
        ensures
            r.deep_view() == ticked_types(self@, group@),
    {
        let mut types: Vec<String> = Vec::new();
        proof {
            assert(types.deep_view() =~= Seq::<Seq<char>>::empty());
        }
        if self.has_param(concat3("cb_labels_", group, "_l").as_str()) {
            types.push(String::from_str("label"));
            proof {
                assert(types.deep_view() =~= seq!["label"@]);
            }
        }
        let ghost first = types.deep_view();
        if self.has_param(concat3("cb_labels_", group, "_a").as_str()) {
            types.push(String::from_str("alias"));
            proof {
                assert(types.deep_view() =~= first + seq!["alias"@]);
            }
        } else {
            proof {
                assert(types.deep_view() =~= first + Seq::<Seq<char>>::empty());
            }
        }
        let ghost second = types.deep_view();
        if self.has_param(concat3("cb_labels_", group, "_d").as_str()) {
            types.push(String::from_str("description"));
            proof {
                assert(types.deep_view() =~= second + seq!["description"@]);
            }
        } else {
            proof {
                assert(types.deep_view() =~= second + Seq::<Seq<char>>::empty());
            }
        }
        types
    }

    /// The condition on the kind of term, where kinds are ticked.
    fn get_label_sql_helper(&self, part1: &str, part2: &str) -> (r: SQLtuple)
        ensures
            (r.0@, r.1.deep_view()) == type_filter(self@, part1@, part2@),
    {
        let types = self.label_types(part1);
        proof {
            assert(types.deep_view().len() == types.len());
        }
        if types.len() == 0 {
            return sql_tuple();
        }
        let tmp = prep_quote(&types);
        proof {
            assert(tmp.1.deep_view().len() == tmp.1.len());
        }
        let mut out: Vec<char> = Vec::new();
        push_str(&mut out, " AND ");
        push_str(&mut out, part2);
        push_str(&mut out, " IN (");
        push_str(&mut out, tmp.0.as_str());
        push_str(&mut out, ")");
        proof {
            assert(out@ =~= type_filter(self@, part1@, part2@).0);
        }
        (string_of(&out), tmp.1)
    }

    /// The condition on the language of a term, and with it that on its kind.
    fn label_language_filter(&self, langs: &Vec<String>, group: &str, prefix: &str) -> (r: SQLtuple)
        ensures
            (r.0@, r.1.deep_view()) == language_filter(self@, langs.deep_view(), group@, prefix@),
    {
        proof {
            assert(langs.deep_view().len() == langs.len());
        }
        if langs.len() == 0 {
            return sql_tuple();
        }
        let tmp = prep_quote(langs);
        proof {
            assert(tmp.1.deep_view().len() == tmp.1.len());
        }
        let types = self.get_label_sql_helper(group, concat(prefix, "term_type").as_str());
        let mut out: Vec<char> = Vec::new();
        push_str(&mut out, " AND ");
        push_str(&mut out, prefix);
        push_str(&mut out, "term_language IN (");
        push_str(&mut out, tmp.0.as_str());
        push_str(&mut out, ")");
        push_str(&mut out, types.0.as_str());
        let mut values = tmp.1;
        append_values(&mut values, &types.1);
        proof {
            assert(out@ =~= language_filter(self@, langs.deep_view(), group@, prefix@).0);
        }
        (string_of(&out), values)
    }

    /// The statement that asks for the items whose terms match the texts of
    /// the parameters, and its values; both empty where no text is given.
    pub fn get_label_sql(&self) -> (r: SQLtuple)
        ensures
            (r.0@, r.1.deep_view()) == label_sql(self@),
    {
        let yes = self.get_param_as_vec("labels_yes", '\n');
        let any = self.get_param_as_vec("labels_any", '\n');
        let no = self.get_param_as_vec("labels_no", '\n');
        proof {
            assert(yes.deep_view().len() == yes.len());
            assert(any.deep_view().len() == any.len());
            assert(no.deep_view().len() == no.len());
            reveal_strlit("");
            assert(""@ =~= Seq::<char>::empty());
        }
        if yes.len() == 0 && any.len() == 0 && no.len() == 0 {
            return sql_tuple();
        }
        let langs_yes = self.get_param_as_vec("langs_labels_yes", ',');
        let langs_any = self.get_param_as_vec("langs_labels_any", ',');
        let langs_no = self.get_param_as_vec("langs_labels_no", ',');
        let f_yes = self.label_language_filter(&langs_yes, "yes", "");
        let f_any = self.label_language_filter(&langs_any, "any", "");
        let f_no = self.label_language_filter(&langs_no, "no", "t2.");
        let mut out: Vec<char> = Vec::new();
        let mut values: Vec<String> = Vec::new();
        proof {
            assert(values.deep_view() =~= Seq::<Seq<char>>::empty());
        }
        push_str(
            &mut out,
            "SELECT DISTINCT term_full_entity_id FROM wb_terms t1 WHERE term_entity_type='item'",
        );
        push_each(&mut out, &mut values, &yes, " AND term_text LIKE ?", &f_yes, "", "");
        if any.len() > 0 {
            push_str(&mut out, " AND (");
            push_each(&mut out, &mut values, &any, " ( term_text LIKE ?", &f_any, ")", " OR ");
            push_str(&mut out, ")");
        } else {
            proof {
                assert(each_values(any.deep_view(), f_any.1.deep_view()) =~= Seq::<
                    Seq<char>,
                >::empty());
                assert(values.deep_view() + Seq::<Seq<char>>::empty() =~= values.deep_view());
            }
        }
        push_each(
            &mut out,
            &mut values,
            &no,
            " AND NOT EXISTS (SELECT t2.term_full_entity_id FROM wb_terms t2 WHERE t2.term_full_entity_id=t1.term_full_entity_id AND t2.term_entity_type='item' AND t2.term_text LIKE ?",
            &f_no,
            ")",
            "",
        );
        proof {
            assert(out@ =~= label_sql(self@).0);
            assert(values.deep_view() =~= label_sql(self@).1);
        }
        (string_of(&out), values)
    }

    /// One phase of the stage that filters by labels.
    pub fn process_labels(&self, result: &mut PageList, phase: usize) -> (r: StageAction)
        ensures
            (final(result)@, r@) == labels_phase(self@, old(result)@, phase as nat),
            final(result)@.wf(),
            old(result)@.tagged() ==> final(result)@.tagged(),
    {
        result.is_well_formed();
        let sql = self.get_label_sql();
        proof {
            assert(sql.1.deep_view().len() == sql.1.len());
        }
        if sql.1.len() == 0 || phase >= 2 {
            return StageAction::Finished;
        }
        if phase == 0 {
            return StageAction::Convert(String::from_str("wikidatawiki"));
        }
        if result.is_empty() {
            return StageAction::Finished;
        }
        let wiki = match result.wiki() {
            Some(w) => w,
            None => {
                return StageAction::Fail(String::from_str("PageList::run_batch_queries: No wiki"));
            },
        };
        let prefix = concat(sql.0.as_str(), " AND term_full_entity_id IN (");
        let batches = result.to_sql_batches(PAGE_BATCH_SIZE);
        let batches = list_batches(&batches, prefix.as_str(), ")", &sql.1);
        result.clear_entries();
        StageAction::Run(
            Query {
                wiki,
                batches,
                chunk_size: 0,
                intake: Intake::Add(RowReader::Entity),
            },
        )
    }
}

} // verus!
