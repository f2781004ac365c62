//! The order of the pipeline: which sources run, how their results are
//! combined, and which stages the result goes through.

use vstd::prelude::*;
use crate::combination::{parsed, Combination, CombinationView};
use crate::form_parameters::param_of;
use crate::pagelist::{anchored, pass_flags, selected, PageList, PageListView};
use crate::pipeline::{StageAction, StageActionView};
use crate::platform::{Platform, PlatformView};
use crate::regexp::regex_compiles;
use crate::stage_files::{files_phase, pages_phase};
use crate::stage_items::{common_wiki_phase, database_filters_phase, items_phase, subpages_phase};
use crate::stage_labels::labels_phase;
use crate::stage_metadata::{label_language, metadata_phase};
use crate::stage_redlinks::{creator_phase, redlinks_phase};
use crate::stage_sitelinks::sitelinks_phase;
use crate::stage_wikidata::wikidata_filter_phase;
use crate::text::str_eq;

verus! {

/// The stages that a result goes through.
#[derive(Debug, Clone, Copy, PartialEq, Eq, Structural)]
pub enum Stage {
    FilterWikidata,
    Sitelinks,
    Labels,
    CommonWiki,
    DatabaseFilters,
    WikidataItem,
    Files,
    Pages,
    Subpages,
    Metadata,
    RegexpFilter,
    Redlinks,
    Creator,
}

/// The stages for a result, in their order. The labels stage is left out
/// where the labels source alone made the result, and the filters of the
/// category database where the categories source took part.
pub open spec fn stages_for(available: Seq<Seq<char>>) -> Seq<Stage> {
    seq![Stage::FilterWikidata, Stage::Sitelinks] + (if available == seq!["labels"@] {
        Seq::<Stage>::empty()
    } else {
        seq![Stage::Labels]
    }) + seq![Stage::CommonWiki] + (if available.contains("categories"@) {
        Seq::<Stage>::empty()
    } else {
        seq![Stage::DatabaseFilters]
    }) + seq![
        Stage::WikidataItem,
        Stage::Files,
        Stage::Pages,
        Stage::Subpages,
        Stage::Metadata,
        Stage::RegexpFilter,
        Stage::Redlinks,
        Stage::Creator,
    ]
}

/// The list after the filter by the regular expression of the parameters,
/// if they give one.
pub open spec fn regexp_filtered(p: PlatformView, list: PageListView) -> PageListView {
    match param_of(p.params, "regexp_filter"@) {
        Some(re) => if regex_compiles(anchored(re)) {
            PageListView {
                entries: selected(
                    list.entries,
                    pass_flags(list.entries, anchored(re), list.is_wikidata()),
                ),
                ..list
            }
        } else {
            list
        },
        None => list,
    }
}

/// A phase of a stage: the list after it, the wiki noted for the way back,
/// and what the phase asks for.
pub open spec fn stage_phase(
    p: PlatformView,
    stage: Stage,
    list: PageListView,
    phase: nat,
    old_wiki: Option<Seq<char>>,
) -> (PageListView, Option<Seq<char>>, StageActionView) {
    match stage {
        Stage::FilterWikidata => (
            wikidata_filter_phase(p, list, phase).0,
            old_wiki,
            wikidata_filter_phase(p, list, phase).1,
        ),
        Stage::Sitelinks => sitelinks_phase(p, list, phase, old_wiki),
        Stage::Labels => (labels_phase(p, list, phase).0, old_wiki, labels_phase(p, list, phase).1),
        Stage::CommonWiki => (list, old_wiki, common_wiki_phase(p, phase)),
        Stage::DatabaseFilters => (list, old_wiki, database_filters_phase(list, phase)),
        Stage::WikidataItem => (
            items_phase(p, list, phase).0,
            old_wiki,
            items_phase(p, list, phase).1,
        ),
        Stage::Files => (list, old_wiki, files_phase(p, list, phase)),
        Stage::Pages => (list, old_wiki, pages_phase(p, list, phase)),
        Stage::Subpages => (
            subpages_phase(p, list, phase).0,
            old_wiki,
            subpages_phase(p, list, phase).1,
        ),
        Stage::Metadata => (
            list,
            old_wiki,
            metadata_phase(p, list, Some(label_language(p)), phase),
        ),
        Stage::RegexpFilter => if phase == 0 {
            (regexp_filtered(p, list), old_wiki, StageActionView::Finished)
        } else {
            (list, old_wiki, StageActionView::Finished)
        },
        Stage::Redlinks => (list, old_wiki, redlinks_phase(p, list, phase)),
        Stage::Creator => (list, old_wiki, creator_phase(p, list, phase)),
    }
}

/// The sources that can run, of the candidates in their order.
pub open spec fn runnable(candidates: Seq<(Seq<char>, bool)>) -> Seq<Seq<char>>
    decreases candidates.len(),
{
    if candidates.len() == 0 {
        Seq::<Seq<char>>::empty()
    } else if candidates.last().1 {
        runnable(candidates.drop_last()).push(candidates.last().0)
    } else {
        runnable(candidates.drop_last())
    }
}

/// The sources to run: the candidates that can run; the labels source
/// alone where none of them can and it can; a message where no source can.
pub open spec fn chosen_sources(candidates: Seq<(Seq<char>, bool)>, labels_can_run: bool) -> Result<
    Seq<Seq<char>>,
    Seq<char>,
> {
    if runnable(candidates).len() > 0 {
        Ok(runnable(candidates))
    } else if labels_can_run {
        Ok(seq!["labels"@])
    } else {
        Err("No possible data source found in parameters"@)
    }
}

/// The combination of all sources: the first source, intersected with the
/// second, the outcome intersected with the third, and so on.
pub open spec fn default_combination(sources: Seq<Seq<char>>) -> CombinationView
    decreases sources.len(),
{
    if sources.len() == 0 {
        CombinationView::Nothing
    } else {
        let init = default_combination(sources.drop_last());
        if init is Nothing {
            CombinationView::Source(sources.last())
        } else {
            CombinationView::Intersection(
                Box::new(init),
                Box::new(CombinationView::Source(sources.last())),
            )
        }
    }
}

/// The combination for a query: the one that the parameters write out, or
/// else that of all sources.
pub open spec fn combination_for(p: PlatformView, sources: Seq<Seq<char>>) -> CombinationView {
    match param_of(p.params, "source_combination"@) {
        Some(text) => parsed(text),
        None => default_combination(sources),
    }
}

/// The wikis of the sources after the results have been noted: for each
/// result that is tagged, in order, its source and wiki put in front.
pub open spec fn noted_wikis(
    pairs: Seq<(Seq<char>, Seq<char>)>,
    results: Seq<(Seq<char>, PageListView)>,
) -> Seq<(Seq<char>, Seq<char>)>
    decreases results.len(),
{
    if results.len() == 0 {
        pairs
    } else {
        let init = noted_wikis(pairs, results.drop_last());
        match results.last().1.wiki {
            Some(w) => seq![(results.last().0, w)] + init,
            None => init,
        }
    }
}

/// The candidates as pairs of name and flag.
pub open spec fn candidates_view(candidates: Seq<(String, bool)>) -> Seq<(Seq<char>, bool)> {
    Seq::new(candidates.len(), |i: int| (candidates[i].0@, candidates[i].1))
}

impl Platform {
    /// The names of the sources that are tried first, in their order.
    pub fn candidate_sources() -> (r: Vec<String>)
        ensures
            r.deep_view() == seq![
                "categories"@,
                "sparql"@,
                "manual"@,
                "pagepile"@,
                "search"@,
                "wikidata"@,
            ],
    {
        let mut r: Vec<String> = Vec::new();
        r.push(String::from_str("categories"));
        r.push(String::from_str("sparql"));
        r.push(String::from_str("manual"));
        r.push(String::from_str("pagepile"));
        r.push(String::from_str("search"));
        r.push(String::from_str("wikidata"));
        proof {
            assert(r.deep_view() =~= seq![
                "categories"@,
                "sparql"@,
                "manual"@,
                "pagepile"@,
                "search"@,
                "wikidata"@,
            ]);
        }
        r
    }

    /// The sources to run, given for each candidate whether it can run,
    /// and whether the labels source can.
    pub fn available_sources(candidates: &Vec<(String, bool)>, labels_can_run: bool) -> (r: Result<
        Vec<String>,
        String,
    >)
        ensures
            match r {
                Ok(names) => chosen_sources(candidates_view(candidates@), labels_can_run) == Ok::<
                    Seq<Seq<char>>,
                    Seq<char>,
                >(names.deep_view()),
                Err(msg) => chosen_sources(candidates_view(candidates@), labels_can_run) == Err::<
                    Seq<Seq<char>>,
                    Seq<char>,
                >(msg@),
            },
    {
        let ghost all = candidates_view(candidates@);
        let mut names: Vec<String> = Vec::new();
        let mut i: usize = 0;
        proof {
            assert(all.take(0) =~= Seq::<(Seq<char>, bool)>::empty());
            assert(names.deep_view() =~= Seq::<Seq<char>>::empty());
        }
        while i < candidates.len()
            invariant
                i <= candidates.len(),
                all == candidates_view(candidates@),
                names.deep_view() == runnable(all.take(i as int)),
            decreases candidates.len() - i,
        {
            proof {
                let next = all.take(i + 1);
                assert(next.drop_last() =~= all.take(i as int));
                assert(next.last() == (candidates@[i as int].0@, candidates@[i as int].1));
            }
            if candidates[i].1 {
                let ghost before = names.deep_view();
                names.push(candidates[i].0.clone());
                proof {
                    assert(names.deep_view() =~= before.push(candidates@[i as int].0@));
                }
            }
            i += 1;
        }
        proof {
            assert(all.take(all.len() as int) =~= all);
            assert(names.deep_view().len() == names.len());
        }
        if names.len() > 0 {
            Ok(names)
        } else if labels_can_run {
            let mut only: Vec<String> = Vec::new();
            only.push(String::from_str("labels"));
            proof {
                assert(only.deep_view() =~= seq!["labels"@]);
            }
            Ok(only)
        } else {
            Err(String::from_str("No possible data source found in parameters"))
        }
    }

    /// The combination of all sources.
    pub fn combine_all(available_sources: &Vec<String>) -> (r: Combination)
        ensures
            r@ == default_combination(available_sources.deep_view()),
    {
        let ghost all = available_sources.deep_view();
        let mut comb = Combination::Nothing;
        let mut i: usize = 0;
        proof {
            assert(all.take(0) =~= Seq::<Seq<char>>::empty());
        }
        while i < available_sources.len()
            invariant
                i <= available_sources.len(),
                all == available_sources.deep_view(),
                comb@ == default_combination(all.take(i as int)),
            decreases available_sources.len() - i,
        {
            proof {
                let next = all.take(i + 1);
                assert(next.drop_last() =~= all.take(i as int));
                assert(next.last() == available_sources@[i as int]@);
            }
            let source = Combination::Source(available_sources[i].clone());
            let ghost init = comb@;
            let ghost name = available_sources@[i as int]@;
            proof {
                assert(source@ == CombinationView::Source(name));
            }
            comb = match comb {
                Combination::Nothing => source,
                other => {
                    let both = Combination::Intersection((Box::new(other), Box::new(source)));
                    proof {
                        assert(both@ == CombinationView::Intersection(
                            Box::new(init),
                            Box::new(CombinationView::Source(name)),
                        ));
                    }
                    both
                },
            };
            i += 1;
        }
        proof {
            assert(all.take(all.len() as int) =~= all);
        }
        comb
    }

    /// Reads a combination as it is written in a parameter.
    pub fn parse_combination_string(s: &String) -> (c: Combination)
        ensures
            c@ == parsed(s@),
    {
        Combination::parse_combination_string(s)
    }

    /// The combination for this query: the one that the parameter
    /// `source_combination` writes out, or else that of all sources.
    pub fn get_combination(&self, available_sources: &Vec<String>) -> (r: Combination)
        ensures
            r@ == combination_for(self@, available_sources.deep_view()),
    {
        match self.get_param("source_combination") {
            Some(combination_string) => Self::parse_combination_string(&combination_string),
            None => Self::combine_all(available_sources),
        }
    }

    /// The stages that the result goes through, in their order.
    pub fn post_process_result(available_sources: &Vec<String>) -> (r: Vec<Stage>)
        ensures
            r@ == stages_for(available_sources.deep_view()),
    {
        let mut stages: Vec<Stage> = Vec::new();
        stages.push(Stage::FilterWikidata);
        stages.push(Stage::Sitelinks);
        let only_labels = available_sources.len() == 1 && str_eq(
            available_sources[0].as_str(),
            "labels",
        );
        proof {
            let a = available_sources.deep_view();
            if a == seq!["labels"@] {
                assert(a.len() == 1);
                assert(a[0] == "labels"@);
            }
            if only_labels {
                assert(a =~= seq!["labels"@]);
            }
        }
        if !only_labels {
            stages.push(Stage::Labels);
        }
        stages.push(Stage::CommonWiki);
        let mut has_categories = false;
        let mut i: usize = 0;
        while i < available_sources.len()
            invariant
                i <= available_sources.len(),
                has_categories == exists|j: int|
                    0 <= j < i && available_sources.deep_view()[j] == "categories"@,
            decreases available_sources.len() - i,
        {
            if str_eq(available_sources[i].as_str(), "categories") {
                proof {
                    assert(available_sources.deep_view()[i as int] == "categories"@);
                }
                has_categories = true;
            }
            i += 1;
        }
        proof {
            assert(has_categories == available_sources.deep_view().contains("categories"@));
        }
        if !has_categories {
            stages.push(Stage::DatabaseFilters);
        }
        stages.push(Stage::WikidataItem);
        stages.push(Stage::Files);
        stages.push(Stage::Pages);
        stages.push(Stage::Subpages);
        stages.push(Stage::Metadata);
        stages.push(Stage::RegexpFilter);
        stages.push(Stage::Redlinks);
        stages.push(Stage::Creator);
        proof {
            assert(stages@ =~= stages_for(available_sources.deep_view()));
        }
        stages
    }

    /// One phase of a stage. The phases of a stage are gone through from
    /// 0 on until one is `Finished` or `Fail`. What a phase asks for is
    /// done, and the rows of a query are taken in, before the next phase.
    pub fn stage_action(
        &self,
        stage: Stage,
        result: &mut PageList,
        phase: usize,
        old_wiki: &mut Option<String>,
    ) -> (r: StageAction)
        ensures
            (final(result)@, final(old_wiki).deep_view(), r@) == stage_phase(
                self@,
                stage,
                old(result)@,
                phase as nat,
                old(old_wiki).deep_view(),
            ),
            final(result)@.wf(),
            old(result)@.tagged() ==> final(result)@.tagged(),
    {
        result.is_well_formed();
        match stage {
            Stage::FilterWikidata => self.filter_wikidata(result, phase),
            Stage::Sitelinks => self.process_sitelinks(result, phase, old_wiki),
            Stage::Labels => self.process_labels(result, phase),
            Stage::CommonWiki => self.convert_to_common_wiki(phase),
            Stage::DatabaseFilters => self.process_missing_database_filters(result, phase),
            Stage::WikidataItem => self.process_by_wikidata_item(result, phase),
            Stage::Files => self.process_files(result, phase),
            Stage::Pages => self.process_pages(result, phase),
            Stage::Subpages => self.process_subpages(result, phase),
            Stage::Metadata => result.load_missing_metadata(
                Some(self.wikidata_label_language()),
                self,
                phase,
            ),
            Stage::RegexpFilter => {
                if phase == 0 {
                    match self.get_param("regexp_filter") {
                        Some(regexp) => {
                            result.regexp_filter(&regexp);
                        },
                        None => {},
                    }
                }
                StageAction::Finished
            },
            Stage::Redlinks => self.process_redlinks(result, phase),
            Stage::Creator => self.process_creator(result, phase),
        }
    }

    /// Notes for each source that gave a tagged result the wiki of that
    /// result. A later result of a source counts before an earlier one.
    pub fn note_source_wikis(&mut self, results: &Vec<(String, PageList)>)
        ensures
            final(self)@ == (PlatformView {
                wiki_by_source: noted_wikis(
                    old(self)@.wiki_by_source,
                    crate::evaluate::results_view(results@),
                ),
                ..old(self)@
            }),
    {
        let ghost start = self@;
        let ghost all = crate::evaluate::results_view(results@);
        let mut i: usize = 0;
        proof {
            assert(all.take(0) =~= Seq::<(Seq<char>, PageListView)>::empty());
        }
        while i < results.len()
            invariant
                i <= results.len(),
                all == crate::evaluate::results_view(results@),
                self@ == (PlatformView {
                    wiki_by_source: noted_wikis(start.wiki_by_source, all.take(i as int)),
                    ..start
                }),
            decreases results.len() - i,
        {
            proof {
                let next = all.take(i + 1);
                assert(next.drop_last() =~= all.take(i as int));
                assert(next.last() == (results@[i as int].0@, results@[i as int].1@));
            }
            match results[i].1.wiki() {
                Some(wiki) => {
                    self.set_wiki_for_source(results[i].0.clone(), wiki);
                },
                None => {},
            }
            i += 1;
        }
        proof {
            assert(all.take(all.len() as int) =~= all);
        }
    }

    /// Whether the result is to be handed to the search for images of items.
    pub fn wdfist_requested(&self) -> (r: bool)
        ensures
            r == crate::form_parameters::is_set(self@.params, "wdf_main"@),
    {
        self.has_param("wdf_main")
    }
}

} // verus!
