//! One query: its parameters, and the result it has come to.
//!
//! The work on the databases is the caller's. The platform says what is to
//! be asked and when, and takes in what comes back.

use vstd::prelude::*;
use std::time::Duration;
use crate::app_state::AppState;
use crate::combination::{Combination, CombinationView};
use crate::entry::{fresh_entry, PageListEntry};
use crate::form_parameters::{
    is_set, param_list, param_of, param_or, param_or_blank, param_usize, FormParameters,
};
use crate::pagelist::{PageList, PageListView};
use crate::reader::{entity_title};
use crate::site_matrix::{matrix_answer, SiteKey, SiteMatrix, SiteMatrixEntryView};
use crate::sql::{question_marks, quotable, SQLtuple};
use crate::text::{chars_of, concat, replace, replaced, str_eq};
use crate::title::Title;

verus! {

/// How many titles one query fragment holds at most.
pub const PAGE_BATCH_SIZE: usize = 200;

/// The kinds of content a response can have.
#[derive(Debug, Clone, Copy, PartialEq, Eq, Structural)]
pub enum ContentType {
    HTML,
    Plain,
    JSON,
    JSONP,
}

/// A response: its text, and what kind of content the text is.
#[derive(Debug)]
pub struct MyResponse {
    pub s: String,
    pub content_type: ContentType,
}

/// What a platform is, mathematically.
pub struct PlatformView {
    pub params: Seq<(Seq<char>, Seq<char>)>,
    pub namespaces: Seq<usize>,
    pub site_matrix: Seq<SiteMatrixEntryView>,
    pub result: Option<PageListView>,
    pub psid: Option<u64>,
    pub existing_labels: Seq<Seq<char>>,
    pub combination: CombinationView,
    pub output_redlinks: bool,
    pub wiki_by_source: Seq<(Seq<char>, Seq<char>)>,
}

/// One query.
#[derive(Debug)]
pub struct Platform {
    form_parameters: FormParameters,
    site_matrix: SiteMatrix,
    result: Option<PageList>,
    pub psid: Option<u64>,
    existing_labels: Vec<String>,
    combination: Combination,
    output_redlinks: bool,
    query_time: Option<Duration>,
    wiki_by_source: Vec<(String, String)>,
}

/// The pairs as pairs of texts.
pub open spec fn pairs_view(pairs: Seq<(String, String)>) -> Seq<(Seq<char>, Seq<char>)> {
    Seq::new(pairs.len(), |i: int| (pairs[i].0@, pairs[i].1@))
}

impl View for Platform {
    type V = PlatformView;

    closed spec fn view(&self) -> PlatformView {
        PlatformView {
            params: self.form_parameters@,
            namespaces: self.form_parameters.ns@,
            site_matrix: self.site_matrix@,
            result: match self.result {
                Some(r) => Some(r@),
                None => None,
            },
            psid: self.psid,
            existing_labels: self.existing_labels.deep_view(),
            combination: self.combination@,
            output_redlinks: self.output_redlinks,
            wiki_by_source: pairs_view(self.wiki_by_source@),
        }
    }
}

/// The wiki of a language and a project: a Wikipedia by its language, the
/// projects Wikidata and Commons by their names, any other by its server in
/// the catalogue.
pub open spec fn wiki_of(
    site_matrix: Seq<SiteMatrixEntryView>,
    language: Seq<char>,
    project: Seq<char>,
) -> Option<Seq<char>> {
    if project == "wikipedia"@ {
        Some(language + "wiki"@)
    } else if project == "wikidata"@ {
        Some("wikidatawiki"@)
    } else if project == "commons"@ {
        Some("commonswiki"@)
    } else {
        matrix_answer(
            site_matrix,
            SiteKey::Url,
            "https://"@ + language + "."@ + project + ".org"@,
        )
    }
}

/// The wiki that the parameters name as the main one.
pub open spec fn main_wiki_of(p: PlatformView) -> Option<Seq<char>> {
    wiki_of(
        p.site_matrix,
        replaced(param_or(p.params, "language"@, param_or(p.params, "lang"@, "en"@)), "_"@, "-"@),
        param_or(p.params, "project"@, "wikipedia"@),
    )
}

/// The wiki of the source `name`, if it has run.
pub open spec fn wiki_of_source(pairs: Seq<(Seq<char>, Seq<char>)>, name: Seq<char>) -> Option<
    Seq<char>,
> {
    crate::form_parameters::value_of(pairs, name)
}

impl Platform {
    /// The platform for a query with these parameters.
    pub fn new_from_parameters(form_parameters: &FormParameters, state: &AppState) -> (r: Self)
        ensures
            r@ == (PlatformView {
                params: form_parameters@,
                namespaces: form_parameters.ns@,
                site_matrix: state@.site_matrix,
                result: None,
                psid: None,
                existing_labels: Seq::empty(),
                combination: CombinationView::Nothing,
                output_redlinks: false,
                wiki_by_source: Seq::empty(),
            }),
    {
        let r = Self {
            form_parameters: form_parameters.clone(),
            site_matrix: state.site_matrix().clone(),
            result: None,
            psid: None,
            existing_labels: Vec::new(),
            combination: Combination::Nothing,
            output_redlinks: false,
            query_time: None,
            wiki_by_source: Vec::new(),
        };
        proof {
            assert(r@.existing_labels =~= Seq::<Seq<char>>::empty());
            assert(r@.wiki_by_source =~= Seq::<(Seq<char>, Seq<char>)>::empty());
        }
        r
    }

    /// Whether `label` is among the labels that were found to exist.
    pub fn label_exists(&self, label: &String) -> (r: bool)
        ensures
            r == self@.existing_labels.contains(label@),
    {
        let mut i: usize = 0;
        while i < self.existing_labels.len()
            invariant
                i <= self.existing_labels.len(),
                forall|j: int| 0 <= j < i ==> self.existing_labels.deep_view()[j] != label@,
            decreases self.existing_labels.len() - i,
        {
            if str_eq(self.existing_labels[i].as_str(), label.as_str()) {
                proof {
                    assert(self.existing_labels.deep_view()[i as int] == label@);
                }
                return true;
            }
            i += 1;
        }
        false
    }

    /// Notes that `label` exists.
    pub fn add_existing_label(&mut self, label: String)
        ensures
            final(self)@ == (PlatformView {
                existing_labels: if old(self)@.existing_labels.contains(label@) {
                    old(self)@.existing_labels
                } else {
                    old(self)@.existing_labels.push(label@)
                },
                ..old(self)@
            }),
    {
        if !self.label_exists(&label) {
            let ghost before = self.existing_labels.deep_view();
            self.existing_labels.push(label);
            proof {
                assert(self.existing_labels.deep_view() =~= before.push(label@));
            }
        }
    }

    /// The combination that the result was made by.
    pub fn combination(&self) -> (r: Combination)
        ensures
            r@ == self@.combination,
    {
        self.combination.clone()
    }

    /// Sets the combination that the result is made by.
    pub fn set_combination(&mut self, combination: Combination)
        ensures
            final(self)@ == (PlatformView { combination: combination@, ..old(self)@ }),
    {
        self.combination = combination;
    }

    /// Whether the result lists missing pages.
    pub fn do_output_redlinks(&self) -> (r: bool)
        ensures
            r == self@.output_redlinks,
    {
        self.output_redlinks
    }

    /// How long the query took, once that has been noted.
    pub closed spec fn time_taken(&self) -> Option<Duration> {
        self.query_time
    }

    /// How long the query took.
    pub fn query_time(&self) -> (r: Option<Duration>)
        ensures
            r == self.time_taken(),
    {
        self.query_time
    }

    /// Notes how long the query took.
    pub fn set_query_time(&mut self, query_time: Option<Duration>)
        ensures
            final(self)@ == old(self)@,
            final(self).time_taken() == query_time,
    {
        self.query_time = query_time;
    }

    /// The result, once there is one.
    pub fn result(&self) -> (r: &Option<PageList>)
        ensures
            match r {
                Some(list) => self@.result == Some(list@),
                None => self@.result is None,
            },
    {
        &self.result
    }

    /// Sets the result.
    pub fn set_result(&mut self, result: Option<PageList>)
        ensures
            final(self)@ == (PlatformView {
                result: match result {
                    Some(r) => Some(r@),
                    None => None,
                },
                ..old(self)@
            }),
    {
        self.result = result;
    }

    /// The parameters of the query.
    pub fn form_parameters(&self) -> (r: &FormParameters)
        ensures
            r@ == self@.params,
            r.ns@ == self@.namespaces,
    {
        &self.form_parameters
    }

    /// Whether the parameter is set and not blank.
    pub fn has_param(&self, param: &str) -> (r: bool)
        ensures
            r == is_set(self@.params, param@),
    {
        self.form_parameters.has_param(param)
    }

    /// The parameter's value, where it is set and not blank.
    pub fn get_param(&self, param: &str) -> (r: Option<String>)
        ensures
            r.deep_view() == param_of(self@.params, param@),
    {
        self.form_parameters.get_param(param)
    }

    /// The parameter's value, or the empty text.
    pub fn get_param_blank(&self, param: &str) -> (r: String)
        ensures
            r@ == param_or_blank(self@.params, param@),
    {
        self.form_parameters.get_param_blank(param)
    }

    /// The parameter's value, or `default` where it is not set or blank.
    pub fn get_param_default(&self, param: &str, default: &str) -> (r: String)
        ensures
            r@ == param_or(self@.params, param@, default@),
    {
        self.form_parameters.get_param_default(param, default)
    }

    /// The parameter's value as a list of page names.
    pub fn get_param_as_vec(&self, param: &str, separator: char) -> (r: Vec<String>)
        ensures
            r.deep_view() == param_list(self@.params, param@, separator),
    {
        self.form_parameters.get_param_as_vec(param, separator)
    }

    /// The parameter's value as a number, where it is one.
    pub fn usize_option_from_param(&self, key: &str) -> (r: Option<usize>)
        ensures
            r == param_usize(self@.params, key@),
    {
        self.form_parameters.usize_option_from_param(key)
    }

    /// The entry for the page of a Wikidata entity, by the first letter of
    /// the entity's id; none for an id that starts otherwise.
    pub fn entry_from_entity(entity: &str) -> (r: Option<PageListEntry>)
        ensures
            match r {
                Some(e) => entity_title(entity@) == Some(e@.title) && e@ == fresh_entry(e@.title),
                None => entity_title(entity@) is None,
            },
    {
        let v = chars_of(entity);
        if v.len() == 0 {
            return None;
        }
        let c = v[0];
        if c == 'Q' {
            Some(PageListEntry::new(Title::new(entity, 0)))
        } else if c == 'P' {
            Some(PageListEntry::new(Title::new(entity, 120)))
        } else if c == 'L' {
            Some(PageListEntry::new(Title::new(entity, 146)))
        } else {
            None
        }
    }

    /// The wiki of a language and a project.
    pub fn get_wiki_for_lagnuage_project(&self, language: &String, project: &String) -> (r: Option<
        String,
    >)
        ensures
            r.deep_view() == wiki_of(self@.site_matrix, language@, project@),
    {
        if str_eq(project.as_str(), "wikipedia") {
            Some(concat(language.as_str(), "wiki"))
        } else if str_eq(project.as_str(), "wikidata") {
            Some(String::from_str("wikidatawiki"))
        } else if str_eq(project.as_str(), "commons") {
            Some(String::from_str("commonswiki"))
        } else {
            let url = String::from_str("https://");
            let url = url.concat(language.as_str());
            let url = url.concat(".");
            let url = url.concat(project.as_str());
            let url = url.concat(".org");
            self.site_matrix.get_wiki_for_server_url(&url)
        }
    }

    /// The wiki that the parameters name as the main one: by `language`,
    /// or else `lang`, or else English, and by `project`, or else Wikipedia.
    pub fn get_main_wiki(&self) -> (r: Option<String>)
        ensures
            r.deep_view() == main_wiki_of(self@),
    {
        let language = self.get_param_default("lang", "en");
        let language = self.get_param_default("language", language.as_str());
        let language = replace(language.as_str(), "_", "-");
        let project = self.get_param_default("project", "wikipedia");
        self.get_wiki_for_lagnuage_project(&language, &project)
    }

    /// One placeholder for each quotable value of `strings`, and those values.
    pub fn prep_quote(strings: &Vec<String>) -> (r: SQLtuple)
        ensures
            r.1.deep_view() == quotable(strings.deep_view()),
            r.0@ == question_marks(r.1.len() as nat),
    {
        crate::sql::prep_quote(strings)
    }

    /// `len` placeholders, separated by commas.
    pub fn get_questionmarks(len: usize) -> (r: String)
        ensures
            r@ == question_marks(len as nat),
    {
        crate::sql::get_questionmarks(len)
    }

    /// The empty statement without values.
    pub fn sql_tuple() -> (r: SQLtuple)
        ensures
            r.deep_view() == (Seq::<char>::empty(), Seq::<Seq<char>>::empty()),
    {
        crate::sql::sql_tuple()
    }

    /// Appends the statement and the values of `sub` to those of `sql`.
    pub fn append_sql(sql: &mut SQLtuple, sub: &SQLtuple)
        ensures
            final(sql).0@ == old(sql).0@ + sub.0@,
            final(sql).1.deep_view() == old(sql).1.deep_view() + sub.1.deep_view(),
    {
        crate::sql::append_sql(sql, sub)
    }

    /// Notes the wiki that the source `name` gave its result for.
    pub fn set_wiki_for_source(&mut self, name: String, wiki: String)
        ensures
            final(self)@ == (PlatformView {
                wiki_by_source: seq![(name@, wiki@)] + old(self)@.wiki_by_source,
                ..old(self)@
            }),
    {
        let ghost before = pairs_view(self.wiki_by_source@);
        self.wiki_by_source.insert(0, (name, wiki));
        proof {
            assert(pairs_view(self.wiki_by_source@) =~= seq![(name@, wiki@)] + before);
        }
    }

    /// The wiki that the source `name` gave its result for.
    pub fn wiki_for_source(&self, name: &str) -> (r: Option<String>)
        ensures
            r.deep_view() == wiki_of_source(self@.wiki_by_source, name@),
    {
        let ghost all = pairs_view(self.wiki_by_source@);
        let mut i: usize = 0;
        proof {
            assert(all.skip(0) =~= all);
        }
        while i < self.wiki_by_source.len()
            invariant
                i <= self.wiki_by_source.len(),
                all == pairs_view(self.wiki_by_source@),
                wiki_of_source(all.skip(i as int), name@) == wiki_of_source(all, name@),
            decreases self.wiki_by_source.len() - i,
        {
            proof {
                assert(all.skip(i as int)[0] == all[i as int]);
                assert(all.skip(i as int).skip(1) =~= all.skip(i + 1));
            }
            if str_eq(self.wiki_by_source[i].0.as_str(), name) {
                return Some(self.wiki_by_source[i].1.clone());
            }
            i += 1;
        }
        None
    }
}

} // verus!
