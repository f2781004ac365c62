//! What the parameters ask of the category database.

use vstd::prelude::*;
use crate::form_parameters::{
    is_set,
    param_list,
    param_of,
    param_or,
    param_or_blank,
    param_usize,
    value_of,
};
use crate::numeral::{parse_i32, parse_i64, parsed_i32, parsed_i64};
use crate::platform::{main_wiki_of, Platform, PlatformView};
use crate::text::str_eq;

verus! {

/// What the category database is asked: which categories, templates and
/// links pages must have, and which properties. The bounds on the ORES
/// probability are kept as they are written.
#[derive(Debug)]
pub struct SourceDatabaseParameters {
    pub combine: String,
    pub namespace_ids: Vec<usize>,
    pub linked_from_all: Vec<String>,
    pub linked_from_any: Vec<String>,
    pub linked_from_none: Vec<String>,
    pub links_to_all: Vec<String>,
    pub links_to_any: Vec<String>,
    pub links_to_none: Vec<String>,
    pub templates_yes: Vec<String>,
    pub templates_any: Vec<String>,
    pub templates_no: Vec<String>,
    pub templates_yes_talk_page: bool,
    pub templates_any_talk_page: bool,
    pub templates_no_talk_page: bool,
    pub page_image: String,
    pub ores_type: String,
    pub ores_prediction: String,
    pub ores_prob_from: Option<String>,
    pub ores_prob_to: Option<String>,
    pub last_edit_bot: String,
    pub last_edit_anon: String,
    pub last_edit_flagged: String,
    pub redirects: String,
    pub page_wikidata_item: String,
    pub larger: Option<usize>,
    pub smaller: Option<usize>,
    pub minlinks: Option<usize>,
    pub maxlinks: Option<usize>,
    pub wiki: Option<String>,
    pub gather_link_count: bool,
    pub cat_pos: Vec<String>,
    pub cat_neg: Vec<String>,
    pub depth: u16,
    pub max_age: Option<i64>,
    pub only_new_since: bool,
    pub before: String,
    pub after: String,
    pub use_new_category_mode: bool,
}

/// What the parameters of the category database are, mathematically.
pub struct SourceDatabaseParametersView {
    pub combine: Seq<char>,
    pub namespace_ids: Seq<usize>,
    pub linked_from_all: Seq<Seq<char>>,
    pub linked_from_any: Seq<Seq<char>>,
    pub linked_from_none: Seq<Seq<char>>,
    pub links_to_all: Seq<Seq<char>>,
    pub links_to_any: Seq<Seq<char>>,
    pub links_to_none: Seq<Seq<char>>,
    pub templates_yes: Seq<Seq<char>>,
    pub templates_any: Seq<Seq<char>>,
    pub templates_no: Seq<Seq<char>>,
    pub templates_yes_talk_page: bool,
    pub templates_any_talk_page: bool,
    pub templates_no_talk_page: bool,
    pub page_image: Seq<char>,
    pub ores_type: Seq<char>,
    pub ores_prediction: Seq<char>,
    pub ores_prob_from: Option<Seq<char>>,
    pub ores_prob_to: Option<Seq<char>>,
    pub last_edit_bot: Seq<char>,
    pub last_edit_anon: Seq<char>,
    pub last_edit_flagged: Seq<char>,
    pub redirects: Seq<char>,
    pub page_wikidata_item: Seq<char>,
    pub larger: Option<usize>,
    pub smaller: Option<usize>,
    pub minlinks: Option<usize>,
    pub maxlinks: Option<usize>,
    pub wiki: Option<Seq<char>>,
    pub gather_link_count: bool,
    pub cat_pos: Seq<Seq<char>>,
    pub cat_neg: Seq<Seq<char>>,
    pub depth: u16,
    pub max_age: Option<i64>,
    pub only_new_since: bool,
    pub before: Seq<char>,
    pub after: Seq<char>,
    pub use_new_category_mode: bool,
}

impl View for SourceDatabaseParameters {
    type V = SourceDatabaseParametersView;

    open spec fn view(&self) -> SourceDatabaseParametersView {
        SourceDatabaseParametersView {
            combine: self.combine@,
            namespace_ids: self.namespace_ids@,
            linked_from_all: self.linked_from_all.deep_view(),
            linked_from_any: self.linked_from_any.deep_view(),
            linked_from_none: self.linked_from_none.deep_view(),
            links_to_all: self.links_to_all.deep_view(),
            links_to_any: self.links_to_any.deep_view(),
            links_to_none: self.links_to_none.deep_view(),
            templates_yes: self.templates_yes.deep_view(),
            templates_any: self.templates_any.deep_view(),
            templates_no: self.templates_no.deep_view(),
            templates_yes_talk_page: self.templates_yes_talk_page,
            templates_any_talk_page: self.templates_any_talk_page,
            templates_no_talk_page: self.templates_no_talk_page,
            page_image: self.page_image@,
            ores_type: self.ores_type@,
            ores_prediction: self.ores_prediction@,
            ores_prob_from: self.ores_prob_from.deep_view(),
            ores_prob_to: self.ores_prob_to.deep_view(),
            last_edit_bot: self.last_edit_bot@,
            last_edit_anon: self.last_edit_anon@,
            last_edit_flagged: self.last_edit_flagged@,
            redirects: self.redirects@,
            page_wikidata_item: self.page_wikidata_item@,
            larger: self.larger,
            smaller: self.smaller,
            minlinks: self.minlinks,
            maxlinks: self.maxlinks,
            wiki: self.wiki.deep_view(),
            gather_link_count: self.gather_link_count,
            cat_pos: self.cat_pos.deep_view(),
            cat_neg: self.cat_neg.deep_view(),
            depth: self.depth,
            max_age: self.max_age,
            only_new_since: self.only_new_since,
            before: self.before@,
            after: self.after@,
            use_new_category_mode: self.use_new_category_mode,
        }
    }
}

/// How deep the category tree is searched: as deep as the parameter says,
/// 999 levels where it says a negative number, and not below the
/// categories themselves where it says no number.
pub open spec fn depth_of(p: PlatformView) -> u16 {
    let d: int = match parsed_i32(param_or(p.params, "depth"@, "0"@)) {
        Some(n) => n as int,
        None => 0,
    };
    if d < 0 {
        999
    } else {
        (d % 65536) as u16
    }
}

/// The age in hours that pages may have at most, where the parameter is set.
pub open spec fn max_age_of(p: PlatformView) -> Option<i64> {
    match param_of(p.params, "max_age"@) {
        Some(x) => Some(
            match parsed_i64(x) {
                Some(n) => n,
                None => 0,
            },
        ),
        None => None,
    }
}

/// What the parameters ask of the category database.
pub open spec fn db_params_of(p: PlatformView) -> SourceDatabaseParametersView {
    SourceDatabaseParametersView {
        combine: if value_of(p.params, "combination"@) == Some("union"@) {
            "union"@
        } else {
            "subset"@
        },
        only_new_since: is_set(p.params, "only_new"@),
        max_age: max_age_of(p),
        before: param_or_blank(p.params, "before"@),
        after: param_or_blank(p.params, "after"@),
        templates_yes: param_list(p.params, "templates_yes"@, '\n'),
        templates_any: param_list(p.params, "templates_any"@, '\n'),
        templates_no: param_list(p.params, "templates_no"@, '\n'),
        templates_yes_talk_page: is_set(p.params, "templates_use_talk_yes"@),
        templates_any_talk_page: is_set(p.params, "templates_use_talk_any"@),
        templates_no_talk_page: is_set(p.params, "templates_use_talk_no"@),
        linked_from_all: param_list(p.params, "outlinks_yes"@, '\n'),
        linked_from_any: param_list(p.params, "outlinks_any"@, '\n'),
        linked_from_none: param_list(p.params, "outlinks_no"@, '\n'),
        links_to_all: param_list(p.params, "links_to_all"@, '\n'),
        links_to_any: param_list(p.params, "links_to_any"@, '\n'),
        links_to_none: param_list(p.params, "links_to_no"@, '\n'),
        last_edit_bot: param_or(p.params, "edits[bots]"@, "both"@),
        last_edit_anon: param_or(p.params, "edits[anons]"@, "both"@),
        last_edit_flagged: param_or(p.params, "edits[flagged]"@, "both"@),
        gather_link_count: is_set(p.params, "minlinks"@) || is_set(p.params, "maxlinks"@),
        page_image: param_or(p.params, "page_image"@, "any"@),
        page_wikidata_item: param_or(p.params, "wikidata_item"@, "any"@),
        ores_type: param_or_blank(p.params, "ores_type"@),
        ores_prediction: param_or(p.params, "ores_prediction"@, "any"@),
        depth: depth_of(p),
        cat_pos: param_list(p.params, "categories"@, '\n'),
        cat_neg: param_list(p.params, "negcats"@, '\n'),
        ores_prob_from: param_of(p.params, "ores_prob_from"@),
        ores_prob_to: param_of(p.params, "ores_prob_to"@),
        redirects: param_or_blank(p.params, "show_redirects"@),
        minlinks: param_usize(p.params, "minlinks"@),
        maxlinks: param_usize(p.params, "maxlinks"@),
        larger: param_usize(p.params, "larger"@),
        smaller: param_usize(p.params, "smaller"@),
        wiki: main_wiki_of(p),
        namespace_ids: p.namespaces,
        use_new_category_mode: true,
    }
}

impl Platform {
    /// How deep the category tree is searched.
    fn category_depth(&self) -> (r: u16)
        ensures
            r == depth_of(self@),
    {
        let depth_signed: i32 = match parse_i32(self.get_param_default("depth", "0").as_str()) {
            Some(n) => n,
            None => 0,
        };
        if depth_signed < 0 {
            999
        } else {
            (depth_signed % 65536) as u16
        }
    }

    /// What the parameters ask of the category database.
    pub fn db_params(&self) -> (r: SourceDatabaseParameters)
        ensures
            r@ == db_params_of(self@),
    {
        let combine = match self.form_parameters().value("combination") {
            Some(x) => {
                if str_eq(x.as_str(), "union") {
                    String::from_str("union")
                } else {
                    String::from_str("subset")
                }
            },
            None => String::from_str("subset"),
        };
        let max_age = match self.get_param("max_age") {
            Some(x) => Some(
                match parse_i64(x.as_str()) {
                    Some(n) => n,
                    None => 0,
                },
            ),
            None => None,
        };
        SourceDatabaseParameters {
            combine,
            only_new_since: self.has_param("only_new"),
            max_age,
            before: self.get_param_blank("before"),
            after: self.get_param_blank("after"),
            templates_yes: self.get_param_as_vec("templates_yes", '\n'),
            templates_any: self.get_param_as_vec("templates_any", '\n'),
            templates_no: self.get_param_as_vec("templates_no", '\n'),
            templates_yes_talk_page: self.has_param("templates_use_talk_yes"),
            templates_any_talk_page: self.has_param("templates_use_talk_any"),
            templates_no_talk_page: self.has_param("templates_use_talk_no"),
            linked_from_all: self.get_param_as_vec("outlinks_yes", '\n'),
            linked_from_any: self.get_param_as_vec("outlinks_any", '\n'),
            linked_from_none: self.get_param_as_vec("outlinks_no", '\n'),
            links_to_all: self.get_param_as_vec("links_to_all", '\n'),
            links_to_any: self.get_param_as_vec("links_to_any", '\n'),
            links_to_none: self.get_param_as_vec("links_to_no", '\n'),
            last_edit_bot: self.get_param_default("edits[bots]", "both"),
            last_edit_anon: self.get_param_default("edits[anons]", "both"),
            last_edit_flagged: self.get_param_default("edits[flagged]", "both"),
            gather_link_count: self.has_param("minlinks") || self.has_param("maxlinks"),
            page_image: self.get_param_default("page_image", "any"),
            page_wikidata_item: self.get_param_default("wikidata_item", "any"),
            ores_type: self.get_param_blank("ores_type"),
            ores_prediction: self.get_param_default("ores_prediction", "any"),
            depth: self.category_depth(),
            cat_pos: self.get_param_as_vec("categories", '\n'),
            cat_neg: self.get_param_as_vec("negcats", '\n'),
            ores_prob_from: self.get_param("ores_prob_from"),
            ores_prob_to: self.get_param("ores_prob_to"),
            redirects: self.get_param_blank("show_redirects"),
            minlinks: self.usize_option_from_param("minlinks"),
            maxlinks: self.usize_option_from_param("maxlinks"),
            larger: self.usize_option_from_param("larger"),
            smaller: self.usize_option_from_param("smaller"),
            wiki: self.get_main_wiki(),
            namespace_ids: self.form_parameters().ns.clone(),
            use_new_category_mode: true,
        }
    }
}

} // verus!
