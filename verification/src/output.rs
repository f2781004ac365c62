//! What leaves the pipeline: the pages in their order, cut to the limit,
//! and the responses that report an error.

use vstd::prelude::*;
use crate::app_state::{main_page_for, AppState, AppStateView};
use crate::entry::{EntryView, PageListEntry};
use crate::form_parameters::{param_or, param_or_blank, value_of, FormParameters};
use crate::numeral::{parse_usize, parsed_usize};
use crate::platform::{ContentType, MyResponse, Platform, PlatformView};
use crate::site_matrix::is_rtl;
use crate::sort::{sort_named, PageListSort};
use crate::sorting::{is_rearrangement, stably_sorted};
use crate::text::{concat, replace, replaced, str_eq};

verus! {

/// The text that `serde_json` writes for a string: the string in quotes,
/// with what JSON does not take as it is written as escapes.
pub uninterp spec fn json_quoted(text: Seq<char>) -> Seq<char>;

/// The `ToString` of `serde_json::Value::String`: the JSON text of a string.
#[verifier::external_body]
fn json_string(text: &str) -> (r: String)
    ensures
        r@ == json_quoted(text@),
{
    serde_json::Value::String(text.to_string()).to_string()
}

/// The formats a result can be given out in.
#[derive(Debug, Clone, Copy, PartialEq, Eq, Structural)]
pub enum RenderFormat {
    Wiki,
    CSV,
    TSV,
    JSON,
    PagePile,
    HTML,
}

/// The format that the parameter value names; HTML where it names none.
pub open spec fn format_named(format: Seq<char>) -> RenderFormat {
    if format == "wiki"@ {
        RenderFormat::Wiki
    } else if format == "csv"@ {
        RenderFormat::CSV
    } else if format == "tsv"@ {
        RenderFormat::TSV
    } else if format == "json"@ {
        RenderFormat::JSON
    } else if format == "pagepile"@ {
        RenderFormat::PagePile
    } else {
        RenderFormat::HTML
    }
}

/// The sort key that the parameters name.
pub open spec fn sorter_of(p: PlatformView) -> PageListSort {
    sort_named(
        param_or_blank(p.params, "sortby"@),
        param_or_blank(p.params, "sortorder"@) == "descending"@,
    )
}

/// The most pages that are given out; zero where there is no limit.
pub open spec fn output_limit(p: PlatformView) -> usize {
    match parsed_usize(param_or(p.params, "output_limit"@, "0"@)) {
        Some(n) => n,
        None => 0,
    }
}

/// The pages cut to the limit.
pub open spec fn limited(pages: Seq<EntryView>, limit: usize) -> Seq<EntryView> {
    if limit != 0 && limit < pages.len() {
        pages.take(limit as int)
    } else {
        pages
    }
}

/// Why there is nothing to give out, if there is nothing.
pub open spec fn response_fault(p: PlatformView) -> Option<Seq<char>> {
    match p.result {
        None => Some("Platform::get_response: No result"@),
        Some(list) => if list.wiki is None {
            Some("Platform::get_response: No wiki in result"@)
        } else {
            None
        },
    }
}

/// The error as it is shown on the page.
pub open spec fn error_box(error: Seq<char>) -> Seq<char> {
    "<div class='alert alert-danger' role='alert'>"@ + error + "</div>"@
}

/// The error as a JSON object.
pub open spec fn error_json(error: Seq<char>) -> Seq<char> {
    "{\"error\":"@ + json_quoted(error) + "}"@
}

/// The response that carries a JSON text: the text itself, or, for a
/// caller that names a callback, the call of the callback with it.
pub open spec fn json_response(json: Seq<char>, callback: Option<Seq<char>>) -> (Seq<char>, ContentType) {
    match callback {
        Some(cb) => (cb + "("@ + json + ")"@, ContentType::JSONP),
        None => (json, ContentType::JSON),
    }
}

/// The response that reports an error, in the format that the parameters
/// ask for: as a page for `html` and for a blank format, as JSON for
/// `json`, as plain text for anything else and where no format is named.
pub open spec fn error_response(
    state: AppStateView,
    error: Seq<char>,
    params: Seq<(Seq<char>, Seq<char>)>,
    querystring: Seq<char>,
) -> (Seq<char>, ContentType) {
    let format = value_of(params, "format"@);
    if format == Some(Seq::<char>::empty()) || format == Some("html"@) {
        let language = match value_of(params, "interface_language"@) {
            Some(l) => l,
            None => "en"@,
        };
        (
            replaced(
                replaced(
                    main_page_for(state.main_page, is_rtl(state.site_matrix, language), language),
                    "<!--querystring-->"@,
                    querystring,
                ),
                "<!--output-->"@,
                error_box(error),
            ),
            ContentType::HTML,
        )
    } else if format == Some("json"@) {
        json_response(error_json(error), value_of(params, "callback"@))
    } else {
        (error, ContentType::Plain)
    }
}

/// The first `limit` of the entries.
fn first_entries(pages: &Vec<PageListEntry>, limit: usize) -> (r: Vec<PageListEntry>)
    requires
        limit <= pages.len(),
    ensures
        r.deep_view() == pages.deep_view().take(limit as int),
{
    let mut out: Vec<PageListEntry> = Vec::new();
    let mut i: usize = 0;
    proof {
        assert(out.deep_view() =~= pages.deep_view().take(0));
    }
    while i < limit
        invariant
            i <= limit <= pages.len(),
            out.deep_view() == pages.deep_view().take(i as int),
        decreases limit - i,
    {
        let ghost before = out.deep_view();
        out.push(pages[i].clone());
        proof {
            assert(out.deep_view() =~= before.push(pages@[i as int]@));
            assert(before.push(pages@[i as int]@) =~= pages.deep_view().take(i + 1));
        }
        i += 1;
    }
    out
}

impl Platform {
    /// The sort key that the parameters name.
    pub fn sorter(&self) -> (r: PageListSort)
        ensures
            r == sorter_of(self@),
    {
        let descending = str_eq(self.get_param_blank("sortorder").as_str(), "descending");
        PageListSort::new_from_params(&self.get_param_blank("sortby"), descending)
    }

    /// The format that the parameters ask for.
    pub fn render_format(&self) -> (r: RenderFormat)
        ensures
            r == format_named(param_or_blank(self@.params, "format"@)),
    {
        let format = self.get_param_blank("format");
        let f = format.as_str();
        if str_eq(f, "wiki") {
            RenderFormat::Wiki
        } else if str_eq(f, "csv") {
            RenderFormat::CSV
        } else if str_eq(f, "tsv") {
            RenderFormat::TSV
        } else if str_eq(f, "json") {
            RenderFormat::JSON
        } else if str_eq(f, "pagepile") {
            RenderFormat::PagePile
        } else {
            RenderFormat::HTML
        }
    }

    /// Cuts the pages to the limit of the parameters, if they set one.
    pub fn apply_results_limit(&self, pages: &mut Vec<PageListEntry>)
        ensures
            final(pages).deep_view() == limited(old(pages).deep_view(), output_limit(self@)),
    {
        let limit = match parse_usize(self.get_param_default("output_limit", "0").as_str()) {
            Some(n) => n,
            None => 0,
        };
        proof {
            assert(pages.deep_view().len() == pages.len());
        }
        if limit != 0 && limit < pages.len() {
            let cut = first_entries(pages, limit);
            *pages = cut;
        }
    }

    /// The pages of the result as they are given out: sorted by the key of
    /// the parameters and cut to their limit, with the wiki they belong to.
    /// Before the limit is applied the pages are those of the result, in
    /// the order of the key unless that is the random one.
    pub fn get_response(&self) -> (r: Result<(String, Vec<PageListEntry>), String>)
        ensures
            match r {
                Ok(out) => response_fault(self@) is None && Some(out.0@) == self@.result->Some_0.wiki
                    && exists|sorted: Seq<EntryView>|
                    #![auto]
                    is_rearrangement(self@.result->Some_0.entries, sorted) && (!(sorter_of(self@)
                        is Random) ==> stably_sorted(
                        self@.result->Some_0.entries,
                        sorted,
                        sorter_of(self@),
                        self@.result->Some_0.is_wikidata(),
                    )) && out.1.deep_view() == limited(sorted, output_limit(self@)),
                Err(msg) => response_fault(self@) == Some(msg@),
            },
    {
        let result = match self.result() {
            Some(result) => result,
            None => {
                return Err(String::from_str("Platform::get_response: No result"));
            },
        };
        let wiki = match result.wiki() {
            Some(wiki) => wiki,
            None => {
                return Err(String::from_str("Platform::get_response: No wiki in result"));
            },
        };
        let mut list = result.clone();
        let mut pages = list.drain_into_sorted_vec(self.sorter());
        let ghost sorted = pages.deep_view();
        self.apply_results_limit(&mut pages);
        proof {
            assert(is_rearrangement(self@.result->Some_0.entries, sorted) && (!(sorter_of(self@)
                is Random) ==> stably_sorted(
                self@.result->Some_0.entries,
                sorted,
                sorter_of(self@),
                self@.result->Some_0.is_wikidata(),
            )) && pages.deep_view() == limited(sorted, output_limit(self@)));
        }
        Ok((wiki, pages))
    }
}

impl AppState {
    /// The response that carries a JSON text.
    pub fn output_json(json: &str, callback: Option<&String>) -> (r: MyResponse)
        ensures
            (r.s@, r.content_type) == json_response(
                json@,
                match callback {
                    Some(cb) => Some(cb@),
                    None => None,
                },
            ),
    {
        match callback {
            Some(callback) => {
                let text = callback.clone();
                let text = text.concat("(");
                let text = text.concat(json);
                let text = text.concat(")");
                MyResponse { s: text, content_type: ContentType::JSONP }
            },
            None => MyResponse { s: String::from_str(json), content_type: ContentType::JSON },
        }
    }

    /// The response that reports an error, in the format that the
    /// parameters ask for. `querystring` is the query as it is written
    /// into the page.
    pub fn render_error(
        &self,
        error: String,
        form_parameters: &FormParameters,
        querystring: &str,
    ) -> (r: MyResponse)
        ensures
            (r.s@, r.content_type) == error_response(
                self@,
                error@,
                form_parameters@,
                querystring@,
            ),
    {
        let format = form_parameters.value("format");
        let is_html = match format {
            Some(f) => f.as_str().unicode_len() == 0 || str_eq(f.as_str(), "html"),
            None => false,
        };
        let is_json = match format {
            Some(f) => str_eq(f.as_str(), "json"),
            None => false,
        };
        proof {
            reveal_strlit("html");
            reveal_strlit("json");
            if format is Some && format->Some_0@.len() == 0 {
                assert(format->Some_0@ =~= Seq::<char>::empty());
            }
        }
        if is_html {
            let output = String::from_str("<div class='alert alert-danger' role='alert'>");
            let output = output.concat(error.as_str());
            let output = output.concat("</div>");
            let interface_language = match form_parameters.value("interface_language") {
                Some(l) => l.clone(),
                None => String::from_str("en"),
            };
            let html = self.get_main_page(interface_language);
            let html = replace(html.as_str(), "<!--querystring-->", querystring);
            let html = replace(html.as_str(), "<!--output-->", output.as_str());
            MyResponse { s: html, content_type: ContentType::HTML }
        } else if is_json {
            let value = String::from_str("{\"error\":");
            let value = value.concat(json_string(error.as_str()).as_str());
            let value = value.concat("}");
            Self::output_json(value.as_str(), form_parameters.value("callback"))
        } else {
            MyResponse { s: error, content_type: ContentType::Plain }
        }
    }
}

} // verus!
