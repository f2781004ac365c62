//! The page sources: what each is called, when it can run, and what it
//! makes of what it is handed from outside.

use vstd::prelude::*;
use crate::entry::{fresh_entry, EntryView};
use crate::form_parameters::value_of;
use crate::pagelist::{put, PageList, PageListView};
use crate::platform::{Platform, PlatformView};
use crate::reader::entity_title;
use crate::text::{split, split_on, trim, trimmed};

verus! {

/// The source that searches a wiki for a text.
#[derive(Debug, Clone, Copy, PartialEq, Eq, Structural)]
pub struct SourceSearch {}

/// The source that takes a list of pages as it is written.
#[derive(Debug, Clone, Copy, PartialEq, Eq, Structural)]
pub struct SourceManual {}

/// The source that asks Wikidata's query service.
#[derive(Debug, Clone, Copy, PartialEq, Eq, Structural)]
pub struct SourceSparql {}

/// The source that reads the category database.
#[derive(Debug, Clone, Copy, PartialEq, Eq, Structural)]
pub struct SourceDatabase {}

/// Whether the search source can run: it needs a query, a wiki and a limit.
pub open spec fn search_can_run(p: PlatformView) -> bool {
    value_of(p.params, "search_query"@) is Some && value_of(p.params, "search_wiki"@) is Some
        && value_of(p.params, "search_max_results"@) is Some
}

/// Whether the manual source can run: it needs a list, and a wiki that is not blank.
pub open spec fn manual_can_run(p: PlatformView) -> bool {
    value_of(p.params, "manual_list"@) is Some && value_of(p.params, "manual_list_wiki"@) is Some
        && value_of(p.params, "manual_list_wiki"@)->Some_0.len() > 0
}

/// Whether the query source can run: it needs a query that is not blank.
pub open spec fn sparql_can_run(p: PlatformView) -> bool {
    value_of(p.params, "sparql"@) is Some && value_of(p.params, "sparql"@)->Some_0.len() > 0
}

/// The lines of a list that are not blank, trimmed.
pub open spec fn listed_lines(lines: Seq<Seq<char>>) -> Seq<Seq<char>>
    decreases lines.len(),
{
    if lines.len() == 0 {
        Seq::<Seq<char>>::empty()
    } else if trimmed(lines.last()).len() == 0 {
        listed_lines(lines.drop_last())
    } else {
        listed_lines(lines.drop_last()).push(trimmed(lines.last()))
    }
}

/// The entries for a run of entity ids: a fresh entry for each id that
/// starts with the letter of a kind of entity, put in in order.
pub open spec fn entity_entries(ids: Seq<Seq<char>>) -> Seq<EntryView>
    decreases ids.len(),
{
    if ids.len() == 0 {
        Seq::<EntryView>::empty()
    } else {
        match entity_title(ids.last()) {
            Some(t) => put(entity_entries(ids.drop_last()), fresh_entry(t)),
            None => entity_entries(ids.drop_last()),
        }
    }
}

impl SourceSearch {
    /// The source; it holds nothing.
    pub fn new() -> (r: Self)
        ensures
            r == (Self {  }),
    {
        Self {  }
    }

    /// What the source is called.
    pub fn name(&self) -> (r: String)
        ensures
            r@ == "search"@,
    {
        String::from_str("search")
    }

    /// Whether the parameters let the source run.
    pub fn can_run(&self, platform: &Platform) -> (r: bool)
        ensures
            r == search_can_run(platform@),
    {
        let params = platform.form_parameters();
        params.value("search_query").is_some() && params.value("search_wiki").is_some()
            && params.value("search_max_results").is_some()
    }

    /// The parameters of the search request for `query`.
    pub fn request(query: &str) -> (r: Vec<(String, String)>)
        ensures
            crate::platform::pairs_view(r@) == seq![
                ("action"@, "query"@),
                ("list"@, "search"@),
                ("srsearch"@, query@),
            ],
    {
        let mut r: Vec<(String, String)> = Vec::new();
        r.push((String::from_str("action"), String::from_str("query")));
        r.push((String::from_str("list"), String::from_str("search")));
        r.push((String::from_str("srsearch"), String::from_str(query)));
        proof {
            assert(crate::platform::pairs_view(r@) =~= seq![
                ("action"@, "query"@),
                ("list"@, "search"@),
                ("srsearch"@, query@),
            ]);
        }
        r
    }
}

impl SourceManual {
    /// The source; it holds nothing.
    pub fn new() -> (r: Self)
        ensures
            r == (Self {  }),
    {
        Self {  }
    }

    /// What the source is called.
    pub fn name(&self) -> (r: String)
        ensures
            r@ == "manual"@,
    {
        String::from_str("manual")
    }

    /// Whether the parameters let the source run.
    pub fn can_run(&self, platform: &Platform) -> (r: bool)
        ensures
            r == manual_can_run(platform@),
    {
        let params = platform.form_parameters();
        match params.value("manual_list") {
            Some(_) => match params.value("manual_list_wiki") {
                Some(wiki) => wiki.as_str().unicode_len() > 0,
                None => false,
            },
            None => false,
        }
    }

    /// The titles that a list names: its lines that are not blank, trimmed.
    pub fn lines(list: &str) -> (r: Vec<String>)
        ensures
            r.deep_view() == listed_lines(split_on(list@, '\n')),
    {
        let pieces = split(list, '\n');
        let ghost all = pieces.deep_view();
        let mut out: Vec<String> = Vec::new();
        let mut i: usize = 0;
        proof {
            assert(all.take(0) =~= Seq::<Seq<char>>::empty());
            assert(out.deep_view() =~= Seq::<Seq<char>>::empty());
        }
        while i < pieces.len()
            invariant
                i <= pieces.len(),
                all == pieces.deep_view(),
                out.deep_view() == listed_lines(all.take(i as int)),
            decreases pieces.len() - i,
        {
            proof {
                let next = all.take(i + 1);
                assert(next.drop_last() =~= all.take(i as int));
                assert(next.last() == pieces@[i as int]@);
            }
            let line = trim(pieces[i].as_str());
            if line.as_str().unicode_len() > 0 {
                let ghost before = out.deep_view();
                out.push(line);
                proof {
                    assert(out.deep_view() =~= before.push(trimmed(pieces@[i as int]@)));
                }
            }
            i += 1;
        }
        proof {
            assert(all.take(all.len() as int) =~= all);
        }
        out
    }
}

impl SourceSparql {
    /// The source; it holds nothing.
    pub fn new() -> (r: Self)
        ensures
            r == (Self {  }),
    {
        Self {  }
    }

    /// What the source is called.
    pub fn name(&self) -> (r: String)
        ensures
            r@ == "sparql"@,
    {
        String::from_str("sparql")
    }

    /// Whether the parameters let the source run.
    pub fn can_run(&self, platform: &Platform) -> (r: bool)
        ensures
            r == sparql_can_run(platform@),
    {
        match platform.form_parameters().value("sparql") {
            Some(sparql) => sparql.as_str().unicode_len() > 0,
            None => false,
        }
    }

    /// The list of the entities that a query returned: items, properties
    /// and lexemes, each in its namespace, as a list of Wikidata.
    pub fn pages_from_entities(entities: &Vec<String>) -> (r: PageList)
        ensures
            r@ == (PageListView {
                wiki: Some("wikidatawiki"@),
                entries: entity_entries(entities.deep_view()),
            }),
            r@.wf(),
            r@.tagged(),
    {
        let ghost all = entities.deep_view();
        let mut list = PageList::new_from_wiki("wikidatawiki");
        let mut i: usize = 0;
        proof {
            assert(all.take(0) =~= Seq::<Seq<char>>::empty());
        }
        while i < entities.len()
            invariant
                i <= entities.len(),
                all == entities.deep_view(),
                list@.wiki == Some("wikidatawiki"@),
                list@.wf(),
                list@.entries == entity_entries(all.take(i as int)),
            decreases entities.len() - i,
        {
            proof {
                let next = all.take(i + 1);
                assert(next.drop_last() =~= all.take(i as int));
                assert(next.last() == entities@[i as int]@);
            }
            match Platform::entry_from_entity(entities[i].as_str()) {
                Some(e) => {
                    list.add_entry(e);
                },
                None => {},
            }
            i += 1;
        }
        proof {
            assert(all.take(all.len() as int) =~= all);
        }
        list
    }
}

impl SourceDatabase {
    /// The source; it holds nothing.
    pub fn new() -> (r: Self)
        ensures
            r == (Self {  }),
    {
        Self {  }
    }

    /// What the source is called.
    pub fn name(&self) -> (r: String)
        ensures
            r@ == "categories"@,
    {
        String::from_str("categories")
    }
}

} // verus!
