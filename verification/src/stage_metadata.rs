//! The stage that loads what is missing of page id, size and time of last
//! edit, and, for Wikidata, labels and descriptions.

use vstd::prelude::*;
use crate::annotate::RowAnnotation;
use crate::batch::{batches_view, chunk_batches, sql_batches, titles_in};
use crate::entry::EntryView;
use crate::form_parameters::{is_set, param_or};
use crate::numeral::{decimal_of, push_decimal};
use crate::pagelist::{PageList, PageListView};
use crate::pipeline::{Intake, Query, QueryView, StageAction, StageActionView};
use crate::platform::{Platform, PlatformView, PAGE_BATCH_SIZE};
use crate::rewrite::{wrap_batches, wrapped_all};
use crate::sql::SQLtuple;
use crate::stage_wikidata::no_wiki_message;
use crate::text::{chars_of, join_with, push_str, string_of};
use crate::title::NamespaceID;

verus! {

/// Whether an entry lacks its page id, its size or the time of its last edit.
pub open spec fn lacks_metadata(e: EntryView) -> bool {
    e.page_id is None || e.page_bytes is None || e.page_timestamp is None
}

/// Whether any entry lacks page data.
pub open spec fn needs_metadata(entries: Seq<EntryView>) -> bool {
    exists|i: int| 0 <= i < entries.len() && lacks_metadata(#[trigger] entries[i])
}

/// The statement that asks for page data, up to its condition.
pub open spec fn metadata_sql() -> Seq<char> {
    "SELECT page_title,page_namespace,page_id,page_len,(SELECT rev_timestamp FROM revision WHERE rev_id=page_latest LIMIT 1) AS page_last_rev_timestamp FROM page WHERE"@
}

/// The language that labels are asked in.
pub open spec fn label_language(p: PlatformView) -> Seq<char> {
    param_or(p.params, "wikidata_label_language"@, param_or(p.params, "interface_language"@, "en"@))
}

/// The kinds of Wikidata entity that have terms: items and properties.
#[derive(Debug, Clone, Copy, PartialEq, Eq, Structural)]
pub enum TermEntity {
    Item,
    Property,
}

impl TermEntity {
    /// The namespace of the entities.
    pub open spec fn namespace(self) -> NamespaceID {
        match self {
            TermEntity::Item => 0,
            TermEntity::Property => 120,
        }
    }

    /// The letter that the ids of the entities start with.
    pub open spec fn letter(self) -> Seq<char> {
        match self {
            TermEntity::Item => "Q"@,
            TermEntity::Property => "P"@,
        }
    }

    /// The table of the entities' terms.
    pub open spec fn table(self) -> Seq<char> {
        match self {
            TermEntity::Item => "wbt_item_terms"@,
            TermEntity::Property => "wbt_property_terms"@,
        }
    }

    /// The column of the entity's number.
    pub open spec fn id_column(self) -> Seq<char> {
        match self {
            TermEntity::Item => "wbit_item_id"@,
            TermEntity::Property => "wbpt_property_id"@,
        }
    }

    /// The column of the term.
    pub open spec fn term_column(self) -> Seq<char> {
        match self {
            TermEntity::Item => "wbit_term_in_lang_id"@,
            TermEntity::Property => "wbpt_term_in_lang_id"@,
        }
    }
}

/// A text without its first character.
pub open spec fn without_first(s: Seq<char>) -> Seq<char> {
    if s.len() > 0 {
        s.skip(1)
    } else {
        s
    }
}

/// The numbers of entities: their ids without the first letter.
pub open spec fn entity_numbers(ids: Seq<Seq<char>>) -> Seq<Seq<char>> {
    Seq::new(ids.len(), |i: int| without_first(ids[i]))
}

/// The statement that asks for the terms of the entities with the given ids.
pub open spec fn terms_sql(kind: TermEntity, ids: Seq<Seq<char>>) -> Seq<char> {
    "SELECT concat('"@ + kind.letter() + "',"@ + kind.id_column() + ") AS term_full_entity_id,"@
        + decimal_of(kind.namespace() as int)
        + " AS dummy_namespace,wbx_text as term_text,wby_name as term_type\nFROM "@ + kind.table()
        + "\nINNER JOIN wbt_term_in_lang ON "@ + kind.term_column()
        + " = wbtl_id\nINNER JOIN wbt_type ON wbtl_type_id = wby_id\nINNER JOIN wbt_text_in_lang ON wbtl_text_in_lang_id = wbxl_id\nINNER JOIN wbt_text ON wbxl_text_id = wbx_id AND wbxl_language=?\nWHERE "@
        + kind.id_column() + " IN ("@ + join_with(entity_numbers(ids), ","@) + ")"@
}

/// The statements that ask for the terms of a list's entities of one kind,
/// in the language `language`.
pub open spec fn terms_batches(entries: Seq<EntryView>, kind: TermEntity, language: Seq<char>) -> Seq<
    (Seq<char>, Seq<Seq<char>>),
> {
    let chunks = chunk_batches(
        kind.namespace(),
        titles_in(entries, kind.namespace()),
        PAGE_BATCH_SIZE as nat,
    );
    Seq::new(chunks.len(), |i: int| (terms_sql(kind, chunks[i].1), seq![language]))
}

/// The query for the terms of a list's entities of one kind, in one language.
pub open spec fn terms_query(list: PageListView, kind: TermEntity, language: Seq<char>) -> QueryView {
    QueryView {
        wiki: list.wiki->Some_0,
        batches: terms_batches(list.entries, kind, language),
        chunk_size: 0,
        intake: Intake::Annotate { col_title: 0, col_ns: 1, annotation: RowAnnotation::WikidataTerms },
    }
}

/// A phase of the stage. Phase 0 asks for page data, if an entry lacks
/// some. Phases 1 and 2 ask for the terms of items and of properties in the
/// language given, on Wikidata, unless images are being searched for items
/// without a filter on labels. The list stays as it is.
pub open spec fn metadata_phase(
    p: PlatformView,
    list: PageListView,
    language: Option<Seq<char>>,
    phase: nat,
) -> StageActionView {
    if phase == 0 {
        if !needs_metadata(list.entries) {
            StageActionView::Pass
        } else if list.wiki is None {
            StageActionView::Fail(no_wiki_message())
        } else {
            StageActionView::Run(
                QueryView {
                    wiki: list.wiki->Some_0,
                    batches: wrapped_all(
                        sql_batches(list.entries, PAGE_BATCH_SIZE as nat),
                        metadata_sql(),
                        Seq::empty(),
                        Seq::empty(),
                        Seq::empty(),
                    ),
                    chunk_size: 0,
                    intake: Intake::Annotate {
                        col_title: 0,
                        col_ns: 1,
                        annotation: RowAnnotation::PageMetadata,
                    },
                },
            )
        }
    } else if phase >= 3 || !list.is_wikidata() || language is None || (!is_set(
        p.params,
        "regexp_filter"@,
    ) && is_set(p.params, "wdf_main"@)) {
        StageActionView::Finished
    } else if phase == 1 {
        StageActionView::Run(terms_query(list, TermEntity::Item, language->Some_0))
    } else {
        StageActionView::Run(terms_query(list, TermEntity::Property, language->Some_0))
    }
}

/// The statement that asks for the terms of the entities with the given ids.
fn make_terms_sql(kind: TermEntity, ids: &Vec<String>) -> (r: String)
    ensures
        r@ == terms_sql(kind, ids.deep_view()),
{
    let (letter, table, id_column, term_column, ns): (&str, &str, &str, &str, i64) = match kind {
        TermEntity::Item => ("Q", "wbt_item_terms", "wbit_item_id", "wbit_term_in_lang_id", 0),
        TermEntity::Property => (
            "P",
            "wbt_property_terms",
            "wbpt_property_id",
            "wbpt_term_in_lang_id",
            120,
        ),
    };
    let mut out: Vec<char> = Vec::new();
    push_str(&mut out, "SELECT concat('");
    push_str(&mut out, letter);
    push_str(&mut out, "',");
    push_str(&mut out, id_column);
    push_str(&mut out, ") AS term_full_entity_id,");
    push_decimal(&mut out, ns);
    push_str(&mut out, " AS dummy_namespace,wbx_text as term_text,wby_name as term_type\nFROM ");
    push_str(&mut out, table);
    push_str(&mut out, "\nINNER JOIN wbt_term_in_lang ON ");
    push_str(&mut out, term_column);
    push_str(
        &mut out,
        " = wbtl_id\nINNER JOIN wbt_type ON wbtl_type_id = wby_id\nINNER JOIN wbt_text_in_lang ON wbtl_text_in_lang_id = wbxl_id\nINNER JOIN wbt_text ON wbxl_text_id = wbx_id AND wbxl_language=?\nWHERE ",
    );
    push_str(&mut out, id_column);
    push_str(&mut out, " IN (");
    let mut numbers: Vec<String> = Vec::new();
    let mut i: usize = 0;
    while i < ids.len()
        invariant
            i <= ids.len(),
            numbers.len() == i,
            forall|j: int| 0 <= j < i ==> (#[trigger] numbers@[j])@ == without_first(ids@[j]@),
        decreases ids.len() - i,
    {
        let id = chars_of(ids[i].as_str());
        let mut number: Vec<char> = Vec::new();
        if id.len() > 0 {
            let mut k: usize = 1;
            proof {
                assert(id@.skip(1).take(0) =~= Seq::<char>::empty());
            }
            while k < id.len()
                invariant
                    1 <= k <= id.len(),
                    number@ == id@.skip(1).take(k - 1),
                decreases id.len() - k,
            {
                number.push(id[k]);
                proof {
                    assert(id@.skip(1).take(k - 1).push(id@[k as int]) =~= id@.skip(1).take(
                        k as int,
                    ));
                }
                k += 1;
            }
            proof {
                assert(id@.skip(1).take(id.len() - 1) =~= id@.skip(1));
            }
        } else {
            proof {
                assert(number@ =~= id@);
            }
        }
        numbers.push(string_of(&number));
        i += 1;
    }
    proof {
        assert(numbers.deep_view() =~= entity_numbers(ids.deep_view()));
    }
    let joined = crate::text::join(&numbers, ",");
    push_str(&mut out, joined.as_str());
    push_str(&mut out, ")");
    proof {
        assert(out@ =~= terms_sql(kind, ids.deep_view()));
    }
    string_of(&out)
}

impl PageList {
    /// Whether any entry lacks its page id, its size or the time of its last edit.
    pub fn needs_page_metadata(&self) -> (r: bool)
        ensures
            r == needs_metadata(self@.entries),
    {
        let entries = self.entries();
        let mut i: usize = 0;
        while i < entries.len()
            invariant
                i <= entries.len(),
                entries.deep_view() == self@.entries,
                forall|j: int| 0 <= j < i ==> !lacks_metadata(#[trigger] entries.deep_view()[j]),
            decreases entries.len() - i,
        {
            if entries[i].get_page_id().is_none() || entries[i].get_page_bytes().is_none()
                || entries[i].get_page_timestamp().is_none() {
                proof {
                    assert(entries.deep_view()[i as int] == entries@[i as int]@);
                    assert(lacks_metadata(entries.deep_view()[i as int]));
                }
                return true;
            }
            i += 1;
        }
        false
    }

    /// The statements that ask for the terms of the list's entities of one
    /// kind, in the language `wikidata_language`.
    pub fn add_wikidata_labels_for_namespace(&self, kind: TermEntity, wikidata_language: &String) -> (r:
        Vec<SQLtuple>)
        ensures
            batches_view(r@) == terms_batches(self@.entries, kind, wikidata_language@),
    {
        let ns: NamespaceID = match kind {
            TermEntity::Item => 0,
            TermEntity::Property => 120,
        };
        let chunks = self.to_sql_batches_namespace(PAGE_BATCH_SIZE, ns);
        let mut out: Vec<SQLtuple> = Vec::new();
        let mut i: usize = 0;
        while i < chunks.len()
            invariant
                i <= chunks.len(),
                out.len() == i,
                forall|j: int|
                    0 <= j < i ==> (#[trigger] out@[j]).0@ == terms_sql(
                        kind,
                        chunks@[j].1.deep_view(),
                    ) && out@[j].1.deep_view() == seq![wikidata_language@],
            decreases chunks.len() - i,
        {
            let sql = make_terms_sql(kind, &chunks[i].1);
            let mut values: Vec<String> = Vec::new();
            values.push(wikidata_language.clone());
            proof {
                assert(values.deep_view() =~= seq![wikidata_language@]);
            }
            out.push((sql, values));
            i += 1;
        }
        proof {
            assert(batches_view(out@) =~= terms_batches(self@.entries, kind, wikidata_language@));
        }
        out
    }
}

impl PageList {
    /// One phase of the stage that loads missing page data and, in the
    /// language given, labels.
    pub fn load_missing_metadata(
        &self,
        wikidata_language: Option<String>,
        platform: &Platform,
        phase: usize,
    ) -> (r: StageAction)
        ensures
            r@ == metadata_phase(platform@, self@, wikidata_language.deep_view(), phase as nat),
    {
        if phase == 0 {
            if !self.needs_page_metadata() {
                return StageAction::Pass;
            }
            let wiki = match self.wiki() {
                Some(w) => w,
                None => {
                    return StageAction::Fail(
                        String::from_str("PageList::run_batch_queries: No wiki"),
                    );
                },
            };
            let none: Vec<String> = Vec::new();
            proof {
                assert(none.deep_view() =~= Seq::<Seq<char>>::empty());
                reveal_strlit("");
                assert(""@ =~= Seq::<char>::empty());
            }
            let batches = self.to_sql_batches(PAGE_BATCH_SIZE);
            let batches = wrap_batches(
                &batches,
                "SELECT page_title,page_namespace,page_id,page_len,(SELECT rev_timestamp FROM revision WHERE rev_id=page_latest LIMIT 1) AS page_last_rev_timestamp FROM page WHERE",
                "",
                &none,
                &none,
            );
            return StageAction::Run(
                Query {
                    wiki,
                    batches,
                    chunk_size: 0,
                    intake: Intake::Annotate {
                        col_title: 0,
                        col_ns: 1,
                        annotation: RowAnnotation::PageMetadata,
                    },
                },
            );
        }
        if phase >= 3 || !self.is_wikidata() {
            return StageAction::Finished;
        }
        let language = match wikidata_language {
            Some(l) => l,
            None => {
                return StageAction::Finished;
            },
        };
        if !platform.has_param("regexp_filter") && platform.has_param("wdf_main") {
            return StageAction::Finished;
        }
        let kind = if phase == 1 {
            TermEntity::Item
        } else {
            TermEntity::Property
        };
        StageAction::Run(
            Query {
                wiki: String::from_str("wikidatawiki"),
                batches: self.add_wikidata_labels_for_namespace(kind, &language),
                chunk_size: 0,
                intake: Intake::Annotate {
                    col_title: 0,
                    col_ns: 1,
                    annotation: RowAnnotation::WikidataTerms,
                },
            },
        )
    }
}

impl Platform {
    /// The language that labels are asked in: that of the parameter
    /// `wikidata_label_language`, or else that of the interface, or else English.
    pub fn wikidata_label_language(&self) -> (r: String)
        ensures
            r@ == label_language(self@),
    {
        let interface_language = self.get_param_default("interface_language", "en");
        self.get_param_default("wikidata_label_language", interface_language.as_str())
    }
}

} // verus!
