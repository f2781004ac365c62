//! Making entries from the rows of a query.

use vstd::prelude::*;
use crate::annotate::rows_view;
use crate::entry::{fresh_entry, EntryView, PageListEntry};
use crate::pagelist::{has_title, lemma_put, position_of, put, PageList, PageListView};
use crate::platform::Platform;
use crate::row::{
    cell_i64, cell_text, cell_text_lossy, cell_u64, cell_usize, lenient_text_of, signed_of,
    text_of, unsigned_of, usize_of, Row, SqlValueView,
};
use crate::title::{display_form, NamespaceID, Title, TitleView};

verus! {

/// The shapes of rows that name a page.
#[derive(Debug, Clone, Copy, PartialEq, Eq, Structural)]
pub enum RowReader {
    /// One column: the name of a page in the main namespace.
    MainTitle,
    /// One column: the name of a page in the main namespace, as bytes that
    /// need not be valid UTF-8.
    MainTitleLossy,
    /// Two columns: the name of a page in the main namespace, and a count.
    CountedMainTitle,
    /// One column: the id of a Wikidata entity.
    Entity,
    /// Two columns: the name of a page, and its namespace.
    TitleAndNamespace,
}

/// The namespace of a Wikidata entity, by the first letter of its id: items
/// in 0, properties in 120, lexemes in 146.
pub open spec fn entity_namespace(entity: Seq<char>) -> Option<NamespaceID> {
    if entity.len() == 0 {
        None
    } else if entity[0] == 'Q' {
        Some(0)
    } else if entity[0] == 'P' {
        Some(120)
    } else if entity[0] == 'L' {
        Some(146)
    } else {
        None
    }
}

/// The title of a Wikidata entity's page.
pub open spec fn entity_title(entity: Seq<char>) -> Option<TitleView> {
    match entity_namespace(entity) {
        Some(ns) => Some(TitleView { namespace_id: ns, title: display_form(entity) }),
        None => None,
    }
}

/// The title that a row of the given shape names.
pub open spec fn read_title(reader: RowReader, row: Seq<SqlValueView>) -> Option<TitleView> {
    match reader {
        RowReader::MainTitle => if row.len() == 1 && text_of(row[0]) is Some {
            Some(TitleView { namespace_id: 0, title: display_form(text_of(row[0])->Some_0) })
        } else {
            None
        },
        RowReader::MainTitleLossy => if row.len() == 1 && lenient_text_of(row[0]) is Some {
            Some(
                TitleView { namespace_id: 0, title: display_form(lenient_text_of(row[0])->Some_0) },
            )
        } else {
            None
        },
        RowReader::CountedMainTitle => if row.len() == 2 && text_of(row[0]) is Some && usize_of(
            row[1],
        ) is Some {
            Some(TitleView { namespace_id: 0, title: display_form(text_of(row[0])->Some_0) })
        } else {
            None
        },
        RowReader::Entity => if row.len() == 1 && text_of(row[0]) is Some {
            entity_title(text_of(row[0])->Some_0)
        } else {
            None
        },
        RowReader::TitleAndNamespace => if row.len() == 2 && text_of(row[0]) is Some && signed_of(
            row[1],
        ) is Some {
            Some(
                TitleView {
                    namespace_id: signed_of(row[1])->Some_0,
                    title: display_form(text_of(row[0])->Some_0),
                },
            )
        } else {
            None
        },
    }
}

/// The entries after a run of rows: for each row that names a page, in
/// order, a fresh entry for that page put in.
pub open spec fn added(entries: Seq<EntryView>, rows: Seq<Seq<SqlValueView>>, reader: RowReader) -> Seq<
    EntryView,
>
    decreases rows.len(),
{
    if rows.len() == 0 {
        entries
    } else {
        let init = added(entries, rows.drop_last(), reader);
        match read_title(reader, rows.last()) {
            Some(t) => put(init, fresh_entry(t)),
            None => init,
        }
    }
}

/// A row of a missing page that is linked to: the page's name, its
/// namespace, and a small count.
pub open spec fn read_redlink(row: Seq<SqlValueView>) -> Option<TitleView> {
    if row.len() == 3 && text_of(row[0]) is Some && signed_of(row[1]) is Some && unsigned_of(row[2])
        is Some && unsigned_of(row[2])->Some_0 <= 255 {
        Some(
            TitleView {
                namespace_id: signed_of(row[1])->Some_0,
                title: display_form(text_of(row[0])->Some_0),
            },
        )
    } else {
        None
    }
}

/// One more than the count, as far as the count can go.
pub open spec fn counted_up(c: Option<u32>) -> Option<u32> {
    match c {
        Some(n) => if n < u32::MAX {
            Some((n + 1) as u32)
        } else {
            Some(n)
        },
        None => Some(1),
    }
}

/// The missing pages that a run of rows names, each with the number of rows
/// that name it, in the order in which they are first named.
pub open spec fn tallied(rows: Seq<Seq<SqlValueView>>) -> Seq<EntryView>
    decreases rows.len(),
{
    if rows.len() == 0 {
        Seq::<EntryView>::empty()
    } else {
        let init = tallied(rows.drop_last());
        match read_redlink(rows.last()) {
            Some(t) => if has_title(init, t) {
                let p = position_of(init, t);
                init.update(
                    p,
                    EntryView { redlink_count: counted_up(init[p].redlink_count), ..init[p] },
                )
            } else {
                init.push(EntryView { redlink_count: Some(1u32), ..fresh_entry(t) })
            },
            None => init,
        }
    }
}

/// For each entry, whether it is linked to at least `min` times.
pub open spec fn frequent_flags(entries: Seq<EntryView>, min: usize) -> Seq<bool> {
    Seq::new(
        entries.len(),
        |i: int|
            match entries[i].redlink_count {
                Some(c) => c as int >= min as int,
                None => false,
            },
    )
}

impl PageList {
    /// The entry for the page that a row of the given shape names.
    pub fn entry_from_shaped_row(reader: &RowReader, row: &Row) -> (r: Option<PageListEntry>)
        ensures
            match r {
                Some(e) => read_title(*reader, row.deep_view()) == Some(e@.title) && e@
                    == fresh_entry(e@.title),
                None => read_title(*reader, row.deep_view()) is None,
            },
    {
        match reader {
            RowReader::MainTitle => {
                if row.len() != 1 {
                    return None;
                }
                match cell_text(&row[0]) {
                    Some(t) => Some(PageListEntry::new(Title::new(t.as_str(), 0))),
                    None => None,
                }
            },
            RowReader::MainTitleLossy => {
                if row.len() != 1 {
                    return None;
                }
                match cell_text_lossy(&row[0]) {
                    Some(t) => Some(PageListEntry::new(Title::new(t.as_str(), 0))),
                    None => None,
                }
            },
            RowReader::CountedMainTitle => {
                if row.len() != 2 {
                    return None;
                }
                if cell_usize(&row[1]).is_none() {
                    return None;
                }
                match cell_text(&row[0]) {
                    Some(t) => Some(PageListEntry::new(Title::new(t.as_str(), 0))),
                    None => None,
                }
            },
            RowReader::Entity => {
                if row.len() != 1 {
                    return None;
                }
                match cell_text(&row[0]) {
                    Some(t) => Platform::entry_from_entity(t.as_str()),
                    None => None,
                }
            },
            RowReader::TitleAndNamespace => {
                if row.len() != 2 {
                    return None;
                }
                match (cell_text(&row[0]), cell_i64(&row[1])) {
                    (Some(t), Some(ns)) => Some(PageListEntry::new(Title::new(t.as_str(), ns))),
                    _ => None,
                }
            },
        }
    }

    /// Puts a fresh entry into the list for each row that names a page, in
    /// the order of the rows. Rows of another shape are passed over.
    pub fn process_batch_results(&mut self, rows: &Vec<Row>, reader: &RowReader)
        ensures
            final(self)@ == (PageListView {
                entries: added(old(self)@.entries, rows_view(rows@), *reader),
                ..old(self)@
            }),
            final(self)@.wf(),
            old(self)@.wiki is Some ==> final(self)@.tagged(),
    {
        let ghost start = self@;
        let ghost all = rows_view(rows@);
        let mut i: usize = 0;
        proof {
            assert(all.take(0) =~= Seq::<Seq<SqlValueView>>::empty());
        }
        self.is_well_formed();
        while i < rows.len()
            invariant
                i <= rows.len(),
                all == rows_view(rows@),
                self@.wiki == start.wiki,
                self@.wf(),
                self@.entries == added(start.entries, all.take(i as int), *reader),
            decreases rows.len() - i,
        {
            proof {
                let next = all.take(i + 1);
                assert(next.drop_last() =~= all.take(i as int));
                assert(next.last() == rows@[i as int].deep_view());
            }
            match Self::entry_from_shaped_row(reader, &rows[i]) {
                Some(entry) => {
                    self.add_entry(entry);
                },
                None => {},
            }
            i += 1;
        }
        proof {
            assert(all.take(all.len() as int) =~= all);
        }
    }

    /// The entry for the missing page that a row names.
    fn redlink_from_row(row: &Row) -> (r: Option<PageListEntry>)
        ensures
            match r {
                Some(e) => read_redlink(row.deep_view()) == Some(e@.title) && e@ == fresh_entry(
                    e@.title,
                ),
                None => read_redlink(row.deep_view()) is None,
            },
    {
        if row.len() != 3 {
            return None;
        }
        match cell_u64(&row[2]) {
            Some(c) => {
                if c > 255 {
                    return None;
                }
            },
            None => {
                return None;
            },
        }
        match (cell_text(&row[0]), cell_i64(&row[1])) {
            (Some(t), Some(ns)) => Some(PageListEntry::new(Title::new(t.as_str(), ns))),
            _ => None,
        }
    }

    /// Replaces the entries by the missing pages that the rows name, each
    /// with the number of rows that name it, and keeps those that are named
    /// at least `min_redlinks` times.
    pub fn set_redlinks(&mut self, rows: &Vec<Row>, min_redlinks: usize)
        ensures
            final(self)@ == (PageListView {
                entries: crate::pagelist::selected(
                    tallied(rows_view(rows@)),
                    frequent_flags(tallied(rows_view(rows@)), min_redlinks),
                ),
                ..old(self)@
            }),
            final(self)@.wf(),
            old(self)@.wiki is Some ==> final(self)@.tagged(),
    {
        let ghost start = self@;
        let ghost all = rows_view(rows@);
        self.clear_entries();
        let mut i: usize = 0;
        proof {
            assert(all.take(0) =~= Seq::<Seq<SqlValueView>>::empty());
        }
        while i < rows.len()
            invariant
                i <= rows.len(),
                all == rows_view(rows@),
                self@.wiki == start.wiki,
                self@.wf(),
                self@.entries == tallied(all.take(i as int)),
            decreases rows.len() - i,
        {
            proof {
                let next = all.take(i + 1);
                assert(next.drop_last() =~= all.take(i as int));
                assert(next.last() == rows@[i as int].deep_view());
            }
            let ghost before = self@.entries;
            match Self::redlink_from_row(&rows[i]) {
                Some(named) => {
                    let mut entry = match self.get(named.title()) {
                        Some(found) => found,
                        None => named,
                    };
                    let count: u32 = match entry.get_redlink_count() {
                        Some(n) => {
                            if n < 0xffff_ffff {
                                n + 1
                            } else {
                                n
                            }
                        },
                        None => 1,
                    };
                    entry.set_redlink_count(Some(count));
                    proof {
                        lemma_put(before, entry@);
                    }
                    self.add_entry(entry);
                },
                None => {},
            }
            i += 1;
        }
        proof {
            assert(all.take(all.len() as int) =~= all);
        }
        let mut flags: Vec<bool> = Vec::new();
        let mut k: usize = 0;
        let entries = self.entries();
        while k < entries.len()
            invariant
                k <= entries.len(),
                flags.len() == k,
                forall|j: int|
                    0 <= j < k ==> (#[trigger] flags@[j]) == (match entries.deep_view()[j].redlink_count {
                        Some(c) => c as int >= min_redlinks as int,
                        None => false,
                    }),
            decreases entries.len() - k,
        {
            let keep = match entries[k].get_redlink_count() {
                Some(c) => c as usize >= min_redlinks,
                None => false,
            };
            flags.push(keep);
            k += 1;
        }
        proof {
            assert(flags@ =~= frequent_flags(self@.entries, min_redlinks));
        }
        self.retain_flagged(&flags);
    }
}

} // verus!
