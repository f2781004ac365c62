//! Annotating the entries of a list from the rows of a query.
//!
//! Each kind of annotation knows the shape of its rows. A row of another
//! shape changes nothing, and neither does a row that names no entry of the list.

use vstd::prelude::*;
use crate::coordinates::{coordinates_in, PageCoordinates, PageCoordinatesView};
use crate::entry::{EntryView, PageListEntry};
use crate::file_info::{empty_file_info, usages_of, FileInfo, FileInfoView};
use crate::pagelist::{has_title, position_of, PageList, PageListView, lemma_put};
use crate::row::{
    cell_i64,
    cell_text,
    cell_text_lossy,
    cell_u32,
    cell_usize,
    lenient_text_of,
    signed_of,
    text_of,
    title_at,
    u32_of,
    usize_of,
    Row,
    SqlValue,
    SqlValueView,
};
use crate::text::{split_on, str_eq};
use crate::tristate::TriState;

verus! {

/// The kinds of annotation.
#[derive(Debug, Clone, Copy, PartialEq, Eq, Structural)]
pub enum RowAnnotation {
    /// Page id, size and time of the last edit, from rows of title,
    /// namespace, id, size and time.
    PageMetadata,
    /// Wikidata label or description, from rows of entity id, namespace,
    /// text and kind of text.
    WikidataTerms,
    /// Where a file is used, from rows of file name, namespace and usage group.
    FileUsage,
    /// The data of a file's image, from rows of file name, namespace, size,
    /// width, height, media type, the two parts of the MIME type, uploader,
    /// upload time and hash.
    FileData,
    /// What was asked for of page image, coordinates, default sort key,
    /// disambiguation mark and incoming links, from rows of title and
    /// namespace and one further column for each, in this order.
    PageExtras {
        add_image: bool,
        add_coordinates: bool,
        add_defaultsort: bool,
        add_disambiguation: bool,
        add_incoming_links: bool,
    },
}

/// The entry with the page data of a row, if the row has the shape for it.
pub open spec fn with_page_metadata(row: Seq<SqlValueView>, e: EntryView) -> EntryView {
    if row.len() == 5 && row[0] is Bytes && signed_of(row[1]) is Some && u32_of(row[2]) is Some
        && u32_of(row[3]) is Some && row[4] is Bytes {
        EntryView {
            page_id: u32_of(row[2]),
            page_bytes: u32_of(row[3]),
            page_timestamp: lenient_text_of(row[4]),
            ..e
        }
    } else {
        e
    }
}

/// The entry with the label or the description of a row, if the row has
/// the shape for it and its text is of one of these two kinds.
pub open spec fn with_wikidata_term(row: Seq<SqlValueView>, e: EntryView) -> EntryView {
    if row.len() == 4 && row[0] is Bytes && signed_of(row[1]) is Some && row[2] is Bytes
        && row[3] is Bytes {
        if lenient_text_of(row[3]) == Some("label"@) {
            EntryView { wikidata_label: lenient_text_of(row[2]), ..e }
        } else if lenient_text_of(row[3]) == Some("description"@) {
            EntryView { wikidata_description: lenient_text_of(row[2]), ..e }
        } else {
            e
        }
    } else {
        e
    }
}

/// The entry with the usages of a row in place of any file data it had, if
/// the row has the shape for it.
pub open spec fn with_file_usage(row: Seq<SqlValueView>, e: EntryView) -> EntryView {
    if row.len() == 3 && text_of(row[0]) is Some && usize_of(row[1]) is Some && text_of(row[2])
        is Some {
        EntryView {
            file_info: Some(
                FileInfoView {
                    file_usage: usages_of(split_on(text_of(row[2])->Some_0, '|')),
                    ..empty_file_info()
                },
            ),
            ..e
        }
    } else {
        e
    }
}

/// Whether a row has the shape of image data.
pub open spec fn is_file_data(row: Seq<SqlValueView>) -> bool {
    &&& row.len() == 11
    &&& text_of(row[0]) is Some
    &&& usize_of(row[1]) is Some
    &&& usize_of(row[2]) is Some
    &&& usize_of(row[3]) is Some
    &&& usize_of(row[4]) is Some
    &&& text_of(row[5]) is Some
    &&& text_of(row[6]) is Some
    &&& text_of(row[7]) is Some
    &&& text_of(row[8]) is Some
    &&& text_of(row[9]) is Some
    &&& text_of(row[10]) is Some
}

/// The entry with the image data of a row, if the row has the shape for
/// it; usages that the entry has are kept.
pub open spec fn with_file_data(row: Seq<SqlValueView>, e: EntryView) -> EntryView {
    if is_file_data(row) {
        let base = match e.file_info {
            Some(f) => f,
            None => empty_file_info(),
        };
        EntryView {
            file_info: Some(
                FileInfoView {
                    img_size: usize_of(row[2]),
                    img_width: usize_of(row[3]),
                    img_height: usize_of(row[4]),
                    img_media_type: text_of(row[5]),
                    img_major_mime: text_of(row[6]),
                    img_minor_mime: text_of(row[7]),
                    img_user_text: text_of(row[8]),
                    img_timestamp: text_of(row[9]),
                    img_sha1: text_of(row[10]),
                    ..base
                },
            ),
            ..e
        }
    } else {
        e
    }
}

/// One if the flag is set, else zero.
pub open spec fn one_if(flag: bool) -> int {
    if flag {
        1
    } else {
        0
    }
}

/// The coordinates that a cell holds: those that its text denotes.
pub open spec fn coordinates_of(v: SqlValueView) -> Option<PageCoordinatesView> {
    match text_of(v) {
        Some(t) => coordinates_in(t),
        None => None,
    }
}

/// The mark that a cell holds: set unless the cell is empty.
pub open spec fn mark_of(v: SqlValueView) -> TriState {
    if v is Null {
        TriState::No
    } else {
        TriState::Yes
    }
}

/// The count that a cell holds: a signed number cell that fits 32 bits unsigned.
pub open spec fn count_in(v: SqlValueView) -> Option<u32> {
    match v {
        SqlValueView::Int(i) => if 0 <= i <= u32::MAX as i64 {
            Some(i as u32)
        } else {
            None
        },
        _ => None,
    }
}

/// The entry with the extras of a row, if the row is long enough for all
/// that was asked for.
pub open spec fn with_page_extras(
    row: Seq<SqlValueView>,
    e: EntryView,
    add_image: bool,
    add_coordinates: bool,
    add_defaultsort: bool,
    add_disambiguation: bool,
    add_incoming_links: bool,
) -> EntryView {
    let c_image: int = 2;
    let c_coordinates = c_image + one_if(add_image);
    let c_defaultsort = c_coordinates + one_if(add_coordinates);
    let c_disambiguation = c_defaultsort + one_if(add_defaultsort);
    let c_incoming = c_disambiguation + one_if(add_disambiguation);
    let needed = c_incoming + one_if(add_incoming_links);
    if row.len() < needed {
        e
    } else {
        EntryView {
            page_image: if add_image {
                text_of(row[c_image])
            } else {
                e.page_image
            },
            coordinates: if add_coordinates {
                coordinates_of(row[c_coordinates])
            } else {
                e.coordinates
            },
            defaultsort: if add_defaultsort {
                text_of(row[c_defaultsort])
            } else {
                e.defaultsort
            },
            disambiguation: if add_disambiguation {
                mark_of(row[c_disambiguation])
            } else {
                e.disambiguation
            },
            incoming_links: if add_incoming_links {
                count_in(row[c_incoming])
            } else {
                e.incoming_links
            },
            ..e
        }
    }
}

/// The entry with the annotation that a row carries.
pub open spec fn annotated_entry(a: RowAnnotation, row: Seq<SqlValueView>, e: EntryView) -> EntryView {
    match a {
        RowAnnotation::PageMetadata => with_page_metadata(row, e),
        RowAnnotation::WikidataTerms => with_wikidata_term(row, e),
        RowAnnotation::FileUsage => with_file_usage(row, e),
        RowAnnotation::FileData => with_file_data(row, e),
        RowAnnotation::PageExtras {
            add_image,
            add_coordinates,
            add_defaultsort,
            add_disambiguation,
            add_incoming_links,
        } => with_page_extras(
            row,
            e,
            add_image,
            add_coordinates,
            add_defaultsort,
            add_disambiguation,
            add_incoming_links,
        ),
    }
}

/// The entries after one row: the entry that the row names, if the list
/// has it, annotated; all others as they were.
pub open spec fn annotated_step(
    entries: Seq<EntryView>,
    row: Seq<SqlValueView>,
    col_title: int,
    col_ns: int,
    a: RowAnnotation,
) -> Seq<EntryView> {
    match title_at(row, col_title, col_ns) {
        Some(t) => if has_title(entries, t) {
            entries.update(
                position_of(entries, t),
                annotated_entry(a, row, entries[position_of(entries, t)]),
            )
        } else {
            entries
        },
        None => entries,
    }
}

/// The entries after a run of rows, one row after the other.
pub open spec fn annotated(
    entries: Seq<EntryView>,
    rows: Seq<Seq<SqlValueView>>,
    col_title: int,
    col_ns: int,
    a: RowAnnotation,
) -> Seq<EntryView>
    decreases rows.len(),
{
    if rows.len() == 0 {
        entries
    } else {
        annotated_step(
            annotated(entries, rows.drop_last(), col_title, col_ns, a),
            rows.last(),
            col_title,
            col_ns,
            a,
        )
    }
}

/// The rows as sequences of cells.
pub open spec fn rows_view(rows: Seq<Row>) -> Seq<Seq<SqlValueView>> {
    Seq::new(rows.len(), |i: int| rows[i].deep_view())
}

/// An annotation leaves the title of an entry as it is.
pub proof fn lemma_annotation_keeps_title(a: RowAnnotation, row: Seq<SqlValueView>, e: EntryView)
    ensures
        annotated_entry(a, row, e).title == e.title,
{
}

/// The coordinates that a cell holds.
fn cell_coordinates(v: &SqlValue) -> (r: Option<PageCoordinates>)
    ensures
        r.deep_view() == coordinates_of(v@),
{
    match cell_text(v) {
        Some(t) => PageCoordinates::new_from_lat_lon(&t),
        None => None,
    }
}

/// The count that a cell holds.
fn cell_count(v: &SqlValue) -> (r: Option<u32>)
    ensures
        r == count_in(v@),
{
    match v {
        SqlValue::Int(i) => {
            if 0 <= *i && *i <= 0xffff_ffff {
                Some(*i as u32)
            } else {
                None
            }
        },
        _ => None,
    }
}

/// Whether the cell holds bytes.
fn is_bytes(v: &SqlValue) -> (r: bool)
    ensures
        r == (v@ is Bytes),
{
    match v {
        SqlValue::Bytes(_) => true,
        _ => false,
    }
}

/// Whether the cell is empty.
fn is_null(v: &SqlValue) -> (r: bool)
    ensures
        r == (v@ is Null),
{
    match v {
        SqlValue::Null => true,
        _ => false,
    }
}

impl RowAnnotation {
    /// Writes into `entry` what the row carries for it.
    pub fn annotate(&self, row: &Row, entry: &mut PageListEntry)
        ensures
            final(entry)@ == annotated_entry(*self, row.deep_view(), old(entry)@),
    {
        match self {
            RowAnnotation::PageMetadata => Self::annotate_page_metadata(row, entry),
            RowAnnotation::WikidataTerms => Self::annotate_wikidata_term(row, entry),
            RowAnnotation::FileUsage => Self::annotate_file_usage(row, entry),
            RowAnnotation::FileData => Self::annotate_file_data(row, entry),
            RowAnnotation::PageExtras {
                add_image,
                add_coordinates,
                add_defaultsort,
                add_disambiguation,
                add_incoming_links,
            } => Self::annotate_page_extras(
                row,
                entry,
                *add_image,
                *add_coordinates,
                *add_defaultsort,
                *add_disambiguation,
                *add_incoming_links,
            ),
        }
    }

    fn annotate_page_metadata(row: &Row, entry: &mut PageListEntry)
        ensures
            final(entry)@ == with_page_metadata(row.deep_view(), old(entry)@),
    {
        if row.len() != 5 || !is_bytes(&row[0]) || !is_bytes(&row[4]) {
            return ;
        }
        if cell_i64(&row[1]).is_none() {
            return ;
        }
        let page_id = cell_u32(&row[2]);
        let page_len = cell_u32(&row[3]);
        if page_id.is_none() || page_len.is_none() {
            return ;
        }
        entry.set_page_id(page_id);
        entry.set_page_bytes(page_len);
        entry.set_page_timestamp(cell_text_lossy(&row[4]));
    }

    fn annotate_wikidata_term(row: &Row, entry: &mut PageListEntry)
        ensures
            final(entry)@ == with_wikidata_term(row.deep_view(), old(entry)@),
    {
        if row.len() != 4 || !is_bytes(&row[0]) || !is_bytes(&row[2]) || !is_bytes(&row[3]) {
            return ;
        }
        if cell_i64(&row[1]).is_none() {
            return ;
        }
        let term_type = match cell_text_lossy(&row[3]) {
            Some(t) => t,
            None => {
                return ;
            },
        };
        if str_eq(term_type.as_str(), "label") {
            entry.set_wikidata_label(cell_text_lossy(&row[2]));
        } else if str_eq(term_type.as_str(), "description") {
            entry.set_wikidata_description(cell_text_lossy(&row[2]));
        }
    }

    fn annotate_file_usage(row: &Row, entry: &mut PageListEntry)
        ensures
            final(entry)@ == with_file_usage(row.deep_view(), old(entry)@),
    {
        if row.len() != 3 {
            return ;
        }
        if cell_text(&row[0]).is_none() || cell_usize(&row[1]).is_none() {
            return ;
        }
        match cell_text(&row[2]) {
            Some(gil_group) => {
                entry.set_file_info(Some(FileInfo::new_from_gil_group(&gil_group)));
            },
            None => {},
        }
    }

    fn annotate_file_data(row: &Row, entry: &mut PageListEntry)
        ensures
            final(entry)@ == with_file_data(row.deep_view(), old(entry)@),
    {
        if row.len() != 11 {
            return ;
        }
        if cell_text(&row[0]).is_none() || cell_usize(&row[1]).is_none() {
            return ;
        }
        let img_size = cell_usize(&row[2]);
        let img_width = cell_usize(&row[3]);
        let img_height = cell_usize(&row[4]);
        let img_media_type = cell_text(&row[5]);
        let img_major_mime = cell_text(&row[6]);
        let img_minor_mime = cell_text(&row[7]);
        let img_user_text = cell_text(&row[8]);
        let img_timestamp = cell_text(&row[9]);
        let img_sha1 = cell_text(&row[10]);
        if img_size.is_none() || img_width.is_none() || img_height.is_none()
            || img_media_type.is_none() || img_major_mime.is_none() || img_minor_mime.is_none()
            || img_user_text.is_none() || img_timestamp.is_none() || img_sha1.is_none() {
            return ;
        }
        let mut file_info = match entry.get_file_info() {
            Some(f) => f,
            None => FileInfo::new(),
        };
        file_info.img_size = img_size;
        file_info.img_width = img_width;
        file_info.img_height = img_height;
        file_info.img_media_type = img_media_type;
        file_info.img_major_mime = img_major_mime;
        file_info.img_minor_mime = img_minor_mime;
        file_info.img_user_text = img_user_text;
        file_info.img_timestamp = img_timestamp;
        file_info.img_sha1 = img_sha1;
        entry.set_file_info(Some(file_info));
    }

    fn annotate_page_extras(
        row: &Row,
        entry: &mut PageListEntry,
        add_image: bool,
        add_coordinates: bool,
        add_defaultsort: bool,
        add_disambiguation: bool,
        add_incoming_links: bool,
    )
        ensures
            final(entry)@ == with_page_extras(
                row.deep_view(),
                old(entry)@,
                add_image,
                add_coordinates,
                add_defaultsort,
                add_disambiguation,
                add_incoming_links,
            ),
    {
        let c_image: usize = 2;
        let c_coordinates: usize = if add_image {
            c_image + 1
        } else {
            c_image
        };
        let c_defaultsort: usize = if add_coordinates {
            c_coordinates + 1
        } else {
            c_coordinates
        };
        let c_disambiguation: usize = if add_defaultsort {
            c_defaultsort + 1
        } else {
            c_defaultsort
        };
        let c_incoming: usize = if add_disambiguation {
            c_disambiguation + 1
        } else {
            c_disambiguation
        };
        let needed: usize = if add_incoming_links {
            c_incoming + 1
        } else {
            c_incoming
        };
        if row.len() < needed {
            return ;
        }
        if add_image {
            entry.set_page_image(cell_text(&row[c_image]));
        }
        if add_coordinates {
            entry.set_coordinates(cell_coordinates(&row[c_coordinates]));
        }
        if add_defaultsort {
            entry.set_defaultsort(cell_text(&row[c_defaultsort]));
        }
        if add_disambiguation {
            if is_null(&row[c_disambiguation]) {
                entry.set_disambiguation(TriState::No);
            } else {
                entry.set_disambiguation(TriState::Yes);
            }
        }
        if add_incoming_links {
            entry.set_incoming_links(cell_count(&row[c_incoming]));
        }
    }
}

impl PageList {
    /// Annotates the entries from the rows of a query. For each row, in
    /// order, the entry that the row names by the title in column
    /// `col_title` and the namespace in column `col_ns` is looked up; if
    /// the list has it, the row's annotation is written into it. No entry
    /// is added.
    pub fn annotate_batch_results(
        &mut self,
        rows: &Vec<Row>,
        col_title: usize,
        col_ns: usize,
        annotation: &RowAnnotation,
    )
        ensures
            final(self)@ == (PageListView {
                entries: annotated(
                    old(self)@.entries,
                    rows_view(rows@),
                    col_title as int,
                    col_ns as int,
                    *annotation,
                ),
                ..old(self)@
            }),
            final(self)@.wf(),
            final(self)@.entries.len() == old(self)@.entries.len(),
            old(self)@.tagged() ==> final(self)@.tagged(),
    {
        let ghost start = self@;
        let ghost all = rows_view(rows@);
        let mut i: usize = 0;
        proof {
            assert(all.take(0) =~= Seq::<Seq<SqlValueView>>::empty());
        }
        self.is_well_formed();
        while i < rows.len()
            invariant
                i <= rows.len(),
                all == rows_view(rows@),
                self@.wiki == start.wiki,
                self@.wf(),
                self@.entries.len() == start.entries.len(),
                self@.entries == annotated(
                    start.entries,
                    all.take(i as int),
                    col_title as int,
                    col_ns as int,
                    *annotation,
                ),
            decreases rows.len() - i,
        {
            proof {
                let next = all.take(i + 1);
                assert(next.drop_last() =~= all.take(i as int));
                assert(next.last() == rows@[i as int].deep_view());
            }
            let ghost before = self@.entries;
            match Self::entry_from_row(&rows[i], col_title, col_ns) {
                Some(named) => {
                    match self.get(named.title()) {
                        Some(found) => {
                            let mut entry = found;
                            annotation.annotate(&rows[i], &mut entry);
                            proof {
                                lemma_annotation_keeps_title(
                                    *annotation,
                                    rows@[i as int].deep_view(),
                                    found@,
                                );
                                lemma_put(before, entry@);
                            }
                            self.add_entry(entry);
                        },
                        None => {},
                    }
                },
                None => {},
            }
            i += 1;
        }
        proof {
            assert(all.take(all.len() as int) =~= all);
        }
    }
}

} // verus!
