//! What a stage of the pipeline asks its caller to do.
//!
//! A stage is a short run of phases. In each phase it looks at the list,
//! changes what it can change by itself, and says what has to be done on a
//! database before the next phase.

use vstd::prelude::*;
use crate::annotate::{annotated, rows_view, RowAnnotation};
use crate::batch::batches_view;
use crate::entry::{fresh_entry, EntryView};
use crate::pagelist::{has_title, put, selected, PageList, PageListView};
use crate::reader::{added, frequent_flags, read_title, tallied, RowReader};
use crate::row::{lenient_text_of, text_of, Row, SqlValueView};
use crate::sql::SQLtuple;

verus! {

/// What is done with the rows of a query.
#[derive(Debug, Clone, Copy, PartialEq, Eq, Structural)]
pub enum Intake {
    /// The entries that the rows name are annotated.
    Annotate { col_title: usize, col_ns: usize, annotation: RowAnnotation },
    /// An entry is put in for each row, in the place of one with the same title.
    Add(RowReader),
    /// An entry is put in for each row that names a page the list lacks.
    AddMissing(RowReader),
    /// The rows name missing pages; the list becomes the missing pages that
    /// are named at least `min` times.
    Redlinks { min: usize },
    /// Each row holds a label that exists.
    ExistingLabels,
    /// Each row holds the full title of a page, namespace and all; the
    /// wiki's own rules say where the namespace ends. An entry is put in
    /// for each.
    FullTitles,
    /// Each row holds the full title of a page and the number of its
    /// Wikidata item; the item is noted in the page's entry.
    WikidataItems,
}

/// What a query is, mathematically.
pub struct QueryView {
    pub wiki: Seq<char>,
    pub batches: Seq<(Seq<char>, Seq<Seq<char>>)>,
    pub chunk_size: usize,
    pub intake: Intake,
}

/// Statements to run on the replica of a wiki, and what is done with their
/// rows. The statements are run `chunk_size` at a time, all at once where
/// that is zero. A statement that fails ends the run with its error, which
/// `PageList::take_in_outcome` hands on.
#[derive(Debug)]
pub struct Query {
    pub wiki: String,
    pub batches: Vec<SQLtuple>,
    pub chunk_size: usize,
    pub intake: Intake,
}

impl View for Query {
    type V = QueryView;

    open spec fn view(&self) -> QueryView {
        QueryView {
            wiki: self.wiki@,
            batches: batches_view(self.batches@),
            chunk_size: self.chunk_size,
            intake: self.intake,
        }
    }
}

/// What a phase is, mathematically.
pub enum StageActionView {
    Finished,
    Pass,
    Fail(Seq<char>),
    Convert(Seq<char>),
    Run(QueryView),
    DatabaseFilters(Seq<char>),
}

/// What a phase of a stage asks for.
#[derive(Debug)]
pub enum StageAction {
    /// The stage is done.
    Finished,
    /// Nothing is to be done in this phase; the next phase follows.
    Pass,
    /// The stage has failed, and the pipeline with it.
    Fail(String),
    /// The list is to be converted to this wiki.
    Convert(String),
    /// The query is to be run, and its rows taken in.
    Run(Query),
    /// The list, which belongs to this wiki, is to be put through the
    /// filters of the category database.
    DatabaseFilters(String),
}

impl View for StageAction {
    type V = StageActionView;

    open spec fn view(&self) -> StageActionView {
        match self {
            StageAction::Finished => StageActionView::Finished,
            StageAction::Pass => StageActionView::Pass,
            StageAction::Fail(msg) => StageActionView::Fail(msg@),
            StageAction::Convert(wiki) => StageActionView::Convert(wiki@),
            StageAction::Run(q) => StageActionView::Run(q@),
            StageAction::DatabaseFilters(wiki) => StageActionView::DatabaseFilters(wiki@),
        }
    }
}

/// The entries after a run of rows: a fresh entry put in for each row that
/// names a page the entries lack so far.
pub open spec fn added_missing(
    entries: Seq<EntryView>,
    rows: Seq<Seq<SqlValueView>>,
    reader: RowReader,
) -> Seq<EntryView>
    decreases rows.len(),
{
    if rows.len() == 0 {
        entries
    } else {
        let init = added_missing(entries, rows.drop_last(), reader);
        match read_title(reader, rows.last()) {
            Some(t) => if has_title(init, t) {
                init
            } else {
                init.push(fresh_entry(t))
            },
            None => init,
        }
    }
}

/// The entries of a list after the rows of a query have been taken in; the
/// intakes that need more than the rows leave the list as it is.
pub open spec fn taken_in(entries: Seq<EntryView>, rows: Seq<Seq<SqlValueView>>, intake: Intake) -> Seq<
    EntryView,
> {
    match intake {
        Intake::Annotate { col_title, col_ns, annotation } => annotated(
            entries,
            rows,
            col_title as int,
            col_ns as int,
            annotation,
        ),
        Intake::Add(reader) => added(entries, rows, reader),
        Intake::AddMissing(reader) => added_missing(entries, rows, reader),
        Intake::Redlinks { min } => selected(tallied(rows), frequent_flags(tallied(rows), min)),
        _ => entries,
    }
}

/// The texts that a run of rows of one text each holds, read strictly.
pub open spec fn texts_in(rows: Seq<Seq<SqlValueView>>) -> Seq<Seq<char>>
    decreases rows.len(),
{
    if rows.len() == 0 {
        Seq::<Seq<char>>::empty()
    } else {
        let init = texts_in(rows.drop_last());
        if rows.last().len() == 1 && text_of(rows.last()[0]) is Some {
            init.push(text_of(rows.last()[0])->Some_0)
        } else {
            init
        }
    }
}

/// The texts that a run of rows of one cell of bytes each holds, read leniently.
pub open spec fn lenient_texts_in(rows: Seq<Seq<SqlValueView>>) -> Seq<Seq<char>>
    decreases rows.len(),
{
    if rows.len() == 0 {
        Seq::<Seq<char>>::empty()
    } else {
        let init = lenient_texts_in(rows.drop_last());
        if rows.last().len() == 1 && lenient_text_of(rows.last()[0]) is Some {
            init.push(lenient_text_of(rows.last()[0])->Some_0)
        } else {
            init
        }
    }
}

/// The sitelink that a row holds: the full title of a page, read
/// strictly, and the number of its item, a signed number cell.
pub open spec fn sitelink_in(row: Seq<SqlValueView>) -> Option<(Seq<char>, i64)> {
    if row.len() >= 2 && text_of(row[0]) is Some && row[1] is Int {
        Some((text_of(row[0])->Some_0, row[1]->Int_0))
    } else {
        None
    }
}

impl PageList {
    /// Puts a fresh entry into the list for each row that names a page the
    /// list lacks. Entries that are there stay as they are.
    pub fn add_missing_from_rows(&mut self, rows: &Vec<Row>, reader: &RowReader)
        ensures
            final(self)@ == (PageListView {
                entries: added_missing(old(self)@.entries, rows_view(rows@), *reader),
                ..old(self)@
            }),
            final(self)@.wf(),
            old(self)@.wiki is Some ==> final(self)@.tagged(),
    {
        let ghost start = self@;
        let ghost all = rows_view(rows@);
        let mut i: usize = 0;
        proof {
            assert(all.take(0) =~= Seq::<Seq<SqlValueView>>::empty());
        }
        self.is_well_formed();
        while i < rows.len()
            invariant
                i <= rows.len(),
                all == rows_view(rows@),
                self@.wiki == start.wiki,
                self@.wf(),
                self@.entries == added_missing(start.entries, all.take(i as int), *reader),
            decreases rows.len() - i,
        {
            proof {
                let next = all.take(i + 1);
                assert(next.drop_last() =~= all.take(i as int));
                assert(next.last() == rows@[i as int].deep_view());
            }
            match Self::entry_from_shaped_row(reader, &rows[i]) {
                Some(entry) => {
                    if !self.contains(entry.title()) {
                        self.add_entry(entry);
                    }
                },
                None => {},
            }
            i += 1;
        }
        proof {
            assert(all.take(all.len() as int) =~= all);
        }
    }

    /// Takes the rows of a query in, as the intake says. The intakes that
    /// need more than the rows change nothing here.
    pub fn take_in(&mut self, rows: &Vec<Row>, intake: &Intake)
        ensures
            final(self)@ == (PageListView {
                entries: taken_in(old(self)@.entries, rows_view(rows@), *intake),
                ..old(self)@
            }),
            final(self)@.wf(),
            old(self)@.wiki is Some ==> final(self)@.tagged(),
    {
        self.is_well_formed();
        match intake {
            Intake::Annotate { col_title, col_ns, annotation } => {
                self.annotate_batch_results(rows, *col_title, *col_ns, annotation);
            },
            Intake::Add(reader) => {
                self.process_batch_results(rows, reader);
            },
            Intake::AddMissing(reader) => {
                self.add_missing_from_rows(rows, reader);
            },
            Intake::Redlinks { min } => {
                self.set_redlinks(rows, *min);
            },
            _ => {},
        }
    }

    /// Takes the outcome of a query in: its rows, as the intake says, or,
    /// where a statement failed, its error. A failed query leaves the list
    /// as it is, and its error is handed on.
    pub fn take_in_outcome(&mut self, outcome: &Result<Vec<Row>, String>, intake: &Intake) -> (r:
        Result<(), String>)
        ensures
            final(self)@.wf(),
            old(self)@.wiki is Some ==> final(self)@.tagged(),
            match outcome {
                Ok(rows) => r is Ok && final(self)@ == (PageListView {
                    entries: taken_in(old(self)@.entries, rows_view(rows@), *intake),
                    ..old(self)@
                }),
                Err(msg) => r is Err && r->Err_0@ == msg@ && final(self)@ == old(self)@,
            },
    {
        match outcome {
            Ok(rows) => {
                self.take_in(rows, intake);
                Ok(())
            },
            Err(msg) => {
                self.is_well_formed();
                Err(msg.clone())
            },
        }
    }
}

/// The texts that the rows hold, one text a row, read strictly.
pub fn texts_from_rows(rows: &Vec<Row>) -> (r: Vec<String>)
    ensures
        r.deep_view() == texts_in(rows_view(rows@)),
{
    let ghost all = rows_view(rows@);
    let mut out: Vec<String> = Vec::new();
    let mut i: usize = 0;
    proof {
        assert(all.take(0) =~= Seq::<Seq<SqlValueView>>::empty());
        assert(out.deep_view() =~= Seq::<Seq<char>>::empty());
    }
    while i < rows.len()
        invariant
            i <= rows.len(),
            all == rows_view(rows@),
            out.deep_view() == texts_in(all.take(i as int)),
        decreases rows.len() - i,
    {
        proof {
            let next = all.take(i + 1);
            assert(next.drop_last() =~= all.take(i as int));
            assert(next.last() == rows@[i as int].deep_view());
        }
        if rows[i].len() == 1 {
            match crate::row::cell_text(&rows[i][0]) {
                Some(t) => {
                    let ghost before = out.deep_view();
                    out.push(t);
                    proof {
                        assert(out.deep_view() =~= before.push(t@));
                    }
                },
                None => {},
            }
        }
        i += 1;
    }
    proof {
        assert(all.take(all.len() as int) =~= all);
    }
    out
}

/// The texts that the rows hold, one cell of bytes a row, read leniently.
pub fn lenient_texts_from_rows(rows: &Vec<Row>) -> (r: Vec<String>)
    ensures
        r.deep_view() == lenient_texts_in(rows_view(rows@)),
{
    let ghost all = rows_view(rows@);
    let mut out: Vec<String> = Vec::new();
    let mut i: usize = 0;
    proof {
        assert(all.take(0) =~= Seq::<Seq<SqlValueView>>::empty());
        assert(out.deep_view() =~= Seq::<Seq<char>>::empty());
    }
    while i < rows.len()
        invariant
            i <= rows.len(),
            all == rows_view(rows@),
            out.deep_view() == lenient_texts_in(all.take(i as int)),
        decreases rows.len() - i,
    {
        proof {
            let next = all.take(i + 1);
            assert(next.drop_last() =~= all.take(i as int));
            assert(next.last() == rows@[i as int].deep_view());
        }
        if rows[i].len() == 1 {
            match crate::row::cell_text_lossy(&rows[i][0]) {
                Some(t) => {
                    let ghost before = out.deep_view();
                    out.push(t);
                    proof {
                        assert(out.deep_view() =~= before.push(t@));
                    }
                },
                None => {},
            }
        }
        i += 1;
    }
    proof {
        assert(all.take(all.len() as int) =~= all);
    }
    out
}

/// The sitelink that a row holds.
pub fn sitelink_from_row(row: &Row) -> (r: Option<(String, i64)>)
    ensures
        match r {
            Some(link) => sitelink_in(row.deep_view()) == Some((link.0@, link.1)),
            None => sitelink_in(row.deep_view()) is None,
        },
{
    if row.len() < 2 {
        return None;
    }
    let id: i64 = match &row[1] {
        crate::row::SqlValue::Int(i) => *i,
        _ => {
            return None;
        },
    };
    match crate::row::cell_text(&row[0]) {
        Some(t) => Some((t, id)),
        None => None,
    }
}

} // verus!
