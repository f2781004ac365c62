//! The rows that a database query returns, and how their cells are read.

use vstd::prelude::*;
use vstd::utf8::{decode_utf8, valid_utf8};
use crate::entry::{fresh_entry, PageListEntry};
use crate::pagelist::PageList;
use crate::title::{display_form, NamespaceID, Title, TitleView};

verus! {

/// What a cell is, mathematically.
pub enum SqlValueView {
    Null,
    Bytes(Seq<u8>),
    Int(i64),
    UInt(u64),
    Other,
}

/// One cell of a row: nothing, a text or blob, a number, or a value of a
/// kind that no query of this library asks for.
#[derive(Debug)]
pub enum SqlValue {
    Null,
    Bytes(Vec<u8>),
    Int(i64),
    UInt(u64),
    Other,
}

/// One row of a query's result.
pub type Row = Vec<SqlValue>;

impl View for SqlValue {
    type V = SqlValueView;

    open spec fn view(&self) -> SqlValueView {
        match self {
            SqlValue::Null => SqlValueView::Null,
            SqlValue::Bytes(b) => SqlValueView::Bytes(b@),
            SqlValue::Int(i) => SqlValueView::Int(*i),
            SqlValue::UInt(u) => SqlValueView::UInt(*u),
            SqlValue::Other => SqlValueView::Other,
        }
    }
}

impl DeepView for SqlValue {
    type V = SqlValueView;

    open spec fn deep_view(&self) -> SqlValueView {
        self@
    }
}

impl Clone for SqlValue {
    fn clone(&self) -> (r: Self)
        ensures
            r@ == self@,
    {
        match self {
            SqlValue::Null => SqlValue::Null,
            SqlValue::Bytes(b) => SqlValue::Bytes(b.clone()),
            SqlValue::Int(i) => SqlValue::Int(*i),
            SqlValue::UInt(u) => SqlValue::UInt(*u),
            SqlValue::Other => SqlValue::Other,
        }
    }
}

/// The text that `String::from_utf8_lossy` makes of bytes that are no valid UTF-8.
pub uninterp spec fn utf8_repaired(bytes: Seq<u8>) -> Seq<char>;

/// The number that `mysql::from_value_opt::<i64>` reads from a cell of bytes.
pub uninterp spec fn bytes_as_i64(bytes: Seq<u8>) -> Option<i64>;

/// The number that `mysql::from_value_opt::<u64>` reads from a cell of bytes.
pub uninterp spec fn bytes_as_u64(bytes: Seq<u8>) -> Option<u64>;

/// `String::from_utf8`: the text that the bytes encode, if they are valid UTF-8.
#[verifier::external_body]
fn utf8_text(bytes: &Vec<u8>) -> (r: Option<String>)
    ensures
        r is Some <==> valid_utf8(bytes@),
        r is Some ==> r->Some_0@ == decode_utf8(bytes@),
{
    String::from_utf8(bytes.clone()).ok()
}

/// `String::from_utf8_lossy`: the text that the bytes encode, with a
/// replacement character for each part that is no valid UTF-8.
#[verifier::external_body]
fn utf8_text_lossy(bytes: &Vec<u8>) -> (r: String)
    ensures
        r@ == (if valid_utf8(bytes@) {
            decode_utf8(bytes@)
        } else {
            utf8_repaired(bytes@)
        }),
{
    String::from_utf8_lossy(bytes).into_owned()
}

/// `mysql::from_value_opt::<i64>` on a cell of bytes: the number that the
/// bytes spell in decimal digits, if they spell one that fits.
#[verifier::external_body]
fn decode_i64(bytes: &Vec<u8>) -> (r: Option<i64>)
    ensures
        r == bytes_as_i64(bytes@),
{
    mysql::from_value_opt::<i64>(mysql::Value::Bytes(bytes.clone())).ok()
}

/// `mysql::from_value_opt::<u64>` on a cell of bytes: the number that the
/// bytes spell in decimal digits, if they spell one that fits.
#[verifier::external_body]
fn decode_u64(bytes: &Vec<u8>) -> (r: Option<u64>)
    ensures
        r == bytes_as_u64(bytes@),
{
    mysql::from_value_opt::<u64>(mysql::Value::Bytes(bytes.clone())).ok()
}

/// The text of a cell, read strictly: only bytes that are valid UTF-8 are a text.
pub open spec fn text_of(v: SqlValueView) -> Option<Seq<char>> {
    match v {
        SqlValueView::Bytes(b) => if valid_utf8(b) {
            Some(decode_utf8(b))
        } else {
            None
        },
        _ => None,
    }
}

/// The text of a cell, read leniently: any bytes are a text, invalid parts replaced.
pub open spec fn lenient_text_of(v: SqlValueView) -> Option<Seq<char>> {
    match v {
        SqlValueView::Bytes(b) => Some(
            if valid_utf8(b) {
                decode_utf8(b)
            } else {
                utf8_repaired(b)
            },
        ),
        _ => None,
    }
}

/// The signed number of a cell: a number that fits, or bytes that spell one.
pub open spec fn signed_of(v: SqlValueView) -> Option<i64> {
    match v {
        SqlValueView::Int(i) => Some(i),
        SqlValueView::UInt(u) => if u <= i64::MAX as u64 {
            Some(u as i64)
        } else {
            None
        },
        SqlValueView::Bytes(b) => bytes_as_i64(b),
        _ => None,
    }
}

/// The unsigned number of a cell: a number that is not negative, or bytes that spell one.
pub open spec fn unsigned_of(v: SqlValueView) -> Option<u64> {
    match v {
        SqlValueView::Int(i) => if i >= 0 {
            Some(i as u64)
        } else {
            None
        },
        SqlValueView::UInt(u) => Some(u),
        SqlValueView::Bytes(b) => bytes_as_u64(b),
        _ => None,
    }
}

/// The number of a cell where it fits 32 bits.
pub open spec fn u32_of(v: SqlValueView) -> Option<u32> {
    match unsigned_of(v) {
        Some(u) => if u <= u32::MAX as u64 {
            Some(u as u32)
        } else {
            None
        },
        None => None,
    }
}

/// The number of a cell where it fits a `usize`.
pub open spec fn usize_of(v: SqlValueView) -> Option<usize> {
    match unsigned_of(v) {
        Some(u) => if u <= usize::MAX as u64 {
            Some(u as usize)
        } else {
            None
        },
        None => None,
    }
}

/// The cell in column `col`, if the row is that long.
pub open spec fn cell_of(row: Seq<SqlValueView>, col: int) -> Option<SqlValueView> {
    if 0 <= col < row.len() {
        Some(row[col])
    } else {
        None
    }
}

/// The text in column `col`, read strictly.
pub open spec fn text_at(row: Seq<SqlValueView>, col: int) -> Option<Seq<char>> {
    match cell_of(row, col) {
        Some(v) => text_of(v),
        None => None,
    }
}

/// The title that a row names: its text in column `col_title`, read
/// strictly, in the namespace that column `col_ns` holds as a signed
/// number cell.
pub open spec fn title_at(row: Seq<SqlValueView>, col_title: int, col_ns: int) -> Option<TitleView> {
    match (text_at(row, col_title), cell_of(row, col_ns)) {
        (Some(t), Some(SqlValueView::Int(ns))) => Some(
            TitleView { namespace_id: ns, title: display_form(t) },
        ),
        _ => None,
    }
}

/// The text of a cell, read strictly.
pub fn cell_text(v: &SqlValue) -> (r: Option<String>)
    ensures
        r.deep_view() == text_of(v@),
{
    match v {
        SqlValue::Bytes(b) => utf8_text(b),
        _ => None,
    }
}

/// The text of a cell, read leniently.
pub fn cell_text_lossy(v: &SqlValue) -> (r: Option<String>)
    ensures
        r.deep_view() == lenient_text_of(v@),
{
    match v {
        SqlValue::Bytes(b) => Some(utf8_text_lossy(b)),
        _ => None,
    }
}

/// The signed number of a cell.
pub fn cell_i64(v: &SqlValue) -> (r: Option<i64>)
    ensures
        r == signed_of(v@),
{
    match v {
        SqlValue::Int(i) => Some(*i),
        SqlValue::UInt(u) => {
            if *u <= 0x7fff_ffff_ffff_ffff {
                Some(*u as i64)
            } else {
                None
            }
        },
        SqlValue::Bytes(b) => decode_i64(b),
        _ => None,
    }
}

/// The unsigned number of a cell.
pub fn cell_u64(v: &SqlValue) -> (r: Option<u64>)
    ensures
        r == unsigned_of(v@),
{
    match v {
        SqlValue::Int(i) => {
            if *i >= 0 {
                Some(*i as u64)
            } else {
                None
            }
        },
        SqlValue::UInt(u) => Some(*u),
        SqlValue::Bytes(b) => decode_u64(b),
        _ => None,
    }
}

/// The number of a cell where it fits 32 bits.
pub fn cell_u32(v: &SqlValue) -> (r: Option<u32>)
    ensures
        r == u32_of(v@),
{
    match cell_u64(v) {
        Some(u) => {
            if u <= 0xffff_ffff {
                Some(u as u32)
            } else {
                None
            }
        },
        None => None,
    }
}

/// The number of a cell where it fits a `usize`.
pub fn cell_usize(v: &SqlValue) -> (r: Option<usize>)
    ensures
        r == usize_of(v@),
{
    match cell_u64(v) {
        Some(u) => {
            if u <= usize::MAX as u64 {
                Some(u as usize)
            } else {
                None
            }
        },
        None => None,
    }
}

impl PageList {
    /// The text in column `col_num` of a row, read strictly: `None` where
    /// the row is shorter, the cell holds no bytes, or the bytes are no
    /// valid UTF-8.
    pub fn string_from_row(row: &Row, col_num: usize) -> (r: Option<String>)
        ensures
            r.deep_view() == text_at(row.deep_view(), col_num as int),
    {
        if col_num < row.len() {
            cell_text(&row[col_num])
        } else {
            None
        }
    }

    /// The entry for the page that a row names, with nothing else known.
    pub fn entry_from_row(row: &Row, col_title: usize, col_ns: usize) -> (r: Option<PageListEntry>)
        ensures
            match r {
                Some(e) => title_at(row.deep_view(), col_title as int, col_ns as int) == Some(
                    e@.title,
                ) && e@ == fresh_entry(e@.title),
                None => title_at(row.deep_view(), col_title as int, col_ns as int) is None,
            },
    {
        let page_title = match Self::string_from_row(row, col_title) {
            Some(t) => t,
            None => {
                return None;
            },
        };
        if col_ns >= row.len() {
            return None;
        }
        let namespace_id: NamespaceID = match &row[col_ns] {
            SqlValue::Int(i) => *i,
            _ => {
                return None;
            },
        };
        Some(PageListEntry::new(Title::new(page_title.as_str(), namespace_id)))
    }
}

} // verus!
