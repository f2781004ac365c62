//! The statements of the tool database, which keeps the queries that were
//! asked, and what their rows say.

use vstd::prelude::*;
use crate::annotate::rows_view;
use crate::app_state::AppState;
use crate::numeral::{decimal_of, parse_usize, parsed_usize, u64_to_string, usize_to_string};
use crate::pipeline::{lenient_texts_from_rows, lenient_texts_in};
use crate::row::{cell_u64, unsigned_of, Row, SqlValueView};
use crate::sql::SQLtuple;
use crate::text::concat;

verus! {

/// The statement that asks for the query kept under the number `psid`, or
/// the message that `psid` is no number.
pub open spec fn psid_sql(psid: Seq<char>) -> Result<Seq<char>, Seq<char>> {
    match parsed_usize(psid) {
        Some(n) => Ok("SELECT querystring FROM query WHERE id="@ + decimal_of(n as int)),
        None => Err("PSID is not a number"@),
    }
}

/// The query that the rows hold: the text of the first row that holds one.
pub open spec fn query_in(rows: Seq<Seq<SqlValueView>>) -> Result<Seq<char>, Seq<char>> {
    if lenient_texts_in(rows).len() > 0 {
        Ok(lenient_texts_in(rows)[0])
    } else {
        Err("No such PSID in the database"@)
    }
}

/// The numbers that a run of rows of one number each holds.
pub open spec fn numbers_in(rows: Seq<Seq<SqlValueView>>) -> Seq<u64>
    decreases rows.len(),
{
    if rows.len() == 0 {
        Seq::<u64>::empty()
    } else {
        let init = numbers_in(rows.drop_last());
        if rows.last().len() == 1 && unsigned_of(rows.last()[0]) is Some {
            init.push(unsigned_of(rows.last()[0])->Some_0)
        } else {
            init
        }
    }
}

impl AppState {
    /// The statement that asks for the query kept under the number `psid`.
    pub fn get_query_from_psid(psid: &String) -> (r: Result<String, String>)
        ensures
            match r {
                Ok(sql) => psid_sql(psid@) == Ok::<Seq<char>, Seq<char>>(sql@),
                Err(msg) => psid_sql(psid@) == Err::<Seq<char>, Seq<char>>(msg@),
            },
    {
        match parse_usize(psid.as_str()) {
            Some(n) => Ok(
                concat("SELECT querystring FROM query WHERE id=", usize_to_string(n).as_str()),
            ),
            None => Err(String::from_str("PSID is not a number")),
        }
    }

    /// The query that the rows of that statement hold.
    pub fn query_from_rows(rows: &Vec<Row>) -> (r: Result<String, String>)
        ensures
            match r {
                Ok(q) => query_in(rows_view(rows@)) == Ok::<Seq<char>, Seq<char>>(q@),
                Err(msg) => query_in(rows_view(rows@)) == Err::<Seq<char>, Seq<char>>(msg@),
            },
    {
        let texts = lenient_texts_from_rows(rows);
        proof {
            assert(texts.deep_view().len() == texts.len());
            if texts.len() > 0 {
                assert(texts.deep_view()[0] == texts@[0]@);
            }
        }
        if texts.len() > 0 {
            Ok(texts[0].clone())
        } else {
            Err(String::from_str("No such PSID in the database"))
        }
    }

    /// The statement that notes the start of a query: its text, the time,
    /// and the number of the process.
    pub fn log_query_start(query_string: &String, now: &String, process_id: &String) -> (r: SQLtuple)
        ensures
            r.0@ == "INSERT INTO `started_queries` (querystring,created,process_id) VALUES (?,?,?)"@,
            r.1.deep_view() == seq![query_string@, now@, process_id@],
    {
        let mut values: Vec<String> = Vec::new();
        values.push(query_string.clone());
        values.push(now.clone());
        values.push(process_id.clone());
        proof {
            assert(values.deep_view() =~= seq![query_string@, now@, process_id@]);
        }
        (
            String::from_str(
                "INSERT INTO `started_queries` (querystring,created,process_id) VALUES (?,?,?)",
            ),
            values,
        )
    }

    /// The statement that notes the end of the query with the number `query_id`.
    pub fn log_query_end(query_id: u64) -> (r: SQLtuple)
        ensures
            r.0@ == "DELETE FROM `started_queries` WHERE id=?"@,
            r.1.deep_view() == seq![decimal_of(query_id as int)],
    {
        let mut values: Vec<String> = Vec::new();
        values.push(u64_to_string(query_id));
        proof {
            assert(values.deep_view() =~= seq![decimal_of(query_id as int)]);
        }
        (String::from_str("DELETE FROM `started_queries` WHERE id=?"), values)
    }

    /// The two statements that keep a query: the first asks for the number
    /// it is kept under, the second keeps it, at the time `now`, where it
    /// is not kept yet.
    pub fn get_or_create_psid_for_query(query_string: &String, now: &String) -> (r: (
        SQLtuple,
        SQLtuple,
    ))
        ensures
            r.0.0@ == "SELECT id FROM query WHERE querystring=? LIMIT 1"@,
            r.0.1.deep_view() == seq![query_string@],
            r.1.0@ == "INSERT IGNORE INTO `query` (querystring,created) VALUES (?,?)"@,
            r.1.1.deep_view() == seq![query_string@, now@],
    {
        let mut find: Vec<String> = Vec::new();
        find.push(query_string.clone());
        let mut create: Vec<String> = Vec::new();
        create.push(query_string.clone());
        create.push(now.clone());
        proof {
            assert(find.deep_view() =~= seq![query_string@]);
            assert(create.deep_view() =~= seq![query_string@, now@]);
        }
        (
            (String::from_str("SELECT id FROM query WHERE querystring=? LIMIT 1"), find),
            (
                String::from_str("INSERT IGNORE INTO `query` (querystring,created) VALUES (?,?)"),
                create,
            ),
        )
    }

    /// The number that the rows hold: that of the first row of one number.
    pub fn psid_from_rows(rows: &Vec<Row>) -> (r: Option<u64>)
        ensures
            match r {
                Some(n) => numbers_in(rows_view(rows@)).len() > 0 && n == numbers_in(
                    rows_view(rows@),
                )[0],
                None => numbers_in(rows_view(rows@)).len() == 0,
            },
    {
        let ghost all = rows_view(rows@);
        let mut i: usize = 0;
        proof {
            assert(all.take(0) =~= Seq::<Seq<SqlValueView>>::empty());
        }
        while i < rows.len()
            invariant
                i <= rows.len(),
                all == rows_view(rows@),
                numbers_in(all.take(i as int)).len() == 0,
            decreases rows.len() - i,
        {
            proof {
                let next = all.take(i + 1);
                assert(next.drop_last() =~= all.take(i as int));
                assert(next.last() == rows@[i as int].deep_view());
            }
            if rows[i].len() == 1 {
                match cell_u64(&rows[i][0]) {
                    Some(n) => {
                        proof {
                            lemma_numbers_grow(all, i + 1);
                            assert(numbers_in(all.take(i + 1)) =~= seq![n]);
                        }
                        return Some(n);
                    },
                    None => {},
                }
            }
            i += 1;
        }
        proof {
            assert(all.take(all.len() as int) =~= all);
        }
        None
    }
}

/// The numbers of a run of rows start with the numbers of any part of it
/// that it starts with.
pub proof fn lemma_numbers_grow(rows: Seq<Seq<SqlValueView>>, k: int)
    requires
        0 <= k <= rows.len(),
    ensures
        numbers_in(rows.take(k)).len() <= numbers_in(rows).len(),
        forall|j: int|
            0 <= j < numbers_in(rows.take(k)).len() ==> numbers_in(rows)[j] == numbers_in(
                rows.take(k),
            )[j],
    decreases rows.len() - k,
{
    if k == rows.len() {
        assert(rows.take(k) =~= rows);
    } else {
        let init = rows.drop_last();
        lemma_numbers_grow(init, k);
        assert(init.take(k) =~= rows.take(k));
    }
}

} // verus!
