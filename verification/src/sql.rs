//! Statements with placeholders and the values that fill them.

use vstd::prelude::*;
use crate::text::{chars_of, push_str, string_of, trim, trimmed};

verus! {

/// A statement, or a piece of one, with a `?` for each value, and the values
/// in the order of their placeholders.
pub type SQLtuple = (String, Vec<String>);

/// `n` placeholders, separated by commas.
pub open spec fn question_marks(n: nat) -> Seq<char>
    decreases n,
{
    if n == 0 {
        Seq::<char>::empty()
    } else if n == 1 {
        seq!['?']
    } else {
        question_marks((n - 1) as nat) + seq![',', '?']
    }
}

/// The values that can be quoted: every text of `strings` that is not blank,
/// trimmed, in order.
pub open spec fn quotable(strings: Seq<Seq<char>>) -> Seq<Seq<char>>
    decreases strings.len(),
{
    if strings.len() == 0 {
        Seq::<Seq<char>>::empty()
    } else {
        let init = quotable(strings.drop_last());
        if trimmed(strings.last()).len() == 0 {
            init
        } else {
            init.push(trimmed(strings.last()))
        }
    }
}

/// The empty statement without values.
pub fn sql_tuple() -> (r: SQLtuple)
    ensures
        r.deep_view() == (Seq::<char>::empty(), Seq::<Seq<char>>::empty()),
{
    let r = (String::new(), Vec::new());
    proof {
        assert(r.1.deep_view() =~= Seq::<Seq<char>>::empty());
    }
    r
}

/// `len` placeholders, separated by commas.
pub fn get_questionmarks(len: usize) -> (r: String)
    ensures
        r@ == question_marks(len as nat),
{
    let mut out: Vec<char> = Vec::new();
    let mut i: usize = 0;
    while i < len
        invariant
            i <= len,
            out@ == question_marks(i as nat),
        decreases len - i,
    {
        if i > 0 {
            out.push(',');
        }
        out.push('?');
        proof {
            if i > 0 {
                assert(out@ =~= question_marks(i as nat) + seq![',', '?']);
            } else {
                assert(out@ =~= seq!['?']);
            }
        }
        i += 1;
    }
    string_of(&out)
}

/// The quotable values among `strings[from..to]`.
pub fn quotable_range(strings: &Vec<String>, from: usize, to: usize) -> (r: Vec<String>)
    requires
        from <= to <= strings.len(),
    ensures
        r.deep_view() == quotable(strings.deep_view().subrange(from as int, to as int)),
{
    let ghost all = strings.deep_view().subrange(from as int, to as int);
    let mut escaped: Vec<String> = Vec::new();
    let mut i: usize = from;
    proof {
        assert(all.take(0) =~= Seq::<Seq<char>>::empty());
        assert(escaped.deep_view() =~= Seq::<Seq<char>>::empty());
    }
    while i < to
        invariant
            from <= i <= to <= strings.len(),
            all == strings.deep_view().subrange(from as int, to as int),
            escaped.deep_view() == quotable(all.take(i - from)),
        decreases to - i,
    {
        let ghost before = escaped.deep_view();
        let ghost next = all.take(i - from + 1);
        proof {
            assert(next.drop_last() =~= all.take(i - from));
            assert(next.last() == strings@[i as int]@);
        }
        let t = trim(strings[i].as_str());
        if t.as_str().unicode_len() > 0 {
            escaped.push(t);
            proof {
                assert(escaped.deep_view() =~= before.push(t@));
            }
        }
        i += 1;
    }
    proof {
        assert(all.take(all.len() as int) =~= all);
    }
    escaped
}

/// One placeholder for each quotable value of `strings`, and those values.
pub fn prep_quote(strings: &Vec<String>) -> (r: SQLtuple)
    ensures
        r.1.deep_view() == quotable(strings.deep_view()),
        r.0@ == question_marks(r.1.len() as nat),
{
    proof {
        assert(strings.deep_view().subrange(0, strings.len() as int) =~= strings.deep_view());
    }
    let escaped = quotable_range(strings, 0, strings.len());
    (get_questionmarks(escaped.len()), escaped)
}

/// Appends the values of `from` to `values`.
pub fn append_values(values: &mut Vec<String>, from: &Vec<String>)
    ensures
        final(values).deep_view() == old(values).deep_view() + from.deep_view(),
{
    let ghost before = values.deep_view();
    let mut i: usize = 0;
    proof {
        assert(from.deep_view().take(0) =~= Seq::<Seq<char>>::empty());
        assert(before + Seq::<Seq<char>>::empty() =~= before);
    }
    while i < from.len()
        invariant
            i <= from.len(),
            values.deep_view() == before + from.deep_view().take(i as int),
        decreases from.len() - i,
    {
        let ghost now = values.deep_view();
        values.push(from[i].clone());
        proof {
            assert(values.deep_view() =~= now.push(from@[i as int]@));
            assert(now.push(from@[i as int]@) =~= before + from.deep_view().take(i + 1));
        }
        i += 1;
    }
    proof {
        assert(from.deep_view().take(from.len() as int) =~= from.deep_view());
    }
}

/// Appends the statement and the values of `sub` to those of `sql`.
pub fn append_sql(sql: &mut SQLtuple, sub: &SQLtuple)
    ensures
        final(sql).0@ == old(sql).0@ + sub.0@,
        final(sql).1.deep_view() == old(sql).1.deep_view() + sub.1.deep_view(),
{
    let mut text = chars_of(sql.0.as_str());
    push_str(&mut text, sub.0.as_str());
    sql.0 = string_of(&text);
    append_values(&mut sql.1, &sub.1);
}

/// A copy of a list of texts.
pub fn clone_texts(texts: &Vec<String>) -> (r: Vec<String>)
    ensures
        r.deep_view() == texts.deep_view(),
{
    let mut values: Vec<String> = Vec::new();
    proof {
        assert(values.deep_view() =~= Seq::<Seq<char>>::empty());
    }
    append_values(&mut values, texts);
    proof {
        assert(Seq::<Seq<char>>::empty() + texts.deep_view() =~= texts.deep_view());
    }
    values
}

} // verus!
