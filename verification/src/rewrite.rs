//! Turning the fragments of a page list into whole statements.

use vstd::prelude::*;
use crate::batch::batches_view;
use crate::sql::{
    append_values, clone_texts, get_questionmarks, prep_quote, question_marks, quotable, SQLtuple,
};
use crate::text::{chars_of, push_str, string_of};

verus! {

/// A fragment with a text before and behind its condition, and with values
/// before and behind its own.
pub open spec fn wrapped(
    b: (Seq<char>, Seq<Seq<char>>),
    prefix: Seq<char>,
    suffix: Seq<char>,
    before: Seq<Seq<char>>,
    after: Seq<Seq<char>>,
) -> (Seq<char>, Seq<Seq<char>>) {
    (prefix + b.0 + suffix, before + b.1 + after)
}

/// Every fragment wrapped in the same way.
pub open spec fn wrapped_all(
    batches: Seq<(Seq<char>, Seq<Seq<char>>)>,
    prefix: Seq<char>,
    suffix: Seq<char>,
    before: Seq<Seq<char>>,
    after: Seq<Seq<char>>,
) -> Seq<(Seq<char>, Seq<Seq<char>>)> {
    Seq::new(batches.len(), |i: int| wrapped(batches[i], prefix, suffix, before, after))
}

/// A statement that asks for the values of a fragment by placeholders of
/// its own: the text before, one placeholder for each value, the text
/// behind; with values before the fragment's own.
pub open spec fn listed(
    b: (Seq<char>, Seq<Seq<char>>),
    prefix: Seq<char>,
    suffix: Seq<char>,
    before: Seq<Seq<char>>,
) -> (Seq<char>, Seq<Seq<char>>) {
    (prefix + question_marks(b.1.len()) + suffix, before + b.1)
}

/// Every fragment listed in the same way.
pub open spec fn listed_all(
    batches: Seq<(Seq<char>, Seq<Seq<char>>)>,
    prefix: Seq<char>,
    suffix: Seq<char>,
    before: Seq<Seq<char>>,
) -> Seq<(Seq<char>, Seq<Seq<char>>)> {
    Seq::new(batches.len(), |i: int| listed(batches[i], prefix, suffix, before))
}

/// A statement that asks for the quotable values of a fragment: the text
/// before, one placeholder for each quotable value, the text behind.
pub open spec fn quoted(b: (Seq<char>, Seq<Seq<char>>), prefix: Seq<char>, suffix: Seq<char>) -> (
    Seq<char>,
    Seq<Seq<char>>,
) {
    (prefix + question_marks(quotable(b.1).len()) + suffix, quotable(b.1))
}

/// Every fragment quoted in the same way.
pub open spec fn quoted_all(
    batches: Seq<(Seq<char>, Seq<Seq<char>>)>,
    prefix: Seq<char>,
    suffix: Seq<char>,
) -> Seq<(Seq<char>, Seq<Seq<char>>)> {
    Seq::new(batches.len(), |i: int| quoted(batches[i], prefix, suffix))
}

/// The three texts one after another.
pub fn concat3(a: &str, b: &str, c: &str) -> (r: String)
    ensures
        r@ == a@ + b@ + c@,
{
    let mut out = chars_of(a);
    push_str(&mut out, b);
    push_str(&mut out, c);
    string_of(&out)
}

/// The three lists one after another.
pub fn concat_values(a: &Vec<String>, b: &Vec<String>, c: &Vec<String>) -> (r: Vec<String>)
    ensures
        r.deep_view() == a.deep_view() + b.deep_view() + c.deep_view(),
{
    let mut out = clone_texts(a);
    append_values(&mut out, b);
    append_values(&mut out, c);
    out
}

/// Wraps every fragment: `prefix` and `suffix` around its condition,
/// `before` and `after` around its values.
pub fn wrap_batches(
    batches: &Vec<SQLtuple>,
    prefix: &str,
    suffix: &str,
    before: &Vec<String>,
    after: &Vec<String>,
) -> (r: Vec<SQLtuple>)
    ensures
        batches_view(r@) == wrapped_all(
            batches_view(batches@),
            prefix@,
            suffix@,
            before.deep_view(),
            after.deep_view(),
        ),
{
    let mut out: Vec<SQLtuple> = Vec::new();
    let mut i: usize = 0;
    while i < batches.len()
        invariant
            i <= batches.len(),
            out.len() == i,
            forall|j: int|
                0 <= j < i ==> (#[trigger] out@[j]).0@ == prefix@ + batches@[j].0@ + suffix@
                    && out@[j].1.deep_view() == before.deep_view() + batches@[j].1.deep_view()
                    + after.deep_view(),
        decreases batches.len() - i,
    {
        let text = concat3(prefix, batches[i].0.as_str(), suffix);
        let values = concat_values(before, &batches[i].1, after);
        out.push((text, values));
        i += 1;
    }
    proof {
        assert(batches_view(out@) =~= wrapped_all(
            batches_view(batches@),
            prefix@,
            suffix@,
            before.deep_view(),
            after.deep_view(),
        ));
    }
    out
}

/// Lists every fragment: `prefix`, one placeholder for each of its
/// values, `suffix`; `before` in front of its values.
pub fn list_batches(batches: &Vec<SQLtuple>, prefix: &str, suffix: &str, before: &Vec<String>) -> (r:
    Vec<SQLtuple>)
    ensures
        batches_view(r@) == listed_all(
            batches_view(batches@),
            prefix@,
            suffix@,
            before.deep_view(),
        ),
{
    let mut out: Vec<SQLtuple> = Vec::new();
    let mut i: usize = 0;
    let none: Vec<String> = Vec::new();
    proof {
        assert(none.deep_view() =~= Seq::<Seq<char>>::empty());
    }
    while i < batches.len()
        invariant
            i <= batches.len(),
            out.len() == i,
            none.deep_view() == Seq::<Seq<char>>::empty(),
            forall|j: int|
                0 <= j < i ==> (#[trigger] out@[j]).0@ == prefix@ + question_marks(
                    batches@[j].1.deep_view().len(),
                ) + suffix@ && out@[j].1.deep_view() == before.deep_view()
                    + batches@[j].1.deep_view(),
        decreases batches.len() - i,
    {
        let marks = get_questionmarks(batches[i].1.len());
        let text = concat3(prefix, marks.as_str(), suffix);
        let values = concat_values(before, &batches[i].1, &none);
        proof {
            assert(batches@[i as int].1.deep_view().len() == batches@[i as int].1.len());
            assert(before.deep_view() + batches@[i as int].1.deep_view() + Seq::<
                Seq<char>,
            >::empty() =~= before.deep_view() + batches@[i as int].1.deep_view());
        }
        out.push((text, values));
        i += 1;
    }
    proof {
        assert(batches_view(out@) =~= listed_all(
            batches_view(batches@),
            prefix@,
            suffix@,
            before.deep_view(),
        ));
    }
    out
}

/// Quotes every fragment: `prefix`, one placeholder for each of its
/// quotable values, `suffix`; its quotable values as the values.
pub fn quote_batches(batches: &Vec<SQLtuple>, prefix: &str, suffix: &str) -> (r: Vec<SQLtuple>)
    ensures
        batches_view(r@) == quoted_all(batches_view(batches@), prefix@, suffix@),
{
    let mut out: Vec<SQLtuple> = Vec::new();
    let mut i: usize = 0;
    while i < batches.len()
        invariant
            i <= batches.len(),
            out.len() == i,
            forall|j: int|
                0 <= j < i ==> (#[trigger] out@[j]).0@ == prefix@ + question_marks(
                    quotable(batches@[j].1.deep_view()).len(),
                ) + suffix@ && out@[j].1.deep_view() == quotable(batches@[j].1.deep_view()),
        decreases batches.len() - i,
    {
        let tmp = prep_quote(&batches[i].1);
        let text = concat3(prefix, tmp.0.as_str(), suffix);
        proof {
            assert(tmp.1.deep_view().len() == tmp.1.len());
        }
        out.push((text, tmp.1));
        i += 1;
    }
    proof {
        assert(batches_view(out@) =~= quoted_all(batches_view(batches@), prefix@, suffix@));
    }
    out
}

} // verus!
