//! The parameters of a query: named texts, and the namespaces asked for.

use vstd::prelude::*;
use crate::numeral::{parse_usize, parsed_usize};
use crate::text::{split, split_on, str_eq, trim, trimmed};
use crate::title::{database_form, Title};

verus! {

/// The parameters of a query. Of two values under one name the first counts.
#[derive(Debug)]
pub struct FormParameters {
    pub params: Vec<(String, String)>,
    pub ns: Vec<usize>,
}

/// The value that stands under `key`: that of the first pair with this name.
pub open spec fn value_of(params: Seq<(Seq<char>, Seq<char>)>, key: Seq<char>) -> Option<Seq<char>>
    decreases params.len(),
{
    if params.len() == 0 {
        None
    } else if params[0].0 == key {
        Some(params[0].1)
    } else {
        value_of(params.skip(1), key)
    }
}

/// Whether the parameter is set and not blank.
pub open spec fn is_set(params: Seq<(Seq<char>, Seq<char>)>, key: Seq<char>) -> bool {
    value_of(params, key) is Some && value_of(params, key)->Some_0.len() > 0
}

/// The parameter's value, where it is set and not blank.
pub open spec fn param_of(params: Seq<(Seq<char>, Seq<char>)>, key: Seq<char>) -> Option<Seq<char>> {
    if is_set(params, key) {
        value_of(params, key)
    } else {
        None
    }
}

/// The parameter's value, or the empty text.
pub open spec fn param_or_blank(params: Seq<(Seq<char>, Seq<char>)>, key: Seq<char>) -> Seq<char> {
    match param_of(params, key) {
        Some(v) => v,
        None => Seq::<char>::empty(),
    }
}

/// The parameter's value, or `default` where it is not set or blank.
pub open spec fn param_or(
    params: Seq<(Seq<char>, Seq<char>)>,
    key: Seq<char>,
    default: Seq<char>,
) -> Seq<char> {
    match param_of(params, key) {
        Some(v) => v,
        None => default,
    }
}

/// The items of a list: every piece that is not blank, trimmed and in database form.
pub open spec fn items_of(pieces: Seq<Seq<char>>) -> Seq<Seq<char>>
    decreases pieces.len(),
{
    if pieces.len() == 0 {
        Seq::<Seq<char>>::empty()
    } else if trimmed(pieces.last()).len() == 0 {
        items_of(pieces.drop_last())
    } else {
        items_of(pieces.drop_last()).push(database_form(trimmed(pieces.last())))
    }
}

/// The parameter's value as a list: its pieces between the separators, the
/// blank ones left out; no items where the parameter is not set.
pub open spec fn param_list(
    params: Seq<(Seq<char>, Seq<char>)>,
    key: Seq<char>,
    separator: char,
) -> Seq<Seq<char>> {
    match param_of(params, key) {
        Some(v) => items_of(split_on(v, separator)),
        None => Seq::<Seq<char>>::empty(),
    }
}

/// The parameter's value as a number, where it is one.
pub open spec fn param_usize(params: Seq<(Seq<char>, Seq<char>)>, key: Seq<char>) -> Option<usize> {
    match param_of(params, key) {
        Some(v) => parsed_usize(v),
        None => None,
    }
}

impl View for FormParameters {
    type V = Seq<(Seq<char>, Seq<char>)>;

    open spec fn view(&self) -> Seq<(Seq<char>, Seq<char>)> {
        Seq::new(self.params@.len(), |i: int| (self.params@[i].0@, self.params@[i].1@))
    }
}

impl Clone for FormParameters {
    fn clone(&self) -> (r: Self)
        ensures
            r@ == self@,
            r.ns@ == self.ns@,
    {
        let mut params: Vec<(String, String)> = Vec::new();
        let mut i: usize = 0;
        while i < self.params.len()
            invariant
                i <= self.params.len(),
                params.len() == i,
                forall|j: int|
                    0 <= j < i ==> (#[trigger] params@[j]).0@ == self.params@[j].0@ && params@[j].1@
                        == self.params@[j].1@,
            decreases self.params.len() - i,
        {
            params.push((self.params[i].0.clone(), self.params[i].1.clone()));
            i += 1;
        }
        let r = FormParameters { params, ns: self.ns.clone() };
        proof {
            assert(r@ =~= self@);
        }
        r
    }
}

impl FormParameters {
    /// Parameters without any value.
    pub fn new() -> (r: Self)
        ensures
            r@ == Seq::<(Seq<char>, Seq<char>)>::empty(),
            r.ns@ == Seq::<usize>::empty(),
    {
        let r = FormParameters { params: Vec::new(), ns: Vec::new() };
        proof {
            assert(r@ =~= Seq::<(Seq<char>, Seq<char>)>::empty());
        }
        r
    }

    /// The value that stands under `param`, blank or not.
    pub fn value(&self, param: &str) -> (r: Option<&String>)
        ensures
            match r {
                Some(v) => value_of(self@, param@) == Some(v@),
                None => value_of(self@, param@) is None,
            },
    {
        let ghost all = self@;
        let mut i: usize = 0;
        proof {
            assert(all.skip(0) =~= all);
        }
        while i < self.params.len()
            invariant
                i <= self.params.len(),
                all == self@,
                value_of(all.skip(i as int), param@) == value_of(all, param@),
            decreases self.params.len() - i,
        {
            proof {
                assert(all.skip(i as int)[0] == all[i as int]);
                assert(all.skip(i as int).skip(1) =~= all.skip(i + 1));
            }
            if str_eq(self.params[i].0.as_str(), param) {
                return Some(&self.params[i].1);
            }
            i += 1;
        }
        None
    }

    /// Whether the parameter is set and not blank.
    pub fn has_param(&self, param: &str) -> (r: bool)
        ensures
            r == is_set(self@, param@),
    {
        match self.value(param) {
            Some(s) => s.as_str().unicode_len() > 0,
            None => false,
        }
    }

    /// The parameter's value, where it is set and not blank.
    pub fn get_param(&self, param: &str) -> (r: Option<String>)
        ensures
            r.deep_view() == param_of(self@, param@),
    {
        match self.value(param) {
            Some(s) => {
                if s.as_str().unicode_len() > 0 {
                    Some(s.clone())
                } else {
                    None
                }
            },
            None => None,
        }
    }

    /// The parameter's value, or the empty text.
    pub fn get_param_blank(&self, param: &str) -> (r: String)
        ensures
            r@ == param_or_blank(self@, param@),
    {
        match self.get_param(param) {
            Some(s) => s,
            None => String::new(),
        }
    }

    /// The parameter's value, or `default` where it is not set or blank.
    pub fn get_param_default(&self, param: &str, default: &str) -> (r: String)
        ensures
            r@ == param_or(self@, param@, default@),
    {
        match self.get_param(param) {
            Some(s) => s,
            None => String::from_str(default),
        }
    }

    /// The parameter's value as a list of page names: cut at `separator`,
    /// each piece trimmed and put into database form, blank pieces left out.
    pub fn get_param_as_vec(&self, param: &str, separator: char) -> (r: Vec<String>)
        ensures
            r.deep_view() == param_list(self@, param@, separator),
    {
        let mut out: Vec<String> = Vec::new();
        proof {
            assert(out.deep_view() =~= Seq::<Seq<char>>::empty());
        }
        match self.get_param(param) {
            Some(s) => {
                let pieces = split(s.as_str(), separator);
                let ghost all = pieces.deep_view();
                let mut i: usize = 0;
                proof {
                    assert(all.take(0) =~= Seq::<Seq<char>>::empty());
                }
                while i < pieces.len()
                    invariant
                        i <= pieces.len(),
                        all == pieces.deep_view(),
                        out.deep_view() == items_of(all.take(i as int)),
                    decreases pieces.len() - i,
                {
                    proof {
                        let next = all.take(i + 1);
                        assert(next.drop_last() =~= all.take(i as int));
                        assert(next.last() == pieces@[i as int]@);
                    }
                    let t = trim(pieces[i].as_str());
                    if t.as_str().unicode_len() > 0 {
                        let ghost before = out.deep_view();
                        let item = Title::spaces_to_underscores(t.as_str());
                        out.push(item);
                        proof {
                            assert(out.deep_view() =~= before.push(item@));
                        }
                    }
                    i += 1;
                }
                proof {
                    assert(all.take(all.len() as int) =~= all);
                }
                out
            },
            None => out,
        }
    }

    /// The parameter's value as a number, where it is one.
    pub fn usize_option_from_param(&self, key: &str) -> (r: Option<usize>)
        ensures
            r == param_usize(self@, key@),
    {
        match self.get_param(key) {
            Some(s) => parse_usize(s.as_str()),
            None => None,
        }
    }
}

} // verus!
