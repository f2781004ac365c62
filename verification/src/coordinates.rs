//! The coordinates of a page: latitude and longitude, kept as the decimal
//! numerals they were written as.
//!
//! A numeral is what Rust reads as a floating-point number: an optional
//! sign, then `inf`, `infinity` or `nan` in any case, or digits with an
//! optional point among them and an optional exponent.

use vstd::prelude::*;
use vstd::std_specs::cmp::PartialEqSpecImpl;
use crate::collate::{ascii_folded, ascii_lower};
use crate::numeral::{all_digits, is_digit};
use crate::text::{chars_of, split_chars, split_on, string_of, views_of};

verus! {

/// How many digits `s` starts with.
pub open spec fn leading_digits(s: Seq<char>) -> nat
    decreases s.len(),
{
    if s.len() > 0 && is_digit(s[0]) {
        1 + leading_digits(s.skip(1))
    } else {
        0
    }
}

/// Whether `x` is what follows the `e` of an exponent: an optional sign and
/// at least one digit.
pub open spec fn is_exponent(x: Seq<char>) -> bool {
    let t = if x.len() > 0 && (x[0] == '+' || x[0] == '-') {
        x.skip(1)
    } else {
        x
    };
    t.len() >= 1 && all_digits(t)
}

/// Whether `s` is a number without sign: digits, with an optional point
/// before, among or behind them, and an optional exponent.
pub open spec fn is_number(s: Seq<char>) -> bool {
    let d1 = leading_digits(s) as int;
    let after_int = s.skip(d1);
    let has_dot = after_int.len() > 0 && after_int[0] == '.';
    let frac = if has_dot {
        after_int.skip(1)
    } else {
        after_int
    };
    let d2 = if has_dot {
        leading_digits(frac) as int
    } else {
        0
    };
    let rest = frac.skip(d2);
    (d1 + d2 >= 1) && (rest.len() == 0 || ((rest[0] == 'e' || rest[0] == 'E') && is_exponent(
        rest.skip(1),
    )))
}

/// Whether `s` names infinity or no number.
pub open spec fn is_special(s: Seq<char>) -> bool {
    ascii_folded(s) == "inf"@ || ascii_folded(s) == "infinity"@ || ascii_folded(s) == "nan"@
}

/// Whether `s` is a numeral.
pub open spec fn is_float_text(s: Seq<char>) -> bool {
    let body = if s.len() > 0 && (s[0] == '+' || s[0] == '-') {
        s.skip(1)
    } else {
        s
    };
    is_special(body) || is_number(body)
}

/// The digits that a text starts with are digits, and what follows them is none.
pub proof fn lemma_leading_digits(s: Seq<char>, k: int)
    requires
        0 <= k <= s.len(),
        forall|j: int| 0 <= j < k ==> is_digit(#[trigger] s[j]),
        k < s.len() ==> !is_digit(s[k]),
    ensures
        leading_digits(s) == k,
    decreases k,
{
    if k > 0 {
        let t = s.skip(1);
        assert forall|j: int| 0 <= j < k - 1 implies is_digit(#[trigger] t[j]) by {
            assert(t[j] == s[j + 1]);
        }
        if k < s.len() {
            assert(t[k - 1] == s[k]);
        }
        lemma_leading_digits(t, k - 1);
    }
}

/// Where the digits that start at `from` end.
fn skip_digits(s: &Vec<char>, from: usize) -> (r: usize)
    requires
        from <= s.len(),
    ensures
        from <= r <= s.len(),
        r - from == leading_digits(s@.skip(from as int)),
{
    let mut j: usize = from;
    while j < s.len() && '0' <= s[j] && s[j] <= '9'
        invariant
            from <= j <= s.len(),
            forall|x: int| from <= x < j ==> is_digit(#[trigger] s@[x]),
        decreases s.len() - j,
    {
        j += 1;
    }
    proof {
        let t = s@.skip(from as int);
        assert forall|x: int| 0 <= x < j - from implies is_digit(#[trigger] t[x]) by {
            assert(t[x] == s@[x + from]);
        }
        if j < s.len() {
            assert(t[j - from] == s@[j as int]);
        }
        lemma_leading_digits(t, j - from);
    }
    j
}

/// Whether `s[from..]` is what follows the `e` of an exponent.
fn exponent_from(s: &Vec<char>, from: usize) -> (r: bool)
    requires
        from <= s.len(),
    ensures
        r == is_exponent(s@.skip(from as int)),
{
    let ghost x = s@.skip(from as int);
    let start = if from < s.len() && (s[from] == '+' || s[from] == '-') {
        from + 1
    } else {
        from
    };
    proof {
        if from < s.len() {
            assert(x[0] == s@[from as int]);
        }
        if start > from {
            assert(x.skip(1) =~= s@.skip(start as int));
        }
    }
    let end = skip_digits(s, start);
    proof {
        let t = s@.skip(start as int);
        lemma_digits_run(t);
    }
    end == s.len() && end > start
}

/// A text is made of digits exactly if its leading digits are all of it.
pub proof fn lemma_digits_run(t: Seq<char>)
    ensures
        all_digits(t) <==> leading_digits(t) == t.len(),
        leading_digits(t) <= t.len(),
    decreases t.len(),
{
    if t.len() > 0 {
        let u = t.skip(1);
        lemma_digits_run(u);
        if is_digit(t[0]) {
            if all_digits(t) {
                assert forall|i: int| 0 <= i < u.len() implies is_digit(#[trigger] u[i]) by {
                    assert(u[i] == t[i + 1]);
                }
            }
            if all_digits(u) {
                assert forall|i: int| 0 <= i < t.len() implies is_digit(#[trigger] t[i]) by {
                    if i > 0 {
                        assert(u[i - 1] == t[i]);
                    }
                }
            }
        } else {
            if all_digits(t) {
                assert(is_digit(t[0]));
            }
        }
    }
}

/// Whether `s[from..]` is a number without sign.
fn number_from(s: &Vec<char>, from: usize) -> (r: bool)
    requires
        from <= s.len(),
    ensures
        r == is_number(s@.skip(from as int)),
{
    let ghost body = s@.skip(from as int);
    let int_end = skip_digits(s, from);
    let ghost d1 = int_end - from;
    let has_dot = int_end < s.len() && s[int_end] == '.';
    proof {
        assert(body.skip(d1) =~= s@.skip(int_end as int));
        if int_end < s.len() {
            assert(s@.skip(int_end as int)[0] == s@[int_end as int]);
        }
    }
    let frac_start = if has_dot {
        int_end + 1
    } else {
        int_end
    };
    proof {
        if has_dot {
            assert(s@.skip(int_end as int).skip(1) =~= s@.skip(frac_start as int));
        }
    }
    let frac_end = if has_dot {
        skip_digits(s, frac_start)
    } else {
        frac_start
    };
    proof {
        assert(s@.skip(frac_start as int).skip(frac_end - frac_start) =~= s@.skip(frac_end as int));
        if frac_end < s.len() {
            assert(s@.skip(frac_end as int)[0] == s@[frac_end as int]);
            assert(s@.skip(frac_end as int).skip(1) =~= s@.skip(frac_end + 1));
        }
    }
    let digits = (int_end - from) + (frac_end - frac_start);
    if digits == 0 {
        return false;
    }
    if frac_end == s.len() {
        return true;
    }
    if s[frac_end] != 'e' && s[frac_end] != 'E' {
        return false;
    }
    exponent_from(s, frac_end + 1)
}

/// Whether `s[from..]`, with its ASCII letters in lower case, is `word`.
fn folded_is(s: &Vec<char>, from: usize, word: &str) -> (r: bool)
    requires
        from <= s.len(),
    ensures
        r == (ascii_folded(s@.skip(from as int)) == word@),
{
    let w = chars_of(word);
    let ghost body = s@.skip(from as int);
    if s.len() - from != w.len() {
        return false;
    }
    let mut i: usize = 0;
    while i < w.len()
        invariant
            i <= w.len(),
            from <= s.len(),
            s.len() - from == w.len(),
            w@ == word@,
            body == s@.skip(from as int),
            forall|j: int| 0 <= j < i ==> ascii_lower(body[j]) == w@[j],
        decreases w.len() - i,
    {
        let c = s[from + i];
        let folded = if 'A' <= c && c <= 'Z' {
            (c as u8 + 32) as char
        } else {
            c
        };
        proof {
            assert(body[i as int] == c);
        }
        if folded != w[i] {
            proof {
                assert(ascii_folded(body)[i as int] != word@[i as int]);
            }
            return false;
        }
        i += 1;
    }
    proof {
        assert(ascii_folded(body) =~= word@);
    }
    true
}

/// Whether the characters are a numeral.
pub fn float_text(s: &Vec<char>) -> (r: bool)
    ensures
        r == is_float_text(s@),
{
    let from: usize = if s.len() > 0 && (s[0] == '+' || s[0] == '-') {
        1
    } else {
        0
    };
    proof {
        assert(s@.skip(0) =~= s@);
    }
    folded_is(s, from, "inf") || folded_is(s, from, "infinity") || folded_is(s, from, "nan")
        || number_from(s, from)
}

/// What coordinates are, mathematically.
pub struct PageCoordinatesView {
    pub lat: Seq<char>,
    pub lon: Seq<char>,
}

/// The coordinates of a page. Both are numerals.
#[derive(Debug)]
pub struct PageCoordinates {
    lat: String,
    lon: String,
}

impl View for PageCoordinates {
    type V = PageCoordinatesView;

    closed spec fn view(&self) -> PageCoordinatesView {
        PageCoordinatesView { lat: self.lat@, lon: self.lon@ }
    }
}

impl DeepView for PageCoordinates {
    type V = PageCoordinatesView;

    open spec fn deep_view(&self) -> PageCoordinatesView {
        self@
    }
}

impl Clone for PageCoordinates {
    fn clone(&self) -> (r: Self)
        ensures
            r@ == self@,
    {
        proof {
            use_type_invariant(self);
        }
        PageCoordinates { lat: self.lat.clone(), lon: self.lon.clone() }
    }
}

impl PartialEq for PageCoordinates {
    fn eq(&self, other: &Self) -> (r: bool) {
        self.lat == other.lat && self.lon == other.lon
    }
}

impl PartialEqSpecImpl for PageCoordinates {
    open spec fn obeys_eq_spec() -> bool {
        true
    }

    open spec fn eq_spec(&self, other: &Self) -> bool {
        self@ == other@
    }
}

/// The coordinates that the text `lat,lon` denotes, if it denotes any: its
/// first two fields, if both are numerals. Further fields are passed over.
pub open spec fn coordinates_in(s: Seq<char>) -> Option<PageCoordinatesView> {
    let parts = split_on(s, ',');
    if parts.len() >= 2 && is_float_text(parts[0]) && is_float_text(parts[1]) {
        Some(PageCoordinatesView { lat: parts[0], lon: parts[1] })
    } else {
        None
    }
}

impl PageCoordinatesView {
    /// Whether both coordinates are numerals.
    pub open spec fn wf(self) -> bool {
        is_float_text(self.lat) && is_float_text(self.lon)
    }
}

impl PageCoordinates {
    #[verifier::type_invariant]
    pub closed spec fn inv(self) -> bool {
        is_float_text(self.lat@) && is_float_text(self.lon@)
    }

    /// Reads coordinates written as `lat,lon`.
    pub fn new_from_lat_lon(s: &String) -> (r: Option<Self>)
        ensures
            r.deep_view() == coordinates_in(s@),
            r is Some ==> r->Some_0@.wf(),
    {
        let v = chars_of(s.as_str());
        let parts = split_chars(&v, ',');
        proof {
            assert(views_of(parts@).len() == parts.len());
        }
        if parts.len() < 2 {
            return None;
        }
        proof {
            assert(views_of(parts@)[0] == parts@[0]@);
            assert(views_of(parts@)[1] == parts@[1]@);
        }
        if !float_text(&parts[0]) || !float_text(&parts[1]) {
            return None;
        }
        Some(PageCoordinates { lat: string_of(&parts[0]), lon: string_of(&parts[1]) })
    }

    /// The latitude, as it was written.
    pub fn lat(&self) -> (r: &str)
        ensures
            r@ == self@.lat,
            is_float_text(r@),
    {
        proof {
            use_type_invariant(self);
        }
        self.lat.as_str()
    }

    /// The longitude, as it was written.
    pub fn lon(&self) -> (r: &str)
        ensures
            r@ == self@.lon,
            is_float_text(r@),
    {
        proof {
            use_type_invariant(self);
        }
        self.lon.as_str()
    }
}

} // verus!
