//! Case folding and the order of texts.
//!
//! Texts are ordered as Rust orders strings: character by character, by code
//! point, a proper prefix before its extensions.

use vstd::prelude::*;
use crate::text::{chars_of, string_of};

verus! {

/// Whether every character of `s` is an ASCII character.
pub open spec fn is_ascii_text(s: Seq<char>) -> bool {
    forall|i: int| 0 <= i < s.len() ==> (#[trigger] s[i]) <= '\u{7f}'
}

/// The lower-case form of an ASCII letter; any other character unchanged.
pub open spec fn ascii_lower(c: char) -> char {
    if 'A' <= c <= 'Z' {
        ((c as u8 + 32) as u8) as char
    } else {
        c
    }
}

/// `s` with its ASCII letters in lower case.
pub open spec fn ascii_folded(s: Seq<char>) -> Seq<char> {
    Seq::new(s.len(), |i: int| ascii_lower(s[i]))
}

/// What `str::to_lowercase` returns for `s`.
pub uninterp spec fn unicode_lowercase(s: Seq<char>) -> Seq<char>;

/// `str::to_lowercase`: the lower-case form of a text by the Unicode rules.
#[verifier::external_body]
fn to_lowercase_unicode(s: &str) -> (r: String)
    ensures
        r@ == unicode_lowercase(s@),
{
    s.to_lowercase()
}

/// The lower-case form of `s`: letter by letter for an ASCII text, by the
/// Unicode rules for any other.
pub open spec fn lowercase(s: Seq<char>) -> Seq<char> {
    if is_ascii_text(s) {
        ascii_folded(s)
    } else {
        unicode_lowercase(s)
    }
}

/// The lower-case form of `s`.
pub fn to_lowercase(s: &str) -> (r: String)
    ensures
        r@ == lowercase(s@),
{
    let v = chars_of(s);
    let mut out: Vec<char> = Vec::new();
    let mut i: usize = 0;
    while i < v.len()
        invariant
            i <= v.len(),
            v@ == s@,
            out.len() == i,
            forall|j: int| 0 <= j < i ==> (#[trigger] v@[j]) <= '\u{7f}',
            forall|j: int| 0 <= j < i ==> out@[j] == ascii_lower(v@[j]),
        decreases v.len() - i,
    {
        let c = v[i];
        if c > '\u{7f}' {
            return to_lowercase_unicode(s);
        }
        if 'A' <= c && c <= 'Z' {
            out.push((c as u8 + 32) as char);
        } else {
            out.push(c);
        }
        i += 1;
    }
    proof {
        assert(out@ =~= ascii_folded(s@));
    }
    string_of(&out)
}

/// The order of two texts as a sign: negative where `a` comes first, zero
/// where they are the same text, positive where `b` comes first.
pub open spec fn text_sign(a: Seq<char>, b: Seq<char>) -> int
    decreases a.len(),
{
    if a.len() == 0 {
        if b.len() == 0 {
            0
        } else {
            -1
        }
    } else if b.len() == 0 {
        1
    } else if a[0] < b[0] {
        -1
    } else if b[0] < a[0] {
        1
    } else {
        text_sign(a.skip(1), b.skip(1))
    }
}

/// The sign is one of -1, 0 and 1, and it is zero exactly for equal texts.
pub proof fn lemma_text_sign_equal(a: Seq<char>, b: Seq<char>)
    ensures
        -1 <= text_sign(a, b) <= 1,
        text_sign(a, b) == 0 <==> a == b,
    decreases a.len(),
{
    if a.len() > 0 && b.len() > 0 {
        lemma_text_sign_equal(a.skip(1), b.skip(1));
        if a[0] == b[0] && a.skip(1) == b.skip(1) {
            assert(a =~= seq![a[0]] + a.skip(1));
            assert(b =~= seq![b[0]] + b.skip(1));
        }
    } else if a.len() == 0 && b.len() == 0 {
        assert(a =~= b);
    }
}

/// Swapping the texts flips the sign.
pub proof fn lemma_text_sign_swap(a: Seq<char>, b: Seq<char>)
    ensures
        text_sign(b, a) == -text_sign(a, b),
    decreases a.len(),
{
    if a.len() > 0 && b.len() > 0 {
        lemma_text_sign_swap(a.skip(1), b.skip(1));
    }
}

/// The order of texts is transitive.
pub proof fn lemma_text_sign_transitive(a: Seq<char>, b: Seq<char>, c: Seq<char>)
    requires
        text_sign(a, b) <= 0,
        text_sign(b, c) <= 0,
    ensures
        text_sign(a, c) <= 0,
        text_sign(a, c) == 0 ==> text_sign(a, b) == 0 && text_sign(b, c) == 0,
    decreases a.len(),
{
    if a.len() > 0 && b.len() > 0 && c.len() > 0 {
        if a[0] == b[0] && b[0] == c[0] {
            lemma_text_sign_transitive(a.skip(1), b.skip(1), c.skip(1));
        }
    }
}

/// The order of two texts as a sign.
pub fn compare_text(a: &str, b: &str) -> (r: i8)
    ensures
        r == text_sign(a@, b@),
{
    let x = chars_of(a);
    let y = chars_of(b);
    let mut i: usize = 0;
    proof {
        assert(x@.skip(0) =~= x@);
        assert(y@.skip(0) =~= y@);
    }
    while i < x.len() && i < y.len()
        invariant
            i <= x.len(),
            i <= y.len(),
            x@ == a@,
            y@ == b@,
            text_sign(x@.skip(i as int), y@.skip(i as int)) == text_sign(x@, y@),
        decreases x.len() - i,
    {
        proof {
            assert(x@.skip(i as int).skip(1) =~= x@.skip(i + 1));
            assert(y@.skip(i as int).skip(1) =~= y@.skip(i + 1));
            assert(x@.skip(i as int)[0] == x@[i as int]);
            assert(y@.skip(i as int)[0] == y@[i as int]);
        }
        if x[i] < y[i] {
            return -1;
        }
        if y[i] < x[i] {
            return 1;
        }
        i += 1;
    }
    if i < y.len() {
        -1
    } else if i < x.len() {
        1
    } else {
        0
    }
}

} // verus!
