//! The tokens of a source combination: words, and single signs.
//!
//! A word is a run of word characters, which may hold one apostrophe between
//! two word characters. Every other character that is not white space is a
//! token by itself. White space separates tokens and belongs to none.

use vstd::prelude::*;
use crate::collate::is_ascii_text;
use crate::regexp::{find_each, regex_compiles, regex_found};
use crate::text::{chars_of, is_white_space, string_of};

verus! {

/// Whether `c` is an ASCII word character: a letter, a digit or the underscore.
pub open spec fn is_word_char(c: char) -> bool {
    ('a' <= c && c <= 'z') || ('A' <= c && c <= 'Z') || ('0' <= c && c <= '9') || c == '_'
}

/// The length of the run of word characters that `s` starts with.
pub open spec fn word_len(s: Seq<char>) -> nat
    decreases s.len(),
{
    if s.len() > 0 && is_word_char(s[0]) {
        1 + word_len(s.skip(1))
    } else {
        0
    }
}

/// The length of the word that `s` starts with: its run of word characters,
/// and, where an apostrophe and a word character follow that run, also the
/// apostrophe and the run behind it.
pub open spec fn token_len(s: Seq<char>) -> nat {
    let n = word_len(s) as int;
    if n + 1 < s.len() && s[n] == '\'' && is_word_char(s[n + 1]) {
        (n + 1 + word_len(s.skip(n + 1))) as nat
    } else {
        n as nat
    }
}

/// The tokens of the ASCII text `s`.
pub open spec fn ascii_tokens(s: Seq<char>) -> Seq<Seq<char>>
    decreases s.len(),
{
    if s.len() == 0 {
        Seq::<Seq<char>>::empty()
    } else if is_white_space(s[0]) {
        ascii_tokens(s.skip(1))
    } else if is_word_char(s[0]) {
        let e = token_len(s);
        if 0 < e <= s.len() {
            seq![s.take(e as int)] + ascii_tokens(s.skip(e as int))
        } else {
            Seq::<Seq<char>>::empty()
        }
    } else {
        seq![s.take(1)] + ascii_tokens(s.skip(1))
    }
}

/// The regular expression that describes a token.
pub open spec fn token_pattern() -> Seq<char> {
    "\\w+(?:'\\w+)?|[^\\w\\s]"@
}

/// The texts of `parts` that are not empty.
pub open spec fn non_empty(parts: Seq<Seq<char>>) -> Seq<Seq<char>>
    decreases parts.len(),
{
    if parts.len() == 0 {
        Seq::<Seq<char>>::empty()
    } else if parts.last().len() == 0 {
        non_empty(parts.drop_last())
    } else {
        non_empty(parts.drop_last()).push(parts.last())
    }
}

/// The tokens of `s`. A text beyond ASCII is cut by the token pattern as a
/// regular expression, which knows the word characters of every script.
pub open spec fn tokens_of(s: Seq<char>) -> Seq<Seq<char>> {
    if is_ascii_text(s) {
        ascii_tokens(s)
    } else if regex_compiles(token_pattern()) {
        non_empty(regex_found(token_pattern(), s))
    } else {
        Seq::<Seq<char>>::empty()
    }
}

/// The run of word characters that a text starts with lies within the
/// text, holds word characters only, and stops at a character that is none.
pub proof fn lemma_word_len(s: Seq<char>)
    ensures
        word_len(s) <= s.len(),
        forall|j: int| 0 <= j < word_len(s) ==> is_word_char(#[trigger] s[j]),
        word_len(s) < s.len() ==> !is_word_char(s[word_len(s) as int]),
        s.len() > 0 && is_word_char(s[0]) ==> word_len(s) > 0,
    decreases s.len(),
{
    if s.len() > 0 && is_word_char(s[0]) {
        let t = s.skip(1);
        lemma_word_len(t);
        assert forall|j: int| 0 <= j < word_len(s) implies is_word_char(#[trigger] s[j]) by {
            if j > 0 {
                assert(t[j - 1] == s[j]);
            }
        }
        if word_len(s) < s.len() {
            assert(t[word_len(t) as int] == s[word_len(s) as int]);
        }
    }
}

/// A text that starts with `k` word characters and goes on with another
/// character, or ends there, has a run of exactly `k` word characters.
pub proof fn lemma_word_len_is(s: Seq<char>, k: int)
    requires
        0 <= k <= s.len(),
        forall|j: int| 0 <= j < k ==> is_word_char(#[trigger] s[j]),
        k < s.len() ==> !is_word_char(s[k]),
    ensures
        word_len(s) == k,
    decreases k,
{
    if k > 0 {
        let t = s.skip(1);
        assert forall|j: int| 0 <= j < k - 1 implies is_word_char(#[trigger] t[j]) by {
            assert(t[j] == s[j + 1]);
        }
        if k < s.len() {
            assert(t[k - 1] == s[k]);
        }
        lemma_word_len_is(t, k - 1);
    }
}

/// A word is not empty and lies within the text.
pub proof fn lemma_token_len(s: Seq<char>)
    requires
        s.len() > 0,
        is_word_char(s[0]),
    ensures
        0 < token_len(s) <= s.len(),
{
    lemma_word_len(s);
    let n = word_len(s) as int;
    if n + 1 < s.len() {
        lemma_word_len(s.skip(n + 1));
    }
}

/// Whether `c` is an ASCII word character.
fn word_char(c: char) -> (r: bool)
    ensures
        r == is_word_char(c),
{
    ('a' <= c && c <= 'z') || ('A' <= c && c <= 'Z') || ('0' <= c && c <= '9') || c == '_'
}

/// Where the run of word characters that starts at `i` ends.
fn find_word_end(s: &Vec<char>, i: usize) -> (r: usize)
    requires
        i <= s.len(),
    ensures
        r - i == word_len(s@.skip(i as int)),
        i <= r <= s.len(),
{
    let mut j: usize = i;
    while j < s.len() && word_char(s[j])
        invariant
            i <= j <= s.len(),
            forall|x: int| i <= x < j ==> is_word_char(#[trigger] s@[x]),
        decreases s.len() - j,
    {
        j += 1;
    }
    proof {
        let t = s@.skip(i as int);
        assert forall|x: int| 0 <= x < j - i implies is_word_char(#[trigger] t[x]) by {
            assert(t[x] == s@[x + i]);
        }
        if j < s.len() {
            assert(t[j - i] == s@[j as int]);
        }
        lemma_word_len_is(t, j - i);
    }
    j
}

/// The characters of `s` from `from` up to `to`, as a string.
fn piece(s: &Vec<char>, from: usize, to: usize) -> (r: String)
    requires
        from <= to <= s.len(),
    ensures
        r@ == s@.subrange(from as int, to as int),
{
    let mut out: Vec<char> = Vec::new();
    let mut k: usize = from;
    while k < to
        invariant
            from <= k <= to <= s.len(),
            out@ == s@.subrange(from as int, k as int),
        decreases to - k,
    {
        out.push(s[k]);
        k += 1;
    }
    string_of(&out)
}

/// The tokens of an ASCII text.
fn cut_ascii(s: &Vec<char>) -> (r: Vec<String>)
    ensures
        r.deep_view() == ascii_tokens(s@),
{
    let mut out: Vec<String> = Vec::new();
    let mut i: usize = 0;
    proof {
        assert(out.deep_view() =~= Seq::<Seq<char>>::empty());
        assert(s@.skip(0) =~= s@);
        assert(Seq::<Seq<char>>::empty() + ascii_tokens(s@) =~= ascii_tokens(s@));
    }
    while i < s.len()
        invariant
            i <= s.len(),
            out.deep_view() + ascii_tokens(s@.skip(i as int)) == ascii_tokens(s@),
        decreases s.len() - i,
    {
        let c = s[i];
        let ghost before = out.deep_view();
        let ghost rest = s@.skip(i as int);
        proof {
            assert(rest[0] == c);
        }
        if c.is_whitespace() {
            proof {
                assert(rest.skip(1) =~= s@.skip(i + 1));
            }
            i += 1;
        } else if word_char(c) {
            proof {
                lemma_token_len(rest);
                lemma_word_len(rest);
            }
            let n = find_word_end(s, i);
            let e = if n < s.len() && s.len() - n > 1 && s[n] == '\'' && word_char(s[n + 1]) {
                proof {
                    assert(rest.skip(n - i + 1) =~= s@.skip(n + 1));
                    assert(rest[n - i] == s@[n as int]);
                    assert(rest[n - i + 1] == s@[n + 1]);
                }
                find_word_end(s, n + 1)
            } else {
                proof {
                    if n < s.len() {
                        assert(rest[n - i] == s@[n as int]);
                    }
                    if n + 1 < s.len() {
                        assert(rest[n - i + 1] == s@[n + 1]);
                    }
                }
                n
            };
            proof {
                assert(e - i == token_len(rest));
            }
            let t = piece(s, i, e);
            out.push(t);
            proof {
                assert(rest.take(e - i) =~= s@.subrange(i as int, e as int));
                assert(rest.skip(e - i) =~= s@.skip(e as int));
                assert(out.deep_view() =~= before.push(rest.take(e - i)));
                assert(before.push(rest.take(e - i)) + ascii_tokens(s@.skip(e as int)) =~= before
                    + (seq![rest.take(e - i)] + ascii_tokens(s@.skip(e as int))));
            }
            i = e;
        } else {
            let t = piece(s, i, i + 1);
            out.push(t);
            proof {
                assert(rest.take(1) =~= s@.subrange(i as int, i + 1));
                assert(rest.skip(1) =~= s@.skip(i + 1));
                assert(out.deep_view() =~= before.push(rest.take(1)));
                assert(before.push(rest.take(1)) + ascii_tokens(s@.skip(i + 1)) =~= before + (
                seq![rest.take(1)] + ascii_tokens(s@.skip(i + 1))));
            }
            i += 1;
        }
    }
    proof {
        assert(s@.skip(s.len() as int) =~= Seq::<char>::empty());
        assert(out.deep_view() + Seq::<Seq<char>>::empty() =~= out.deep_view());
    }
    out
}

/// The texts of `parts` that are not empty.
fn drop_empty(parts: Vec<String>) -> (r: Vec<String>)
    ensures
        r.deep_view() == non_empty(parts.deep_view()),
{
    let ghost all = parts.deep_view();
    let mut out: Vec<String> = Vec::new();
    let mut i: usize = 0;
    proof {
        assert(all.take(0) =~= Seq::<Seq<char>>::empty());
        assert(out.deep_view() =~= Seq::<Seq<char>>::empty());
    }
    while i < parts.len()
        invariant
            i <= parts.len(),
            all == parts.deep_view(),
            out.deep_view() == non_empty(all.take(i as int)),
        decreases parts.len() - i,
    {
        proof {
            let next = all.take(i + 1);
            assert(next.drop_last() =~= all.take(i as int));
            assert(next.last() == parts@[i as int]@);
        }
        if parts[i].as_str().unicode_len() > 0 {
            let ghost before = out.deep_view();
            out.push(parts[i].clone());
            proof {
                assert(out.deep_view() =~= before.push(parts@[i as int]@));
            }
        }
        i += 1;
    }
    proof {
        assert(all.take(all.len() as int) =~= all);
    }
    out
}

/// Whether every character of `s` is an ASCII character.
fn all_ascii(s: &Vec<char>) -> (r: bool)
    ensures
        r == is_ascii_text(s@),
{
    let mut i: usize = 0;
    while i < s.len()
        invariant
            i <= s.len(),
            forall|j: int| 0 <= j < i ==> (#[trigger] s@[j]) <= '\u{7f}',
        decreases s.len() - i,
    {
        if s[i] > '\u{7f}' {
            return false;
        }
        i += 1;
    }
    true
}

/// Cuts `s` into its tokens.
pub fn tokenize(s: &str) -> (r: Vec<String>)
    ensures
        r.deep_view() == tokens_of(s@),
{
    let v = chars_of(s);
    if all_ascii(&v) {
        cut_ascii(&v)
    } else {
        match find_each("\\w+(?:'\\w+)?|[^\\w\\s]", s) {
            Some(found) => drop_empty(found),
            None => {
                let r: Vec<String> = Vec::new();
                proof {
                    assert(r.deep_view() =~= Seq::<Seq<char>>::empty());
                }
                r
            },
        }
    }
}

} // verus!
