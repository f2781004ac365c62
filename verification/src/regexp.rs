//! Matching texts against a regular expression.

use vstd::prelude::*;

verus! {

/// Whether `regex::Regex::new` accepts `pattern`.
pub uninterp spec fn regex_compiles(pattern: Seq<char>) -> bool;

/// Whether the regular expression `pattern` matches somewhere in `text`, as
/// `regex::Regex::is_match` reports it.
pub uninterp spec fn regex_matches(pattern: Seq<char>, text: Seq<char>) -> bool;

/// `regex::Regex::new` on `pattern`, then `regex::Regex::is_match` on each
/// text: `None` where the pattern is refused, else for each text whether the
/// expression matches in it.
#[verifier::external_body]
pub(crate) fn match_each(pattern: &str, texts: &Vec<String>) -> (r: Option<Vec<bool>>)
    ensures
        r is Some == regex_compiles(pattern@),
        r is Some ==> r->Some_0.len() == texts.len() && forall|i: int|
            0 <= i < texts.len() ==> #[trigger] r->Some_0[i] == regex_matches(pattern@, texts[i]@),
{
    match regex::Regex::new(pattern) {
        Ok(re) => Some(texts.iter().map(|t| re.is_match(t.as_str())).collect()),
        Err(_) => None,
    }
}

/// The matches of the regular expression `pattern` in `text`, from left to
/// right and not overlapping, as `regex::Regex::find_iter` yields them.
pub uninterp spec fn regex_found(pattern: Seq<char>, text: Seq<char>) -> Seq<Seq<char>>;

/// `regex::Regex::new` on `pattern`, then `regex::Regex::find_iter` on
/// `text`: `None` where the pattern is refused, else the matched texts.
#[verifier::external_body]
pub(crate) fn find_each(pattern: &str, text: &str) -> (r: Option<Vec<String>>)
    ensures
        r is Some == regex_compiles(pattern@),
        r is Some ==> r->Some_0.deep_view() == regex_found(pattern@, text@),
{
    match regex::Regex::new(pattern) {
        Ok(re) => Some(re.find_iter(text).map(|m| m.as_str().to_string()).collect()),
        Err(_) => None,
    }
}

} // verus!
