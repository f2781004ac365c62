//! Source combinations: trees of the set operations that merge the results
//! of the page sources, and the notation they are written in.

use vstd::prelude::*;
use vstd::std_specs::cmp::PartialEqSpecImpl;
use crate::collate::{lowercase, to_lowercase};
use crate::text::{concat, str_eq, trim, trimmed};
use crate::tokens::{tokenize, tokens_of};

verus! {

/// What a combination is, mathematically.
pub enum CombinationView {
    Nothing,
    Source(Seq<char>),
    Intersection(Box<CombinationView>, Box<CombinationView>),
    Union(Box<CombinationView>, Box<CombinationView>),
    Not(Box<CombinationView>, Box<CombinationView>),
}

/// A tree of set operations over named sources. `Not` is the left side
/// without the right side; `Nothing` is what an unreadable text parses to.
#[derive(Debug)]
pub enum Combination {
    Nothing,
    Source(String),
    Intersection((Box<Combination>, Box<Combination>)),
    Union((Box<Combination>, Box<Combination>)),
    Not((Box<Combination>, Box<Combination>)),
}

/// The tree that a combination stands for.
pub open spec fn tree_of(c: Combination) -> CombinationView
    decreases c,
{
    match c {
        Combination::Nothing => CombinationView::Nothing,
        Combination::Source(s) => CombinationView::Source(s@),
        Combination::Intersection((a, b)) => CombinationView::Intersection(
            Box::new(tree_of(*a)),
            Box::new(tree_of(*b)),
        ),
        Combination::Union((a, b)) => CombinationView::Union(
            Box::new(tree_of(*a)),
            Box::new(tree_of(*b)),
        ),
        Combination::Not((a, b)) => CombinationView::Not(
            Box::new(tree_of(*a)),
            Box::new(tree_of(*b)),
        ),
    }
}

impl View for Combination {
    type V = CombinationView;

    open spec fn view(&self) -> CombinationView {
        tree_of(*self)
    }
}

impl Clone for Combination {
    fn clone(&self) -> (r: Self)
        ensures
            r@ == self@,
        decreases self,
    {
        match self {
            Combination::Nothing => Combination::Nothing,
            Combination::Source(s) => Combination::Source(s.clone()),
            Combination::Intersection((a, b)) => Combination::Intersection(
                (Box::new((&**a).clone()), Box::new((&**b).clone())),
            ),
            Combination::Union((a, b)) => Combination::Union(
                (Box::new((&**a).clone()), Box::new((&**b).clone())),
            ),
            Combination::Not((a, b)) => Combination::Not(
                (Box::new((&**a).clone()), Box::new((&**b).clone())),
            ),
        }
    }
}

impl PartialEq for Combination {
    fn eq(&self, other: &Self) -> (r: bool) {
        self.same(other)
    }
}

impl PartialEqSpecImpl for Combination {
    open spec fn obeys_eq_spec() -> bool {
        true
    }

    open spec fn eq_spec(&self, other: &Self) -> bool {
        self@ == other@
    }
}

/// How a combination is written: a source by its name, an operation as
/// `(left OP right)`, and `nothing` for the tree that is none.
pub open spec fn rendered(c: CombinationView) -> Seq<char>
    decreases c,
{
    match c {
        CombinationView::Nothing => "nothing"@,
        CombinationView::Source(s) => s,
        CombinationView::Intersection(a, b) => "("@ + rendered(*a) + " AND "@ + rendered(*b) + ")"@,
        CombinationView::Union(a, b) => "("@ + rendered(*a) + " OR "@ + rendered(*b) + ")"@,
        CombinationView::Not(a, b) => "("@ + rendered(*a) + " NOT "@ + rendered(*b) + ")"@,
    }
}

/// Whether `folded`, a text in lower case, names a source that can stand in a combination.
pub open spec fn is_source_name(folded: Seq<char>) -> bool {
    folded == "categories"@ || folded == "sparql"@ || folded == "manual"@ || folded == "pagepile"@
        || folded == "wikidata"@
}

/// Where the group that opens before position `i` closes, `depth` groups
/// being open at `i`; `None` where it never closes.
pub open spec fn group_end(toks: Seq<Seq<char>>, i: int, depth: int) -> Option<int>
    decreases toks.len() - i,
{
    if i < 0 || i >= toks.len() {
        None
    } else if toks[i] == "("@ {
        group_end(toks, i + 1, depth + 1)
    } else if toks[i] == ")"@ {
        if depth <= 1 {
            Some(i)
        } else {
            group_end(toks, i + 1, depth - 1)
        }
    } else {
        group_end(toks, i + 1, depth)
    }
}

/// The operation that the token `op` names, applied to two trees; none
/// where it names no operation.
pub open spec fn applied(op: Seq<char>, l: CombinationView, r: CombinationView) -> CombinationView {
    let folded = lowercase(trimmed(op));
    if folded == "and"@ {
        CombinationView::Intersection(Box::new(l), Box::new(r))
    } else if folded == "or"@ {
        CombinationView::Union(Box::new(l), Box::new(r))
    } else if folded == "not"@ {
        CombinationView::Not(Box::new(l), Box::new(r))
    } else {
        CombinationView::Nothing
    }
}

/// The tree that a run of tokens denotes. A single token that names a source
/// is that source. Otherwise the run has to be `L op R`, at least three
/// tokens: `L` a group in parentheses, read without them, or a single
/// token; `op` one of AND, OR and NOT in any case; `R` all the tokens that
/// follow. A run that is one group and nothing else is read as what is
/// inside the group.
pub open spec fn parsed_tokens(toks: Seq<Seq<char>>) -> CombinationView
    decreases toks.len(),
{
    if toks.len() == 1 && is_source_name(lowercase(trimmed(toks[0]))) {
        CombinationView::Source(toks[0])
    } else if toks.len() < 3 {
        CombinationView::Nothing
    } else if toks[0] == "("@ {
        match group_end(toks, 0, 0) {
            Some(e) => {
                if 1 <= e < toks.len() {
                    let left = toks.subrange(1, e);
                    let parts = toks.skip(e + 1);
                    if parts.len() == 0 {
                        parsed_tokens(left)
                    } else {
                        applied(parts[0], parsed_tokens(left), parsed_tokens(parts.skip(1)))
                    }
                } else {
                    CombinationView::Nothing
                }
            },
            None => CombinationView::Nothing,
        }
    } else {
        applied(toks[1], parsed_tokens(toks.take(1)), parsed_tokens(toks.skip(2)))
    }
}

/// The tree that the text `s` denotes: a source where the text, trimmed and
/// in lower case, names one; else what its tokens denote, and none where
/// there are fewer than three of them.
pub open spec fn parsed(s: Seq<char>) -> CombinationView {
    let folded = lowercase(trimmed(s));
    if folded.len() == 0 {
        CombinationView::Nothing
    } else if is_source_name(folded) {
        CombinationView::Source(s)
    } else if tokens_of(s).len() < 3 {
        CombinationView::Nothing
    } else {
        parsed_tokens(tokens_of(s))
    }
}

/// Whether `folded`, a text in lower case, names a source that can stand in a combination.
fn names_source(folded: &str) -> (r: bool)
    ensures
        r == is_source_name(folded@),
{
    str_eq(folded, "categories") || str_eq(folded, "sparql") || str_eq(folded, "manual") || str_eq(
        folded,
        "pagepile",
    ) || str_eq(folded, "wikidata")
}

/// The tokens from `from` up to `to`.
fn token_range(toks: &Vec<String>, from: usize, to: usize) -> (r: Vec<String>)
    requires
        from <= to <= toks.len(),
    ensures
        r.deep_view() == toks.deep_view().subrange(from as int, to as int),
        r.len() == to - from,
{
    let mut out: Vec<String> = Vec::new();
    let mut k: usize = from;
    proof {
        assert(out.deep_view() =~= toks.deep_view().subrange(from as int, from as int));
    }
    while k < to
        invariant
            from <= k <= to <= toks.len(),
            out.len() == k - from,
            out.deep_view() == toks.deep_view().subrange(from as int, k as int),
        decreases to - k,
    {
        let ghost before = out.deep_view();
        out.push(toks[k].clone());
        proof {
            assert(out.deep_view() =~= before.push(toks@[k as int]@));
            assert(before.push(toks@[k as int]@) =~= toks.deep_view().subrange(
                from as int,
                k + 1,
            ));
        }
        k += 1;
    }
    out
}

/// Where the group that opens at the first token closes.
fn find_group_end(toks: &Vec<String>) -> (r: Option<usize>)
    ensures
        match r {
            Some(e) => group_end(toks.deep_view(), 0, 0) == Some(e as int) && e < toks.len(),
            None => group_end(toks.deep_view(), 0, 0) is None,
        },
{
    let mut i: usize = 0;
    let mut depth: usize = 0;
    while i < toks.len()
        invariant
            i <= toks.len(),
            depth <= i,
            group_end(toks.deep_view(), i as int, depth as int) == group_end(toks.deep_view(), 0, 0),
        decreases toks.len() - i,
    {
        proof {
            assert(toks.deep_view()[i as int] == toks@[i as int]@);
        }
        if str_eq(toks[i].as_str(), "(") {
            depth += 1;
        } else if str_eq(toks[i].as_str(), ")") {
            if depth <= 1 {
                return Some(i);
            }
            depth -= 1;
        }
        i += 1;
    }
    None
}

impl Combination {
    /// How the combination is written.
    pub fn to_string(&self) -> (r: String)
        ensures
            r@ == rendered(self@),
        decreases self,
    {
        match self {
            Combination::Nothing => String::from_str("nothing"),
            Combination::Source(s) => s.clone(),
            Combination::Intersection((a, b)) => Self::write_operation(
                (&**a).to_string(),
                " AND ",
                (&**b).to_string(),
            ),
            Combination::Union((a, b)) => Self::write_operation(
                (&**a).to_string(),
                " OR ",
                (&**b).to_string(),
            ),
            Combination::Not((a, b)) => Self::write_operation(
                (&**a).to_string(),
                " NOT ",
                (&**b).to_string(),
            ),
        }
    }

    /// `(left op right)`.
    fn write_operation(left: String, op: &str, right: String) -> (r: String)
        ensures
            r@ == "("@ + left@ + op@ + right@ + ")"@,
    {
        let r = String::from_str("(");
        let r = r.concat(left.as_str());
        let r = r.concat(op);
        let r = r.concat(right.as_str());
        r.concat(")")
    }

    /// Whether this is the same tree as `other`.
    pub fn same(&self, other: &Combination) -> (r: bool)
        ensures
            r == (self@ == other@),
        decreases self,
    {
        match (self, other) {
            (Combination::Nothing, Combination::Nothing) => true,
            (Combination::Source(s), Combination::Source(t)) => str_eq(s.as_str(), t.as_str()),
            (Combination::Intersection((a, b)), Combination::Intersection((c, d))) => (&**a).same(
                &**c,
            ) && (&**b).same(&**d),
            (Combination::Union((a, b)), Combination::Union((c, d))) => (&**a).same(&**c) && (
            &**b).same(&**d),
            (Combination::Not((a, b)), Combination::Not((c, d))) => (&**a).same(&**c) && (
            &**b).same(&**d),
            _ => false,
        }
    }

    /// The operation that the token `op` names, applied to two trees.
    fn apply(op: &str, l: Combination, r: Combination) -> (c: Combination)
        ensures
            c@ == applied(op@, l@, r@),
    {
        let folded = to_lowercase(trim(op).as_str());
        if str_eq(folded.as_str(), "and") {
            Combination::Intersection((Box::new(l), Box::new(r)))
        } else if str_eq(folded.as_str(), "or") {
            Combination::Union((Box::new(l), Box::new(r)))
        } else if str_eq(folded.as_str(), "not") {
            Combination::Not((Box::new(l), Box::new(r)))
        } else {
            Combination::Nothing
        }
    }

    /// Reads a run of tokens as a combination.
    pub fn parse_tokens(toks: &Vec<String>) -> (c: Combination)
        ensures
            c@ == parsed_tokens(toks.deep_view()),
        decreases toks.len(),
    {
        proof {
            if toks.len() > 0 {
                assert(toks.deep_view()[0] == toks@[0]@);
            }
            if toks.len() > 1 {
                assert(toks.deep_view()[1] == toks@[1]@);
            }
        }
        if toks.len() == 1 {
            let folded = to_lowercase(trim(toks[0].as_str()).as_str());
            if names_source(folded.as_str()) {
                return Combination::Source(toks[0].clone());
            }
        }
        if toks.len() < 3 {
            return Combination::Nothing;
        }
        if str_eq(toks[0].as_str(), "(") {
            match find_group_end(toks) {
                Some(e) => {
                    if e < 1 {
                        return Combination::Nothing;
                    }
                    let left = token_range(toks, 1, e);
                    let parts = token_range(toks, e + 1, toks.len());
                    proof {
                        assert(toks.deep_view().skip(e + 1) =~= toks.deep_view().subrange(
                            e + 1,
                            toks.len() as int,
                        ));
                    }
                    if parts.len() == 0 {
                        Self::parse_tokens(&left)
                    } else {
                        let rest = token_range(&parts, 1, parts.len());
                        proof {
                            assert(parts.deep_view().skip(1) =~= parts.deep_view().subrange(
                                1,
                                parts.len() as int,
                            ));
                            assert(parts.deep_view()[0] == parts@[0]@);
                        }
                        let l = Self::parse_tokens(&left);
                        let r = Self::parse_tokens(&rest);
                        Self::apply(parts[0].as_str(), l, r)
                    }
                },
                None => Combination::Nothing,
            }
        } else {
            let left = token_range(toks, 0, 1);
            let rest = token_range(toks, 2, toks.len());
            proof {
                assert(toks.deep_view().take(1) =~= toks.deep_view().subrange(0, 1));
                assert(toks.deep_view().skip(2) =~= toks.deep_view().subrange(
                    2,
                    toks.len() as int,
                ));
            }
            let l = Self::parse_tokens(&left);
            let r = Self::parse_tokens(&rest);
            Self::apply(toks[1].as_str(), l, r)
        }
    }

    /// Reads a combination: a source name, or an expression of sources
    /// with the operators AND, OR and NOT and with parentheses. A text that
    /// cannot be read gives `Combination::Nothing`.
    pub fn parse_combination_string(s: &String) -> (c: Combination)
        ensures
            c@ == parsed(s@),
    {
        let folded = to_lowercase(trim(s.as_str()).as_str());
        if folded.as_str().unicode_len() == 0 {
            return Combination::Nothing;
        }
        if names_source(folded.as_str()) {
            return Combination::Source(s.clone());
        }
        let toks = tokenize(s.as_str());
        if toks.len() < 3 {
            return Combination::Nothing;
        }
        Self::parse_tokens(&toks)
    }
}

} // verus!
