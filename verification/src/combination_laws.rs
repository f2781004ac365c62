//! The notation of combinations can be read back.

use vstd::prelude::*;
use crate::collate::{ascii_folded, ascii_lower, is_ascii_text, lowercase};
use crate::combination::{
    applied,
    group_end,
    is_source_name,
    parsed,
    parsed_tokens,
    rendered,
    CombinationView,
};
use crate::text::{is_white_space, lemma_trim_end_at, lemma_trim_start_at, trimmed};
use crate::tokens::{ascii_tokens, is_word_char, lemma_word_len_is, token_len};

verus! {

/// Whether every character of `s` is a small ASCII letter.
pub open spec fn is_small_word(s: Seq<char>) -> bool {
    s.len() > 0 && forall|i: int| 0 <= i < s.len() ==> 'a' <= #[trigger] s[i] <= 'z'
}

/// Whether `c` is an ASCII letter.
pub open spec fn is_letter(c: char) -> bool {
    ('a' <= c && c <= 'z') || ('A' <= c && c <= 'Z')
}

/// Whether `s` is a word of ASCII letters.
pub open spec fn is_letter_word(s: Seq<char>) -> bool {
    s.len() > 0 && forall|i: int| 0 <= i < s.len() ==> is_letter(#[trigger] s[i])
}

/// Whether `s` names a source in any mix of small and capital letters.
pub open spec fn names_source(s: Seq<char>) -> bool {
    is_source_name(ascii_folded(s))
}

/// A name of a source, in any mix of small and capital letters, is a word
/// of letters, and folds to the name.
pub proof fn lemma_leaf_is_word(s: Seq<char>)
    requires
        names_source(s),
    ensures
        is_letter_word(s),
        trimmed(s) == s,
        lowercase(trimmed(s)) == ascii_folded(s),
        is_source_name(lowercase(trimmed(s))),
{
    let f = ascii_folded(s);
    lemma_source_names_are_small(f);
    assert forall|i: int| 0 <= i < s.len() implies is_letter(#[trigger] s[i]) by {
        assert('a' <= f[i] <= 'z');
        assert(f[i] == ascii_lower(s[i]));
    }
    lemma_word_is_trimmed(s);
    assert(is_ascii_text(s));
}

/// The names of the sources are words of small letters.
pub proof fn lemma_source_names_are_small(s: Seq<char>)
    requires
        is_source_name(s),
    ensures
        is_small_word(s),
{
    reveal_strlit("categories");
    reveal_strlit("sparql");
    reveal_strlit("manual");
    reveal_strlit("pagepile");
    reveal_strlit("wikidata");
}

/// A word of letters stays as it is when trimmed.
pub proof fn lemma_word_is_trimmed(s: Seq<char>)
    requires
        is_letter_word(s),
    ensures
        trimmed(s) == s,
{
    assert(!is_white_space(s[0]));
    assert(!is_white_space(s[s.len() - 1]));
    lemma_trim_start_at(s, 0);
    assert(s.skip(0) =~= s);
    lemma_trim_end_at(s, s.len() as int);
    assert(s.take(s.len() as int) =~= s);
}

/// The operators, trimmed and in lower case.
pub proof fn lemma_operators_fold()
    ensures
        lowercase(trimmed("AND"@)) == "and"@,
        lowercase(trimmed("OR"@)) == "or"@,
        lowercase(trimmed("NOT"@)) == "not"@,
        is_letter_word("AND"@),
        is_letter_word("OR"@),
        is_letter_word("NOT"@),
{
    reveal_strlit("AND");
    reveal_strlit("OR");
    reveal_strlit("NOT");
    reveal_strlit("and");
    reveal_strlit("or");
    reveal_strlit("not");
    lemma_word_is_trimmed("AND"@);
    lemma_word_is_trimmed("OR"@);
    lemma_word_is_trimmed("NOT"@);
    assert(is_ascii_text("AND"@));
    assert(is_ascii_text("OR"@));
    assert(is_ascii_text("NOT"@));
    assert(ascii_lower('A') == 'a');
    assert(ascii_lower('N') == 'n');
    assert(ascii_lower('D') == 'd');
    assert(ascii_lower('O') == 'o');
    assert(ascii_lower('R') == 'r');
    assert(ascii_lower('T') == 't');
    assert(lowercase("AND"@) =~= "and"@);
    assert(lowercase("OR"@) =~= "or"@);
    assert(lowercase("NOT"@) =~= "not"@);
}

/// Whether the tree has no empty part and names known sources only, each
/// by its letters in any mix of small and capital ones.
pub open spec fn is_plain(c: CombinationView) -> bool
    decreases c,
{
    match c {
        CombinationView::Nothing => false,
        CombinationView::Source(s) => names_source(s),
        CombinationView::Intersection(a, b) => is_plain(*a) && is_plain(*b),
        CombinationView::Union(a, b) => is_plain(*a) && is_plain(*b),
        CombinationView::Not(a, b) => is_plain(*a) && is_plain(*b),
    }
}

/// The tokens that the notation of a tree is made of.
pub open spec fn token_list(c: CombinationView) -> Seq<Seq<char>>
    decreases c,
{
    match c {
        CombinationView::Nothing => seq!["nothing"@],
        CombinationView::Source(s) => seq![s],
        CombinationView::Intersection(a, b) => seq!["("@] + token_list(*a) + seq!["AND"@]
            + token_list(*b) + seq![")"@],
        CombinationView::Union(a, b) => seq!["("@] + token_list(*a) + seq!["OR"@] + token_list(*b)
            + seq![")"@],
        CombinationView::Not(a, b) => seq!["("@] + token_list(*a) + seq!["NOT"@] + token_list(*b)
            + seq![")"@],
    }
}

/// Whether a text is at its end or goes on with a space or a closing parenthesis.
pub open spec fn ends_word(y: Seq<char>) -> bool {
    y.len() == 0 || y[0] == ' ' || y[0] == ')'
}

/// A word of letters before a space, a parenthesis or the end is one token.
pub proof fn lemma_tokens_word(w: Seq<char>, y: Seq<char>)
    requires
        is_letter_word(w),
        ends_word(y),
    ensures
        ascii_tokens(w + y) == seq![w] + ascii_tokens(y),
{
    let s = w + y;
    let n = w.len() as int;
    assert forall|j: int| 0 <= j < n implies is_word_char(#[trigger] s[j]) by {
        assert(s[j] == w[j]);
    }
    if n < s.len() {
        assert(s[n] == y[0]);
    }
    lemma_word_len_is(s, n);
    assert(token_len(s) == n);
    assert(s[0] == w[0]);
    assert(s.take(n) =~= w);
    assert(s.skip(n) =~= y);
}

/// A parenthesis is a token by itself.
pub proof fn lemma_tokens_sign(c: char, y: Seq<char>)
    requires
        c == '(' || c == ')',
    ensures
        ascii_tokens(seq![c] + y) == seq![seq![c]] + ascii_tokens(y),
{
    let s = seq![c] + y;
    assert(s[0] == c);
    assert(s.take(1) =~= seq![c]);
    assert(s.skip(1) =~= y);
}

/// A space belongs to no token.
pub proof fn lemma_tokens_space(y: Seq<char>)
    ensures
        ascii_tokens(seq![' '] + y) == ascii_tokens(y),
{
    let s = seq![' '] + y;
    assert(s[0] == ' ');
    assert(s.skip(1) =~= y);
}

/// The operator of a tree, as it is written.
pub open spec fn operator_of(c: CombinationView) -> Seq<char> {
    match c {
        CombinationView::Intersection(_, _) => "AND"@,
        CombinationView::Union(_, _) => "OR"@,
        CombinationView::Not(_, _) => "NOT"@,
        _ => Seq::<char>::empty(),
    }
}

/// The left side of an operation.
pub open spec fn left_of(c: CombinationView) -> CombinationView {
    match c {
        CombinationView::Intersection(a, _) => *a,
        CombinationView::Union(a, _) => *a,
        CombinationView::Not(a, _) => *a,
        _ => CombinationView::Nothing,
    }
}

/// The right side of an operation.
pub open spec fn right_of(c: CombinationView) -> CombinationView {
    match c {
        CombinationView::Intersection(_, b) => *b,
        CombinationView::Union(_, b) => *b,
        CombinationView::Not(_, b) => *b,
        _ => CombinationView::Nothing,
    }
}

/// Whether the tree is an operation.
pub open spec fn is_operation(c: CombinationView) -> bool {
    c is Intersection || c is Union || c is Not
}

/// How an operation is written, piece by piece.
pub proof fn lemma_rendered_operation(c: CombinationView)
    requires
        is_operation(c),
    ensures
        rendered(c) == seq!['('] + (rendered(left_of(c)) + (seq![' '] + (operator_of(c) + (seq![' ']
            + (rendered(right_of(c)) + seq![')']))))),
        token_list(c) == seq![seq!['(']] + token_list(left_of(c)) + seq![operator_of(c)]
            + token_list(right_of(c)) + seq![seq![')']],
{
    reveal_strlit("(");
    reveal_strlit(")");
    reveal_strlit(" AND ");
    reveal_strlit(" OR ");
    reveal_strlit(" NOT ");
    reveal_strlit("AND");
    reveal_strlit("OR");
    reveal_strlit("NOT");
    assert("("@ =~= seq!['(']);
    assert(")"@ =~= seq![')']);
    assert(" AND "@ =~= seq![' '] + ("AND"@ + seq![' ']));
    assert(" OR "@ =~= seq![' '] + ("OR"@ + seq![' ']));
    assert(" NOT "@ =~= seq![' '] + ("NOT"@ + seq![' ']));
    let a = rendered(left_of(c));
    let b = rendered(right_of(c));
    let op = operator_of(c);
    assert(seq!['('] + a + (seq![' '] + (op + seq![' '])) + b + seq![')'] =~= seq!['('] + (a + (
    seq![' '] + (op + (seq![' '] + (b + seq![')']))))));
}

/// The tokens of `(a op b)` followed by `y`, given those of `a` and of `b`
/// before what follows them.
proof fn lemma_tokens_chain(
    ar: Seq<char>,
    at: Seq<Seq<char>>,
    br: Seq<char>,
    bt: Seq<Seq<char>>,
    op: Seq<char>,
    y: Seq<char>,
)
    requires
        is_letter_word(op),
        ascii_tokens(ar + (seq![' '] + (op + (seq![' '] + (br + (seq![')'] + y)))))) == at
            + ascii_tokens(seq![' '] + (op + (seq![' '] + (br + (seq![')'] + y))))),
        ascii_tokens(br + (seq![')'] + y)) == bt + ascii_tokens(seq![')'] + y),
    ensures
        ascii_tokens(seq!['('] + (ar + (seq![' '] + (op + (seq![' '] + (br + (seq![')'] + y)))))))
            == seq![seq!['(']] + (at + (seq![op] + (bt + (seq![seq![')']] + ascii_tokens(y))))),
{
    let y5 = seq![')'] + y;
    let y4 = br + y5;
    let y3 = seq![' '] + y4;
    let y2 = op + y3;
    let y1 = seq![' '] + y2;
    let y0 = ar + y1;
    lemma_tokens_sign('(', y0);
    assert(ascii_tokens(seq!['('] + y0) == seq![seq!['(']] + ascii_tokens(y0));
    assert(ascii_tokens(y0) == at + ascii_tokens(y1));
    lemma_tokens_space(y2);
    assert(ascii_tokens(y1) == ascii_tokens(y2));
    assert(y3[0] == ' ');
    lemma_tokens_word(op, y3);
    assert(ascii_tokens(y2) == seq![op] + ascii_tokens(y3));
    lemma_tokens_space(y4);
    assert(ascii_tokens(y3) == ascii_tokens(y4));
    assert(ascii_tokens(y4) == bt + ascii_tokens(y5));
    lemma_tokens_sign(')', y);
    assert(ascii_tokens(y5) == seq![seq![')']] + ascii_tokens(y));
}

/// The notation of a plain tree, followed by the end of a word, is cut into
/// the tokens it was made of.
pub proof fn lemma_tokens_of_rendered(c: CombinationView, y: Seq<char>)
    requires
        is_plain(c),
        ends_word(y),
    ensures
        ascii_tokens(rendered(c) + y) == token_list(c) + ascii_tokens(y),
    decreases c,
{
    match c {
        CombinationView::Source(s) => {
            lemma_leaf_is_word(s);
            lemma_tokens_word(s, y);
        },
        CombinationView::Nothing => {},
        _ => {
            let a = left_of(c);
            let b = right_of(c);
            let op = operator_of(c);
            let y5 = seq![')'] + y;
            let y1 = seq![' '] + (op + (seq![' '] + (rendered(b) + y5)));
            assert(y1[0] == ' ');
            assert(y5[0] == ')');
            lemma_tokens_of_rendered(a, y1);
            lemma_tokens_of_rendered(b, y5);
            lemma_operators_fold();
            lemma_tokens_chain(rendered(a), token_list(a), rendered(b), token_list(b), op, y);
            lemma_rendered_pieces(c, y);
        },
    }
}

/// An operation's notation and tokens, with what follows them, piece by piece.
proof fn lemma_rendered_pieces(c: CombinationView, y: Seq<char>)
    requires
        is_operation(c),
    ensures
        rendered(c) + y == seq!['('] + (rendered(left_of(c)) + (seq![' '] + (operator_of(c) + (seq![
            ' ',
        ] + (rendered(right_of(c)) + (seq![')'] + y)))))),
        token_list(c) + ascii_tokens(y) == seq![seq!['(']] + (token_list(left_of(c)) + (seq![
            operator_of(c),
        ] + (token_list(right_of(c)) + (seq![seq![')']] + ascii_tokens(y))))),
{
    lemma_rendered_operation(c);
    let a = rendered(left_of(c));
    let b = rendered(right_of(c));
    let op = operator_of(c);
    assert(seq!['('] + (a + (seq![' '] + (op + (seq![' '] + (b + seq![')']))))) + y =~= seq!['(']
        + (a + (seq![' '] + (op + (seq![' '] + (b + (seq![')'] + y)))))));
    let at = token_list(left_of(c));
    let bt = token_list(right_of(c));
    let rest = ascii_tokens(y);
    assert(seq![seq!['(']] + at + seq![op] + bt + seq![seq![')']] + rest =~= seq![seq!['(']] + (at
        + (seq![op] + (bt + (seq![seq![')']] + rest)))));
}

/// The tokens inside the parentheses of an operation.
pub open spec fn inner_tokens(c: CombinationView) -> Seq<Seq<char>> {
    token_list(left_of(c)) + seq![operator_of(c)] + token_list(right_of(c))
}

/// The tokens of an operation are a parenthesis, the tokens inside, and a parenthesis.
proof fn lemma_token_list_shape(c: CombinationView)
    requires
        is_plain(c),
    ensures
        token_list(c).len() >= 1,
        is_operation(c) ==> token_list(c) == seq![seq!['(']] + inner_tokens(c) + seq![seq![')']]
            && token_list(c).len() == inner_tokens(c).len() + 2 && inner_tokens(c).len()
            == token_list(left_of(c)).len() + 1 + token_list(right_of(c)).len() && is_plain(
            left_of(c),
        ) && is_plain(right_of(c)) && is_letter_word(operator_of(c)),
        !is_operation(c) ==> c is Source && token_list(c) == seq![c->Source_0] && is_letter_word(
            c->Source_0,
        ),
    decreases c,
{
    if is_operation(c) {
        lemma_rendered_operation(c);
        lemma_operators_fold();
        lemma_token_list_shape(left_of(c));
        lemma_token_list_shape(right_of(c));
        let at = token_list(left_of(c));
        let bt = token_list(right_of(c));
        let op = operator_of(c);
        assert(seq![seq!['(']] + at + seq![op] + bt + seq![seq![')']] =~= seq![seq!['(']] + (at
            + seq![op] + bt) + seq![seq![')']]);
    } else {
        lemma_leaf_is_word(c->Source_0);
    }
}

/// A word of letters is no parenthesis.
proof fn lemma_word_is_no_sign(w: Seq<char>)
    requires
        is_letter_word(w),
    ensures
        w != "("@,
        w != ")"@,
{
    reveal_strlit("(");
    reveal_strlit(")");
    assert("("@[0] == '(');
    assert(")"@[0] == ')');
    assert(w[0] != '(' && w[0] != ')');
}

/// The parentheses as tokens.
proof fn lemma_signs()
    ensures
        "("@ == seq!['('],
        ")"@ == seq![')'],
        "("@ != ")"@,
{
    reveal_strlit("(");
    reveal_strlit(")");
    assert("("@ =~= seq!['(']);
    assert(")"@ =~= seq![')']);
    assert("("@[0] != ")"@[0]);
}

/// Inside a group, the search for the group's end passes over the tokens of
/// a plain tree.
proof fn lemma_scan(c: CombinationView, toks: Seq<Seq<char>>, i: int, d: int)
    requires
        is_plain(c),
        0 <= i,
        i + token_list(c).len() <= toks.len(),
        toks.subrange(i, i + token_list(c).len()) == token_list(c),
        d >= 1,
    ensures
        group_end(toks, i, d) == group_end(toks, i + token_list(c).len(), d),
    decreases c,
{
    lemma_token_list_shape(c);
    lemma_signs();
    let tl = token_list(c);
    let n = tl.len() as int;
    assert forall|k: int| 0 <= k < n implies toks[i + k] == tl[k] by {
        assert(toks.subrange(i, i + n)[k] == toks[i + k]);
    }
    if is_operation(c) {
        let a = left_of(c);
        let b = right_of(c);
        let na = token_list(a).len() as int;
        let nb = token_list(b).len() as int;
        assert(toks[i] == tl[0]);
        assert(tl[0] == "("@);
        assert(toks.subrange(i + 1, i + 1 + na) =~= token_list(a)) by {
            assert forall|k: int| 0 <= k < na implies toks.subrange(i + 1, i + 1 + na)[k]
                == token_list(a)[k] by {
                assert(toks[i + 1 + k] == tl[1 + k]);
            }
        }
        lemma_scan(a, toks, i + 1, d + 1);
        assert(toks[i + 1 + na] == tl[1 + na]);
        assert(tl[1 + na] == operator_of(c));
        lemma_word_is_no_sign(operator_of(c));
        assert(toks.subrange(i + 2 + na, i + 2 + na + nb) =~= token_list(b)) by {
            assert forall|k: int| 0 <= k < nb implies toks.subrange(i + 2 + na, i + 2 + na + nb)[k]
                == token_list(b)[k] by {
                assert(toks[i + 2 + na + k] == tl[2 + na + k]);
            }
        }
        lemma_scan(b, toks, i + 2 + na, d + 1);
        assert(toks[i + 2 + na + nb] == tl[2 + na + nb]);
        assert(tl[2 + na + nb] == ")"@);
        assert(group_end(toks, i, d) == group_end(toks, i + 1, d + 1));
        assert(group_end(toks, i + 1 + na, d + 1) == group_end(toks, i + 2 + na, d + 1));
        assert(group_end(toks, i + 2 + na + nb, d + 1) == group_end(toks, i + 3 + na + nb, d));
    } else {
        assert(toks[i] == tl[0]);
        lemma_word_is_no_sign(c->Source_0);
    }
}

/// A run of tokens that starts with the tokens of an operation has its
/// first group closed by the operation's last token.
proof fn lemma_close(c: CombinationView, toks: Seq<Seq<char>>)
    requires
        is_plain(c),
        is_operation(c),
        token_list(c).len() <= toks.len(),
        toks.subrange(0, token_list(c).len() as int) == token_list(c),
    ensures
        group_end(toks, 0, 0) == Some(token_list(c).len() - 1),
{
    lemma_token_list_shape(c);
    lemma_signs();
    let tl = token_list(c);
    let n = tl.len() as int;
    assert forall|k: int| 0 <= k < n implies toks[k] == tl[k] by {
        assert(toks.subrange(0, n)[k] == toks[k]);
    }
    let a = left_of(c);
    let b = right_of(c);
    let na = token_list(a).len() as int;
    let nb = token_list(b).len() as int;
    assert(toks[0] == tl[0]);
    assert(tl[0] == "("@);
    assert(toks.subrange(1, 1 + na) =~= token_list(a)) by {
        assert forall|k: int| 0 <= k < na implies toks.subrange(1, 1 + na)[k] == token_list(a)[k] by {
            assert(toks[1 + k] == tl[1 + k]);
        }
    }
    lemma_scan(a, toks, 1, 1);
    assert(toks[1 + na] == tl[1 + na]);
    assert(tl[1 + na] == operator_of(c));
    lemma_word_is_no_sign(operator_of(c));
    assert(toks.subrange(2 + na, 2 + na + nb) =~= token_list(b)) by {
        assert forall|k: int| 0 <= k < nb implies toks.subrange(2 + na, 2 + na + nb)[k]
            == token_list(b)[k] by {
            assert(toks[2 + na + k] == tl[2 + na + k]);
        }
    }
    lemma_scan(b, toks, 2 + na, 1);
    assert(toks[2 + na + nb] == tl[2 + na + nb]);
    assert(tl[2 + na + nb] == ")"@);
    assert(group_end(toks, 0, 0) == group_end(toks, 1, 1));
    assert(group_end(toks, 1 + na, 1) == group_end(toks, 2 + na, 1));
    assert(group_end(toks, 2 + na + nb, 1) == Some(2 + na + nb));
}

/// The operator of an operation, applied to its sides, gives the operation.
proof fn lemma_applied(c: CombinationView)
    requires
        is_operation(c),
    ensures
        applied(operator_of(c), left_of(c), right_of(c)) == c,
{
    lemma_operators_fold();
    reveal_strlit("and");
    reveal_strlit("or");
    reveal_strlit("not");
    assert("and"@.len() == 3 && "or"@.len() == 2 && "not"@.len() == 3);
    assert("and"@[0] != "not"@[0]);
}

/// The tokens inside an operation's parentheses are read as the operation.
proof fn lemma_parse_inner(c: CombinationView)
    requires
        is_plain(c),
        is_operation(c),
        parsed_tokens(token_list(left_of(c))) == left_of(c),
        parsed_tokens(token_list(right_of(c))) == right_of(c),
        is_operation(left_of(c)) ==> parsed_tokens(inner_tokens(left_of(c))) == left_of(c),
    ensures
        parsed_tokens(inner_tokens(c)) == c,
{
    let a = left_of(c);
    let b = right_of(c);
    let op = operator_of(c);
    let at = token_list(a);
    let bt = token_list(b);
    let x = inner_tokens(c);
    lemma_token_list_shape(c);
    lemma_token_list_shape(a);
    lemma_token_list_shape(b);
    lemma_signs();
    lemma_applied(c);
    let na = at.len() as int;
    assert(x.len() == na + 1 + bt.len());
    assert(x.len() >= 3);
    assert(x[0] == at[0]);
    if is_operation(a) {
        assert(x[0] == "("@);
        assert(x.subrange(0, na) =~= at);
        lemma_close(a, x);
        let e = na - 1;
        assert(x.subrange(1, e) =~= inner_tokens(a)) by {
            assert(at =~= seq![seq!['(']] + inner_tokens(a) + seq![seq![')']]);
            assert forall|k: int| 0 <= k < e - 1 implies x.subrange(1, e)[k] == inner_tokens(a)[k] by {
                assert(x[1 + k] == at[1 + k]);
            }
        }
        let parts = x.skip(e + 1);
        assert(parts =~= seq![op] + bt);
        assert(parts[0] == op);
        assert(parts.skip(1) =~= bt);
    } else {
        lemma_word_is_no_sign(a->Source_0);
        assert(x[0] == a->Source_0);
        assert(x[1] == op);
        assert(x.take(1) =~= at);
        assert(x.skip(2) =~= bt);
    }
}

/// The tokens of an operation are read as the operation, given that the
/// tokens inside its parentheses are.
proof fn lemma_parse_group(c: CombinationView)
    requires
        is_plain(c),
        is_operation(c),
        parsed_tokens(inner_tokens(c)) == c,
    ensures
        parsed_tokens(token_list(c)) == c,
{
    lemma_token_list_shape(c);
    lemma_signs();
    let t = token_list(c);
    let x = inner_tokens(c);
    assert(t.subrange(0, t.len() as int) =~= t);
    lemma_close(c, t);
    let e = t.len() - 1;
    assert(t[0] == "("@);
    assert(t.subrange(1, e) =~= x);
    assert(t.skip(e + 1).len() == 0);
}

/// The tokens of a plain tree are read as the tree.
pub proof fn lemma_parse_tokens(c: CombinationView)
    requires
        is_plain(c),
    ensures
        parsed_tokens(token_list(c)) == c,
        is_operation(c) ==> parsed_tokens(inner_tokens(c)) == c,
    decreases c,
{
    lemma_token_list_shape(c);
    if is_operation(c) {
        lemma_parse_tokens(left_of(c));
        lemma_parse_tokens(right_of(c));
        lemma_parse_inner(c);
        lemma_parse_group(c);
    } else {
        lemma_leaf_is_word(c->Source_0);
    }
}

/// The notation of a plain tree is an ASCII text.
proof fn lemma_rendered_is_ascii(c: CombinationView)
    requires
        is_plain(c),
    ensures
        is_ascii_text(rendered(c)),
        rendered(c).len() > 0,
        is_operation(c) ==> rendered(c)[0] == '(' && rendered(c).last() == ')',
    decreases c,
{
    lemma_token_list_shape(c);
    if is_operation(c) {
        lemma_rendered_operation(c);
        lemma_rendered_is_ascii(left_of(c));
        lemma_rendered_is_ascii(right_of(c));
        let a = rendered(left_of(c));
        let b = rendered(right_of(c));
        let op = operator_of(c);
        let r = rendered(c);
        let rest = a + (seq![' '] + (op + (seq![' '] + (b + seq![')']))));
        assert(r == seq!['('] + rest);
        assert forall|i: int| 0 <= i < rest.len() implies (#[trigger] rest[i]) <= '\u{7f}' by {
            if i < a.len() {
                assert(rest[i] == a[i]);
            } else if i == a.len() {
            } else if i < a.len() + 1 + op.len() {
                assert(rest[i] == op[i - a.len() - 1]);
            } else if i == a.len() + 1 + op.len() {
            } else if i < a.len() + 2 + op.len() + b.len() {
                assert(rest[i] == b[i - a.len() - 2 - op.len()]);
            } else {
            }
        }
        assert forall|i: int| 0 <= i < r.len() implies (#[trigger] r[i]) <= '\u{7f}' by {
            if i > 0 {
                assert(r[i] == rest[i - 1]);
            }
        }
        assert(r.last() == rest[rest.len() - 1]);
    }
}

/// Whether a tree, written out, is read back as it is: a tree without an
/// empty part over the known sources, or a single source whose text,
/// trimmed and in lower case, is a known name.
pub open spec fn reads_back(c: CombinationView) -> bool {
    is_plain(c) || (c is Source && is_source_name(lowercase(trimmed(c->Source_0))))
}

/// A tree without an empty part, over the known sources, written out and
/// read back, is the same tree.
pub proof fn lemma_round_trip(c: CombinationView)
    requires
        reads_back(c),
    ensures
        parsed(rendered(c)) == c,
{
    if is_operation(c) {
        lemma_token_list_shape(c);
        let r = rendered(c);
        lemma_rendered_is_ascii(c);
        assert(!is_white_space(r[0]));
        assert(!is_white_space(r[r.len() - 1]));
        lemma_trim_start_at(r, 0);
        assert(r.skip(0) =~= r);
        lemma_trim_end_at(r, r.len() as int);
        assert(r.take(r.len() as int) =~= r);
        let folded = lowercase(trimmed(r));
        assert(folded[0] == '(');
        assert(!is_source_name(folded)) by {
            if is_source_name(folded) {
                lemma_source_names_are_small(folded);
            }
        }
        lemma_tokens_of_rendered(c, Seq::<char>::empty());
        assert(r + Seq::<char>::empty() =~= r);
        assert(token_list(c) + ascii_tokens(Seq::<char>::empty()) =~= token_list(c));
        lemma_parse_tokens(c);
    } else {
        if is_plain(c) {
            lemma_leaf_is_word(c->Source_0);
        }
        let folded = lowercase(trimmed(c->Source_0));
        lemma_source_names_are_small(folded);
    }
}

} // verus!
