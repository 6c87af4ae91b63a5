use vstd::prelude::*;

use crate::lexer::{
    atom_end, is_digit, lemma_atom_end_bounds, lemma_lower_end_bounds, is_lower, is_upper, lemma_skip_bounds, lemma_step_advances, lower_end,
    scan, skip, step, tokenize, Step, TokenStream,
};
use crate::node::ClauseView;
use crate::parser::{read_clause, read_program, ParseFault};
use crate::token::TokenView;

verus! {

/// Text of the form `[a-z][a-z0-9]*`.
pub open spec fn is_atom_text(s: Seq<char>) -> bool {
    &&& s.len() > 0
    &&& is_lower(s[0])
    &&& forall|i: int| 1 <= i < s.len() ==> is_lower(#[trigger] s[i]) || is_digit(s[i])
}

/// Text of the form `[A-Z][a-z]*`.
pub open spec fn is_variable_text(s: Seq<char>) -> bool {
    &&& s.len() > 0
    &&& is_upper(s[0])
    &&& forall|i: int| 1 <= i < s.len() ==> is_lower(#[trigger] s[i])
}

/// A comment: `%`, then text without a newline, then at most one newline.
pub open spec fn is_comment(t: Seq<char>) -> bool {
    &&& t.len() > 0
    &&& t[0] == '%'
    &&& forall|i: int| 0 <= i < t.len() - 1 ==> #[trigger] t[i] != '\n'
}

proof fn lemma_atom_run(s: Seq<char>, i: int)
    requires
        is_atom_text(s),
        1 <= i <= s.len(),
    ensures
        atom_end(s, i) == s.len(),
    decreases s.len() - i,
{
    if i < s.len() {
        lemma_atom_run(s, i + 1);
    }
}

proof fn lemma_lower_run(s: Seq<char>, i: int)
    requires
        is_variable_text(s),
        1 <= i <= s.len(),
    ensures
        lower_end(s, i) == s.len(),
    decreases s.len() - i,
{
    if i < s.len() {
        lemma_lower_run(s, i + 1);
    }
}

/// The text of one atom reads as exactly that atom, and the text of one
/// variable as exactly that variable.
pub proof fn single_identifier_is_one_token(s: Seq<char>)
    ensures
        is_atom_text(s) ==> tokenize(s) == (TokenStream {
            tokens: seq![TokenView::Atom(s)],
            fault: None,
        }),
        is_variable_text(s) ==> tokenize(s) == (TokenStream {
            tokens: seq![TokenView::Variable(s)],
            fault: None,
        }),
{
    if is_atom_text(s) {
        lemma_atom_run(s, 1);
        assert(atom_end(s, 0) == atom_end(s, 1));
        assert(s.subrange(0, s.len() as int) =~= s);
        assert(skip(s, s.len() as int, false) == s.len());
        assert(scan(s, s.len() as int).tokens =~= seq![]);
        assert(tokenize(s).tokens =~= seq![TokenView::Atom(s)]);
    }
    if is_variable_text(s) {
        lemma_lower_run(s, 1);
        assert(s.subrange(0, s.len() as int) =~= s);
        assert(skip(s, s.len() as int, false) == s.len());
        assert(tokenize(s).tokens =~= seq![TokenView::Variable(s)]);
    }
}

/// Inside a trailing comment, reading runs to the end of the text.
proof fn lemma_skip_in_comment(s: Seq<char>, t: Seq<char>, j: int)
    requires
        is_comment(t),
        s.len() <= j <= s.len() + t.len(),
    ensures
        skip(s + t, j, true) == s.len() + t.len(),
    decreases s.len() + t.len() - j,
{
    let u = s + t;
    if j < u.len() {
        lemma_skip_in_comment(s, t, j + 1);
        if j < u.len() - 1 {
            assert(u[j] == t[j - s.len()]);
            assert(t[j - s.len()] != '\n');
        }
        assert(skip(u, u.len() as int, false) == u.len());
    }
}

/// Skipping through `s` is unchanged by a trailing comment, except that a
/// skip that reaches the end of `s` goes on to the end of the comment.
proof fn lemma_skip_with_comment(s: Seq<char>, t: Seq<char>, i: int, in_comment: bool)
    requires
        is_comment(t),
        0 <= i <= s.len(),
    ensures
        skip(s, i, in_comment) < s.len() ==> skip(s + t, i, in_comment) == skip(s, i, in_comment),
        skip(s, i, in_comment) >= s.len() ==> skip(s + t, i, in_comment) == s.len() + t.len(),
    decreases s.len() - i,
{
    let u = s + t;
    if i < s.len() {
        assert(u[i] == s[i]);
        if in_comment {
            lemma_skip_with_comment(s, t, i + 1, s[i] != '\n');
        } else if s[i] == ' ' || s[i] == '\n' || s[i] == '%' {
            lemma_skip_with_comment(s, t, i + 1, s[i] == '%');
        }
    } else {
        assert(u[i] == t[0]);
        lemma_skip_in_comment(s, t, i + 1);
        lemma_skip_in_comment(s, t, i);
    }
}

proof fn lemma_atom_end_with_comment(s: Seq<char>, t: Seq<char>, i: int)
    requires
        is_comment(t),
        0 <= i <= s.len(),
    ensures
        atom_end(s + t, i) == atom_end(s, i),
    decreases s.len() - i,
{
    let u = s + t;
    if i < s.len() {
        assert(u[i] == s[i]);
        lemma_atom_end_with_comment(s, t, i + 1);
    } else {
        assert(u[i] == t[0]);
    }
}

proof fn lemma_lower_end_with_comment(s: Seq<char>, t: Seq<char>, i: int)
    requires
        is_comment(t),
        0 <= i <= s.len(),
    ensures
        lower_end(s + t, i) == lower_end(s, i),
    decreases s.len() - i,
{
    let u = s + t;
    if i < s.len() {
        assert(u[i] == s[i]);
        lemma_lower_end_with_comment(s, t, i + 1);
    } else {
        assert(u[i] == t[0]);
    }
}

proof fn lemma_step_with_comment(s: Seq<char>, t: Seq<char>, i: int)
    requires
        is_comment(t),
        0 <= i <= s.len(),
    ensures
        step(s + t, i) == step(s, i),
{
    let u = s + t;
    let q = skip(s, i, false);
    lemma_skip_bounds(s, i, false);
    lemma_skip_with_comment(s, t, i, false);
    if q < s.len() {
        assert(u[q] == s[q]);
        lemma_atom_end_with_comment(s, t, q);
        lemma_lower_end_with_comment(s, t, q + 1);
        lemma_atom_end_bounds(s, q);
        lemma_lower_end_bounds(s, q + 1);
        assert(u.subrange(q, atom_end(s, q)) =~= s.subrange(q, atom_end(s, q)));
        assert(u.subrange(q, lower_end(s, q + 1)) =~= s.subrange(q, lower_end(s, q + 1)));
        if q + 1 < s.len() {
            assert(u[q + 1] == s[q + 1]);
        } else {
            assert(u[q + 1] == t[0]);
        }
    }
}

proof fn lemma_scan_with_comment(s: Seq<char>, t: Seq<char>, i: int)
    requires
        is_comment(t),
        0 <= i <= s.len(),
    ensures
        scan(s + t, i) == scan(s, i),
    decreases s.len() - i,
{
    lemma_step_with_comment(s, t, i);
    lemma_step_advances(s, i);
    if let Step::Found(_, j) = step(s, i) {
        lemma_scan_with_comment(s, t, j);
    }
}

/// A comment at the end of a line changes nothing of what the line reads
/// as; a line holding only a comment holds no clause.
pub proof fn trailing_comment_is_ignored(s: Seq<char>, t: Seq<char>)
    requires
        is_comment(t),
    ensures
        tokenize(s + t) == tokenize(s),
        read_clause(tokenize(s + t)) == read_clause(tokenize(s)),
        read_program(tokenize(s + t)) == read_program(tokenize(s)),
        read_clause(tokenize(t)) == Ok::<Option<(ClauseView, TokenStream)>, ParseFault>(None),
        read_program(tokenize(t)) == Ok::<Seq<ClauseView>, ParseFault>(seq![]),
{
    lemma_scan_with_comment(s, t, 0);
    let e = Seq::<char>::empty();
    lemma_scan_with_comment(e, t, 0);
    assert(e + t =~= t);
}

/// Text that a token of its kind may carry: `[a-z][a-z0-9]*` for an atom,
/// `[A-Z][a-z]*` for a variable, one of the five operators for an operator.
pub open spec fn is_well_formed(t: TokenView) -> bool {
    match t {
        TokenView::Atom(a) => is_atom_text(a),
        TokenView::Variable(v) => is_variable_text(v),
        TokenView::Op(o) => o == seq!['('] || o == seq![')'] || o == seq![','] || o == seq!['.']
            || o == seq![':', '-'],
    }
}

proof fn lemma_atom_end_run(s: Seq<char>, i: int)
    requires
        0 <= i,
    ensures
        forall|k: int| i <= k < atom_end(s, i) ==> is_lower(#[trigger] s[k]) || is_digit(s[k]),
    decreases s.len() - i,
{
    if 0 <= i < s.len() && (is_lower(s[i]) || is_digit(s[i])) {
        lemma_atom_end_run(s, i + 1);
    }
}

proof fn lemma_lower_end_run(s: Seq<char>, i: int)
    requires
        0 <= i,
    ensures
        forall|k: int| i <= k < lower_end(s, i) ==> is_lower(#[trigger] s[k]),
    decreases s.len() - i,
{
    if 0 <= i < s.len() && is_lower(s[i]) {
        lemma_lower_end_run(s, i + 1);
    }
}

proof fn lemma_step_well_formed(s: Seq<char>, i: int)
    requires
        0 <= i,
    ensures
        step(s, i) matches Step::Found(t, _) ==> is_well_formed(t),
{
    let q = skip(s, i, false);
    lemma_skip_bounds(s, i, false);
    if 0 <= q < s.len() {
        let c = s[q];
        if is_lower(c) {
            lemma_atom_end_run(s, q);
            lemma_atom_end_bounds(s, q + 1);
            assert(atom_end(s, q) == atom_end(s, q + 1));
            let a = s.subrange(q, atom_end(s, q));
            assert(a[0] == c);
            assert forall|k: int| 1 <= k < a.len() implies is_lower(#[trigger] a[k]) || is_digit(
                a[k],
            ) by {
                assert(a[k] == s[q + k]);
            }
        } else if is_upper(c) {
            lemma_lower_end_run(s, q + 1);
            lemma_lower_end_bounds(s, q + 1);
            let v = s.subrange(q, lower_end(s, q + 1));
            assert(v[0] == c);
            assert forall|k: int| 1 <= k < v.len() implies is_lower(#[trigger] v[k]) by {
                assert(v[k] == s[q + k]);
            }
        }
    }
}

proof fn lemma_scan_well_formed(s: Seq<char>, i: int)
    requires
        0 <= i,
    ensures
        forall|k: int| 0 <= k < scan(s, i).tokens.len() ==> is_well_formed(
            #[trigger] scan(s, i).tokens[k],
        ),
    decreases s.len() - i,
{
    lemma_step_well_formed(s, i);
    lemma_step_advances(s, i);
    if let Step::Found(t, j) = step(s, i) {
        lemma_scan_well_formed(s, j);
        let rest = scan(s, j).tokens;
        assert forall|k: int| 0 <= k < scan(s, i).tokens.len() implies is_well_formed(
            #[trigger] scan(s, i).tokens[k],
        ) by {
            if k > 0 {
                assert(scan(s, i).tokens[k] == rest[k - 1]);
            }
        }
    }
}

/// Every token read from any text carries well-formed text for its kind.
pub proof fn tokens_are_well_formed(s: Seq<char>)
    ensures
        forall|k: int| 0 <= k < tokenize(s).tokens.len() ==> is_well_formed(
            #[trigger] tokenize(s).tokens[k],
        ),
{
    lemma_scan_well_formed(s, 0);
}

} // verus!
