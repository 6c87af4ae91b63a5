use std::rc::Rc;

use vstd::prelude::*;

use crate::lexer::{Lexer, TokenStream};
use crate::node::{
    shows_clause, shows_clauses, shows_predicate, shows_predicates, shows_term, shows_terms,
    ClauseView, Node, PredicateView, TermView,
};
use crate::token::{LexError, Token, TokenView};

verus! {

/// The grammatical construct that was looked for.
#[derive(Debug, Clone, Copy, PartialEq, Eq, Structural)]
pub enum Construct {
    Term,
    Predicate,
}

/// Why a text is not a well-formed sequence of clauses.
#[derive(Debug, PartialEq)]
pub enum ParseError {
    /// The construct was required, and this token (or the end) was found.
    UnexpectedToken(Construct, Option<Token>),
    /// This token was required next.
    ExpectedToken(Token),
    /// A clause is not closed by `.`.
    MissingTerminator,
    /// The text ahead could not be read as a token.
    Lex(LexError),
}

/// The value of a `ParseError`.
pub enum ParseFault {
    UnexpectedToken(Construct, Option<TokenView>),
    ExpectedToken(TokenView),
    MissingTerminator,
    Lex(LexError),
}

impl View for ParseError {
    type V = ParseFault;

    open spec fn view(&self) -> ParseFault {
        match self {
            ParseError::UnexpectedToken(c, t) => ParseFault::UnexpectedToken(
                *c,
                match t {
                    Some(t) => Some(t@),
                    None => None,
                },
            ),
            ParseError::ExpectedToken(t) => ParseFault::ExpectedToken(t@),
            ParseError::MissingTerminator => ParseFault::MissingTerminator,
            ParseError::Lex(e) => ParseFault::Lex(*e),
        }
    }
}

pub open spec fn op(text: Seq<char>) -> TokenView {
    TokenView::Op(text)
}

/// The token at the head of the stream, if there is one.
pub open spec fn head(ts: TokenStream) -> Option<TokenView> {
    if ts.tokens.len() > 0 {
        Some(ts.tokens[0])
    } else {
        None
    }
}

/// Whether the stream starts with `t`, or the error that hides what comes.
pub open spec fn starts_with(ts: TokenStream, t: TokenView) -> Result<bool, ParseFault> {
    match ts.front() {
        Err(e) => Err(ParseFault::Lex(e)),
        Ok(x) => Ok(x == Some(t)),
    }
}

/// An atom, if the stream starts with one.
pub open spec fn read_atom(ts: TokenStream) -> Result<Option<(Seq<char>, TokenStream)>, ParseFault> {
    match ts.front() {
        Err(e) => Err(ParseFault::Lex(e)),
        Ok(Some(TokenView::Atom(a))) => Ok(Some((a, ts.advance()))),
        Ok(_) => Ok(None),
    }
}

/// A term: the next token, which must be an atom or a variable.
pub open spec fn read_term(ts: TokenStream) -> Result<(TermView, TokenStream), ParseFault> {
    match ts.front() {
        Err(e) => Err(ParseFault::Lex(e)),
        Ok(Some(TokenView::Atom(a))) => Ok((TermView::Atom(a), ts.advance())),
        Ok(Some(TokenView::Variable(v))) => Ok((TermView::Variable(v), ts.advance())),
        Ok(t) => Err(ParseFault::UnexpectedToken(Construct::Term, t)),
    }
}

/// The terms that follow, each after a `,`, for as long as a `,` comes.
pub open spec fn read_more_terms(ts: TokenStream) -> Result<(Seq<TermView>, TokenStream), ParseFault>
    decreases ts.tokens.len(),
{
    match starts_with(ts, op(seq![','])) {
        Err(f) => Err(f),
        Ok(false) => Ok((seq![], ts)),
        Ok(true) => match read_term(ts.advance()) {
            Err(f) => Err(f),
            Ok((t, r)) => match read_more_terms(r) {
                Err(f) => Err(f),
                Ok((more, r2)) => Ok((seq![t] + more, r2)),
            },
        },
    }
}

/// `Term ("," Term)*`
pub open spec fn read_term_list(ts: TokenStream) -> Result<(Seq<TermView>, TokenStream), ParseFault> {
    match read_term(ts) {
        Err(f) => Err(f),
        Ok((t, r)) => match read_more_terms(r) {
            Err(f) => Err(f),
            Ok((more, r2)) => Ok((seq![t] + more, r2)),
        },
    }
}

/// `Atom ("(" TermList ")")?`; nothing when the stream does not start
/// with an atom.
pub open spec fn read_predicate(ts: TokenStream) -> Result<Option<(PredicateView, TokenStream)>, ParseFault> {
    match read_atom(ts) {
        Err(f) => Err(f),
        Ok(None) => Ok(None),
        Ok(Some((name, r))) => match starts_with(r, op(seq!['('])) {
            Err(f) => Err(f),
            Ok(false) => Ok(Some((PredicateView { name, args: seq![] }, r))),
            Ok(true) => match read_term_list(r.advance()) {
                Err(f) => Err(f),
                Ok((args, r2)) => match starts_with(r2, op(seq![')'])) {
                    Err(f) => Err(f),
                    Ok(false) => Err(ParseFault::ExpectedToken(op(seq![')']))),
                    Ok(true) => Ok(Some((PredicateView { name, args }, r2.advance()))),
                },
            },
        },
    }
}

/// A predicate where one is required.
pub open spec fn read_required_predicate(ts: TokenStream) -> Result<(PredicateView, TokenStream), ParseFault> {
    match read_predicate(ts) {
        Err(f) => Err(f),
        Ok(None) => Err(ParseFault::UnexpectedToken(Construct::Predicate, head(ts))),
        Ok(Some(x)) => Ok(x),
    }
}

/// The predicates that follow, each after a `,`, for as long as a `,` comes.
pub open spec fn read_more_predicates(ts: TokenStream) -> Result<(Seq<PredicateView>, TokenStream), ParseFault>
    decreases ts.tokens.len(),
{
    match starts_with(ts, op(seq![','])) {
        Err(f) => Err(f),
        Ok(false) => Ok((seq![], ts)),
        Ok(true) => match read_required_predicate(ts.advance()) {
            Err(f) => Err(f),
            Ok((p, r)) => {
                proof {
                    lemma_required_predicate_consumes(ts.advance());
                }
                if r.tokens.len() < ts.tokens.len() {
                    match read_more_predicates(r) {
                        Err(f) => Err(f),
                        Ok((more, r2)) => Ok((seq![p] + more, r2)),
                    }
                } else {
                    Ok((seq![p], r))
                }
            },
        },
    }
}

/// `Predicate ("," Predicate)*`
pub open spec fn read_predicate_list(ts: TokenStream) -> Result<(Seq<PredicateView>, TokenStream), ParseFault> {
    match read_required_predicate(ts) {
        Err(f) => Err(f),
        Ok((p, r)) => match read_more_predicates(r) {
            Err(f) => Err(f),
            Ok((more, r2)) => Ok((seq![p] + more, r2)),
        },
    }
}

/// The `.` that closes clause `c`.
pub open spec fn read_terminator(ts: TokenStream, c: ClauseView) -> Result<Option<(ClauseView, TokenStream)>, ParseFault> {
    match starts_with(ts, op(seq!['.'])) {
        Err(f) => Err(f),
        Ok(false) => Err(ParseFault::MissingTerminator),
        Ok(true) => Ok(Some((c, ts.advance()))),
    }
}

/// `Predicate (":-" PredicateList)? "."`; nothing when no head predicate
/// starts the stream.
pub open spec fn read_clause(ts: TokenStream) -> Result<Option<(ClauseView, TokenStream)>, ParseFault> {
    match read_predicate(ts) {
        Err(f) => Err(f),
        Ok(None) => Ok(None),
        Ok(Some((head, r))) => match starts_with(r, op(seq![':', '-'])) {
            Err(f) => Err(f),
            Ok(false) => read_terminator(r, ClauseView::Fact(head)),
            Ok(true) => match read_predicate_list(r.advance()) {
                Err(f) => Err(f),
                Ok((body, r2)) => read_terminator(r2, ClauseView::Rule(head, body)),
            },
        },
    }
}

/// `Clause*`: clauses up to the first place where none starts.
pub open spec fn read_program(ts: TokenStream) -> Result<Seq<ClauseView>, ParseFault>
    decreases ts.tokens.len(),
{
    match read_clause(ts) {
        Err(f) => Err(f),
        Ok(None) => Ok(seq![]),
        Ok(Some((c, r))) => {
            proof {
                lemma_clause_consumes(ts);
            }
            if r.tokens.len() < ts.tokens.len() {
                match read_program(r) {
                    Err(f) => Err(f),
                    Ok(cs) => Ok(seq![c] + cs),
                }
            } else {
                Ok(seq![c])
            }
        },
    }
}

/// The texts of the operators, as written in the parser.
proof fn lemma_operator_texts()
    ensures
        "("@ == seq!['('],
        ")"@ == seq![')'],
        ","@ == seq![','],
        "."@ == seq!['.'],
        ":-"@ == seq![':', '-'],
{
    reveal_strlit("(");
    reveal_strlit(")");
    reveal_strlit(",");
    reveal_strlit(".");
    reveal_strlit(":-");
    assert("("@ =~= seq!['(']);
    assert(")"@ =~= seq![')']);
    assert(","@ =~= seq![',']);
    assert("."@ =~= seq!['.']);
    assert(":-"@ =~= seq![':', '-']);
}

pub proof fn lemma_more_terms_consume(ts: TokenStream)
    ensures
        read_more_terms(ts) matches Ok((_, r)) ==> r.tokens.len() <= ts.tokens.len(),
    decreases ts.tokens.len(),
{
    if let Ok(true) = starts_with(ts, op(seq![','])) {
        if let Ok((_, r)) = read_term(ts.advance()) {
            lemma_more_terms_consume(r);
        }
    }
}

pub proof fn lemma_predicate_consumes(ts: TokenStream)
    ensures
        read_predicate(ts) matches Ok(Some((_, r))) ==> r.tokens.len() < ts.tokens.len(),
{
    if let Ok(Some((_, r))) = read_atom(ts) {
        if let Ok(true) = starts_with(r, op(seq!['('])) {
            if let Ok((_, r1)) = read_term(r.advance()) {
                lemma_more_terms_consume(r1);
            }
        }
    }
}

pub proof fn lemma_required_predicate_consumes(ts: TokenStream)
    ensures
        read_required_predicate(ts) matches Ok((_, r)) ==> r.tokens.len() < ts.tokens.len(),
{
    lemma_predicate_consumes(ts);
}

pub proof fn lemma_more_predicates_consume(ts: TokenStream)
    ensures
        read_more_predicates(ts) matches Ok((_, r)) ==> r.tokens.len() <= ts.tokens.len(),
    decreases ts.tokens.len(),
{
    if let Ok(true) = starts_with(ts, op(seq![','])) {
        lemma_required_predicate_consumes(ts.advance());
        if let Ok((_, r)) = read_required_predicate(ts.advance()) {
            lemma_more_predicates_consume(r);
        }
    }
}

/// A clause that is read takes at least one token.
pub proof fn lemma_clause_consumes(ts: TokenStream)
    ensures
        read_clause(ts) matches Ok(Some((_, r))) ==> r.tokens.len() < ts.tokens.len(),
{
    lemma_predicate_consumes(ts);
    if let Ok(Some((_, r))) = read_predicate(ts) {
        if let Ok(true) = starts_with(r, op(seq![':', '-'])) {
            lemma_required_predicate_consumes(r.advance());
            if let Ok((_, r1)) = read_required_predicate(r.advance()) {
                lemma_more_predicates_consume(r1);
            }
        }
    }
}

/// Recursive-descent parser over the tokens of a `Lexer`.
pub struct Parser {
    lexer: Lexer,
}

impl View for Parser {
    type V = TokenStream;

    /// The tokens still to be read.
    closed spec fn view(&self) -> TokenStream {
        self.lexer@
    }
}

impl Parser {
    pub fn new(lexer: Lexer) -> (r: Parser)
        ensures
            r@ == lexer@,
    {
        Parser { lexer }
    }

    /// An atom, taken only if the next token is one.
    pub fn parse_atom(&mut self) -> (r: Result<Option<Node>, ParseError>)
        ensures
            match read_atom(old(self)@) {
                Err(f) => r matches Err(e) && e@ == f,
                Ok(None) => r matches Ok(None) && final(self)@ == old(self)@,
                Ok(Some((a, rest))) => r matches Ok(Some(n)) && shows_term(n, TermView::Atom(a))
                    && final(self)@ == rest,
            },
    {
        match self.lexer.peek_token() {
            Err(e) => Err(ParseError::Lex(e)),
            Ok(Some(Token::Atom(s))) => {
                let _ = self.lexer.pop_token();
                Ok(Some(Node::Atom(s)))
            },
            Ok(_) => Ok(None),
        }
    }

    /// A term: takes the next token, which must be an atom or a variable.
    pub fn parse_term(&mut self) -> (r: Result<Node, ParseError>)
        ensures
            match read_term(old(self)@) {
                Err(f) => r matches Err(e) && e@ == f,
                Ok((t, rest)) => r matches Ok(n) && shows_term(n, t) && final(self)@ == rest,
            },
    {
        match self.lexer.pop_token() {
            Err(e) => Err(ParseError::Lex(e)),
            Ok(Some(Token::Atom(s))) => Ok(Node::Atom(s)),
            Ok(Some(Token::Variable(s))) => Ok(Node::Variable(s)),
            Ok(t) => Err(ParseError::UnexpectedToken(Construct::Term, t)),
        }
    }

    /// `Term ("," Term)*`
    pub fn parse_term_list(&mut self) -> (r: Result<Vec<Rc<Node>>, ParseError>)
        ensures
            match read_term_list(old(self)@) {
                Err(f) => r matches Err(e) && e@ == f,
                Ok((ts, rest)) => r matches Ok(ns) && shows_terms(ns@, ts) && final(self)@ == rest,
            },
    {
        proof {
            lemma_operator_texts();
        }
        let ghost start = self@;
        let ghost first = read_term(start)->Ok_0.0;
        let t = self.parse_term()?;
        let mut list: Vec<Rc<Node>> = Vec::new();
        list.push(Rc::new(t));
        let ghost mut seen: Seq<TermView> = seq![first];
        assert(shows_terms(list@, seen));
        loop
            invariant
                start == old(self)@,
                shows_terms(list@, seen),
                read_term_list(start) == match read_more_terms(self@) {
                    Err(f) => Err(f),
                    Ok((more, r)) => Ok((seen + more, r)),
                },
            decreases self@.tokens.len(),
        {
            proof {
                lemma_operator_texts();
            }
            match self.lexer.consume(Token::op(",")) {
                Err(e) => {
                    return Err(ParseError::Lex(e));
                },
                Ok(false) => {
                    assert(seen + seq![] =~= seen);
                    return Ok(list);
                },
                Ok(true) => {
                    let ghost next = read_term(self@)->Ok_0.0;
                    let t = self.parse_term()?;
                    list.push(Rc::new(t));
                    proof {
                        assert forall|more: Seq<TermView>| #[trigger] (seen + (seq![next] + more))
                            == seen.push(next) + more by {
                            assert(seen + (seq![next] + more) =~= seen.push(next) + more);
                        }
                        seen = seen.push(next);
                        assert(shows_term(*list@[list@.len() - 1], next));
                    }
                },
            }
        }
    }

    /// `Atom ("(" TermList ")")?`; nothing, with no token taken, when the
    /// next token is not an atom.
    pub fn parse_predicate(&mut self) -> (r: Result<Option<Node>, ParseError>)
        ensures
            match read_predicate(old(self)@) {
                Err(f) => r matches Err(e) && e@ == f,
                Ok(None) => r matches Ok(None) && final(self)@ == old(self)@,
                Ok(Some((p, rest))) => r matches Ok(Some(n)) && shows_predicate(n, p)
                    && final(self)@ == rest,
            },
    {
        proof {
            lemma_operator_texts();
        }
        let name = match self.parse_atom()? {
            Some(Node::Atom(name)) => name,
            _ => {
                return Ok(None);
            },
        };
        match self.lexer.consume(Token::op("(")) {
            Err(e) => Err(ParseError::Lex(e)),
            Ok(false) => Ok(Some(Node::Predicate { name, args: Vec::new() })),
            Ok(true) => {
                let args = self.parse_term_list()?;
                self.lexer.expect(Token::op(")"))?;
                Ok(Some(Node::Predicate { name, args }))
            },
        }
    }

    /// The error for a missing construct, naming the token found instead.
    fn missing(&mut self, what: Construct) -> (r: ParseError)
        ensures
            final(self)@ == old(self)@,
            match old(self)@.front() {
                Err(e) => r@ == ParseFault::Lex(e),
                Ok(t) => r@ == ParseFault::UnexpectedToken(what, t),
            },
    {
        match self.lexer.peek_token() {
            Err(e) => ParseError::Lex(e),
            Ok(t) => ParseError::UnexpectedToken(what, t),
        }
    }

    /// `Predicate ("," Predicate)*`
    pub fn parse_predicate_list(&mut self) -> (r: Result<Vec<Rc<Node>>, ParseError>)
        ensures
            match read_predicate_list(old(self)@) {
                Err(f) => r matches Err(e) && e@ == f,
                Ok((ps, rest)) => r matches Ok(ns) && shows_predicates(ns@, ps) && final(self)@
                    == rest,
            },
    {
        proof {
            lemma_operator_texts();
            lemma_required_predicate_consumes(self@);
        }
        let ghost start = self@;
        let ghost first = read_required_predicate(start)->Ok_0.0;
        let p = match self.parse_predicate()? {
            Some(p) => p,
            None => {
                return Err(self.missing(Construct::Predicate));
            },
        };
        let mut list: Vec<Rc<Node>> = Vec::new();
        list.push(Rc::new(p));
        let ghost mut seen: Seq<PredicateView> = seq![first];
        assert(shows_predicates(list@, seen));
        loop
            invariant
                start == old(self)@,
                shows_predicates(list@, seen),
                read_predicate_list(start) == match read_more_predicates(self@) {
                    Err(f) => Err(f),
                    Ok((more, r)) => Ok((seen + more, r)),
                },
            decreases self@.tokens.len(),
        {
            proof {
                lemma_operator_texts();
            }
            match self.lexer.consume(Token::op(",")) {
                Err(e) => {
                    return Err(ParseError::Lex(e));
                },
                Ok(false) => {
                    assert(seen + seq![] =~= seen);
                    return Ok(list);
                },
                Ok(true) => {
                    proof {
                        lemma_required_predicate_consumes(self@);
                    }
                    let ghost next = read_required_predicate(self@)->Ok_0.0;
                    let p = match self.parse_predicate()? {
                        Some(p) => p,
                        None => {
                            return Err(self.missing(Construct::Predicate));
                        },
                    };
                    list.push(Rc::new(p));
                    proof {
                        assert forall|more: Seq<PredicateView>| #[trigger] (seen + (seq![next]
                            + more)) == seen.push(next) + more by {
                            assert(seen + (seq![next] + more) =~= seen.push(next) + more);
                        }
                        seen = seen.push(next);
                        assert(shows_predicate(*list@[list@.len() - 1], next));
                    }
                },
            }
        }
    }

    /// `Predicate (":-" PredicateList)? "."`; nothing, with no token taken,
    /// when no head predicate starts the tokens ahead.
    pub fn parse_clause(&mut self) -> (r: Result<Option<Node>, ParseError>)
        ensures
            match read_clause(old(self)@) {
                Err(f) => r matches Err(e) && e@ == f,
                Ok(None) => r matches Ok(None) && final(self)@ == old(self)@,
                Ok(Some((c, rest))) => r matches Ok(Some(n)) && shows_clause(n, c) && final(self)@
                    == rest,
            },
    {
        proof {
            lemma_operator_texts();
        }
        let left = match self.parse_predicate()? {
            Some(left) => left,
            None => {
                return Ok(None);
            },
        };
        match self.lexer.consume(Token::op(":-")) {
            Err(e) => Err(ParseError::Lex(e)),
            Ok(true) => {
                let right = self.parse_predicate_list()?;
                match self.lexer.consume(Token::op(".")) {
                    Err(e) => Err(ParseError::Lex(e)),
                    Ok(false) => Err(ParseError::MissingTerminator),
                    Ok(true) => Ok(Some(Node::Clause { left: Rc::new(left), right })),
                }
            },
            Ok(false) => match self.lexer.consume(Token::op(".")) {
                Err(e) => Err(ParseError::Lex(e)),
                Ok(false) => Err(ParseError::MissingTerminator),
                Ok(true) => Ok(Some(left)),
            },
        }
    }

    /// `Clause*`: every clause up to the first place where none starts.
    pub fn parse(&mut self) -> (r: Result<Vec<Rc<Node>>, ParseError>)
        ensures
            match read_program(old(self)@) {
                Err(f) => r matches Err(e) && e@ == f,
                Ok(cs) => r matches Ok(ns) && shows_clauses(ns@, cs),
            },
    {
        let ghost start = self@;
        let mut nodes: Vec<Rc<Node>> = Vec::new();
        let ghost mut seen: Seq<ClauseView> = seq![];
        loop
            invariant
                start == old(self)@,
                shows_clauses(nodes@, seen),
                read_program(start) == match read_program(self@) {
                    Err(f) => Err(f),
                    Ok(more) => Ok(seen + more),
                },
            decreases self@.tokens.len(),
        {
            proof {
                lemma_clause_consumes(self@);
            }
            let ghost next = read_clause(self@)->Ok_0->Some_0.0;
            match self.parse_clause()? {
                None => {
                    assert(seen + seq![] =~= seen);
                    return Ok(nodes);
                },
                Some(c) => {
                    nodes.push(Rc::new(c));
                    proof {
                        assert forall|more: Seq<ClauseView>| #[trigger] (seen + (seq![next]
                            + more)) == seen.push(next) + more by {
                            assert(seen + (seq![next] + more) =~= seen.push(next) + more);
                        }
                        seen = seen.push(next);
                        assert(shows_clause(*nodes@[nodes@.len() - 1], next));
                    }
                },
            }
        }
    }
}

} // verus!
