use std::rc::Rc;

use vstd::prelude::*;

use crate::lexer::{tokenize, Lexer};
use crate::node::{shows_clause, shows_clauses, ClauseView, Node};
use crate::parser::{read_clause, read_program, ParseError, ParseFault, Parser};

verus! {

/// The text of the facts that every session starts with.
pub const BUILT_IN_FACTS: &'static str = "\nred(xff0000).\ngreen(x00ff00).\nblue(x0000ff).\n";

/// The clause database every session starts with: the built-in facts,
/// read through the same lexer and parser as any other text.
pub fn built_in_clause_list() -> (r: Result<Vec<Rc<Node>>, ParseError>)
    ensures
        match read_program(tokenize(BUILT_IN_FACTS@)) {
            Err(f) => r matches Err(e) && e@ == f,
            Ok(cs) => r matches Ok(ns) && shows_clauses(ns@, cs),
        },
{
    let lexer = Lexer::new(String::from_str(BUILT_IN_FACTS));
    let mut parser = Parser::new(lexer);
    parser.parse()
}

/// A query to be decided against a clause database.
pub struct Evaluator {
    pub clause_list: Vec<Rc<Node>>,
    pub query: Node,
}

impl Evaluator {
    pub fn new(clause_list: Vec<Rc<Node>>, query: Node) -> (r: Evaluator)
        ensures
            r.clause_list == clause_list,
            r.query == query,
    {
        Evaluator { clause_list, query }
    }

    /// Whether the query follows from the database. No inference procedure
    /// is defined for the language, so every query is left undecided.
    pub fn eval(&self) -> (r: Option<bool>)
        ensures
            r is None,
    {
        None
    }
}

/// What the session does with one unit of input.
#[derive(Debug)]
pub enum Reply {
    /// The input has ended: the session stops.
    Finished,
    /// The line holds no clause.
    Empty,
    /// The line holds a query, with the evaluator's verdict on it.
    Answered { query: Node, verdict: Option<bool> },
    /// The line is malformed; the session goes on with the next one.
    Rejected(ParseError),
}

/// The value of a `Reply`.
pub enum Outcome {
    Finished,
    Empty,
    Query(ClauseView),
    Rejected(ParseFault),
}

/// What a line of input, or the end of the input (`None`), leads to: the
/// line is read as a single clause.
pub open spec fn outcome(line: Option<Seq<char>>) -> Outcome {
    match line {
        None => Outcome::Finished,
        Some(s) => match read_clause(tokenize(s)) {
            Err(f) => Outcome::Rejected(f),
            Ok(None) => Outcome::Empty,
            Ok(Some((c, _))) => Outcome::Query(c),
        },
    }
}

pub open spec fn shows_reply(r: Reply, o: Outcome) -> bool {
    match o {
        Outcome::Finished => r is Finished,
        Outcome::Empty => r is Empty,
        Outcome::Query(c) => r matches Reply::Answered { query, verdict } && shows_clause(query, c)
            && verdict is None,
        Outcome::Rejected(f) => r matches Reply::Rejected(e) && e@ == f,
    }
}

/// One step of the read loop: handles one line of input, or its end.
pub fn respond(database: &Vec<Rc<Node>>, line: Option<String>) -> (r: Reply)
    ensures
        shows_reply(
            r,
            outcome(
                match line {
                    Some(s) => Some(s@),
                    None => None,
                },
            ),
        ),
{
    let text = match line {
        None => {
            return Reply::Finished;
        },
        Some(text) => text,
    };
    let mut parser = Parser::new(Lexer::new(text));
    match parser.parse_clause() {
        Err(e) => Reply::Rejected(e),
        Ok(None) => Reply::Empty,
        Ok(Some(query)) => {
            let evaluator = Evaluator::new(database.clone(), query);
            let verdict = evaluator.eval();
            Reply::Answered { query: evaluator.query, verdict }
        },
    }
}

/// The session ends at the end of the input, whatever came before it, and
/// only there: no line, well-formed or not, ends it.
pub proof fn end_of_input_ends_session(line: Option<Seq<char>>)
    ensures
        (outcome(line) is Finished) <==> (line is None),
{
}

} // verus!
