use std::rc::Rc;

use horn_parser::{
    built_in_clause_list, respond, Construct, Evaluator, LexError, Lexer, Node, ParseError,
    Parser, Reply, Token,
};

fn parse_text(text: &str) -> Result<Vec<Rc<Node>>, ParseError> {
    Parser::new(Lexer::new(text.to_string())).parse()
}

fn pred(name: &str, args: Vec<Rc<Node>>) -> Rc<Node> {
    Rc::new(Node::Predicate {
        name: name.to_string(),
        args,
    })
}

fn atom(name: &str) -> Rc<Node> {
    Rc::new(Node::Atom(name.to_string()))
}

fn var(name: &str) -> Rc<Node> {
    Rc::new(Node::Variable(name.to_string()))
}

#[test]
fn fact_without_arguments() {
    assert_eq!(parse_text("cat."), Ok(vec![pred("cat", vec![])]));
}

#[test]
fn argument_order_is_kept() {
    assert_eq!(
        parse_text("add(X, e, X)."),
        Ok(vec![pred("add", vec![var("X"), atom("e"), var("X")])])
    );
}

#[test]
fn rule_with_two_body_predicates() {
    assert_eq!(
        parse_text("daughter(X, Y) :- father(Y, X), female(X)."),
        Ok(vec![Rc::new(Node::Clause {
            left: pred("daughter", vec![var("X"), var("Y")]),
            right: vec![
                pred("father", vec![var("Y"), var("X")]),
                pred("female", vec![var("X")])
            ],
        })])
    );
}

#[test]
fn several_clauses_in_order() {
    assert_eq!(
        parse_text("a. b(c).\nd."),
        Ok(vec![
            pred("a", vec![]),
            pred("b", vec![atom("c")]),
            pred("d", vec![])
        ])
    );
}

#[test]
fn empty_text_has_no_clauses() {
    assert_eq!(parse_text(""), Ok(vec![]));
    assert_eq!(parse_text("  \n"), Ok(vec![]));
}

#[test]
fn empty_body_is_rejected() {
    assert_eq!(
        parse_text("cat :- ."),
        Err(ParseError::UnexpectedToken(
            Construct::Predicate,
            Some(Token::Op(".".to_string()))
        ))
    );
}

#[test]
fn trailing_comma_in_body_is_rejected() {
    assert_eq!(
        parse_text("a :- b,."),
        Err(ParseError::UnexpectedToken(
            Construct::Predicate,
            Some(Token::Op(".".to_string()))
        ))
    );
}

#[test]
fn empty_argument_list_is_rejected() {
    assert_eq!(
        parse_text("eq()."),
        Err(ParseError::UnexpectedToken(
            Construct::Term,
            Some(Token::Op(")".to_string()))
        ))
    );
}

#[test]
fn trailing_comma_in_arguments_is_rejected() {
    assert_eq!(
        parse_text("eq(a,)."),
        Err(ParseError::UnexpectedToken(
            Construct::Term,
            Some(Token::Op(")".to_string()))
        ))
    );
}

#[test]
fn argument_list_cut_short() {
    assert_eq!(
        parse_text("eq(a"),
        Err(ParseError::ExpectedToken(Token::Op(")".to_string())))
    );
    assert_eq!(
        parse_text("eq("),
        Err(ParseError::UnexpectedToken(Construct::Term, None))
    );
}

#[test]
fn missing_terminator() {
    assert_eq!(parse_text("cat"), Err(ParseError::MissingTerminator));
    assert_eq!(parse_text("a :- b"), Err(ParseError::MissingTerminator));
}

#[test]
fn lexical_error_inside_clause() {
    assert_eq!(
        parse_text("eq(a) # b."),
        Err(ParseError::Lex(LexError::UnexpectedChar('#')))
    );
    assert_eq!(
        parse_text("a :x b."),
        Err(ParseError::Lex(LexError::ExpectedDash))
    );
}

#[test]
fn trailing_comment_changes_nothing() {
    assert_eq!(parse_text("eq(a). % note"), parse_text("eq(a)."));
    assert_eq!(parse_text("a :- b(X). % note\n"), parse_text("a :- b(X)."));
}

#[test]
fn comment_only_line_has_no_clauses() {
    assert_eq!(parse_text("% nothing here"), Ok(vec![]));
    let mut parser = Parser::new(Lexer::new("% nothing here\n".to_string()));
    assert_eq!(parser.parse_clause(), Ok(None));
}

#[test]
fn parse_atom_takes_only_an_atom() {
    let mut parser = Parser::new(Lexer::new("X a".to_string()));
    assert_eq!(parser.parse_atom(), Ok(None));
    assert_eq!(parser.parse_term(), Ok(Node::Variable("X".to_string())));
    assert_eq!(parser.parse_atom(), Ok(Some(Node::Atom("a".to_string()))));
    assert_eq!(parser.parse_atom(), Ok(None));
}

#[test]
fn parse_lists_directly() {
    let mut parser = Parser::new(Lexer::new("a, B, c".to_string()));
    assert_eq!(
        parser.parse_term_list(),
        Ok(vec![atom("a"), var("B"), atom("c")])
    );
    let mut parser = Parser::new(Lexer::new("p, q(Z)".to_string()));
    assert_eq!(
        parser.parse_predicate_list(),
        Ok(vec![pred("p", vec![]), pred("q", vec![var("Z")])])
    );
    let mut parser = Parser::new(Lexer::new("(".to_string()));
    assert_eq!(parser.parse_predicate(), Ok(None));
}

#[test]
fn built_in_facts() {
    assert_eq!(
        built_in_clause_list(),
        Ok(vec![
            pred("red", vec![atom("xff0000")]),
            pred("green", vec![atom("x00ff00")]),
            pred("blue", vec![atom("x0000ff")])
        ])
    );
}

#[test]
fn evaluator_leaves_queries_undecided() {
    let db = built_in_clause_list().unwrap();
    let evaluator = Evaluator::new(db, Node::Atom("red".to_string()));
    assert_eq!(evaluator.eval(), None);
}

#[test]
fn end_of_input_finishes_session() {
    assert!(matches!(respond(&vec![], None), Reply::Finished));
    let db = built_in_clause_list().unwrap();
    assert!(matches!(respond(&db, Some("red(X).".to_string())), Reply::Answered { .. }));
    assert!(matches!(respond(&db, None), Reply::Finished));
}

#[test]
fn session_replies_per_line() {
    let db = built_in_clause_list().unwrap();
    match respond(&db, Some("red(X).\n".to_string())) {
        Reply::Answered { query, verdict } => {
            assert_eq!(Rc::new(query), pred("red", vec![var("X")]));
            assert_eq!(verdict, None);
        }
        other => panic!("unexpected reply {:?}", other),
    }
    assert!(matches!(respond(&db, Some("\n".to_string())), Reply::Empty));
    assert!(matches!(
        respond(&db, Some("cat :- .\n".to_string())),
        Reply::Rejected(ParseError::UnexpectedToken(Construct::Predicate, _))
    ));
    assert!(matches!(
        respond(&db, Some("a & b\n".to_string())),
        Reply::Rejected(ParseError::Lex(LexError::UnexpectedChar('&')))
    ));
}
