use std::rc::Rc;

use horn_parser::Token::{Atom, Variable};
use horn_parser::{Lexer, Node, Parser, Token};

fn parse_input(input: &str) -> Vec<Rc<Node>> {
    let lexer = Lexer::new(input.to_string());
    let mut parser = Parser::new(lexer);
    parser.parse().unwrap()
}

fn predicate(name: &str, args: Vec<Rc<Node>>) -> Rc<Node> {
    Rc::new(Node::Predicate {
        name: name.to_string(),
        args,
    })
}

fn clause(left: Rc<Node>, right: Vec<Rc<Node>>) -> Rc<Node> {
    Rc::new(Node::Clause { left, right })
}

fn variable(name: &str) -> Rc<Node> {
    Rc::new(Node::Variable(name.to_string()))
}

fn atom(name: &str) -> Rc<Node> {
    Rc::new(Node::Atom(name.to_string()))
}

fn op(s: &str) -> Token {
    Token::Op(s.to_string())
}

#[test]
fn parse() {
    assert!(parse_input("eq(a).") == vec![predicate("eq", vec![atom("a")])]);
    assert!(parse_input("eq(A).") == vec![predicate("eq", vec![variable("A")])]);
    assert!(parse_input("cat.") == vec![predicate("cat", Vec::new())]);
    assert!(
        parse_input("cat :- true.")
            == vec![clause(
                predicate("cat", Vec::new()),
                vec![predicate("true", Vec::new())],
            )]
    );
    assert!(
        parse_input("a :- b(X).")
            == vec![clause(
                predicate("a", Vec::new()),
                vec![predicate("b", vec![variable("X")])],
            )]
    );
    assert!(
        parse_input("add(X, e, X).")
            == vec![predicate(
                "add",
                vec![variable("X"), atom("e"), variable("X"),]
            ),]
    );
}

#[test]
fn tokenize() {
    let mut lexer =
        Lexer::new("daughter(X, Y) :- father(Y, X), female(X). % comment".to_string());
    let tokens = lexer.collect_tokens().unwrap();
    assert!(
        tokens
            == vec![
                Atom("daughter".to_string()),
                op("("),
                Variable("X".to_string()),
                op(","),
                Variable("Y".to_string()),
                op(")"),
                op(":-"),
                Atom("father".to_string()),
                op("("),
                Variable("Y".to_string()),
                op(","),
                Variable("X".to_string()),
                op(")"),
                op(","),
                Atom("female".to_string()),
                op("("),
                Variable("X".to_string()),
                op(")"),
                op("."),
            ],
    )
}
