use horn_parser::{LexError, Lexer, Token};

fn tokens_of(text: &str) -> Result<Vec<Token>, LexError> {
    Lexer::new(text.to_string()).collect_tokens()
}

#[test]
fn single_atom_is_one_token() {
    assert_eq!(tokens_of("abc12"), Ok(vec![Token::Atom("abc12".to_string())]));
    assert_eq!(tokens_of("x"), Ok(vec![Token::Atom("x".to_string())]));
}

#[test]
fn single_variable_is_one_token() {
    assert_eq!(tokens_of("Xyz"), Ok(vec![Token::Variable("Xyz".to_string())]));
    assert_eq!(tokens_of("A"), Ok(vec![Token::Variable("A".to_string())]));
}

#[test]
fn variable_stops_before_uppercase() {
    assert_eq!(
        tokens_of("AbC"),
        Ok(vec![
            Token::Variable("Ab".to_string()),
            Token::Variable("C".to_string())
        ])
    );
}

#[test]
fn digit_after_variable_is_unexpected() {
    assert_eq!(tokens_of("X1"), Err(LexError::UnexpectedChar('1')));
}

#[test]
fn colon_without_dash_is_an_error() {
    assert_eq!(tokens_of("a :x"), Err(LexError::ExpectedDash));
    assert_eq!(tokens_of("a :"), Err(LexError::ExpectedDash));
}

#[test]
fn unknown_character_is_an_error() {
    assert_eq!(tokens_of("a & b"), Err(LexError::UnexpectedChar('&')));
}

#[test]
fn empty_and_blank_texts_have_no_tokens() {
    assert_eq!(tokens_of(""), Ok(vec![]));
    assert_eq!(tokens_of("  \n "), Ok(vec![]));
    assert_eq!(tokens_of("% only a comment"), Ok(vec![]));
}

#[test]
fn comment_runs_to_end_of_line() {
    assert_eq!(
        tokens_of("a % b c\nd"),
        Ok(vec![Token::Atom("a".to_string()), Token::Atom("d".to_string())])
    );
}

#[test]
fn rule_operator_is_one_token() {
    assert_eq!(
        tokens_of("a:-b"),
        Ok(vec![
            Token::Atom("a".to_string()),
            Token::Op(":-".to_string()),
            Token::Atom("b".to_string())
        ])
    );
}

#[test]
fn non_ascii_text_is_read_by_character() {
    assert_eq!(tokens_of("é"), Err(LexError::UnexpectedChar('é')));
}

#[test]
fn character_cursor() {
    let mut lexer = Lexer::new("ab".to_string());
    assert_eq!(lexer.peek(), Some('a'));
    assert_eq!(lexer.peek(), Some('a'));
    assert_eq!(lexer.pop(), Some('a'));
    assert_eq!(lexer.peek(), Some('b'));
    assert_eq!(lexer.pop(), Some('b'));
    assert_eq!(lexer.pop(), None);
    assert_eq!(lexer.peek(), None);
}

#[test]
fn peek_token_leaves_the_token() {
    let mut lexer = Lexer::new("foo(X)".to_string());
    assert_eq!(lexer.peek_token(), Ok(Some(Token::Atom("foo".to_string()))));
    assert_eq!(lexer.peek_token(), Ok(Some(Token::Atom("foo".to_string()))));
    assert_eq!(lexer.pop_token(), Ok(Some(Token::Atom("foo".to_string()))));
    assert_eq!(lexer.pop_token(), Ok(Some(Token::Op("(".to_string()))));
    assert_eq!(lexer.pop_token(), Ok(Some(Token::Variable("X".to_string()))));
    assert_eq!(lexer.pop_token(), Ok(Some(Token::Op(")".to_string()))));
    assert_eq!(lexer.pop_token(), Ok(None));
    assert_eq!(lexer.peek_token(), Ok(None));
}

#[test]
fn consume_takes_only_a_match() {
    let mut lexer = Lexer::new("( a".to_string());
    assert_eq!(lexer.consume(Token::Op(")".to_string())), Ok(false));
    assert_eq!(lexer.consume(Token::Op("(".to_string())), Ok(true));
    assert_eq!(lexer.consume(Token::Atom("b".to_string())), Ok(false));
    assert_eq!(lexer.consume(Token::Atom("a".to_string())), Ok(true));
    assert_eq!(lexer.consume(Token::Atom("a".to_string())), Ok(false));
}

#[test]
fn lexical_error_repeats_until_passed() {
    let mut lexer = Lexer::new("a #".to_string());
    assert_eq!(lexer.pop_token(), Ok(Some(Token::Atom("a".to_string()))));
    assert_eq!(lexer.peek_token(), Err(LexError::UnexpectedChar('#')));
    assert_eq!(lexer.pop_token(), Err(LexError::UnexpectedChar('#')));
    assert_eq!(lexer.consume(Token::Op(".".to_string())), Err(LexError::UnexpectedChar('#')));
}

#[test]
fn expect_reports_the_wanted_token() {
    use_expect();
}

fn use_expect() {
    let mut lexer = Lexer::new(". ,".to_string());
    assert_eq!(lexer.expect(Token::Op(".".to_string())), Ok(()));
    assert_eq!(
        lexer.expect(Token::Op(")".to_string())),
        Err(horn_parser::ParseError::ExpectedToken(Token::Op(")".to_string())))
    );
    assert_eq!(lexer.expect(Token::Op(",".to_string())), Ok(()));
}

#[test]
fn same_as_compares_kind_and_text() {
    let a = Token::Atom("x".to_string());
    assert!(a.same_as(&Token::Atom("x".to_string())));
    assert!(!a.same_as(&Token::Variable("x".to_string())));
    assert!(!a.same_as(&Token::Atom("y".to_string())));
    assert_eq!(Token::op(":-"), Token::Op(":-".to_string()));
}

#[test]
fn every_token_is_well_formed() {
    let tokens = tokens_of("abc(Xy, Zed) :- q0(a). % x\n r.").unwrap();
    for t in tokens {
        match t {
            Token::Atom(a) => {
                let mut cs = a.chars();
                assert!(cs.next().unwrap().is_ascii_lowercase());
                assert!(cs.all(|c| c.is_ascii_lowercase() || c.is_ascii_digit()));
            }
            Token::Variable(v) => {
                let mut cs = v.chars();
                assert!(cs.next().unwrap().is_ascii_uppercase());
                assert!(cs.all(|c| c.is_ascii_lowercase()));
            }
            Token::Op(o) => assert!(["(", ")", ",", ".", ":-"].contains(&o.as_str())),
        }
    }
}
