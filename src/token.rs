use vstd::prelude::*;

verus! {

/// A lexical token: an atom, a variable or one of the operators
/// `(`, `)`, `,`, `.` and `:-`.
#[derive(Debug, PartialEq)]
pub enum Token {
    Atom(String),
    Variable(String),
    Op(String),
}

/// The mathematical value of a token: its kind and its text.
pub enum TokenView {
    Atom(Seq<char>),
    Variable(Seq<char>),
    Op(Seq<char>),
}

impl View for Token {
    type V = TokenView;

    open spec fn view(&self) -> TokenView {
        match self {
            Token::Atom(s) => TokenView::Atom(s@),
            Token::Variable(s) => TokenView::Variable(s@),
            Token::Op(s) => TokenView::Op(s@),
        }
    }
}

impl Clone for Token {
    fn clone(&self) -> (r: Token)
        ensures
            r == *self,
    {
        match self {
            Token::Atom(s) => Token::Atom(s.clone()),
            Token::Variable(s) => Token::Variable(s.clone()),
            Token::Op(s) => Token::Op(s.clone()),
        }
    }
}

impl Token {
    /// The operator token with the given text.
    pub fn op(text: &str) -> (r: Token)
        ensures
            r@ == TokenView::Op(text@),
    {
        Token::Op(String::from_str(text))
    }

    /// Whether two tokens have the same kind and the same text.
    pub fn same_as(&self, other: &Token) -> (r: bool)
        ensures
            r == (self@ == other@),
    {
        match self {
            Token::Atom(a) => match other {
                Token::Atom(b) => a.eq(b),
                _ => false,
            },
            Token::Variable(a) => match other {
                Token::Variable(b) => a.eq(b),
                _ => false,
            },
            Token::Op(a) => match other {
                Token::Op(b) => a.eq(b),
                _ => false,
            },
        }
    }
}

/// Why the text ahead cannot be read as a token.
#[derive(Debug, Clone, Copy, PartialEq, Eq, Structural)]
pub enum LexError {
    /// A character that begins no token.
    UnexpectedChar(char),
    /// A `:` that is not followed by `-`.
    ExpectedDash,
}

} // verus!
