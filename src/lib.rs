//! Tokenizer and recursive-descent parser for a small Horn-clause notation:
//! lowercase atoms, capitalised variables, parenthesised argument lists,
//! `,` conjunctions, the `:-` rule operator, `.` terminators and `%` line
//! comments.

pub mod laws;
pub mod lexer;
pub mod node;
pub mod parser;
pub mod session;
pub mod token;

pub use lexer::{tokenize, Lexer, TokenStream};
pub use node::{ClauseView, Node, PredicateView, TermView};
pub use parser::{Construct, ParseError, ParseFault, Parser};
pub use session::{built_in_clause_list, BUILT_IN_FACTS, respond, Evaluator, Outcome, Reply};
pub use token::{LexError, Token, TokenView};
