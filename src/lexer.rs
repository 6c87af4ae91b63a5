use vstd::prelude::*;

use crate::parser::{ParseError, ParseFault};
use crate::token::{LexError, Token, TokenView};

verus! {

pub open spec fn is_lower(c: char) -> bool {
    'a' <= c && c <= 'z'
}

pub open spec fn is_upper(c: char) -> bool {
    'A' <= c && c <= 'Z'
}

pub open spec fn is_digit(c: char) -> bool {
    '0' <= c && c <= '9'
}

/// Characters that separate tokens and are otherwise ignored.
pub open spec fn is_blank(c: char) -> bool {
    c == ' ' || c == '\n'
}

/// Characters that form a one-character operator on their own.
pub open spec fn is_single_op(c: char) -> bool {
    c == '(' || c == ')' || c == ',' || c == '.'
}

/// The first position at or after `i` that is neither blank nor inside a
/// comment. `in_comment` says whether `i` lies inside a comment, which runs
/// from `%` up to and including the next newline, or to the end of the text.
pub open spec fn skip(s: Seq<char>, i: int, in_comment: bool) -> int
    decreases s.len() - i,
{
    if 0 <= i < s.len() {
        if in_comment {
            skip(s, i + 1, s[i] != '\n')
        } else if is_blank(s[i]) {
            skip(s, i + 1, false)
        } else if s[i] == '%' {
            skip(s, i + 1, true)
        } else {
            i
        }
    } else {
        i
    }
}

/// End of the maximal run of lowercase letters and digits from `i`.
pub open spec fn atom_end(s: Seq<char>, i: int) -> int
    decreases s.len() - i,
{
    if 0 <= i < s.len() && (is_lower(s[i]) || is_digit(s[i])) {
        atom_end(s, i + 1)
    } else {
        i
    }
}

/// End of the maximal run of lowercase letters from `i`.
pub open spec fn lower_end(s: Seq<char>, i: int) -> int
    decreases s.len() - i,
{
    if 0 <= i < s.len() && is_lower(s[i]) {
        lower_end(s, i + 1)
    } else {
        i
    }
}

/// What reading one token from position `i` of a text gives.
pub enum Step {
    /// Only blanks and comments are left.
    End,
    /// A token, and the position just after it.
    Found(TokenView, int),
    /// The text ahead is not a token.
    Failed(LexError),
}

/// Reading the next token from position `i`: blanks and comments are
/// skipped, then the longest token that starts there is taken.
pub open spec fn step(s: Seq<char>, i: int) -> Step {
    let q = skip(s, i, false);
    if !(0 <= q < s.len()) {
        Step::End
    } else {
        let c = s[q];
        if is_lower(c) {
            let e = atom_end(s, q);
            Step::Found(TokenView::Atom(s.subrange(q, e)), e)
        } else if is_upper(c) {
            let e = lower_end(s, q + 1);
            Step::Found(TokenView::Variable(s.subrange(q, e)), e)
        } else if is_single_op(c) {
            Step::Found(TokenView::Op(seq![c]), q + 1)
        } else if c == ':' {
            if q + 1 < s.len() && s[q + 1] == '-' {
                Step::Found(TokenView::Op(seq![':', '-']), q + 2)
            } else {
                Step::Failed(LexError::ExpectedDash)
            }
        } else {
            Step::Failed(LexError::UnexpectedChar(c))
        }
    }
}

#[verifier::ext_equal]
/// A sequence of tokens, followed either by the end of the text
/// (`fault` is `None`) or by a lexical error.
pub struct TokenStream {
    pub tokens: Seq<TokenView>,
    pub fault: Option<LexError>,
}

impl TokenStream {
    /// What a reader of the stream sees next: a token, the end, or the error.
    pub open spec fn front(self) -> Result<Option<TokenView>, LexError> {
        if self.tokens.len() > 0 {
            Ok(Some(self.tokens[0]))
        } else {
            match self.fault {
                None => Ok(None),
                Some(e) => Err(e),
            }
        }
    }

    /// The stream after its first token; unchanged when it holds none.
    pub open spec fn advance(self) -> TokenStream {
        if self.tokens.len() > 0 {
            TokenStream { tokens: self.tokens.drop_first(), fault: self.fault }
        } else {
            self
        }
    }
}

/// The tokens of the text from position `i` on.
pub open spec fn scan(s: Seq<char>, i: int) -> TokenStream
    decreases s.len() - i,
{
    match step(s, i) {
        Step::End => TokenStream { tokens: seq![], fault: None },
        Step::Failed(e) => TokenStream { tokens: seq![], fault: Some(e) },
        Step::Found(t, j) => {
            proof {
                lemma_step_advances(s, i);
            }
            if i < j {
                let rest = scan(s, j);
                TokenStream { tokens: seq![t] + rest.tokens, fault: rest.fault }
            } else {
                TokenStream { tokens: seq![t], fault: None }
            }
        },
    }
}

/// The tokens of a whole text.
pub open spec fn tokenize(s: Seq<char>) -> TokenStream {
    scan(s, 0)
}

pub proof fn lemma_skip_bounds(s: Seq<char>, i: int, in_comment: bool)
    ensures
        i <= skip(s, i, in_comment),
        0 <= i <= s.len() ==> skip(s, i, in_comment) <= s.len(),
        0 <= i && skip(s, i, in_comment) < s.len() ==> {
            let q = skip(s, i, in_comment);
            !is_blank(s[q]) && s[q] != '%'
        },
    decreases s.len() - i,
{
    if 0 <= i < s.len() {
        if in_comment {
            lemma_skip_bounds(s, i + 1, s[i] != '\n');
        } else if is_blank(s[i]) || s[i] == '%' {
            lemma_skip_bounds(s, i + 1, s[i] == '%');
        }
    }
}

pub proof fn lemma_atom_end_bounds(s: Seq<char>, i: int)
    ensures
        i <= atom_end(s, i),
        0 <= i <= s.len() ==> atom_end(s, i) <= s.len(),
    decreases s.len() - i,
{
    if 0 <= i < s.len() && (is_lower(s[i]) || is_digit(s[i])) {
        lemma_atom_end_bounds(s, i + 1);
    }
}

pub proof fn lemma_lower_end_bounds(s: Seq<char>, i: int)
    ensures
        i <= lower_end(s, i),
        0 <= i <= s.len() ==> lower_end(s, i) <= s.len(),
    decreases s.len() - i,
{
    if 0 <= i < s.len() && is_lower(s[i]) {
        lemma_lower_end_bounds(s, i + 1);
    }
}

/// A token found from position `i` ends after `i`, and within the text.
pub proof fn lemma_step_advances(s: Seq<char>, i: int)
    ensures
        step(s, i) matches Step::Found(_, j) ==> i < j && (0 <= i ==> j <= s.len()),
{
    let q = skip(s, i, false);
    lemma_skip_bounds(s, i, false);
    lemma_atom_end_bounds(s, q + 1);
    lemma_lower_end_bounds(s, q + 1);
    if 0 <= q < s.len() && is_lower(s[q]) {
        assert(atom_end(s, q) == atom_end(s, q + 1));
    }
}

/// Relies on `str::chars`: it yields the characters of the string in order.
#[verifier::external_body]
fn chars_of(s: &String) -> (r: Vec<char>)
    ensures
        r@ == s@,
{
    s.chars().collect()
}

/// Relies on `String::push`: it appends one character at the end.
#[verifier::external_body]
fn push_char(s: &mut String, c: char)
    ensures
        final(s)@ == old(s)@.push(c),
{
    s.push(c)
}

/// A string holding the characters of `cs` from `from` up to `to`.
fn string_from(cs: &Vec<char>, from: usize, to: usize) -> (r: String)
    requires
        from <= to <= cs@.len(),
    ensures
        r@ == cs@.subrange(from as int, to as int),
{
    let mut r = String::new();
    let mut k: usize = from;
    while k < to
        invariant
            from <= k <= to <= cs@.len(),
            r@ == cs@.subrange(from as int, k as int),
        decreases to - k,
    {
        push_char(&mut r, cs[k]);
        k = k + 1;
        assert(r@ =~= cs@.subrange(from as int, k as int));
    }
    r
}

pub open spec fn view_token(t: Option<Token>) -> Option<TokenView> {
    match t {
        Some(t) => Some(t@),
        None => None,
    }
}

pub open spec fn view_read(r: Result<Option<Token>, LexError>) -> Result<Option<TokenView>, LexError> {
    match r {
        Ok(t) => Ok(view_token(t)),
        Err(e) => Err(e),
    }
}

/// Reads a text into tokens, with one token of lookahead.
pub struct Lexer {
    pos: usize,
    input: Vec<char>,
    next_token: Option<Token>,
}

impl View for Lexer {
    type V = TokenStream;

    /// The tokens still to be read: the one held as lookahead, if any,
    /// then those of the text from the cursor on.
    open spec fn view(&self) -> TokenStream {
        let rest = scan(self.text(), self.cursor());
        match self.lookahead() {
            Some(t) => TokenStream { tokens: seq![t] + rest.tokens, fault: rest.fault },
            None => rest,
        }
    }
}

impl Lexer {
    /// The whole text being read.
    pub closed spec fn text(&self) -> Seq<char> {
        self.input@
    }

    /// The position of the next character to be read.
    pub closed spec fn cursor(&self) -> int {
        self.pos as int
    }

    /// The token read ahead and not yet handed out, if any.
    pub closed spec fn lookahead(&self) -> Option<TokenView> {
        view_token(self.next_token)
    }

    pub fn new(input: String) -> (r: Lexer)
        ensures
            r.text() == input@,
            r.cursor() == 0,
            r.lookahead() is None,
            r@ == tokenize(input@),
    {
        Lexer { pos: 0, input: chars_of(&input), next_token: None }
    }

    /// The character at the cursor, if the cursor is within the text.
    pub fn peek(&self) -> (r: Option<char>)
        ensures
            r == (if 0 <= self.cursor() < self.text().len() {
                Some(self.text()[self.cursor()])
            } else {
                None
            }),
    {
        if self.pos < self.input.len() {
            Some(self.input[self.pos])
        } else {
            None
        }
    }

    /// The character at the cursor, moving the cursor past it.
    pub fn pop(&mut self) -> (r: Option<char>)
        ensures
            r == (if 0 <= old(self).cursor() < old(self).text().len() {
                Some(old(self).text()[old(self).cursor()])
            } else {
                None
            }),
            final(self).text() == old(self).text(),
            final(self).lookahead() == old(self).lookahead(),
            final(self).cursor() == (if r is Some {
                old(self).cursor() + 1
            } else {
                old(self).cursor()
            }),
    {
        if self.pos < self.input.len() {
            self.pos = self.pos + 1;
            Some(self.input[self.pos - 1])
        } else {
            None
        }
    }

    /// Reads the next token from the text, past the cursor, ignoring the
    /// lookahead. The cursor moves only when a token is found.
    fn pop_token_internal(&mut self) -> (r: Result<Option<Token>, LexError>)
        ensures
            final(self).text() == old(self).text(),
            final(self).next_token == old(self).next_token,
            match step(old(self).text(), old(self).cursor()) {
                Step::End => r == Ok::<Option<Token>, LexError>(None) && final(self).cursor()
                    == old(self).cursor(),
                Step::Failed(e) => r == Err::<Option<Token>, LexError>(e) && final(self).cursor()
                    == old(self).cursor(),
                Step::Found(t, j) => view_read(r) == Ok::<Option<TokenView>, LexError>(Some(t))
                    && final(self).cursor() == j,
            },
    {
        let ghost s = self.input@;
        let n = self.input.len();
        let mut p = self.pos;
        let mut in_comment = false;
        proof {
            lemma_skip_bounds(s, p as int, false);
        }
        loop
            invariant
                s == self.input@,
                n == s.len(),
                self.pos <= p,
                skip(s, p as int, in_comment) == skip(s, self.pos as int, false),
            ensures
                skip(s, p as int, in_comment) == p,
            decreases n - p,
        {
            if p >= n {
                break;
            }
            let c = self.input[p];
            if in_comment {
                in_comment = c != '\n';
            } else if c == ' ' || c == '\n' || c == '%' {
                in_comment = c == '%';
            } else {
                break;
            }
            p = p + 1;
        }
        if p >= n {
            return Ok(None);
        }
        let c = self.input[p];
        if 'a' <= c && c <= 'z' {
            let mut e = p;
            while e < n && (('a' <= self.input[e] && self.input[e] <= 'z') || ('0' <= self.input[e]
                && self.input[e] <= '9'))
                invariant
                    s == self.input@,
                    n == s.len(),
                    p <= e <= n,
                    atom_end(s, e as int) == atom_end(s, p as int),
                decreases n - e,
            {
                e = e + 1;
            }
            let text = string_from(&self.input, p, e);
            self.pos = e;
            Ok(Some(Token::Atom(text)))
        } else if 'A' <= c && c <= 'Z' {
            let mut e = p + 1;
            while e < n && 'a' <= self.input[e] && self.input[e] <= 'z'
                invariant
                    s == self.input@,
                    n == s.len(),
                    p < e <= n,
                    lower_end(s, e as int) == lower_end(s, p + 1),
                decreases n - e,
            {
                e = e + 1;
            }
            let text = string_from(&self.input, p, e);
            self.pos = e;
            Ok(Some(Token::Variable(text)))
        } else if c == '(' || c == ')' || c == ',' || c == '.' {
            let mut text = String::new();
            push_char(&mut text, c);
            assert(text@ =~= seq![c]);
            self.pos = p + 1;
            Ok(Some(Token::Op(text)))
        } else if c == ':' {
            if p + 1 < n && self.input[p + 1] == '-' {
                let mut text = String::new();
                push_char(&mut text, ':');
                push_char(&mut text, '-');
                assert(text@ =~= seq![':', '-']);
                self.pos = p + 2;
                Ok(Some(Token::Op(text)))
            } else {
                Err(LexError::ExpectedDash)
            }
        } else {
            Err(LexError::UnexpectedChar(c))
        }
    }

    /// Fills the lookahead, if it is empty and a token is ahead.
    fn fill_lookahead(&mut self) -> (r: Result<(), LexError>)
        ensures
            final(self)@ == old(self)@,
            match old(self)@.front() {
                Ok(t) => r is Ok && final(self).lookahead() == t,
                Err(e) => r == Err::<(), LexError>(e),
            },
    {
        if self.next_token.is_none() {
            proof {
                lemma_step_advances(self.text(), self.cursor());
            }
            match self.pop_token_internal() {
                Ok(t) => {
                    self.next_token = t;
                },
                Err(e) => {
                    return Err(e);
                },
            }
        }
        Ok(())
    }

    /// The next token, left in place: calls in a row give the same result
    /// until a token is taken.
    pub fn peek_token(&mut self) -> (r: Result<Option<Token>, LexError>)
        ensures
            final(self)@ == old(self)@,
            view_read(r) == old(self)@.front(),
    {
        self.fill_lookahead()?;
        match &self.next_token {
            Some(t) => Ok(Some(t.clone())),
            None => Ok(None),
        }
    }

    /// Takes the next token. At the end of the text, or at a lexical error,
    /// nothing is taken.
    pub fn pop_token(&mut self) -> (r: Result<Option<Token>, LexError>)
        ensures
            final(self)@ == old(self)@.advance(),
            view_read(r) == old(self)@.front(),
    {
        self.fill_lookahead()?;
        let ghost filled = self@;
        let t = self.next_token.take();
        assert(self@ =~= filled.advance());
        Ok(t)
    }

    /// Takes the next token if it equals `token`, and says whether it did.
    pub fn consume(&mut self, token: Token) -> (r: Result<bool, LexError>)
        ensures
            match old(self)@.front() {
                Err(e) => r == Err::<bool, LexError>(e) && final(self)@ == old(self)@,
                Ok(t) => if t == Some(token@) {
                    r == Ok::<bool, LexError>(true) && final(self)@ == old(self)@.advance()
                } else {
                    r == Ok::<bool, LexError>(false) && final(self)@ == old(self)@
                },
            },
    {
        self.fill_lookahead()?;
        let matched = match &self.next_token {
            Some(t) => t.same_as(&token),
            None => false,
        };
        let ghost filled = self@;
        if matched {
            self.next_token = None;
            assert(self@ =~= filled.advance());
        }
        Ok(matched)
    }

    /// Takes the next token, which must equal `token`.
    pub fn expect(&mut self, token: Token) -> (r: Result<(), ParseError>)
        ensures
            match old(self)@.front() {
                Err(e) => r matches Err(f) && f@ == ParseFault::Lex(e),
                Ok(t) => if t == Some(token@) {
                    r is Ok && final(self)@ == old(self)@.advance()
                } else {
                    r matches Err(f) && f@ == ParseFault::ExpectedToken(token@)
                },
            },
    {
        match self.consume(token.clone()) {
            Err(e) => Err(ParseError::Lex(e)),
            Ok(true) => Ok(()),
            Ok(false) => Err(ParseError::ExpectedToken(token)),
        }
    }

    /// Every token left, in order, up to the end of the text; or the
    /// lexical error that stops the reading.
    pub fn collect_tokens(&mut self) -> (r: Result<Vec<Token>, LexError>)
        ensures
            match old(self)@.fault {
                None => r is Ok && r->Ok_0@.map_values(|t: Token| t@) == old(self)@.tokens,
                Some(e) => r == Err::<Vec<Token>, LexError>(e),
            },
    {
        let ghost start = self@;
        let mut out: Vec<Token> = Vec::new();
        loop
            invariant
                start == old(self)@,
                self@.fault == start.fault,
                out@.map_values(|t: Token| t@) + self@.tokens == start.tokens,
            decreases self@.tokens.len(),
        {
            match self.pop_token() {
                Err(e) => {
                    return Err(e);
                },
                Ok(Some(t)) => {
                    out.push(t);
                    assert(out@.map_values(|t: Token| t@) + self@.tokens =~= start.tokens);
                },
                Ok(None) => {
                    assert(out@.map_values(|t: Token| t@) =~= start.tokens);
                    return Ok(out);
                },
            }
        }
    }
}

} // verus!
