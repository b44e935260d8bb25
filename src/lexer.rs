//! Lexer for the source language: turns text into tokens one at a time.
use vstd::prelude::*;
use vstd::std_specs::iter::IteratorSpec;
use crate::token::{keyword_type, Token, TokenType};

verus! {

/// The character at `p`, or `'\0'` past the end.
pub open spec fn char_at(s: Seq<char>, p: int) -> char {
    if 0 <= p < s.len() {
        s[p]
    } else {
        '\0'
    }
}

pub open spec fn is_letter_char(c: char) -> bool {
    ('a' <= c && c <= 'z') || ('A' <= c && c <= 'Z') || c == '_'
}

pub open spec fn is_digit_char(c: char) -> bool {
    '0' <= c && c <= '9'
}

pub open spec fn is_space_char(c: char) -> bool {
    c == ' ' || c == '\t' || c == '\n' || c == '\r'
}

/// The first position at or after `p` that holds no whitespace.
pub open spec fn skip_space(s: Seq<char>, p: int) -> int
    decreases s.len() - p,
{
    if 0 <= p < s.len() && is_space_char(s[p]) {
        skip_space(s, p + 1)
    } else {
        p
    }
}

/// The end of the run of letters that starts at `p`.
pub open spec fn letters_end(s: Seq<char>, p: int) -> int
    decreases s.len() - p,
{
    if 0 <= p < s.len() && is_letter_char(s[p]) {
        letters_end(s, p + 1)
    } else {
        p
    }
}

/// The end of the run of digits that starts at `p`.
pub open spec fn digits_end(s: Seq<char>, p: int) -> int
    decreases s.len() - p,
{
    if 0 <= p < s.len() && is_digit_char(s[p]) {
        digits_end(s, p + 1)
    } else {
        p
    }
}

/// One position on, but never past the end.
pub open spec fn advance(s: Seq<char>, p: int) -> int {
    if p < s.len() {
        p + 1
    } else {
        p
    }
}

/// The type of the token that starts with `c`, where `next` follows it.
pub open spec fn start_type(c: char, next: char) -> TokenType {
    if c == '=' {
        if next == '=' {
            TokenType::EQ
        } else {
            TokenType::ASSIGN
        }
    } else if c == ';' {
        TokenType::SEMICOLON
    } else if c == '(' {
        TokenType::LPAREN
    } else if c == ')' {
        TokenType::RPAREN
    } else if c == ',' {
        TokenType::COMMA
    } else if c == '+' {
        TokenType::PLUS
    } else if c == '-' {
        TokenType::MINUS
    } else if c == '!' {
        if next == '=' {
            TokenType::NOT_EQ
        } else {
            TokenType::BANG
        }
    } else if c == '/' {
        TokenType::SLASH
    } else if c == '*' {
        TokenType::ASTERISK
    } else if c == '<' {
        TokenType::LT
    } else if c == '>' {
        TokenType::GT
    } else if c == '{' {
        TokenType::LBRACE
    } else if c == '}' {
        TokenType::RBRACE
    } else if c == '\0' {
        TokenType::EOF
    } else if is_letter_char(c) {
        TokenType::IDENT
    } else if is_digit_char(c) {
        TokenType::INT
    } else {
        TokenType::ILLEGAL
    }
}

/// The token read at `p` (no whitespace there): its type, its literal, and the
/// position after it. A word runs over all its letters and is looked up as a
/// keyword; a number runs over all its digits; `==` moves on by one character
/// only; every other token is the single character at `p`.
pub open spec fn scan_token(s: Seq<char>, p: int) -> (TokenType, Seq<char>, int) {
    let c = char_at(s, p);
    let t = start_type(c, char_at(s, p + 1));
    if t == TokenType::EQ {
        (t, seq![c, char_at(s, p + 1)], advance(s, p))
    } else if t == TokenType::IDENT {
        (keyword_type(s.subrange(p, letters_end(s, p))), s.subrange(p, letters_end(s, p)), letters_end(s, p))
    } else if t == TokenType::INT {
        (t, s.subrange(p, digits_end(s, p)), digits_end(s, p))
    } else {
        (t, seq![c], advance(s, p))
    }
}

/// Relies on `String: FromIterator<char>`: collecting characters gives the
/// string of exactly those characters, in order.
#[verifier::external_body]
fn string_from_chars(cs: &Vec<char>) -> (r: String)
    ensures
        r@ == cs@,
{
    cs.iter().collect::<String>()
}

/// A lexer over a fixed input; `ch` is the character at the current position,
/// or `'\0'` at the end.
pub struct Lexer {
    input: Vec<char>,
    position: usize,
    pub ch: char,
}

impl Lexer {
    /// The input, as characters.
    pub closed spec fn text(&self) -> Seq<char> {
        self.input@
    }

    /// The current position in the input.
    pub closed spec fn pos(&self) -> int {
        self.position as int
    }

    /// The character at the current position, which the public field `ch` holds.
    pub closed spec fn current(&self) -> char {
        self.ch
    }

    pub closed spec fn wf(&self) -> bool {
        &&& self.position <= self.input@.len()
        &&& self.ch == char_at(self.input@, self.position as int)
    }

    /// A lexer at the start of `input`.
    pub fn new(input: String) -> (r: Self)
        ensures
            r.wf(),
            r.text() == input@,
            r.pos() == 0,
            r.current() == char_at(input@, 0),
    {
        let mut chars = input.as_str().chars();
        let mut v: Vec<char> = Vec::new();
        loop
            invariant
                v@ + chars.remaining() == input@,
                chars.decrease() is Some,
            ensures
                v@ == input@,
            decreases chars.decrease()->0,
        {
            match chars.next() {
                Some(c) => {
                    v.push(c);
                },
                None => {
                    break;
                },
            }
        }
        let ch = if v.len() > 0 { v[0] } else { '\0' };
        Lexer { input: v, position: 0, ch }
    }

    /// Moves one character on, staying at the end once there.
    pub fn read_char(&mut self)
        requires
            old(self).wf(),
        ensures
            final(self).wf(),
            final(self).text() == old(self).text(),
            final(self).pos() == advance(old(self).text(), old(self).pos()),
            final(self).current() == char_at(final(self).text(), final(self).pos()),
    {
        if self.position < self.input.len() {
            self.position = self.position + 1;
        }
        if self.position < self.input.len() {
            self.ch = self.input[self.position];
        } else {
            self.ch = '\0';
        }
    }

    /// Reads the next token, after any whitespace.
    pub fn next_token(&mut self) -> (r: Token)
        requires
            old(self).wf(),
        ensures
            final(self).wf(),
            final(self).text() == old(self).text(),
            ({
                let (t, lit, next) = scan_token(
                    old(self).text(),
                    skip_space(old(self).text(), old(self).pos()),
                );
                &&& r.token_type == t
                &&& r.literal@ == lit
                &&& final(self).pos() == next
            }),
    {
        self.skip_whitespace();
        let ghost s = self.input@;
        let ghost p = self.position as int;
        let c = self.ch;
        let next = self.peek_char();
        let t = if c == '=' {
            if next == '=' {
                TokenType::EQ
            } else {
                TokenType::ASSIGN
            }
        } else if c == ';' {
            TokenType::SEMICOLON
        } else if c == '(' {
            TokenType::LPAREN
        } else if c == ')' {
            TokenType::RPAREN
        } else if c == ',' {
            TokenType::COMMA
        } else if c == '+' {
            TokenType::PLUS
        } else if c == '-' {
            TokenType::MINUS
        } else if c == '!' {
            if next == '=' {
                TokenType::NOT_EQ
            } else {
                TokenType::BANG
            }
        } else if c == '/' {
            TokenType::SLASH
        } else if c == '*' {
            TokenType::ASTERISK
        } else if c == '<' {
            TokenType::LT
        } else if c == '>' {
            TokenType::GT
        } else if c == '{' {
            TokenType::LBRACE
        } else if c == '}' {
            TokenType::RBRACE
        } else if c == '\0' {
            TokenType::EOF
        } else if Self::is_letter(c) {
            TokenType::IDENT
        } else if Self::is_digit(c) {
            TokenType::INT
        } else {
            TokenType::ILLEGAL
        };
        assert(t == start_type(char_at(s, p), char_at(s, p + 1)));
        if t == TokenType::EQ {
            self.read_char();
            let pair = vec![c, self.ch];
            Token::new(t, string_from_chars(&pair))
        } else if t == TokenType::IDENT {
            let literal = self.read_ident();
            let kind = Token::lookup_ident(literal.as_str());
            Token::new(kind, literal)
        } else if t == TokenType::INT {
            let literal = self.read_number();
            Token::new(t, literal)
        } else {
            self.read_char();
            let single = vec![c];
            Token::new(t, string_from_chars(&single))
        }
    }

    /// The characters from `start` up to the current position.
    fn slice_from(&self, start: usize) -> (r: String)
        requires
            start <= self.position <= self.input@.len(),
        ensures
            r@ == self.input@.subrange(start as int, self.position as int),
    {
        let mut v: Vec<char> = Vec::new();
        let mut i: usize = start;
        while i < self.position
            invariant
                start <= i <= self.position <= self.input@.len(),
                v@ == self.input@.subrange(start as int, i as int),
            decreases self.position - i,
        {
            v.push(self.input[i]);
            proof {
                assert(v@ =~= self.input@.subrange(start as int, i + 1));
            }
            i += 1;
        }
        string_from_chars(&v)
    }

    fn read_ident(&mut self) -> (r: String)
        requires
            old(self).wf(),
        ensures
            final(self).wf(),
            final(self).input@ == old(self).input@,
            final(self).position == letters_end(old(self).input@, old(self).position as int),
            r@ == old(self).input@.subrange(
                old(self).position as int,
                letters_end(old(self).input@, old(self).position as int),
            ),
    {
        let start = self.position;
        while Self::is_letter(self.ch)
            invariant
                self.wf(),
                self.input@ == old(self).input@,
                start <= self.position,
                letters_end(self.input@, self.position as int) == letters_end(
                    self.input@,
                    start as int,
                ),
            decreases self.input@.len() - self.position,
        {
            self.read_char();
        }
        self.slice_from(start)
    }

    fn read_number(&mut self) -> (r: String)
        requires
            old(self).wf(),
        ensures
            final(self).wf(),
            final(self).input@ == old(self).input@,
            final(self).position == digits_end(old(self).input@, old(self).position as int),
            r@ == old(self).input@.subrange(
                old(self).position as int,
                digits_end(old(self).input@, old(self).position as int),
            ),
    {
        let start = self.position;
        while Self::is_digit(self.ch)
            invariant
                self.wf(),
                self.input@ == old(self).input@,
                start <= self.position,
                digits_end(self.input@, self.position as int) == digits_end(
                    self.input@,
                    start as int,
                ),
            decreases self.input@.len() - self.position,
        {
            self.read_char();
        }
        self.slice_from(start)
    }

    /// The character after the current one, or `'\0'` past the end.
    fn peek_char(&self) -> (r: char)
        requires
            self.wf(),
        ensures
            r == char_at(self.input@, self.position + 1),
    {
        if self.input.len() - self.position <= 1 {
            '\0'
        } else {
            self.input[self.position + 1]
        }
    }

    fn skip_whitespace(&mut self)
        requires
            old(self).wf(),
        ensures
            final(self).wf(),
            final(self).input@ == old(self).input@,
            final(self).position == skip_space(old(self).input@, old(self).position as int),
    {
        while self.ch == ' ' || self.ch == '\t' || self.ch == '\n' || self.ch == '\r'
            invariant
                self.wf(),
                self.input@ == old(self).input@,
                skip_space(self.input@, self.position as int) == skip_space(
                    old(self).input@,
                    old(self).position as int,
                ),
            decreases self.input@.len() - self.position,
        {
            self.read_char();
        }
    }

    fn is_letter(ch: char) -> (r: bool)
        ensures
            r == is_letter_char(ch),
    {
        ('a' <= ch && ch <= 'z') || ('A' <= ch && ch <= 'Z') || ch == '_'
    }

    fn is_digit(ch: char) -> (r: bool)
        ensures
            r == is_digit_char(ch),
    {
        '0' <= ch && ch <= '9'
    }
}

} // verus!
