//! Tokens of the source language and its keyword table.
use vstd::prelude::*;

verus! {

#[allow(non_camel_case_types)]
#[derive(Debug, Clone, Copy, PartialEq, Eq, Structural)]
pub enum TokenType {
    ILLEGAL,
    EOF,
    IDENT,
    INT,
    ASSIGN,
    PLUS,
    MINUS,
    BANG,
    ASTERISK,
    SLASH,
    LT,
    GT,
    COMMA,
    SEMICOLON,
    LPAREN,
    RPAREN,
    LBRACE,
    RBRACE,
    FUNCTION,
    LET,
    TRUE,
    FALSE,
    IF,
    ELSE,
    RETURN,
    EQ,
    NOT_EQ,
}

/// A token: its type and the source text it was read from.
#[derive(Debug)]
pub struct Token {
    pub token_type: TokenType,
    pub literal: String,
}

/// The type of an identifier-shaped word: its keyword type if it is one of
/// `fn let true false if else return`, `IDENT` otherwise.
pub open spec fn keyword_type(s: Seq<char>) -> TokenType {
    if s == "fn"@ {
        TokenType::FUNCTION
    } else if s == "let"@ {
        TokenType::LET
    } else if s == "true"@ {
        TokenType::TRUE
    } else if s == "false"@ {
        TokenType::FALSE
    } else if s == "if"@ {
        TokenType::IF
    } else if s == "else"@ {
        TokenType::ELSE
    } else if s == "return"@ {
        TokenType::RETURN
    } else {
        TokenType::IDENT
    }
}

/// Whether two strings hold the same characters.
fn str_eq(a: &str, b: &str) -> (r: bool)
    ensures
        r == (a@ == b@),
{
    let n = a.unicode_len();
    let m = b.unicode_len();
    if n != m {
        return false;
    }
    let mut i: usize = 0;
    while i < n
        invariant
            n == a@.len(),
            m == b@.len(),
            n == m,
            i <= n,
            forall|k: int| 0 <= k < i ==> a@[k] == b@[k],
        decreases n - i,
    {
        if a.get_char(i) != b.get_char(i) {
            return false;
        }
        i += 1;
    }
    assert(a@ =~= b@);
    true
}

impl Token {
    pub fn new(token_type: TokenType, value: String) -> (r: Self)
        ensures
            r.token_type == token_type,
            r.literal == value,
    {
        Self { token_type, literal: value }
    }

    /// The keyword type of `key`, or `IDENT` when it is no keyword.
    pub fn lookup_ident(key: &str) -> (r: TokenType)
        ensures
            r == keyword_type(key@),
    {
        if str_eq(key, "fn") {
            TokenType::FUNCTION
        } else if str_eq(key, "let") {
            TokenType::LET
        } else if str_eq(key, "true") {
            TokenType::TRUE
        } else if str_eq(key, "false") {
            TokenType::FALSE
        } else if str_eq(key, "if") {
            TokenType::IF
        } else if str_eq(key, "else") {
            TokenType::ELSE
        } else if str_eq(key, "return") {
            TokenType::RETURN
        } else {
            TokenType::IDENT
        }
    }
}

} // verus!
