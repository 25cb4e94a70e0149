//! The tokens of an annotation, as the host compiler hands them over.

use vstd::prelude::*;
use vstd::string::StringExecFns;

verus! {

/// The brackets around a group of tokens.
#[derive(Clone, Copy, Debug, PartialEq, Eq, Structural)]
pub enum Delimiter {
    /// `( ... )`
    Parenthesis,
    /// `{ ... }`
    Brace,
    /// `[ ... ]`
    Bracket,
    /// A group without written brackets.
    Invisible,
}

/// One token tree of an annotation's arguments.
#[derive(Debug, PartialEq, Eq)]
pub enum Token {
    /// An identifier or keyword.
    Ident(String),
    /// A single punctuation character.
    Punct(char),
    /// A string literal; the payload is the text it denotes, without quotes
    /// and with escapes resolved.
    Str(String),
    /// Any other literal, as written.
    Literal(String),
    /// A bracketed run of tokens.
    Group(Delimiter, Vec<Token>),
}

impl Token {
    /// Whether the token is the punctuation character `c`.
    pub open spec fn is_punct(self, c: char) -> bool {
        self == Token::Punct(c)
    }

    /// Whether the token is an identifier spelled `name`.
    pub open spec fn is_ident(self, name: Seq<char>) -> bool {
        self matches Token::Ident(s) && s@ == name
    }

    /// The identifier spelled `name`.
    pub fn ident(name: &str) -> (token: Token)
        ensures
            token.is_ident(name@),
    {
        Token::Ident(String::from_str(name))
    }

    /// The string literal that denotes `text`.
    pub fn string(text: &str) -> (token: Token)
        ensures
            token matches Token::Str(s) && s@ == text@,
    {
        Token::Str(String::from_str(text))
    }

    /// The tokens `tokens` between parentheses.
    pub fn parenthesized(tokens: Vec<Token>) -> (token: Token)
        ensures
            token == Token::Group(Delimiter::Parenthesis, tokens),
    {
        Token::Group(Delimiter::Parenthesis, tokens)
    }

    /// Tests for the punctuation character `c`.
    pub fn punct_is(&self, c: char) -> (yes: bool)
        ensures
            yes == self.is_punct(c),
    {
        match self {
            Token::Punct(p) => *p == c,
            _ => false,
        }
    }
}

} // verus!
