//! Lexical tokens: the kinds the scanner can produce, literal payloads,
//! and the token record itself, together with their ghost models.

use vstd::prelude::*;

verus! {

/// The lexical category of a token.
#[derive(Clone, Copy, PartialEq, Eq, Structural, Debug)]
pub enum TokenKind {
    // Single-character tokens.
    LeftParen,
    RightParen,
    LeftBrace,
    RightBrace,
    Comma,
    Dot,
    Minus,
    Plus,
    Semicolon,
    Slash,
    Star,
    // One or two character tokens.
    Bang,
    BangEqual,
    Equal,
    EqualEqual,
    Greater,
    GreaterEqual,
    Less,
    LessEqual,
    // Literals.
    Identifier,
    String,
    Number,
    // Keywords.
    And,
    Class,
    Else,
    False,
    Fun,
    For,
    If,
    Nil,
    Or,
    Print,
    Return,
    Super,
    This,
    True,
    Var,
    While,
    EndOfFile,
}

/// A literal payload carried by a string, number, boolean or nil token.
/// A number literal holds the bit pattern of an IEEE-754 double.
#[derive(PartialEq, Debug)]
pub enum Literal {
    String(String),
    Number(u64),
    Boolean(bool),
    Nil,
}

/// Mathematical model of a literal payload.
#[verifier::ext_equal]
pub ghost enum LitModel {
    Str(Seq<char>),
    Num(u64),
    Bool(bool),
    Nil,
}

impl View for Literal {
    type V = LitModel;

    open spec fn view(&self) -> LitModel {
        match self {
            Literal::String(s) => LitModel::Str(s@),
            Literal::Number(n) => LitModel::Num(*n),
            Literal::Boolean(b) => LitModel::Bool(*b),
            Literal::Nil => LitModel::Nil,
        }
    }
}

impl Clone for Literal {
    fn clone(&self) -> (r: Self)
        ensures
            r@ == self@,
    {
        match self {
            Literal::String(s) => Literal::String(s.clone()),
            Literal::Number(n) => Literal::Number(*n),
            Literal::Boolean(b) => Literal::Boolean(*b),
            Literal::Nil => Literal::Nil,
        }
    }
}

/// One token of source text: its kind, the exact source slice it was
/// read from, an optional literal payload, and the source line.
#[derive(PartialEq, Debug)]
pub struct Token {
    pub kind: TokenKind,
    pub lexeme: String,
    pub literal: Option<Literal>,
    pub line: u32,
}

/// Mathematical model of a token.
#[verifier::ext_equal]
pub ghost struct TokenModel {
    pub kind: TokenKind,
    pub lexeme: Seq<char>,
    pub literal: Option<LitModel>,
    pub line: u32,
}

impl View for Token {
    type V = TokenModel;

    open spec fn view(&self) -> TokenModel {
        TokenModel {
            kind: self.kind,
            lexeme: self.lexeme@,
            literal: match self.literal {
                Some(l) => Some(l@),
                None => None,
            },
            line: self.line,
        }
    }
}

impl Token {
    pub fn new(kind: TokenKind, lexeme: &str, literal: Option<Literal>, line: u32) -> (r: Self)
        ensures
            r@ == (TokenModel { kind, lexeme: lexeme@, literal: match literal {
                Some(l) => Some(l@),
                None => None,
            }, line }),
    {
        Token { kind, lexeme: lexeme.to_owned(), literal, line }
    }

}

impl Clone for Token {
    fn clone(&self) -> (r: Self)
        ensures
            r@ == self@,
    {
        let literal: Option<Literal> = match &self.literal {
            Some(l) => Some(l.clone()),
            None => None,
        };
        Token { kind: self.kind, lexeme: self.lexeme.clone(), literal, line: self.line }
    }
}

/// A reserved word together with the token kind it scans to.
pub struct Keyword {
    pub key: &'static str,
    pub value: TokenKind,
}

impl Keyword {
    pub fn new(lexeme: &'static str, kind: TokenKind) -> (r: Self)
        ensures
            r.key@ == lexeme@,
            r.value == kind,
    {
        Keyword { key: lexeme, value: kind }
    }
}

} // verus!
