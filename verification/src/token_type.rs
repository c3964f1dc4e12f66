//! The closed set of token kinds, and literal payloads.
//!
//! A number literal is carried as the 64-bit pattern of the IEEE-754 double
//! it denotes (see the `numeric` module).

use vstd::prelude::*;

verus! {

#[allow(non_camel_case_types)]
#[derive(Debug, PartialEq)]
pub enum TokenType {
    // Single-character tokens.
    LEFT_PAREN,
    RIGHT_PAREN,
    LEFT_BRACE,
    RIGHT_BRACE,
    COMMA,
    DOT,
    MINUS,
    PLUS,
    SEMICOLON,
    SLASH,
    STAR,
    // One or two character tokens.
    BANG,
    BANG_EQUAL,
    EQUAL,
    EQUAL_EQUAL,
    GREATER,
    GREATER_EQUAL,
    LESS,
    LESS_EQUAL,
    // Literals.
    IDENTIFIER,
    STRING(String),
    NUMBER(u64),
    // Keywords.
    AND,
    CLASS,
    ELSE,
    FALSE,
    FUN,
    FOR,
    IF,
    NIL,
    OR,
    PRINT,
    RETURN,
    SUPER,
    THIS,
    TRUE,
    VAR,
    WHILE,
    EOF,
}

/// The mathematical shape of a token kind: a string payload as its character
/// sequence, a number payload as double bits.
#[allow(non_camel_case_types)]
pub enum TokenTypeV {
    LEFT_PAREN,
    RIGHT_PAREN,
    LEFT_BRACE,
    RIGHT_BRACE,
    COMMA,
    DOT,
    MINUS,
    PLUS,
    SEMICOLON,
    SLASH,
    STAR,
    BANG,
    BANG_EQUAL,
    EQUAL,
    EQUAL_EQUAL,
    GREATER,
    GREATER_EQUAL,
    LESS,
    LESS_EQUAL,
    IDENTIFIER,
    STRING(Seq<char>),
    NUMBER(u64),
    AND,
    CLASS,
    ELSE,
    FALSE,
    FUN,
    FOR,
    IF,
    NIL,
    OR,
    PRINT,
    RETURN,
    SUPER,
    THIS,
    TRUE,
    VAR,
    WHILE,
    EOF,
}

impl View for TokenType {
    type V = TokenTypeV;

    open spec fn view(&self) -> TokenTypeV {
        match self {
            TokenType::LEFT_PAREN => TokenTypeV::LEFT_PAREN,
            TokenType::RIGHT_PAREN => TokenTypeV::RIGHT_PAREN,
            TokenType::LEFT_BRACE => TokenTypeV::LEFT_BRACE,
            TokenType::RIGHT_BRACE => TokenTypeV::RIGHT_BRACE,
            TokenType::COMMA => TokenTypeV::COMMA,
            TokenType::DOT => TokenTypeV::DOT,
            TokenType::MINUS => TokenTypeV::MINUS,
            TokenType::PLUS => TokenTypeV::PLUS,
            TokenType::SEMICOLON => TokenTypeV::SEMICOLON,
            TokenType::SLASH => TokenTypeV::SLASH,
            TokenType::STAR => TokenTypeV::STAR,
            TokenType::BANG => TokenTypeV::BANG,
            TokenType::BANG_EQUAL => TokenTypeV::BANG_EQUAL,
            TokenType::EQUAL => TokenTypeV::EQUAL,
            TokenType::EQUAL_EQUAL => TokenTypeV::EQUAL_EQUAL,
            TokenType::GREATER => TokenTypeV::GREATER,
            TokenType::GREATER_EQUAL => TokenTypeV::GREATER_EQUAL,
            TokenType::LESS => TokenTypeV::LESS,
            TokenType::LESS_EQUAL => TokenTypeV::LESS_EQUAL,
            TokenType::IDENTIFIER => TokenTypeV::IDENTIFIER,
            TokenType::STRING(s) => TokenTypeV::STRING(s@),
            TokenType::NUMBER(n) => TokenTypeV::NUMBER(*n),
            TokenType::AND => TokenTypeV::AND,
            TokenType::CLASS => TokenTypeV::CLASS,
            TokenType::ELSE => TokenTypeV::ELSE,
            TokenType::FALSE => TokenTypeV::FALSE,
            TokenType::FUN => TokenTypeV::FUN,
            TokenType::FOR => TokenTypeV::FOR,
            TokenType::IF => TokenTypeV::IF,
            TokenType::NIL => TokenTypeV::NIL,
            TokenType::OR => TokenTypeV::OR,
            TokenType::PRINT => TokenTypeV::PRINT,
            TokenType::RETURN => TokenTypeV::RETURN,
            TokenType::SUPER => TokenTypeV::SUPER,
            TokenType::THIS => TokenTypeV::THIS,
            TokenType::TRUE => TokenTypeV::TRUE,
            TokenType::VAR => TokenTypeV::VAR,
            TokenType::WHILE => TokenTypeV::WHILE,
            TokenType::EOF => TokenTypeV::EOF,
        }
    }
}

/// A literal payload carried from a token into an expression node.
#[derive(Debug, Clone, PartialEq)]
pub enum Literal {
    String(String),
    Number(u64),
    True,
    False,
    Nil,
}

/// The mathematical shape of a literal payload.
pub enum LiteralV {
    String(Seq<char>),
    Number(u64),
    True,
    False,
    Nil,
}

impl View for Literal {
    type V = LiteralV;

    open spec fn view(&self) -> LiteralV {
        match self {
            Literal::String(s) => LiteralV::String(s@),
            Literal::Number(n) => LiteralV::Number(*n),
            Literal::True => LiteralV::True,
            Literal::False => LiteralV::False,
            Literal::Nil => LiteralV::Nil,
        }
    }
}

impl vstd::std_specs::convert::FromSpecImpl<Literal> for TokenType {
    open spec fn obeys_from_spec() -> bool {
        true
    }

    open spec fn from_spec(literal: Literal) -> TokenType {
        match literal {
            Literal::String(s) => TokenType::STRING(s),
            Literal::Number(n) => TokenType::NUMBER(n),
            Literal::True => TokenType::TRUE,
            Literal::False => TokenType::FALSE,
            Literal::Nil => TokenType::NIL,
        }
    }
}

impl From<Literal> for TokenType {
    fn from(literal: Literal) -> (r: TokenType) {
        match literal {
            Literal::String(s) => TokenType::STRING(s),
            Literal::Number(n) => TokenType::NUMBER(n),
            Literal::True => TokenType::TRUE,
            Literal::False => TokenType::FALSE,
            Literal::Nil => TokenType::NIL,
        }
    }
}

impl Clone for TokenType {
    /// The clone carries the same kind and payload.
    fn clone(&self) -> (r: TokenType)
        ensures
            r@ == self@,
    {
        match self {
            TokenType::LEFT_PAREN => TokenType::LEFT_PAREN,
            TokenType::RIGHT_PAREN => TokenType::RIGHT_PAREN,
            TokenType::LEFT_BRACE => TokenType::LEFT_BRACE,
            TokenType::RIGHT_BRACE => TokenType::RIGHT_BRACE,
            TokenType::COMMA => TokenType::COMMA,
            TokenType::DOT => TokenType::DOT,
            TokenType::MINUS => TokenType::MINUS,
            TokenType::PLUS => TokenType::PLUS,
            TokenType::SEMICOLON => TokenType::SEMICOLON,
            TokenType::SLASH => TokenType::SLASH,
            TokenType::STAR => TokenType::STAR,
            TokenType::BANG => TokenType::BANG,
            TokenType::BANG_EQUAL => TokenType::BANG_EQUAL,
            TokenType::EQUAL => TokenType::EQUAL,
            TokenType::EQUAL_EQUAL => TokenType::EQUAL_EQUAL,
            TokenType::GREATER => TokenType::GREATER,
            TokenType::GREATER_EQUAL => TokenType::GREATER_EQUAL,
            TokenType::LESS => TokenType::LESS,
            TokenType::LESS_EQUAL => TokenType::LESS_EQUAL,
            TokenType::IDENTIFIER => TokenType::IDENTIFIER,
            TokenType::STRING(s) => TokenType::STRING(s.clone()),
            TokenType::NUMBER(n) => TokenType::NUMBER(*n),
            TokenType::AND => TokenType::AND,
            TokenType::CLASS => TokenType::CLASS,
            TokenType::ELSE => TokenType::ELSE,
            TokenType::FALSE => TokenType::FALSE,
            TokenType::FUN => TokenType::FUN,
            TokenType::FOR => TokenType::FOR,
            TokenType::IF => TokenType::IF,
            TokenType::NIL => TokenType::NIL,
            TokenType::OR => TokenType::OR,
            TokenType::PRINT => TokenType::PRINT,
            TokenType::RETURN => TokenType::RETURN,
            TokenType::SUPER => TokenType::SUPER,
            TokenType::THIS => TokenType::THIS,
            TokenType::TRUE => TokenType::TRUE,
            TokenType::VAR => TokenType::VAR,
            TokenType::WHILE => TokenType::WHILE,
            TokenType::EOF => TokenType::EOF,
        }
    }
}

} // verus!
