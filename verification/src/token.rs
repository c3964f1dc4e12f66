//! Tokens: kind, exact lexeme, and source line.

use crate::token_type::{TokenType, TokenTypeV};
use vstd::prelude::*;

verus! {

/// One token of the source text. The lexeme is the exact grapheme-cluster
/// bounded substring the token was read from; the line is where the lexeme
/// ends.
#[derive(Debug, PartialEq)]
pub struct Token {
    pub typ: TokenType,
    pub lexeme: String,
    pub line: usize,
}

/// The mathematical shape of a token.
pub struct TokenV {
    pub typ: TokenTypeV,
    pub lexeme: Seq<char>,
    pub line: nat,
}

impl View for Token {
    type V = TokenV;

    open spec fn view(&self) -> TokenV {
        TokenV { typ: self.typ@, lexeme: self.lexeme@, line: self.line as nat }
    }
}

/// The views of a sequence of tokens.
pub open spec fn token_views(ts: Seq<Token>) -> Seq<TokenV> {
    Seq::new(ts.len(), |i: int| ts[i]@)
}

impl Token {
    pub fn new(typ: TokenType, lexeme: String, line: usize) -> (r: Token)
        ensures
            r == (Token { typ, lexeme, line }),
    {
        Token { typ, lexeme, line }
    }
}

impl Clone for Token {
    /// The clone has the same kind, lexeme and line.
    fn clone(&self) -> (r: Token)
        ensures
            r@ == self@,
    {
        Token { typ: self.typ.clone(), lexeme: self.lexeme.clone(), line: self.line }
    }
}

} // verus!
