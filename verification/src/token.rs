//! The token alphabet of the language. Tokens are immutable once produced;
//! the lexer hands the parser a flat sequence consumed left to right.

use vstd::prelude::*;

verus! {

/// A lexical token.
#[derive(Debug)]
pub enum Token {
    OpenParen,
    CloseParen,
    OpenBrace,
    CloseBrace,
    Semicolon,
    Int,
    Void,
    Return,
    /// An unsigned integer literal carrying its numeric value.
    Integer(u64),
    /// An identifier carrying its name.
    Identifier(String),
    /// The unary negation marker `-`.
    Negate,
    /// The unary bit-complement marker `~`.
    BitFlip,
    /// The decrement marker `--`. Reserved: the lexer reads `--` as two
    /// negation markers, so this token is never produced today.
    Decrement,
}

/// The mathematical value of a token: as `Token`, with identifier names
/// abstracted to character sequences.
pub enum TokenV {
    OpenParen,
    CloseParen,
    OpenBrace,
    CloseBrace,
    Semicolon,
    Int,
    Void,
    Return,
    Integer(u64),
    Identifier(Seq<char>),
    Negate,
    BitFlip,
    Decrement,
}

impl View for Token {
    type V = TokenV;

    open spec fn view(&self) -> TokenV {
        match self {
            Token::OpenParen => TokenV::OpenParen,
            Token::CloseParen => TokenV::CloseParen,
            Token::OpenBrace => TokenV::OpenBrace,
            Token::CloseBrace => TokenV::CloseBrace,
            Token::Semicolon => TokenV::Semicolon,
            Token::Int => TokenV::Int,
            Token::Void => TokenV::Void,
            Token::Return => TokenV::Return,
            Token::Integer(v) => TokenV::Integer(*v),
            Token::Identifier(name) => TokenV::Identifier(name@),
            Token::Negate => TokenV::Negate,
            Token::BitFlip => TokenV::BitFlip,
            Token::Decrement => TokenV::Decrement,
        }
    }
}

/// The views of a sequence of tokens.
pub open spec fn tokens_view(tokens: Seq<Token>) -> Seq<TokenV> {
    tokens.map_values(|t: Token| t@)
}

} // verus!
