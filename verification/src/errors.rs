//! Error types of the pipeline, one kind per stage. Every stage returns
//! either a fully valid output or exactly one of these; the first error
//! aborts all remaining stages.

use vstd::prelude::*;

verus! {

/// An error of the lexer.
#[derive(Debug, Clone, Copy, PartialEq, Eq, Structural)]
pub enum LexError {
    /// A character that starts no token.
    InvalidToken,
    /// A digit run immediately followed by a letter.
    InvalidIdentifier,
    /// An integer literal that does not fit the supported integer type.
    IntegerTooLarge,
}

impl LexError {
    /// The human-readable message of this error.
    pub fn message(&self) -> (r: &'static str)
        ensures
            *self == LexError::InvalidToken ==> r@ == "Invalid Token"@,
            *self == LexError::InvalidIdentifier ==> r@ == "Invalid identifier"@,
            *self == LexError::IntegerTooLarge ==> r@ == "Integer literal too large"@,
    {
        match self {
            LexError::InvalidToken => "Invalid Token",
            LexError::InvalidIdentifier => "Invalid identifier",
            LexError::IntegerTooLarge => "Integer literal too large",
        }
    }
}

/// An error of the parser: an expected token or nonterminal was not found
/// (a premature end of input is reported like a mismatched token), or
/// tokens remained after a complete program.
#[derive(Debug, Clone, Copy, PartialEq, Eq, Structural)]
pub enum SyntaxError {
    ExpectedInt,
    ExpectedIdentifier,
    ExpectedOpenParen,
    ExpectedVoid,
    ExpectedCloseParen,
    ExpectedOpenBrace,
    ExpectedCloseBrace,
    ExpectedReturn,
    ExpectedSemicolon,
    ExpectedCloseParenAfterExpression,
    InvalidExpression,
    UnexpectedTrailingTokens,
}

impl SyntaxError {
    /// The human-readable message of this error.
    pub fn message(&self) -> (r: &'static str)
        ensures
            *self == SyntaxError::ExpectedInt ==> r@ == "Syntax Error: expected an int"@,
            *self == SyntaxError::ExpectedIdentifier ==> r@ == "Syntax Error"@,
            *self == SyntaxError::ExpectedOpenParen ==> r@ == "Syntax Error: expected open paren"@,
            *self == SyntaxError::ExpectedVoid ==> r@ == "Syntax Error: expected void"@,
            *self == SyntaxError::ExpectedCloseParen ==> r@ == "Syntax Error: expected closing paren"@,
            *self == SyntaxError::ExpectedOpenBrace ==> r@ == "Syntax Error: expected open brace"@,
            *self == SyntaxError::ExpectedCloseBrace ==> r@ == "Syntax Error: expected closing brace"@,
            *self == SyntaxError::ExpectedReturn ==> r@ == "Syntax Error: expected return"@,
            *self == SyntaxError::ExpectedSemicolon ==> r@ == "Syntax Error: expected a semicolon"@,
            *self == SyntaxError::ExpectedCloseParenAfterExpression ==> r@
                == "Syntax Error: expected closing paren after expression"@,
            *self == SyntaxError::InvalidExpression ==> r@ == "Syntax Error: Invalid Expression"@,
            *self == SyntaxError::UnexpectedTrailingTokens ==> r@ == "Unexpected junk found"@,
    {
        match self {
            SyntaxError::ExpectedInt => "Syntax Error: expected an int",
            SyntaxError::ExpectedIdentifier => "Syntax Error",
            SyntaxError::ExpectedOpenParen => "Syntax Error: expected open paren",
            SyntaxError::ExpectedVoid => "Syntax Error: expected void",
            SyntaxError::ExpectedCloseParen => "Syntax Error: expected closing paren",
            SyntaxError::ExpectedOpenBrace => "Syntax Error: expected open brace",
            SyntaxError::ExpectedCloseBrace => "Syntax Error: expected closing brace",
            SyntaxError::ExpectedReturn => "Syntax Error: expected return",
            SyntaxError::ExpectedSemicolon => "Syntax Error: expected a semicolon",
            SyntaxError::ExpectedCloseParenAfterExpression => "Syntax Error: expected closing paren after expression",
            SyntaxError::InvalidExpression => "Syntax Error: Invalid Expression",
            SyntaxError::UnexpectedTrailingTokens => "Unexpected junk found",
        }
    }
}

/// An error of the IR generator: a construct without a defined lowering.
#[derive(Debug, Clone, Copy, PartialEq, Eq, Structural)]
pub enum LoweringError {
    /// Binary operators have no lowering yet.
    UnsupportedExpression,
}

impl LoweringError {
    /// The human-readable message of this error.
    pub fn message(&self) -> (r: &'static str)
        ensures
            r@ == "Lowering Error: unsupported expression"@,
    {
        "Lowering Error: unsupported expression"
    }
}

/// An error of the instruction selector. Selection is total over the
/// current operator set, so no variant is ever produced today; the type
/// keeps the selector's signature fallible for extension.
#[derive(Debug, Clone, Copy, PartialEq, Eq, Structural)]
pub enum SelectionError {
    /// An IR shape the selector cannot map.
    UnsupportedInstruction,
}

/// An error of the register allocator / legalizer. No variant is ever
/// produced today; the type keeps room for operand combinations the
/// legalizer cannot yet rewrite.
#[derive(Debug, Clone, Copy, PartialEq, Eq, Structural)]
pub enum AllocationError {
    /// An operand combination the legalizer cannot rewrite.
    UnsupportedOperands,
}

} // verus!
