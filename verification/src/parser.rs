//! The parser: consumes the token sequence and builds the abstract syntax
//! tree by recursive descent, or reports the first syntax error.

use vstd::prelude::*;

use crate::ast;
use crate::ast::spec_parse_program;
use crate::errors::SyntaxError;
use crate::token::Token;
use crate::token::TokenV;
use crate::token::tokens_view;

verus! {

/// The parser: holds the token sequence handed over by the lexer.
pub struct Parser {
    pp_tokens: Vec<Token>,
}

impl View for Parser {
    type V = Seq<TokenV>;

    closed spec fn view(&self) -> Seq<TokenV> {
        tokens_view(self.pp_tokens@)
    }
}

impl Parser {
    /// A parser over the given token sequence.
    pub fn new(pp_tokens_: Vec<Token>) -> (r: Self)
        ensures
            r@ == tokens_view(pp_tokens_@),
    {
        Parser { pp_tokens: pp_tokens_ }
    }

    /// Parses the whole token sequence into a program, or reports the
    /// first syntax error. A parsed program never holds a binary
    /// operation, and its unary operators number fewer than the tokens.
    pub fn parse(&mut self) -> (r: Result<ast::Program, SyntaxError>)
        ensures
            final(self)@ == old(self)@,
            match spec_parse_program(old(self)@) {
                Ok(pv) => r matches Ok(p) && p@ == pv,
                Err(e) => r matches Err(g) && g == e,
            },
            r matches Ok(p) ==> (ast::unary_count(ast::program_expr(p@)) < old(self)@.len()
                && !ast::has_binary(ast::program_expr(p@))),
    {
        ast::Program::parse(&self.pp_tokens)
    }
}

} // verus!
