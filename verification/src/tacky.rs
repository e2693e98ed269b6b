//! The IR generator: owns the parsed program and lowers it to the
//! three-address intermediate representation.

use vstd::prelude::*;

use crate::ast;
use crate::ast::has_binary;
use crate::ast::program_expr;
use crate::ast::unary_count;
use crate::errors::LoweringError;
use crate::tacky_ast;
use crate::tacky_ast::lower_program;

verus! {

/// The IR generator: holds the program to lower.
pub struct Tacky {
    ast: ast::Program,
}

impl View for Tacky {
    type V = ast::ProgramV;

    closed spec fn view(&self) -> ast::ProgramV {
        self.ast@
    }
}

impl Tacky {
    /// An IR generator over the given program.
    pub fn new(ast_: ast::Program) -> (r: Self)
        ensures
            r@ == ast_@,
    {
        Tacky { ast: ast_ }
    }

    /// Lowers the whole program to IR, or fails on a construct without a
    /// defined lowering.
    pub fn generate(&mut self) -> (r: Result<tacky_ast::Program, LoweringError>)
        requires
            unary_count(program_expr(old(self)@)) <= usize::MAX,
        ensures
            final(self)@ == old(self)@,
            if has_binary(program_expr(old(self)@)) {
                r matches Err(g) && g == LoweringError::UnsupportedExpression
            } else {
                r matches Ok(p) && p@ == lower_program(old(self)@)
            },
    {
        tacky_ast::Program::parse(&self.ast)
    }
}

} // verus!
