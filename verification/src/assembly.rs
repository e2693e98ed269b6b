//! Assembly generation: instruction selection over the IR program,
//! followed by the two register-allocation / legalization passes, in
//! their mandatory order.

use vstd::prelude::*;

use crate::at;
use crate::errors::SelectionError;
use crate::stack_allocator::MAX_SLOTS;
use crate::tacky_ast;

verus! {

/// The whole backend transformation of an IR program: instruction
/// selection, pseudo-register replacement starting from an empty
/// allocator, then legalization with frame setup.
pub open spec fn assemble(t: tacky_ast::ProgramV) -> at::ProgramV {
    let tf = tacky_ast::prog_fn(t);
    let sel = at::select_instrs(tf.instrs);
    let rep = at::replace_instrs(Seq::<Seq<char>>::empty(), sel);
    at::ProgramV::Program(
        at::FuncDefV::Function(
            at::FunctionV { name: tf.identifier, instrs: at::legalize(rep.0, rep.1), alloc: rep.0 },
        ),
    )
}

/// The assembly generator: holds the IR program to transform.
pub struct AssemblyGen {
    program: tacky_ast::Program,
}

impl View for AssemblyGen {
    type V = tacky_ast::ProgramV;

    closed spec fn view(&self) -> tacky_ast::ProgramV {
        self.program@
    }
}

impl AssemblyGen {
    /// An assembly generator over the given IR program.
    pub fn new(program_: tacky_ast::Program) -> (r: Self)
        ensures
            r@ == program_@,
    {
        Self { program: program_ }
    }

    /// Runs selection and both legalization passes. The result is the
    /// fully legal assembly program: no pseudo-register operand remains
    /// anywhere, and no instruction has two stack operands.
    pub fn parse(&mut self) -> (r: Result<at::Program, SelectionError>)
        requires
            4 * tacky_ast::prog_fn(old(self)@).instrs.len() < MAX_SLOTS,
        ensures
            final(self)@ == old(self)@,
            r matches Ok(p) && p@ == assemble(old(self)@) && at::instrs_legal(
                at::prog_fn(p@).instrs,
            ),
    {
        proof {
            at::lemma_select_instrs_len(tacky_ast::prog_fn(self@).instrs);
        }
        match at::Program::parse(&self.program) {
            Ok(mut program) => {
                program.replace_pseudoregs();
                program.register_fixup();
                proof {
                    at::lemma_legalization_invariant(
                        Seq::<Seq<char>>::empty(),
                        at::select_instrs(tacky_ast::prog_fn(old(self)@).instrs),
                    );
                }
                Ok(program)
            },
            Err(e) => Err(e),
        }
    }
}

} // verus!
