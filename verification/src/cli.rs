//! The command-line options as plain data: the source file and the mode
//! selecting how far the pipeline runs. Reading them from the process
//! arguments is the surrounding program's business; the pipeline itself
//! only consumes these values.

use vstd::prelude::*;

verus! {

/// The options: a source file to compile and the stage selection.
pub struct Cli {
    /// Source file to compile.
    pub file: String,
    pub command: Command,
}

/// Which prefix of the pipeline runs. Each mode is a prefix of the next:
/// the assembler runs only if code generation does, code generation only
/// if parsing does, parsing only if lexing does.
pub struct Command {
    /// Run the lexer, parser, codegen, and assembler.
    pub run_assembler: bool,
    /// Run the lexer, parser, and codegen.
    pub run_codegen: bool,
    /// Run the lexer and the parser.
    pub run_parser: bool,
    /// Run the lexer.
    pub run_lexer: bool,
}

} // verus!
