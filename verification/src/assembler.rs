//! The assembler boundary. Assembling and linking the emitted text is an
//! external collaborator's work; this type fixes the file names the
//! collaborator reads and writes.

use vstd::prelude::*;

use crate::text::replace_str;
use crate::text::spec_replace;

verus! {

/// The assembler's file names: the assembly text file, and the executable
/// derived from it.
pub struct Assembler {
    pub s_filename: String,
    pub output_filename: String,
}

impl Assembler {
    /// An assembler for the given assembly file. The output name removes
    /// every `.s` from the assembly file's name.
    pub fn new(s_filename_: &String) -> (r: Self)
        ensures
            r.s_filename@ == s_filename_@,
            r.output_filename@ == spec_replace(s_filename_@, ".s"@, ""@),
    {
        proof {
            reveal_strlit(".s");
        }
        let output = replace_str(s_filename_.as_str(), ".s", "");
        Self { s_filename: s_filename_.clone(), output_filename: output }
    }
}

} // verus!
