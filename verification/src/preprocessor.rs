//! The preprocessor boundary. Macro expansion itself is an external
//! collaborator running over the source file before the lexer; this type
//! fixes the file names that the collaborator reads and writes.

use vstd::prelude::*;

use crate::text::replace_str;
use crate::text::spec_replace;

verus! {

/// The preprocessor's file names: the source file, and the preprocessed
/// file derived from it.
pub struct Preprocessor {
    pub source_filename: String,
    pub pp_filename: String,
}

impl Preprocessor {
    /// A preprocessor for the given source file. The preprocessed file's
    /// name replaces every `.c` of the source name by `_pp.c`.
    pub fn new(source_filename_: String) -> (r: Self)
        ensures
            r.source_filename@ == source_filename_@,
            r.pp_filename@ == spec_replace(source_filename_@, ".c"@, "_pp.c"@),
    {
        proof {
            reveal_strlit(".c");
        }
        let pp = replace_str(source_filename_.as_str(), ".c", "_pp.c");
        Self { source_filename: source_filename_, pp_filename: pp }
    }
}

} // verus!
