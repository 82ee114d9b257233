//! The choices a host's command line hands the interpreter.

use vstd::prelude::*;

verus! {

/// What the host was asked to run: the program image's path and whether
/// to emit the diagnostic channel (each decoded instruction and a
/// register dump) before execution.
pub struct Options {
    pub filename: String,
    pub debug: bool,
}

impl Options {
    /// Bundles the host's choices.
    pub fn new(filename: String, debug: bool) -> (r: Options)
        ensures
            r.filename@ == filename@,
            r.debug == debug,
    {
        Options { filename, debug }
    }
}

} // verus!
