//! The options that shape an analysis.

use vstd::prelude::*;

verus! {

/// The options of one run.
#[derive(Debug)]
pub struct Args {
    /// Leave out the findings of the single heuristics and report the
    /// conclusion only.
    pub quiet: bool,
    /// Treat metadata that is likely incorrect as a failure of the run.
    pub strict: bool,
    /// The files to analyze.
    pub files: Vec<String>,
}

} // verus!
