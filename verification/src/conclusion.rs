//! What an analysis comes to.

use crate::args::Args;
use crate::compiler_version::CompilerVersion;
use crate::info::{is_chronological, Info, InfoView};
use crate::standard::CppStandard;
use crate::versions_for_operating_system::OperatingSystem;
use vstd::prelude::*;

verus! {

/// How many compilers the evidence leaves possible.
#[derive(Debug, Copy, Clone, PartialEq, Eq, Structural)]
pub enum CompilerVerdict {
    /// None: the imports name no known runtime library.
    Unknown,
    /// Exactly one.
    Single(CompilerVersion),
    /// Several; the conclusion lists them.
    OneOf,
}

/// The summary of the evidence about one binary. It is made for every
/// binary, whether or not the run is quiet.
#[derive(Debug, Clone, PartialEq, Eq)]
pub struct Conclusion {
    /// Whether the metadata is likely forged, damaged or misread.
    pub likely_incorrect: bool,
    /// The compile time that the binary declares, in seconds of Unix time.
    pub timestamp: i64,
    /// The compilers that the imports leave possible, earliest first.
    pub compilers: Vec<CompilerVersion>,
    /// The toolchain that the declared linker version names.
    pub linker: Option<CompilerVersion>,
    /// The earliest language standard that the imports allow.
    pub standard: Option<CppStandard>,
    /// The operating system that the binary needs at least.
    pub minimum_operating_system: Option<OperatingSystem>,
    /// Whether the analysis counts as a success: it does unless the run is
    /// strict and the metadata is likely incorrect.
    pub success: bool,
}

impl Conclusion {
    /// Whether this is the summary of `state` under the given strictness.
    pub open spec fn sums_up(&self, state: InfoView, strict: bool) -> bool {
        &&& self.likely_incorrect == state.likely_incorrect
        &&& self.timestamp == state.timestamp
        &&& self.compilers@.to_set() == state.candidates
        &&& is_chronological(self.compilers@)
        &&& self.linker == state.linker
        &&& self.standard == state.standard
        &&& self.minimum_operating_system == state.minimum_operating_system()
        &&& self.success == !(strict && state.likely_incorrect)
    }

    /// How many compilers the conclusion leaves possible.
    pub open spec fn spec_verdict(&self) -> CompilerVerdict {
        if self.compilers@.len() == 0 {
            CompilerVerdict::Unknown
        } else if self.compilers@.len() == 1 {
            CompilerVerdict::Single(self.compilers@[0])
        } else {
            CompilerVerdict::OneOf
        }
    }

    /// How many compilers the conclusion leaves possible.
    pub fn verdict(&self) -> (verdict: CompilerVerdict)
        ensures
            verdict == self.spec_verdict(),
    {
        if self.compilers.len() == 0 {
            CompilerVerdict::Unknown
        } else if self.compilers.len() == 1 {
            CompilerVerdict::Single(self.compilers[0])
        } else {
            CompilerVerdict::OneOf
        }
    }
}

/// Sums up the evidence about one binary.
pub fn conclude(info: &Info, args: &Args) -> (conclusion: Conclusion)
    ensures
        conclusion.sums_up(info@, args.strict),
{
    let likely_incorrect = !info.likely_correct();
    Conclusion {
        likely_incorrect,
        timestamp: info.timestamp(),
        compilers: info.compiler_version(),
        linker: info.linker_version(),
        standard: info.standard(),
        minimum_operating_system: info.minimum_operating_system(),
        success: !(args.strict && likely_incorrect),
    }
}

} // verus!
