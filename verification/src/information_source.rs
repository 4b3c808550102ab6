//! Where a finding comes from.

use vstd::prelude::*;

verus! {

/// The origin of a finding about a binary.
#[derive(Debug, Copy, Clone, Ord, PartialOrd, Eq, PartialEq, Hash, Structural)]
pub enum InformationSource {
    /// The binary states it in one of its header fields.
    SelfReported,
    /// It is inferred from what the binary imports.
    Heuristic,
}

impl InformationSource {
    /// The tag under which findings of this origin are reported, padded to a
    /// common width.
    pub open spec fn spec_label(self) -> Seq<char> {
        match self {
            InformationSource::SelfReported => " Self Reported "@,
            InformationSource::Heuristic => " Heuristic     "@,
        }
    }

    /// The tag under which findings of this origin are reported, padded to a
    /// common width.
    pub fn label(&self) -> (text: &'static str)
        ensures
            text@ == self.spec_label(),
    {
        match self {
            InformationSource::SelfReported => " Self Reported ",
            InformationSource::Heuristic => " Heuristic     ",
        }
    }
}

} // verus!
