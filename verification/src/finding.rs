//! What the heuristics have to say while they work.
//!
//! Every heuristic returns, besides what it writes into the record of the
//! binary, the findings that led it there, in the order in which it made
//! them. A finding holds values only; turning it into a sentence is left to
//! whoever presents it.

use crate::compiler_version::CompilerVersion;
use crate::information_source::InformationSource;
use crate::standard::CppStandard;
use crate::versions_for_operating_system::OperatingSystem;
use vstd::prelude::*;

verus! {

/// A compiler that a finding suggests, and whether the binary's timestamp
/// allows it.
#[derive(Debug, Copy, Clone, PartialEq, Eq, Structural)]
pub struct Candidate {
    pub version: CompilerVersion,
    /// Whether the binary was compiled after `version` was released.
    pub plausible: bool,
}

/// One observation about a binary.
#[derive(Debug, Clone, PartialEq, Eq)]
pub enum Finding {
    /// The timestamp bounds the compiler: nothing newer than
    /// `newest_possible` existed then, and that release was `days` days
    /// away from the timestamp.
    Timestamp { timestamp: i64, newest_possible: CompilerVersion, days: i64 },
    /// `module` exports a symbol with a mangled C++ name.
    CppSymbol { symbol: String, module: String },
    /// `symbol`, imported from `module`, entered the runtime library with
    /// `standard`.
    StandardSymbol { symbol: String, module: String, standard: CppStandard },
    /// `module` is the runtime library of one compiler.
    SingleCompiler { module: String, candidate: Candidate },
    /// `module` is a runtime library that several compilers share.
    MultipleCompilers { module: String, candidates: Vec<Candidate> },
    /// The linker version has major number zero, which no linker writes.
    InvalidLinkerVersion { linker_minor: u8 },
    /// The linker version names a toolchain.
    LinkerVersion { linker_major: u8, linker_minor: u8, candidate: Candidate },
    /// The linker version names no known toolchain.
    UnknownLinkerVersion { linker_major: u8, linker_minor: u8 },
    /// The minimum operating system version names no release.
    InvalidOperatingSystemVersion { major: u16, minor: u16 },
    /// The minimum operating system version names `os`.
    OperatingSystemVersion { major: u16, minor: u16, os: OperatingSystem },
    /// The minimum subsystem version names no release.
    InvalidSubsystemVersion { major: u16, minor: u16 },
    /// The minimum subsystem version names `os`, as the operating system
    /// version does.
    SubsystemAgrees { major: u16, minor: u16, os: OperatingSystem },
    /// The minimum subsystem version names `os`, the operating system
    /// version `declared`.
    SubsystemDiffers { major: u16, minor: u16, os: OperatingSystem, declared: OperatingSystem },
    /// The minimum subsystem version names `os`; no operating system is
    /// known to hold it against.
    SubsystemVersion { major: u16, minor: u16, os: OperatingSystem },
}

/// A finding as plain values.
pub enum FindingView {
    Timestamp { timestamp: int, newest_possible: CompilerVersion, days: int },
    CppSymbol { symbol: Seq<char>, module: Seq<char> },
    StandardSymbol { symbol: Seq<char>, module: Seq<char>, standard: CppStandard },
    SingleCompiler { module: Seq<char>, candidate: Candidate },
    MultipleCompilers { module: Seq<char>, candidates: Seq<Candidate> },
    InvalidLinkerVersion { linker_minor: u8 },
    LinkerVersion { linker_major: u8, linker_minor: u8, candidate: Candidate },
    UnknownLinkerVersion { linker_major: u8, linker_minor: u8 },
    InvalidOperatingSystemVersion { major: u16, minor: u16 },
    OperatingSystemVersion { major: u16, minor: u16, os: OperatingSystem },
    InvalidSubsystemVersion { major: u16, minor: u16 },
    SubsystemAgrees { major: u16, minor: u16, os: OperatingSystem },
    SubsystemDiffers { major: u16, minor: u16, os: OperatingSystem, declared: OperatingSystem },
    SubsystemVersion { major: u16, minor: u16, os: OperatingSystem },
}

impl FindingView {
    /// Where the finding comes from: what is read off the header is the
    /// binary's own word, what is inferred from its imports is a guess.
    pub open spec fn source(self) -> InformationSource {
        match self {
            FindingView::CppSymbol { .. }
            | FindingView::StandardSymbol { .. }
            | FindingView::SingleCompiler { .. }
            | FindingView::MultipleCompilers { .. } => InformationSource::Heuristic,
            _ => InformationSource::SelfReported,
        }
    }
}

impl View for Finding {
    type V = FindingView;

    open spec fn view(&self) -> FindingView {
        match *self {
            Finding::Timestamp { timestamp, newest_possible, days } => FindingView::Timestamp {
                timestamp: timestamp as int,
                newest_possible,
                days: days as int,
            },
            Finding::CppSymbol { symbol, module } => FindingView::CppSymbol {
                symbol: symbol@,
                module: module@,
            },
            Finding::StandardSymbol { symbol, module, standard } => FindingView::StandardSymbol {
                symbol: symbol@,
                module: module@,
                standard,
            },
            Finding::SingleCompiler { module, candidate } => FindingView::SingleCompiler {
                module: module@,
                candidate,
            },
            Finding::MultipleCompilers { module, candidates } => FindingView::MultipleCompilers {
                module: module@,
                candidates: candidates@,
            },
            Finding::InvalidLinkerVersion {
                linker_minor,
            } => FindingView::InvalidLinkerVersion { linker_minor },
            Finding::LinkerVersion {
                linker_major,
                linker_minor,
                candidate,
            } => FindingView::LinkerVersion { linker_major, linker_minor, candidate },
            Finding::UnknownLinkerVersion {
                linker_major,
                linker_minor,
            } => FindingView::UnknownLinkerVersion { linker_major, linker_minor },
            Finding::InvalidOperatingSystemVersion {
                major,
                minor,
            } => FindingView::InvalidOperatingSystemVersion { major, minor },
            Finding::OperatingSystemVersion {
                major,
                minor,
                os,
            } => FindingView::OperatingSystemVersion { major, minor, os },
            Finding::InvalidSubsystemVersion {
                major,
                minor,
            } => FindingView::InvalidSubsystemVersion { major, minor },
            Finding::SubsystemAgrees { major, minor, os } => FindingView::SubsystemAgrees {
                major,
                minor,
                os,
            },
            Finding::SubsystemDiffers {
                major,
                minor,
                os,
                declared,
            } => FindingView::SubsystemDiffers { major, minor, os, declared },
            Finding::SubsystemVersion { major, minor, os } => FindingView::SubsystemVersion {
                major,
                minor,
                os,
            },
        }
    }
}

impl DeepView for Finding {
    type V = FindingView;

    open spec fn deep_view(&self) -> FindingView {
        self@
    }
}

impl Finding {
    /// Where the finding comes from.
    pub fn source(&self) -> (source: InformationSource)
        ensures
            source == self@.source(),
    {
        match self {
            Finding::CppSymbol { .. }
            | Finding::StandardSymbol { .. }
            | Finding::SingleCompiler { .. }
            | Finding::MultipleCompilers { .. } => InformationSource::Heuristic,
            _ => InformationSource::SelfReported,
        }
    }
}

/// The findings to report: all of them, or none in a quiet run.
pub open spec fn reported(quiet: bool, findings: Seq<FindingView>) -> Seq<FindingView> {
    if quiet {
        Seq::empty()
    } else {
        findings
    }
}

/// Adds `finding` to `log`, unless the run is quiet.
pub fn report(log: &mut Vec<Finding>, finding: Finding, quiet: bool)
    ensures
        final(log).deep_view() == old(log).deep_view() + reported(quiet, seq![finding@]),
{
    if !quiet {
        log.push(finding);
    }
    assert(log.deep_view() =~= old(log).deep_view() + reported(quiet, seq![finding@]));
}

} // verus!
