//! What the declared linker version says about the toolchain.

use crate::args::Args;
use crate::compiler_version::CompilerVersion;
use crate::finding::{report, reported, Candidate, Finding, FindingView};
use crate::info::{Evidence, Info, InfoView};
use crate::optional_header::OptionalHeader;
use vstd::prelude::*;

verus! {

/// What a linker version number stands for.
#[derive(Debug, Copy, Clone, PartialEq, Eq, Structural)]
pub enum LinkerVersion {
    /// A number that no linker writes.
    Invalid,
    /// The linker that shipped with this toolchain.
    Toolchain(CompilerVersion),
    /// A number that no known linker writes.
    Unknown,
}

/// What the linker version `major.minor` stands for.
pub open spec fn spec_classify_linker_version(major: int, minor: int) -> LinkerVersion {
    if major == 0 {
        LinkerVersion::Invalid
    } else if major == 1 {
        LinkerVersion::Toolchain(CompilerVersion::VisualCPP1_0)
    } else if major == 2 {
        LinkerVersion::Toolchain(CompilerVersion::VisualCPP2_0)
    } else if major == 4 && minor == 0 {
        LinkerVersion::Toolchain(CompilerVersion::VisualCPP4_0)
    } else if major == 4 && minor == 1 {
        LinkerVersion::Toolchain(CompilerVersion::VisualCPP4_1)
    } else if major == 4 && minor == 2 {
        LinkerVersion::Toolchain(CompilerVersion::VisualCPP4_2)
    } else if major == 5 {
        LinkerVersion::Toolchain(CompilerVersion::VisualCPP5_0)
    } else if major == 6 {
        LinkerVersion::Toolchain(CompilerVersion::VisualCPP6_0)
    } else if major == 7 && minor == 0 {
        LinkerVersion::Toolchain(CompilerVersion::VisualStudioDotNet2002)
    } else if major == 7 && minor == 1 {
        LinkerVersion::Toolchain(CompilerVersion::VisualStudioDotNet2003)
    } else if major == 8 {
        LinkerVersion::Toolchain(CompilerVersion::VisualStudio2005)
    } else if major == 9 {
        LinkerVersion::Toolchain(CompilerVersion::VisualStudio2008)
    } else if major == 10 {
        LinkerVersion::Toolchain(CompilerVersion::VisualStudio2010)
    } else if major == 11 {
        LinkerVersion::Toolchain(CompilerVersion::VisualStudio2012)
    } else if major == 12 {
        LinkerVersion::Toolchain(CompilerVersion::VisualStudio2013)
    } else if major == 14 && 0 <= minor <= 9 {
        LinkerVersion::Toolchain(CompilerVersion::VisualStudio2015)
    } else if major == 14 && 10 <= minor <= 16 {
        LinkerVersion::Toolchain(CompilerVersion::VisualStudio2017)
    } else if major == 14 && minor == 20 {
        LinkerVersion::Toolchain(CompilerVersion::VisualStudio2019)
    } else if major == 14 && minor >= 21 {
        LinkerVersion::Toolchain(CompilerVersion::VisualStudio2022)
    } else {
        LinkerVersion::Unknown
    }
}

/// What the linker version `major.minor` stands for.
pub fn classify_linker_version(major: u8, minor: u8) -> (class: LinkerVersion)
    ensures
        class == spec_classify_linker_version(major as int, minor as int),
{
    match (major, minor) {
        (0, _) => LinkerVersion::Invalid,
        (1, _) => LinkerVersion::Toolchain(CompilerVersion::VisualCPP1_0),
        (2, _) => LinkerVersion::Toolchain(CompilerVersion::VisualCPP2_0),
        (4, 0) => LinkerVersion::Toolchain(CompilerVersion::VisualCPP4_0),
        (4, 1) => LinkerVersion::Toolchain(CompilerVersion::VisualCPP4_1),
        (4, 2) => LinkerVersion::Toolchain(CompilerVersion::VisualCPP4_2),
        (5, _) => LinkerVersion::Toolchain(CompilerVersion::VisualCPP5_0),
        (6, _) => LinkerVersion::Toolchain(CompilerVersion::VisualCPP6_0),
        (7, 0) => LinkerVersion::Toolchain(CompilerVersion::VisualStudioDotNet2002),
        (7, 1) => LinkerVersion::Toolchain(CompilerVersion::VisualStudioDotNet2003),
        (8, _) => LinkerVersion::Toolchain(CompilerVersion::VisualStudio2005),
        (9, _) => LinkerVersion::Toolchain(CompilerVersion::VisualStudio2008),
        (10, _) => LinkerVersion::Toolchain(CompilerVersion::VisualStudio2010),
        (11, _) => LinkerVersion::Toolchain(CompilerVersion::VisualStudio2012),
        (12, _) => LinkerVersion::Toolchain(CompilerVersion::VisualStudio2013),
        (14, 0..=9) => LinkerVersion::Toolchain(CompilerVersion::VisualStudio2015),
        (14, 10..=16) => LinkerVersion::Toolchain(CompilerVersion::VisualStudio2017),
        (14, 20) => LinkerVersion::Toolchain(CompilerVersion::VisualStudio2019),
        (14, 21..) => LinkerVersion::Toolchain(CompilerVersion::VisualStudio2022),
        _ => LinkerVersion::Unknown,
    }
}

/// The record after the linker version `major.minor` was looked at: where
/// the version names a toolchain, that toolchain is the linker's, and the
/// record is flagged unless the binary was compiled after its release. The
/// candidate compilers stay as they are.
pub open spec fn linker_outcome(state: InfoView, major: int, minor: int) -> InfoView {
    match spec_classify_linker_version(major, minor) {
        LinkerVersion::Toolchain(version) => state.flag_if(!state.is_plausible(version)).apply(
            Evidence::Linker(version),
        ),
        _ => state,
    }
}

/// What there is to say about the linker version `major.minor` of a binary
/// compiled at `timestamp`.
pub open spec fn linker_finding(timestamp: int, major: u8, minor: u8) -> FindingView {
    match spec_classify_linker_version(major as int, minor as int) {
        LinkerVersion::Invalid => FindingView::InvalidLinkerVersion { linker_minor: minor },
        LinkerVersion::Toolchain(version) => FindingView::LinkerVersion {
            linker_major: major,
            linker_minor: minor,
            candidate: Candidate { version, plausible: timestamp > version.spec_release_date() },
        },
        LinkerVersion::Unknown => FindingView::UnknownLinkerVersion {
            linker_major: major,
            linker_minor: minor,
        },
    }
}

/// Reads the linker version off the optional header and records the
/// toolchain that it names.
pub fn versions_from_linker_version(
    optional_header: &OptionalHeader,
    info: &mut Info,
    args: &Args,
) -> (findings: Vec<Finding>)
    ensures
        final(info)@ == linker_outcome(
            old(info)@,
            optional_header.major_linker_version as int,
            optional_header.minor_linker_version as int,
        ),
        findings.deep_view() == reported(
            args.quiet,
            seq![
                linker_finding(
                    old(info)@.timestamp,
                    optional_header.major_linker_version,
                    optional_header.minor_linker_version,
                ),
            ],
        ),
{
    let minor: u8 = optional_header.minor_linker_version;
    let major: u8 = optional_header.major_linker_version;
    let mut findings: Vec<Finding> = Vec::new();
    assert(findings.deep_view() =~= Seq::<FindingView>::empty());
    let finding = match classify_linker_version(major, minor) {
        LinkerVersion::Invalid => Finding::InvalidLinkerVersion { linker_minor: minor },
        LinkerVersion::Toolchain(version) => {
            let plausible = info.timestamp() > version.release_date();
            if !plausible {
                info.set_likely_incorrect();
            }
            info.set_linker_version(version);
            Finding::LinkerVersion {
                linker_major: major,
                linker_minor: minor,
                candidate: Candidate { version, plausible },
            }
        },
        LinkerVersion::Unknown => Finding::UnknownLinkerVersion {
            linker_major: major,
            linker_minor: minor,
        },
    };
    report(&mut findings, finding, args.quiet);
    findings
}

} // verus!
