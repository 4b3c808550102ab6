//! The operating system that a binary declares as its minimum.

use crate::args::Args;
use crate::finding::{report, reported, Finding, FindingView};
use crate::info::{Evidence, Info, InfoView};
use crate::optional_header::OptionalHeader;
use vstd::prelude::*;

verus! {

/// A release of Windows that a binary can name as its minimum.
#[derive(Debug, Ord, Copy, Clone, PartialOrd, Eq, PartialEq, Hash, Structural)]
pub enum OperatingSystem {
    Windows95,
    Windows98,
    Windows2000,
    WindowsMe,
    WindowsXP,
    WindowsVista,
    Windows7,
    Windows8,
    Windows8_1,
    Windows10,
}

impl OperatingSystem {
    /// The name under which the release was sold.
    pub open spec fn spec_name(self) -> Seq<char> {
        match self {
            OperatingSystem::Windows95 => "Windows 95"@,
            OperatingSystem::Windows98 => "Windows 98"@,
            OperatingSystem::Windows2000 => "Windows 2000"@,
            OperatingSystem::WindowsMe => "Windows Me"@,
            OperatingSystem::WindowsXP => "Windows XP"@,
            OperatingSystem::WindowsVista => "Windows Vista"@,
            OperatingSystem::Windows7 => "Windows 7"@,
            OperatingSystem::Windows8 => "Windows 8"@,
            OperatingSystem::Windows8_1 => "Windows 8.1"@,
            OperatingSystem::Windows10 => "Windows 10"@,
        }
    }

    /// The name under which the release was sold.
    pub fn name(&self) -> (text: &'static str)
        ensures
            text@ == self.spec_name(),
    {
        match self {
            OperatingSystem::Windows95 => "Windows 95",
            OperatingSystem::Windows98 => "Windows 98",
            OperatingSystem::Windows2000 => "Windows 2000",
            OperatingSystem::WindowsMe => "Windows Me",
            OperatingSystem::WindowsXP => "Windows XP",
            OperatingSystem::WindowsVista => "Windows Vista",
            OperatingSystem::Windows7 => "Windows 7",
            OperatingSystem::Windows8 => "Windows 8",
            OperatingSystem::Windows8_1 => "Windows 8.1",
            OperatingSystem::Windows10 => "Windows 10",
        }
    }
}

/// The release of Windows whose version number is `major.minor`, if any.
pub open spec fn spec_versions_to_os(major: int, minor: int) -> Option<OperatingSystem> {
    if major == 4 && minor == 0 {
        Some(OperatingSystem::Windows95)
    } else if major == 4 && minor == 10 {
        Some(OperatingSystem::Windows98)
    } else if major == 4 && minor == 90 {
        Some(OperatingSystem::WindowsMe)
    } else if major == 5 && minor == 0 {
        Some(OperatingSystem::Windows2000)
    } else if major == 5 && minor == 1 {
        Some(OperatingSystem::WindowsXP)
    } else if major == 6 && minor == 0 {
        Some(OperatingSystem::WindowsVista)
    } else if major == 6 && minor == 1 {
        Some(OperatingSystem::Windows7)
    } else if major == 6 && minor == 2 {
        Some(OperatingSystem::Windows8)
    } else if major == 6 && minor == 3 {
        Some(OperatingSystem::Windows8_1)
    } else if major == 10 && minor == 0 {
        Some(OperatingSystem::Windows10)
    } else {
        None
    }
}

/// The release of Windows whose version number is `major.minor`; `None` for
/// a number that no release carries.
pub fn versions_to_os(major: u16, minor: u16) -> (os: Option<OperatingSystem>)
    ensures
        os == spec_versions_to_os(major as int, minor as int),
{
    match (major, minor) {
        (4, 0) => Some(OperatingSystem::Windows95),
        (4, 10) => Some(OperatingSystem::Windows98),
        (4, 90) => Some(OperatingSystem::WindowsMe),
        (5, 0) => Some(OperatingSystem::Windows2000),
        (5, 1) => Some(OperatingSystem::WindowsXP),
        (6, 0) => Some(OperatingSystem::WindowsVista),
        (6, 1) => Some(OperatingSystem::Windows7),
        (6, 2) => Some(OperatingSystem::Windows8),
        (6, 3) => Some(OperatingSystem::Windows8_1),
        (10, 0) => Some(OperatingSystem::Windows10),
        _ => None,
    }
}

/// The record after the declared minimum operating system version was
/// looked at: where it names a release, that release is recorded.
pub open spec fn declared_system_outcome(state: InfoView, major: int, minor: int) -> InfoView {
    match spec_versions_to_os(major, minor) {
        Some(os) => state.apply(Evidence::DeclaredSystem(os)),
        None => state,
    }
}

/// The record after the declared minimum subsystem version was looked at:
/// where it names a release, that release is recorded, and the record is
/// flagged if a different release is known as the operating system.
pub open spec fn declared_subsystem_outcome(state: InfoView, major: int, minor: int) -> InfoView {
    match spec_versions_to_os(major, minor) {
        Some(os) => state.apply(Evidence::DeclaredSubsystem(os)).flag_if(
            state.operating_system is Some && state.operating_system != Some(os),
        ),
        None => state,
    }
}

/// The record after both declared versions of `header` were looked at, the
/// operating system first.
pub open spec fn operating_system_outcome(state: InfoView, header: OptionalHeader) -> InfoView {
    declared_subsystem_outcome(
        declared_system_outcome(
            state,
            header.major_operating_system_version as int,
            header.minor_operating_system_version as int,
        ),
        header.major_subsystem_version as int,
        header.minor_subsystem_version as int,
    )
}

/// What there is to say about the declared minimum operating system
/// version.
pub open spec fn declared_system_finding(major: u16, minor: u16) -> FindingView {
    match spec_versions_to_os(major as int, minor as int) {
        Some(os) => FindingView::OperatingSystemVersion { major, minor, os },
        None => FindingView::InvalidOperatingSystemVersion { major, minor },
    }
}

/// What there is to say about the declared minimum subsystem version, given
/// the operating system release that is known.
pub open spec fn declared_subsystem_finding(
    known: Option<OperatingSystem>,
    major: u16,
    minor: u16,
) -> FindingView {
    match spec_versions_to_os(major as int, minor as int) {
        None => FindingView::InvalidSubsystemVersion { major, minor },
        Some(os) => match known {
            None => FindingView::SubsystemVersion { major, minor, os },
            Some(declared) => if declared == os {
                FindingView::SubsystemAgrees { major, minor, os }
            } else {
                FindingView::SubsystemDiffers { major, minor, os, declared }
            },
        },
    }
}

/// The two findings about the declared versions of `header`, the operating
/// system first.
pub open spec fn operating_system_findings(
    state: InfoView,
    header: OptionalHeader,
) -> Seq<FindingView> {
    seq![
        declared_system_finding(
            header.major_operating_system_version,
            header.minor_operating_system_version,
        ),
        declared_subsystem_finding(
            declared_system_outcome(
                state,
                header.major_operating_system_version as int,
                header.minor_operating_system_version as int,
            ).operating_system,
            header.major_subsystem_version,
            header.minor_subsystem_version,
        ),
    ]
}

/// Reads the minimum operating system and subsystem versions off the
/// optional header, records the releases that they name and flags the
/// record where the two name different releases.
pub fn versions_for_operating_system(pe: &OptionalHeader, info: &mut Info, args: &Args) -> (findings:
    Vec<Finding>)
    ensures
        final(info)@ == operating_system_outcome(old(info)@, *pe),
        findings.deep_view() == reported(args.quiet, operating_system_findings(old(info)@, *pe)),
{
    let mut findings: Vec<Finding> = Vec::new();
    assert(findings.deep_view() =~= Seq::<FindingView>::empty());

    let major: u16 = pe.major_operating_system_version;
    let minor: u16 = pe.minor_operating_system_version;
    match versions_to_os(major, minor) {
        None => {
            report(
                &mut findings,
                Finding::InvalidOperatingSystemVersion { major, minor },
                args.quiet,
            );
        },
        Some(os) => {
            info.set_os(os);
            report(&mut findings, Finding::OperatingSystemVersion { major, minor, os }, args.quiet);
        },
    }

    let major: u16 = pe.major_subsystem_version;
    let minor: u16 = pe.minor_subsystem_version;
    match versions_to_os(major, minor) {
        None => {
            report(&mut findings, Finding::InvalidSubsystemVersion { major, minor }, args.quiet);
        },
        Some(os) => {
            let known = info.os();
            info.set_subsystem(os);
            match known {
                Some(declared) => {
                    if os == declared {
                        report(
                            &mut findings,
                            Finding::SubsystemAgrees { major, minor, os },
                            args.quiet,
                        );
                    } else {
                        info.set_likely_incorrect();
                        report(
                            &mut findings,
                            Finding::SubsystemDiffers { major, minor, os, declared },
                            args.quiet,
                        );
                    }
                },
                None => {
                    report(&mut findings, Finding::SubsystemVersion { major, minor, os }, args.quiet);
                },
            }
        },
    }
    assert(findings.deep_view() =~= reported(
        args.quiet,
        operating_system_findings(old(info)@, *pe),
    ));
    findings
}

/// How the two declared versions decide the minimum operating system of a
/// binary of which no operating system was known before. Where both name
/// the same release, that release is the minimum and no flag changes.
/// Where they name different releases, there is no minimum and the record
/// is flagged. Where the operating system version names no release, there
/// is no minimum, whatever the subsystem version says, and no flag changes.
pub proof fn lemma_minimum_operating_system(state: InfoView, header: OptionalHeader)
    requires
        state.operating_system is None,
    ensures
        ({
            let system = spec_versions_to_os(
                header.major_operating_system_version as int,
                header.minor_operating_system_version as int,
            );
            let subsystem = spec_versions_to_os(
                header.major_subsystem_version as int,
                header.minor_subsystem_version as int,
            );
            let outcome = operating_system_outcome(state, header);
            &&& system is Some && subsystem == system ==> outcome.minimum_operating_system()
                == system && outcome.likely_incorrect == state.likely_incorrect
            &&& system is Some && subsystem is Some && subsystem != system
                ==> outcome.minimum_operating_system() is None && outcome.likely_incorrect
            &&& system is None ==> outcome.minimum_operating_system() is None
                && outcome.likely_incorrect == state.likely_incorrect
        }),
{
}

} // verus!
