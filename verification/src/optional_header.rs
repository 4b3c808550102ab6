//! The version fields of a binary's optional header.

use vstd::prelude::*;

verus! {

/// The version numbers that a binary's optional header declares.
#[derive(Debug, Copy, Clone, Ord, PartialOrd, Eq, PartialEq, Hash, Structural)]
pub struct OptionalHeader {
    pub major_linker_version: u8,
    pub minor_linker_version: u8,
    pub major_operating_system_version: u16,
    pub minor_operating_system_version: u16,
    pub major_subsystem_version: u16,
    pub minor_subsystem_version: u16,
}

/// The optional header of a 32-bit image as pe_parser reads it.
#[verifier::external_type_specification]
#[verifier::external_body]
pub struct ExOptionalHeader32(pe_parser::optional::OptionalHeader32);

/// The optional header of a 64-bit image as pe_parser reads it.
#[verifier::external_type_specification]
#[verifier::external_body]
pub struct ExOptionalHeader64(pe_parser::optional::OptionalHeader64);

impl OptionalHeader {
    /// Copies the six version fields out of pe_parser's `OptionalHeader32`,
    /// each into the field of the same name. Nothing is claimed of the
    /// result: the fields of the outside type are not visible to the
    /// verifier.
    #[verifier::external_body]
    pub fn from_header32(header: &pe_parser::optional::OptionalHeader32) -> Self {
        Self {
            major_linker_version: header.major_linker_version,
            minor_linker_version: header.minor_linker_version,
            major_operating_system_version: header.major_operating_system_version,
            minor_operating_system_version: header.minor_operating_system_version,
            major_subsystem_version: header.major_subsystem_version,
            minor_subsystem_version: header.minor_subsystem_version,
        }
    }

    /// Copies the six version fields out of pe_parser's `OptionalHeader64`,
    /// each into the field of the same name. Nothing is claimed of the
    /// result: the fields of the outside type are not visible to the
    /// verifier.
    #[verifier::external_body]
    pub fn from_header64(header: &pe_parser::optional::OptionalHeader64) -> Self {
        Self {
            major_linker_version: header.major_linker_version,
            minor_linker_version: header.minor_linker_version,
            major_operating_system_version: header.major_operating_system_version,
            minor_operating_system_version: header.minor_operating_system_version,
            major_subsystem_version: header.major_subsystem_version,
            minor_subsystem_version: header.minor_subsystem_version,
        }
    }
}

} // verus!
