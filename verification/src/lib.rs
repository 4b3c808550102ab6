//! Infers from the metadata of a compiled Windows binary which compiler and
//! linker produced it, which language standard its source needs at least
//! and which operating system it targets at least, and flags metadata that
//! contradicts itself.
//!
//! Nothing is executed or disassembled. The evidence is the compile
//! timestamp, the version fields of the optional header and the import
//! table; every conclusion is a heuristic, held against the timestamp.

pub mod analysis;
pub mod args;
pub mod calendar;
pub mod compiler_version;
pub mod conclusion;
pub mod dll_imports;
pub mod finding;
pub mod info;
pub mod information_source;
pub mod latch;
pub mod linker_version;
pub mod optional_header;
pub mod standard;
pub mod text;
pub mod versions_for_operating_system;
