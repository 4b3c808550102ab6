//! The analysis of one binary: from the bytes of its headers and what was
//! read of its import table to the record of evidence.

use crate::args::Args;
use crate::compiler_version::CompilerVersion;
use crate::dll_imports::{
    import_findings, import_outcome, lemma_import_outcome_keeps, versions_from_import_table,
    ImportDescriptor, ImportDirectoryError, ImportDescriptorView,
};
use crate::finding::{report, reported, Finding, FindingView};
use crate::info::{Info, InfoView};
use crate::linker_version::{linker_finding, linker_outcome, versions_from_linker_version};
use crate::optional_header::OptionalHeader;
use crate::versions_for_operating_system::{
    operating_system_findings, operating_system_outcome, versions_for_operating_system,
};
use vstd::prelude::*;

verus! {

/// The evidence about one binary and the findings that led to it.
#[derive(Debug)]
pub struct Analysis {
    pub info: Info,
    pub findings: Vec<Finding>,
}

/// Why a binary could not be analyzed.
#[derive(Debug, Clone, PartialEq, Eq)]
pub enum AnalysisError {
    /// The file headers cannot be read.
    Headers,
    /// The import table cannot be read.
    ImportDirectory,
}

/// Whole days between two times given in seconds, whichever is the later.
pub open spec fn spec_days_apart(a: int, b: int) -> int {
    if a >= b {
        (a - b) / 86_400
    } else {
        (b - a) / 86_400
    }
}

/// Whole days between two times given in seconds, whichever is the later.
pub fn days_apart(a: i64, b: i64) -> (days: i64)
    ensures
        days == spec_days_apart(a as int, b as int),
{
    let seconds: u128 = if a >= b {
        (a as i128 - b as i128) as u128
    } else {
        (b as i128 - a as i128) as u128
    };
    (seconds / 86_400) as i64
}

/// The record of a binary before any heuristic has run. A timestamp of
/// zero is no time at all, so the record starts out flagged.
pub open spec fn initial_record(time_date_stamp: u32) -> InfoView {
    InfoView::initial(time_date_stamp as int).flag_if(time_date_stamp == 0)
}

/// What the timestamp alone says: the newest compiler that existed then,
/// and how many days lie between its release and the timestamp.
pub open spec fn timestamp_finding(time_date_stamp: u32) -> FindingView {
    let newest = CompilerVersion::spec_newest_possible(time_date_stamp as int);
    FindingView::Timestamp {
        timestamp: time_date_stamp as int,
        newest_possible: newest,
        days: spec_days_apart(newest.spec_release_date(), time_date_stamp as int),
    }
}

/// The record after the version fields of `header`, where there is one,
/// were looked at: the linker version first, then the operating system.
pub open spec fn header_outcome(state: InfoView, header: Option<OptionalHeader>) -> InfoView {
    match header {
        Some(header) => operating_system_outcome(
            linker_outcome(
                state,
                header.major_linker_version as int,
                header.minor_linker_version as int,
            ),
            header,
        ),
        None => state,
    }
}

/// What there is to say about the version fields of `header`.
pub open spec fn header_findings(state: InfoView, header: Option<OptionalHeader>) -> Seq<
    FindingView,
> {
    match header {
        Some(header) => seq![
            linker_finding(
                state.timestamp,
                header.major_linker_version,
                header.minor_linker_version,
            ),
        ] + operating_system_findings(
            linker_outcome(
                state,
                header.major_linker_version as int,
                header.minor_linker_version as int,
            ),
            header,
        ),
        None => Seq::empty(),
    }
}

/// The record of a binary with the given timestamp, optional header and
/// import table after every heuristic has run: the imports first, then the
/// linker version, then the operating system.
pub open spec fn analysis_outcome(
    time_date_stamp: u32,
    header: Option<OptionalHeader>,
    table: Seq<ImportDescriptorView>,
) -> InfoView {
    header_outcome(import_outcome(initial_record(time_date_stamp), table), header)
}

/// The findings of every heuristic in the order in which they ran.
pub open spec fn analysis_findings(
    time_date_stamp: u32,
    header: Option<OptionalHeader>,
    table: Seq<ImportDescriptorView>,
) -> Seq<FindingView> {
    seq![timestamp_finding(time_date_stamp)] + import_findings(
        initial_record(time_date_stamp),
        table,
    ) + header_findings(import_outcome(initial_record(time_date_stamp), table), header)
}

/// No heuristic lowers a flag that is up or changes the timestamp: a binary
/// that was marked as C++, or whose record was flagged, stays so through
/// the passes over the imports and the look at the header.
pub proof fn lemma_heuristics_keep_flags(
    state: InfoView,
    header: Option<OptionalHeader>,
    table: Seq<ImportDescriptorView>,
)
    ensures
        state.is_cpp ==> header_outcome(import_outcome(state, table), header).is_cpp,
        state.likely_incorrect ==> header_outcome(
            import_outcome(state, table),
            header,
        ).likely_incorrect,
        header_outcome(import_outcome(state, table), header).timestamp == state.timestamp,
{
    lemma_import_outcome_keeps(state, table);
}

/// Runs every heuristic on what was read out of a binary.
pub fn analyze_parsed(
    time_date_stamp: u32,
    header: Option<OptionalHeader>,
    table: &Vec<ImportDescriptor>,
    args: &Args,
) -> (analysis: Analysis)
    ensures
        analysis.info@ == analysis_outcome(time_date_stamp, header, table.deep_view()),
        analysis.findings.deep_view() == reported(
            args.quiet,
            analysis_findings(time_date_stamp, header, table.deep_view()),
        ),
{
    let date: i64 = time_date_stamp as i64;
    let newest_possible = CompilerVersion::newest_possible(date);
    let days: i64 = days_apart(newest_possible.release_date(), date);
    let mut findings: Vec<Finding> = Vec::new();
    assert(findings.deep_view() =~= Seq::<FindingView>::empty());
    report(
        &mut findings,
        Finding::Timestamp { timestamp: date, newest_possible, days },
        args.quiet,
    );
    let mut info = Info::new(date);
    if time_date_stamp == 0 {
        info.set_likely_incorrect();
    }
    let ghost begun = info@;
    let ghost first = findings.deep_view();

    let mut imports = versions_from_import_table(table, &mut info, args);
    let ghost second = imports.deep_view();
    findings.append(&mut imports);
    assert(findings.deep_view() =~= first + second);

    if let Some(header) = header {
        let mut linker = versions_from_linker_version(&header, &mut info, args);
        let ghost third = linker.deep_view();
        findings.append(&mut linker);
        let mut system = versions_for_operating_system(&header, &mut info, args);
        let ghost fourth = system.deep_view();
        findings.append(&mut system);
        assert(findings.deep_view() =~= first + second + third + fourth);
        proof {
            lemma_import_outcome_keeps(begun, table.deep_view());
        }
    }
    assert(findings.deep_view() =~= reported(
        args.quiet,
        analysis_findings(time_date_stamp, header, table.deep_view()),
    ));
    Analysis { info, findings }
}

/// The four bytes that begin the headers of a portable executable.
pub open spec fn pe_signature() -> Seq<u8> {
    seq![0x50u8, 0x45u8, 0u8, 0u8]
}

/// The offset at which the DOS header of `binary` says its signature is:
/// the two bytes at 0x3c, the lower first.
pub open spec fn signature_offset(binary: Seq<u8>) -> int {
    binary[0x3c] as int + 256 * (binary[0x3d] as int)
}

/// Whether `binary` holds the signature of a portable executable at the
/// offset that is written in its DOS header.
pub open spec fn has_pe_signature(binary: Seq<u8>) -> bool {
    &&& 0x3e <= binary.len()
    &&& signature_offset(binary) + 4 <= binary.len()
    &&& binary.subrange(signature_offset(binary), signature_offset(binary) + 4)
        == pe_signature()
}

/// What was read out of the headers of a binary.
#[derive(Debug, Copy, Clone, PartialEq, Eq, Structural)]
pub struct FileHeaders {
    /// The compile timestamp of the file header, in seconds of Unix time.
    pub time_date_stamp: u32,
    /// The version fields of the 32-bit optional header, where there is one.
    pub optional_header_32: Option<OptionalHeader>,
    /// The version fields of the 64-bit optional header, where there is one.
    pub optional_header_64: Option<OptionalHeader>,
}

/// The version fields to go by: those of the 32-bit optional header where
/// there is one, else those of the 64-bit optional header, and none where
/// the binary has neither.
pub open spec fn spec_select_optional_header(headers: FileHeaders) -> Option<OptionalHeader> {
    match headers.optional_header_32 {
        Some(header) => Some(header),
        None => headers.optional_header_64,
    }
}

/// What becomes of the analysis of a binary, given how the reading of its
/// headers and of its import table went. Headers that cannot be read are
/// the first failure, an import table that cannot be read the second;
/// where both were read, every heuristic runs on them.
pub open spec fn is_analysis_of_reads(
    outcome: Result<Analysis, AnalysisError>,
    headers: Result<FileHeaders, pe_parser::Error>,
    table: Result<Vec<ImportDescriptor>, ImportDirectoryError>,
    quiet: bool,
) -> bool {
    match headers {
        Err(_) => outcome matches Err(error) && error == AnalysisError::Headers,
        Ok(headers) => match table {
            Err(_) => outcome matches Err(error) && error == AnalysisError::ImportDirectory,
            Ok(table) => {
                &&& outcome matches Ok(analysis)
                &&& analysis.info@ == analysis_outcome(
                    headers.time_date_stamp,
                    spec_select_optional_header(headers),
                    table.deep_view(),
                )
                &&& analysis.findings.deep_view() == reported(
                    quiet,
                    analysis_findings(
                        headers.time_date_stamp,
                        spec_select_optional_header(headers),
                        table.deep_view(),
                    ),
                )
            },
        },
    }
}

/// Makes the analysis of a binary out of what the reading of its headers
/// and of its import table came to.
pub fn analyze_read(
    headers: Result<FileHeaders, pe_parser::Error>,
    table: Result<Vec<ImportDescriptor>, ImportDirectoryError>,
    args: &Args,
) -> (outcome: Result<Analysis, AnalysisError>)
    ensures
        is_analysis_of_reads(outcome, headers, table, args.quiet),
{
    let headers = match headers {
        Ok(headers) => headers,
        Err(_) => {
            return Err(AnalysisError::Headers);
        },
    };
    let table = match table {
        Ok(table) => table,
        Err(_) => {
            return Err(AnalysisError::ImportDirectory);
        },
    };
    let header = select_optional_header(&headers);
    Ok(analyze_parsed(headers.time_date_stamp, header, &table, args))
}

/// Analyzes the binary whose bytes are `file` and whose import table was
/// read as `table`. The headers are read first: bytes without the
/// signature of a portable executable are refused for their headers, and
/// so is whatever else the reader of the headers refuses. With the
/// headers read, an import table that could not be read is the failure,
/// and a table that was read is analyzed together with the headers.
pub fn analyze(
    file: &[u8],
    table: Result<Vec<ImportDescriptor>, ImportDirectoryError>,
    args: &Args,
) -> (outcome: Result<Analysis, AnalysisError>)
    ensures
        !has_pe_signature(file@) ==> (outcome matches Err(error) && error
            == AnalysisError::Headers),
        exists|headers: Result<FileHeaders, pe_parser::Error>| #[trigger]
            is_analysis_of_reads(outcome, headers, table, args.quiet),
{
    let headers = read_headers(file);
    analyze_read(headers, table, args)
}

/// The version fields to go by: those of the 32-bit optional header where
/// there is one, else those of the 64-bit optional header.
pub fn select_optional_header(headers: &FileHeaders) -> (header: Option<OptionalHeader>)
    ensures
        header == spec_select_optional_header(*headers),
{
    if let Some(header) = headers.optional_header_32 {
        Some(header)
    } else if let Some(header) = headers.optional_header_64 {
        Some(header)
    } else {
        None
    }
}

/// Reads the headers of the binary whose bytes are `file` and keeps the
/// compile timestamp and the version fields of each optional header that
/// there is.
pub fn read_headers(file: &[u8]) -> (headers: Result<FileHeaders, pe_parser::Error>)
    ensures
        headers is Ok ==> has_pe_signature(file@),
{
    let read = pe_parser::pe::parse_portable_executable(file)?;
    let optional_header_32 = match optional_header_32(&read) {
        Some(header) => Some(OptionalHeader::from_header32(&header)),
        None => None,
    };
    let optional_header_64 = match optional_header_64(&read) {
        Some(header) => Some(OptionalHeader::from_header64(&header)),
        None => None,
    };
    Ok(FileHeaders { time_date_stamp: time_date_stamp(&read), optional_header_32, optional_header_64 })
}

/// The headers of a binary as pe_parser reads them.
#[verifier::external_type_specification]
#[verifier::external_body]
pub struct ExPortableExecutable(pe_parser::pe::PortableExecutable);

/// The error of pe_parser.
#[verifier::external_type_specification]
#[verifier::external_body]
pub struct ExHeaderError(pe_parser::Error);

/// pe_parser's `parse_portable_executable` reads the file header, the
/// optional header and the section table out of the bytes of a binary.
///
/// Trusted: it succeeds only on bytes that hold the signature of a portable
/// executable where the DOS header says it is. That much it reads byte by
/// byte; what it reads after that it casts in place, so that the rest of
/// the result depends on the machine and on how the buffer is aligned in
/// memory, and nothing is claimed of it.
pub assume_specification[ pe_parser::pe::parse_portable_executable ](binary: &[u8]) -> (read:
    Result<pe_parser::pe::PortableExecutable, pe_parser::Error>)
    ensures
        read is Ok ==> has_pe_signature(binary@),
;

/// Picks the compile timestamp out of the file header that pe_parser
/// read. Nothing is claimed of the result.
#[verifier::external_body]
fn time_date_stamp(headers: &pe_parser::pe::PortableExecutable) -> u32 {
    headers.coff.time_date_stamp
}

/// Picks the 32-bit optional header, where pe_parser read one. Nothing is
/// claimed of the result.
#[verifier::external_body]
fn optional_header_32(headers: &pe_parser::pe::PortableExecutable) -> Option<
    pe_parser::optional::OptionalHeader32,
> {
    headers.optional_header_32
}

/// Picks the 64-bit optional header, where pe_parser read one. Nothing is
/// claimed of the result.
#[verifier::external_body]
fn optional_header_64(headers: &pe_parser::pe::PortableExecutable) -> Option<
    pe_parser::optional::OptionalHeader64,
> {
    headers.optional_header_64
}

} // verus!
