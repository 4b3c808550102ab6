use exe::CCharString;
use pe_toolchain::analysis::{
    analyze, read_headers, select_optional_header, Analysis, AnalysisError,
};
use pe_toolchain::args::Args;
use pe_toolchain::compiler_version::CompilerVersion;
use pe_toolchain::conclusion::{conclude, CompilerVerdict};
use pe_toolchain::dll_imports::{
    descriptor_from_reads, versions_from_imported_dlls, ImportData, ImportDescriptor,
    ImportDirectoryError,
};
use pe_toolchain::finding::{Candidate, Finding};
use pe_toolchain::info::Info;
use pe_toolchain::optional_header::OptionalHeader;
use pe_toolchain::standard::CppStandard;
use pe_toolchain::versions_for_operating_system::OperatingSystem;

const MID_1996: u32 = 834_796_800;
const MID_2010: u32 = 1_275_350_400;
const NEW_YEAR_2023: u32 = 1_672_531_200;

enum Symbol {
    Ordinal(u16),
    Name(&'static str),
}

struct Image {
    wide: bool,
    stamp: u32,
    linker: (u8, u8),
    system: (u16, u16),
    subsystem: (u16, u16),
    modules: Vec<(&'static str, Vec<Symbol>)>,
    with_imports: bool,
}

fn put16(bytes: &mut [u8], at: usize, value: u16) {
    bytes[at..at + 2].copy_from_slice(&value.to_le_bytes());
}

fn put32(bytes: &mut [u8], at: usize, value: u32) {
    bytes[at..at + 4].copy_from_slice(&value.to_le_bytes());
}

fn put64(bytes: &mut [u8], at: usize, value: u64) {
    bytes[at..at + 8].copy_from_slice(&value.to_le_bytes());
}

const HEADERS: usize = 0x400;
const SECTION_RVA: u32 = 0x1000;
const SECTION_SIZE: usize = 0x1000;

impl Image {
    fn new(stamp: u32) -> Image {
        Image {
            wide: false,
            stamp,
            linker: (6, 0),
            system: (4, 0),
            subsystem: (4, 0),
            modules: Vec::new(),
            with_imports: true,
        }
    }

    fn section(&self) -> Vec<u8> {
        let mut section = vec![0u8; SECTION_SIZE];
        let thunk = if self.wide { 8 } else { 4 };
        let mut cursor = (self.modules.len() + 1) * 20;
        for (index, (name, symbols)) in self.modules.iter().enumerate() {
            let name_at = cursor;
            section[cursor..cursor + name.len()].copy_from_slice(name.as_bytes());
            cursor += name.len() + 1;
            cursor = (cursor + 7) / 8 * 8;
            let thunks_at = cursor;
            cursor += (symbols.len() + 1) * thunk;
            for (position, symbol) in symbols.iter().enumerate() {
                let slot = thunks_at + position * thunk;
                match symbol {
                    Symbol::Ordinal(ordinal) => {
                        if self.wide {
                            put64(&mut section, slot, (1u64 << 63) | *ordinal as u64);
                        } else {
                            put32(&mut section, slot, (1u32 << 31) | *ordinal as u32);
                        }
                    }
                    Symbol::Name(text) => {
                        let entry = cursor;
                        section[entry + 2..entry + 2 + text.len()].copy_from_slice(text.as_bytes());
                        cursor += 2 + text.len() + 1;
                        cursor = (cursor + 7) / 8 * 8;
                        if self.wide {
                            put64(&mut section, slot, SECTION_RVA as u64 + entry as u64);
                        } else {
                            put32(&mut section, slot, SECTION_RVA + entry as u32);
                        }
                    }
                }
            }
            let descriptor = index * 20;
            put32(&mut section, descriptor, SECTION_RVA + thunks_at as u32);
            put32(&mut section, descriptor + 12, SECTION_RVA + name_at as u32);
            put32(&mut section, descriptor + 16, SECTION_RVA + thunks_at as u32);
        }
        assert!(cursor <= SECTION_SIZE);
        section
    }

    fn bytes(&self) -> Vec<u8> {
        let mut bytes = vec![0u8; HEADERS];
        bytes[0] = b'M';
        bytes[1] = b'Z';
        put32(&mut bytes, 0x3c, 0x80);
        bytes[0x80..0x84].copy_from_slice(b"PE\0\0");
        let coff = 0x84;
        put16(&mut bytes, coff, if self.wide { 0x8664 } else { 0x014c });
        put16(&mut bytes, coff + 2, 1);
        put32(&mut bytes, coff + 4, self.stamp);
        put16(&mut bytes, coff + 16, if self.wide { 240 } else { 224 });
        put16(&mut bytes, coff + 18, 0x0102);
        let optional = coff + 20;
        put16(&mut bytes, optional, if self.wide { 0x20b } else { 0x10b });
        bytes[optional + 2] = self.linker.0;
        bytes[optional + 3] = self.linker.1;
        if self.wide {
            put64(&mut bytes, optional + 24, 0x1_4000_0000);
        } else {
            put32(&mut bytes, optional + 28, 0x40_0000);
        }
        put32(&mut bytes, optional + 32, 0x1000);
        put32(&mut bytes, optional + 36, 0x200);
        put16(&mut bytes, optional + 40, self.system.0);
        put16(&mut bytes, optional + 42, self.system.1);
        put16(&mut bytes, optional + 48, self.subsystem.0);
        put16(&mut bytes, optional + 50, self.subsystem.1);
        put32(&mut bytes, optional + 56, SECTION_RVA + SECTION_SIZE as u32);
        put32(&mut bytes, optional + 60, HEADERS as u32);
        put16(&mut bytes, optional + 68, 3);
        let directories = optional + if self.wide { 112 } else { 96 };
        put32(&mut bytes, directories - 4, 16);
        if self.with_imports {
            put32(&mut bytes, directories + 8, SECTION_RVA);
            put32(&mut bytes, directories + 12, ((self.modules.len() + 1) * 20) as u32);
        }
        let section = directories + 128;
        bytes[section..section + 6].copy_from_slice(b".idata");
        put32(&mut bytes, section + 8, SECTION_SIZE as u32);
        put32(&mut bytes, section + 12, SECTION_RVA);
        put32(&mut bytes, section + 16, SECTION_SIZE as u32);
        put32(&mut bytes, section + 20, HEADERS as u32);
        put32(&mut bytes, section + 36, 0xC000_0040);
        bytes.extend_from_slice(&self.section());
        bytes
    }
}

fn get_name_and_imports(
    descriptor: &exe::ImageImportDescriptor,
    pe: &exe::VecPE,
) -> ImportDescriptor {
    let name = descriptor.get_name(pe).and_then(|chars| chars.as_str());
    let imports = descriptor.get_imports(pe).map(|imports| {
        imports
            .into_iter()
            .map(|import| match import {
                exe::ImportData::Ordinal(ordinal) => ImportData::Ordinal(ordinal),
                exe::ImportData::ImportByName(name) => ImportData::ImportByName(name),
            })
            .collect()
    });
    descriptor_from_reads(name, imports)
}

fn read_import_table(bytes: &[u8]) -> Result<Vec<ImportDescriptor>, ImportDirectoryError> {
    let pe = exe::VecPE::from_disk_data(bytes);
    let directory = exe::ImportDirectory::parse(&pe).map_err(|_| ImportDirectoryError)?;
    Ok(directory
        .descriptors
        .iter()
        .map(|descriptor| get_name_and_imports(descriptor, &pe))
        .collect())
}

fn analyze_image(bytes: &[u8], args: &Args) -> Result<Analysis, AnalysisError> {
    analyze(bytes, read_import_table(bytes), args)
}

fn loud() -> Args {
    Args { quiet: false, strict: false, files: Vec::new() }
}

fn named(name: &str, symbols: Vec<ImportData>) -> ImportDescriptor {
    ImportDescriptor { name: Some(name.to_string()), imports: Some(symbols) }
}

fn by_name(name: &str) -> ImportData {
    ImportData::ImportByName(name.to_string())
}

#[test]
fn import_table_is_read_in_table_order() {
    let mut image = Image::new(NEW_YEAR_2023);
    image.modules = vec![
        ("KERNEL32.dll", vec![Symbol::Name("ExitProcess"), Symbol::Ordinal(17)]),
        ("MSVCP140.dll", vec![Symbol::Name("?_Xbad_alloc@std@@YAXXZ")]),
        ("ucrtbase.dll", vec![]),
    ];
    let table = read_import_table(&image.bytes()).unwrap();
    assert_eq!(
        table,
        vec![
            named("KERNEL32.dll", vec![by_name("ExitProcess"), ImportData::Ordinal(17)]),
            named("MSVCP140.dll", vec![by_name("?_Xbad_alloc@std@@YAXXZ")]),
            named("ucrtbase.dll", vec![]),
        ]
    );
}

#[test]
fn import_table_of_a_wide_image() {
    let mut image = Image::new(NEW_YEAR_2023);
    image.wide = true;
    image.modules = vec![("VCRUNTIME140.dll", vec![Symbol::Ordinal(3), Symbol::Name("memcpy")])];
    let table = read_import_table(&image.bytes()).unwrap();
    assert_eq!(
        table,
        vec![named("VCRUNTIME140.dll", vec![ImportData::Ordinal(3), by_name("memcpy")])]
    );
}

#[test]
fn descriptor_is_read_by_itself() {
    let mut image = Image::new(NEW_YEAR_2023);
    image.modules = vec![("msvcrt.dll", vec![Symbol::Name("atoll")])];
    let pe = exe::VecPE::from_disk_data(image.bytes());
    let directory = exe::ImportDirectory::parse(&pe).unwrap();
    assert_eq!(directory.descriptors.len(), 1);
    assert_eq!(
        get_name_and_imports(&directory.descriptors[0], &pe),
        named("msvcrt.dll", vec![by_name("atoll")])
    );
}

#[test]
fn descriptor_that_points_nowhere_has_neither_name_nor_imports() {
    let image = Image::new(NEW_YEAR_2023);
    let pe = exe::VecPE::from_disk_data(image.bytes());
    let descriptor = exe::ImageImportDescriptor {
        original_first_thunk: exe::RVA(0),
        time_date_stamp: 0,
        forwarder_chain: 0,
        name: exe::RVA(0x7fff_0000),
        first_thunk: exe::RVA(0),
    };
    assert_eq!(
        get_name_and_imports(&descriptor, &pe),
        ImportDescriptor { name: None, imports: None }
    );
}

#[test]
fn imports_of_an_image_are_evidence() {
    let mut image = Image::new(MID_2010);
    image.modules = vec![
        ("KERNEL32.dll", vec![Symbol::Name("ExitProcess")]),
        ("MSVCR110.dll", vec![Symbol::Name("strtoll")]),
        ("MSVCP110.dll", vec![Symbol::Name("?_Xbad_alloc@std@@YAXXZ")]),
    ];
    let read = read_import_table(&image.bytes());
    let mut info = Info::new(MID_2010 as i64);
    let findings = versions_from_imported_dlls(read, &mut info, &loud()).unwrap();
    assert_eq!(info.compiler_version(), vec![CompilerVersion::VisualStudio2012]);
    assert!(!info.likely_correct());
    assert!(info.is_cpp());
    assert_eq!(info.standard(), Some(CppStandard::Cpp11));
    let implausible = Candidate { version: CompilerVersion::VisualStudio2012, plausible: false };
    assert_eq!(
        findings,
        vec![
            Finding::CppSymbol {
                symbol: "?_Xbad_alloc@std@@YAXXZ".to_string(),
                module: "MSVCP110.dll".to_string(),
            },
            Finding::StandardSymbol {
                symbol: "strtoll".to_string(),
                module: "MSVCR110.dll".to_string(),
                standard: CppStandard::Cpp11,
            },
            Finding::SingleCompiler { module: "MSVCR110.dll".to_string(), candidate: implausible },
            Finding::SingleCompiler { module: "MSVCP110.dll".to_string(), candidate: implausible },
        ]
    );
}

#[test]
fn image_without_import_directory_is_a_failure() {
    let mut image = Image::new(MID_1996);
    image.with_imports = false;
    let read = read_import_table(&image.bytes());
    assert_eq!(read, Err(ImportDirectoryError));
    let mut info = Info::new(MID_1996 as i64);
    let outcome = versions_from_imported_dlls(read, &mut info, &loud());
    assert_eq!(outcome, Err("Unable to parse import directory".to_string()));
    assert!(!info.likely_correct());
    assert!(info.compiler_version().is_empty());
    assert!(!info.is_cpp());
    assert_eq!(analyze_image(&image.bytes(), &loud()).unwrap_err(), AnalysisError::ImportDirectory);
}

#[test]
fn bytes_that_are_no_image_are_a_failure() {
    assert_eq!(analyze_image(&[], &loud()).unwrap_err(), AnalysisError::Headers);
    assert_eq!(analyze_image(&[0u8; 64], &loud()).unwrap_err(), AnalysisError::Headers);
    assert_eq!(analyze_image(b"not a binary at all", &loud()).unwrap_err(), AnalysisError::Headers);
    let mut info = Info::new(0);
    assert!(versions_from_imported_dlls(read_import_table(b"MZ"), &mut info, &loud()).is_err());
    assert!(!info.likely_correct());
}

#[test]
fn header_fields_of_a_narrow_image() {
    let mut image = Image::new(MID_1996);
    image.linker = (4, 1);
    image.system = (6, 1);
    image.subsystem = (6, 2);
    let headers = read_headers(&image.bytes()).unwrap();
    assert_eq!(headers.time_date_stamp, MID_1996);
    assert!(headers.optional_header_32.is_some());
    assert_eq!(headers.optional_header_64, None);
    assert_eq!(
        select_optional_header(&headers),
        Some(OptionalHeader {
            major_linker_version: 4,
            minor_linker_version: 1,
            major_operating_system_version: 6,
            minor_operating_system_version: 1,
            major_subsystem_version: 6,
            minor_subsystem_version: 2,
        })
    );
}

#[test]
fn header_fields_of_a_wide_image() {
    let mut image = Image::new(NEW_YEAR_2023);
    image.wide = true;
    image.linker = (14, 29);
    image.system = (10, 0);
    image.subsystem = (6, 0);
    let headers = read_headers(&image.bytes()).unwrap();
    assert_eq!(headers.time_date_stamp, NEW_YEAR_2023);
    assert_eq!(headers.optional_header_32, None);
    assert!(headers.optional_header_64.is_some());
    assert_eq!(
        select_optional_header(&headers),
        Some(OptionalHeader {
            major_linker_version: 14,
            minor_linker_version: 29,
            major_operating_system_version: 10,
            minor_operating_system_version: 0,
            major_subsystem_version: 6,
            minor_subsystem_version: 0,
        })
    );
}

#[test]
fn headers_of_bytes_that_are_no_image_cannot_be_read() {
    assert!(read_headers(&[]).is_err());
    assert!(read_headers(b"MZ").is_err());
    assert!(read_headers(&[0u8; 512]).is_err());
}

#[test]
fn from_header32_copies_each_field() {
    let mut header = pe_parser::optional::OptionalHeader32::default();
    header.major_linker_version = 1;
    header.minor_linker_version = 2;
    header.major_operating_system_version = 3;
    header.minor_operating_system_version = 4;
    header.major_image_version = 50;
    header.minor_image_version = 60;
    header.major_subsystem_version = 5;
    header.minor_subsystem_version = 6;
    assert_eq!(
        OptionalHeader::from_header32(&header),
        OptionalHeader {
            major_linker_version: 1,
            minor_linker_version: 2,
            major_operating_system_version: 3,
            minor_operating_system_version: 4,
            major_subsystem_version: 5,
            minor_subsystem_version: 6,
        }
    );
}

#[test]
fn from_header64_copies_each_field() {
    let mut header = pe_parser::optional::OptionalHeader64::default();
    header.major_linker_version = 11;
    header.minor_linker_version = 12;
    header.major_operating_system_version = 13;
    header.minor_operating_system_version = 14;
    header.major_image_version = 50;
    header.minor_image_version = 60;
    header.major_subsystem_version = 15;
    header.minor_subsystem_version = 16;
    assert_eq!(
        OptionalHeader::from_header64(&header),
        OptionalHeader {
            major_linker_version: 11,
            minor_linker_version: 12,
            major_operating_system_version: 13,
            minor_operating_system_version: 14,
            major_subsystem_version: 15,
            minor_subsystem_version: 16,
        }
    );
}

#[test]
fn binary_of_1996_with_linker_4_1_and_no_runtime_imports() {
    let mut image = Image::new(MID_1996);
    image.linker = (4, 1);
    image.modules = vec![("KERNEL32.dll", vec![Symbol::Name("ExitProcess")])];
    let analysis = analyze_image(&image.bytes(), &loud()).unwrap();
    assert_eq!(analysis.info.timestamp(), MID_1996 as i64);
    assert_eq!(analysis.info.linker_version(), Some(CompilerVersion::VisualCPP4_1));
    assert!(analysis.info.compiler_version().is_empty());
    assert!(analysis.info.likely_correct());
    assert_eq!(analysis.info.minimum_operating_system(), Some(OperatingSystem::Windows95));
    assert_eq!(
        analysis.findings,
        vec![
            Finding::Timestamp {
                timestamp: MID_1996 as i64,
                newest_possible: CompilerVersion::VisualCPP4_1,
                days: 109,
            },
            Finding::LinkerVersion {
                linker_major: 4,
                linker_minor: 1,
                candidate: Candidate { version: CompilerVersion::VisualCPP4_1, plausible: true },
            },
            Finding::OperatingSystemVersion { major: 4, minor: 0, os: OperatingSystem::Windows95 },
            Finding::SubsystemAgrees { major: 4, minor: 0, os: OperatingSystem::Windows95 },
        ]
    );
    let conclusion = conclude(&analysis.info, &loud());
    assert_eq!(conclusion.verdict(), CompilerVerdict::Unknown);
    assert!(conclusion.success);
}

#[test]
fn image_with_runtime_of_2012_and_timestamp_of_2010() {
    let mut image = Image::new(MID_2010);
    image.linker = (11, 0);
    image.system = (6, 2);
    image.subsystem = (6, 2);
    image.modules = vec![("msvcr110.dll", vec![]), ("msvcp110.dll", vec![])];
    let analysis = analyze_image(&image.bytes(), &loud()).unwrap();
    assert_eq!(analysis.info.compiler_version(), vec![CompilerVersion::VisualStudio2012]);
    assert_eq!(analysis.info.linker_version(), Some(CompilerVersion::VisualStudio2012));
    assert_eq!(analysis.info.minimum_operating_system(), Some(OperatingSystem::Windows8));
    assert!(!analysis.info.likely_correct());
}

#[test]
fn msvcrt_before_and_after_msvcp60() {
    let mut image = Image::new(NEW_YEAR_2023);
    image.modules = vec![("msvcrt.dll", vec![]), ("KERNEL32.dll", vec![]), ("msvcp60.dll", vec![])];
    let analysis = analyze_image(&image.bytes(), &loud()).unwrap();
    assert_eq!(analysis.info.compiler_version(), vec![CompilerVersion::VisualCPP6_0]);

    image.modules = vec![("msvcp60.dll", vec![]), ("KERNEL32.dll", vec![]), ("msvcrt.dll", vec![])];
    let analysis = analyze_image(&image.bytes(), &loud()).unwrap();
    assert_eq!(
        analysis.info.compiler_version(),
        vec![
            CompilerVersion::VisualCPP4_2,
            CompilerVersion::VisualCPP5_0,
            CompilerVersion::VisualCPP6_0,
        ]
    );
    assert!(analysis.info.likely_correct());
}

#[test]
fn zero_timestamp_is_flagged_and_analysis_goes_on() {
    let mut image = Image::new(0);
    image.linker = (14, 20);
    image.modules = vec![("KERNEL32.dll", vec![Symbol::Name("?f@@YAXXZ"), Symbol::Name("mbrtoc8")])];
    let analysis = analyze_image(&image.bytes(), &loud()).unwrap();
    assert!(!analysis.info.likely_correct());
    assert_eq!(analysis.info.timestamp(), 0);
    assert!(analysis.info.is_cpp());
    assert_eq!(analysis.info.standard(), Some(CppStandard::Cpp20));
    assert_eq!(analysis.info.linker_version(), Some(CompilerVersion::VisualStudio2019));
    assert_eq!(
        analysis.findings[0],
        Finding::Timestamp {
            timestamp: 0,
            newest_possible: CompilerVersion::VisualCPP1_0,
            days: 8453,
        }
    );
}

#[test]
fn quiet_analysis_still_comes_to_a_conclusion() {
    let mut image = Image::new(MID_2010);
    image.modules = vec![("msvcr110.dll", vec![])];
    let args = Args { quiet: true, strict: true, files: Vec::new() };
    let analysis = analyze_image(&image.bytes(), &args).unwrap();
    assert!(analysis.findings.is_empty());
    let conclusion = conclude(&analysis.info, &args);
    assert_eq!(conclusion.verdict(), CompilerVerdict::Single(CompilerVersion::VisualStudio2012));
    assert!(conclusion.likely_incorrect);
    assert!(!conclusion.success);
}

#[test]
fn damaged_images_are_analyzed_or_refused() {
    let mut image = Image::new(NEW_YEAR_2023);
    image.modules = vec![
        ("KERNEL32.dll", vec![Symbol::Name("ExitProcess"), Symbol::Ordinal(17)]),
        ("MSVCP140.dll", vec![Symbol::Name("?_Xbad_alloc@std@@YAXXZ"), Symbol::Name("atoll")]),
    ];
    let sound = image.bytes();
    let mut state: u64 = 0x2545_f491_4f6c_dd1d;
    let mut next = move || {
        state ^= state << 13;
        state ^= state >> 7;
        state ^= state << 17;
        state
    };
    let mut analyzed = 0;
    for _ in 0..4000 {
        let mut bytes = sound.clone();
        let changes = 1 + next() % 4;
        for _ in 0..changes {
            let region = next() % 3;
            let at = match region {
                0 => (next() % 0x1a0) as usize,
                1 => HEADERS + (next() % 0x100) as usize,
                _ => (next() % bytes.len() as u64) as usize,
            };
            bytes[at] = next() as u8;
        }
        if next() % 16 == 0 {
            bytes.truncate((next() % bytes.len() as u64) as usize);
        }
        let signed = has_signature(&bytes);
        assert!(signed || read_headers(&bytes).is_err());
        match analyze_image(&bytes, &loud()) {
            Ok(analysis) => {
                analyzed += 1;
                assert!(signed);
                assert!(!analysis.findings.is_empty());
            }
            Err(error) => assert!(signed || error == AnalysisError::Headers),
        }
    }
    assert!(analyzed > 0);
}

fn has_signature(bytes: &[u8]) -> bool {
    if bytes.len() < 0x3e {
        return false;
    }
    let offset = bytes[0x3c] as usize + 256 * bytes[0x3d] as usize;
    offset + 4 <= bytes.len() && bytes[offset..offset + 4] == [0x50, 0x45, 0, 0]
}

#[test]
fn bytes_without_the_signature_are_refused_for_their_headers() {
    let sound = Image::new(NEW_YEAR_2023).bytes();
    assert!(has_signature(&sound));
    assert!(read_headers(&sound).is_ok());

    for at in 0x80..0x84 {
        let mut bytes = sound.clone();
        bytes[at] ^= 1;
        assert!(!has_signature(&bytes));
        assert!(read_headers(&bytes).is_err());
        assert_eq!(analyze_image(&bytes, &loud()).unwrap_err(), AnalysisError::Headers);
    }

    let mut moved = sound.clone();
    moved[0x3c] = 0x90;
    assert!(read_headers(&moved).is_err());
    assert_eq!(analyze_image(&moved, &loud()).unwrap_err(), AnalysisError::Headers);

    let mut beyond = sound.clone();
    beyond[0x3c] = 0xff;
    beyond[0x3d] = 0xff;
    assert!(read_headers(&beyond).is_err());
    assert_eq!(analyze_image(&beyond, &loud()).unwrap_err(), AnalysisError::Headers);

    for length in [0usize, 1, 0x3c, 0x3d, 0x3e, 0x80, 0x83] {
        assert!(!has_signature(&sound[..length]));
        assert!(read_headers(&sound[..length]).is_err());
        assert_eq!(analyze_image(&sound[..length], &loud()).unwrap_err(), AnalysisError::Headers);
    }
}
