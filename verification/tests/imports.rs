use pe_toolchain::args::Args;
use pe_toolchain::compiler_version::CompilerVersion;
use pe_toolchain::dll_imports::{
    has_mangled_name, rule_for_module, rule_for_module_name, specific_imports, specific_symbols,
    versions_from_import_table, ImportData, ImportDescriptor, ModuleRule, RuntimeFamily,
};
use pe_toolchain::finding::{Candidate, Finding};
use pe_toolchain::info::Info;
use pe_toolchain::standard::CppStandard;

const MID_2010: i64 = 1_275_350_400;
const NEW_YEAR_2000: i64 = 946_684_800;
const NEW_YEAR_2023: i64 = 1_672_531_200;

fn loud() -> Args {
    Args { quiet: false, strict: false, files: Vec::new() }
}

fn module(name: &str, symbols: &[&str]) -> ImportDescriptor {
    ImportDescriptor {
        name: Some(name.to_string()),
        imports: Some(
            symbols.iter().map(|symbol| ImportData::ImportByName(symbol.to_string())).collect(),
        ),
    }
}

fn narrow(version: CompilerVersion) -> ModuleRule {
    ModuleRule::Narrow(version)
}

#[test]
fn rule_table() {
    assert_eq!(rule_for_module("msvcrt.dll"), ModuleRule::Widen(RuntimeFamily::Msvcrt));
    assert_eq!(rule_for_module("msvcp50.dll"), narrow(CompilerVersion::VisualCPP5_0));
    assert_eq!(rule_for_module("msvcp60.dll"), narrow(CompilerVersion::VisualCPP6_0));
    assert_eq!(rule_for_module("msvcr70.dll"), narrow(CompilerVersion::VisualStudioDotNet2002));
    assert_eq!(rule_for_module("msvcp70.dll"), narrow(CompilerVersion::VisualStudioDotNet2002));
    assert_eq!(rule_for_module("msvcr71.dll"), narrow(CompilerVersion::VisualStudioDotNet2003));
    assert_eq!(rule_for_module("msvcp71.dll"), narrow(CompilerVersion::VisualStudioDotNet2003));
    assert_eq!(rule_for_module("msvcr80.dll"), narrow(CompilerVersion::VisualStudio2005));
    assert_eq!(rule_for_module("msvcp80.dll"), narrow(CompilerVersion::VisualStudio2005));
    assert_eq!(rule_for_module("msvcr90.dll"), narrow(CompilerVersion::VisualStudio2008));
    assert_eq!(rule_for_module("msvcp90.dll"), narrow(CompilerVersion::VisualStudio2008));
    assert_eq!(rule_for_module("msvcr100.dll"), narrow(CompilerVersion::VisualStudio2010));
    assert_eq!(rule_for_module("msvcp100.dll"), narrow(CompilerVersion::VisualStudio2010));
    assert_eq!(rule_for_module("msvcr110.dll"), narrow(CompilerVersion::VisualStudio2012));
    assert_eq!(rule_for_module("msvcp110.dll"), narrow(CompilerVersion::VisualStudio2012));
    assert_eq!(rule_for_module("msvcr120.dll"), narrow(CompilerVersion::VisualStudio2013));
    assert_eq!(rule_for_module("msvcp120.dll"), narrow(CompilerVersion::VisualStudio2013));
    assert_eq!(rule_for_module("ucrtbase.dll"), ModuleRule::Widen(RuntimeFamily::Universal));
    assert_eq!(rule_for_module("vcruntime140.dll"), ModuleRule::Widen(RuntimeFamily::Universal));
    assert_eq!(rule_for_module("msvcp140.dll"), ModuleRule::Widen(RuntimeFamily::Universal));
}

#[test]
fn rule_for_api_sets() {
    assert_eq!(
        rule_for_module("api-ms-win-crt-runtime-l1-1-0.dll"),
        ModuleRule::Widen(RuntimeFamily::Universal)
    );
    assert_eq!(rule_for_module("api-ms-win-crt"), ModuleRule::Widen(RuntimeFamily::Universal));
    assert_eq!(
        rule_for_module("xapi-ms-win-crt-stdio.dll"),
        ModuleRule::Widen(RuntimeFamily::Universal)
    );
    assert_eq!(rule_for_module("api-ms-win-core-file-l1-1-0.dll"), ModuleRule::NoRule);
    assert_eq!(rule_for_module("api-ms-win-cr"), ModuleRule::NoRule);
}

#[test]
fn rule_for_other_modules() {
    assert_eq!(rule_for_module("kernel32.dll"), ModuleRule::NoRule);
    assert_eq!(rule_for_module(""), ModuleRule::NoRule);
    assert_eq!(rule_for_module("msvcr60.dll"), ModuleRule::NoRule);
    assert_eq!(rule_for_module("msvcrt.dll "), ModuleRule::NoRule);
    assert_eq!(rule_for_module("MSVCRT.DLL"), ModuleRule::NoRule);
}

#[test]
fn module_names_match_in_any_case() {
    assert_eq!(rule_for_module_name("MSVCRT.DLL"), ModuleRule::Widen(RuntimeFamily::Msvcrt));
    assert_eq!(rule_for_module_name("MsVcR110.dLl"), narrow(CompilerVersion::VisualStudio2012));
    assert_eq!(
        rule_for_module_name("API-MS-WIN-CRT-HEAP-L1-1-0.DLL"),
        ModuleRule::Widen(RuntimeFamily::Universal)
    );
    assert_eq!(rule_for_module_name("msvcp60.dll"), narrow(CompilerVersion::VisualCPP6_0));
    assert_eq!(rule_for_module_name("KERNEL32.DLL"), ModuleRule::NoRule);
}

#[test]
fn runtime_families() {
    assert_eq!(
        RuntimeFamily::Msvcrt.members(),
        vec![
            CompilerVersion::VisualCPP4_2,
            CompilerVersion::VisualCPP5_0,
            CompilerVersion::VisualCPP6_0,
        ]
    );
    assert_eq!(
        RuntimeFamily::Universal.members(),
        vec![
            CompilerVersion::VisualStudio2015,
            CompilerVersion::VisualStudio2017,
            CompilerVersion::VisualStudio2019,
            CompilerVersion::VisualStudio2022,
        ]
    );
}

#[test]
fn mangled_names_begin_with_a_question_mark() {
    assert!(has_mangled_name("?terminate@@YAXXZ"));
    assert!(has_mangled_name("?"));
    assert!(!has_mangled_name(""));
    assert!(!has_mangled_name("printf"));
    assert!(!has_mangled_name("a?b"));
    assert!(!has_mangled_name("\u{e9}?"));
}

#[test]
fn runtime_of_2012_in_a_binary_of_2010() {
    let table = vec![module("msvcr110.dll", &[]), module("msvcp110.dll", &[])];
    let mut info = Info::new(MID_2010);
    let findings = specific_imports(&table, &mut info, &loud());
    assert_eq!(info.compiler_version(), vec![CompilerVersion::VisualStudio2012]);
    assert!(!info.likely_correct());
    let implausible = Candidate { version: CompilerVersion::VisualStudio2012, plausible: false };
    assert_eq!(
        findings,
        vec![
            Finding::SingleCompiler { module: "msvcr110.dll".to_string(), candidate: implausible },
            Finding::SingleCompiler { module: "msvcp110.dll".to_string(), candidate: implausible },
        ]
    );
}

#[test]
fn narrow_after_widen_wins() {
    let table = vec![module("msvcrt.dll", &[]), module("kernel32.dll", &[]), module("msvcp60.dll", &[])];
    let mut info = Info::new(NEW_YEAR_2000);
    specific_imports(&table, &mut info, &loud());
    assert_eq!(info.compiler_version(), vec![CompilerVersion::VisualCPP6_0]);
    assert!(info.likely_correct());
}

#[test]
fn widen_after_narrow_adds() {
    let table = vec![module("msvcp60.dll", &[]), module("kernel32.dll", &[]), module("msvcrt.dll", &[])];
    let mut info = Info::new(NEW_YEAR_2000);
    specific_imports(&table, &mut info, &loud());
    assert_eq!(
        info.compiler_version(),
        vec![
            CompilerVersion::VisualCPP4_2,
            CompilerVersion::VisualCPP5_0,
            CompilerVersion::VisualCPP6_0,
        ]
    );
    assert!(info.likely_correct());
}

#[test]
fn widen_checks_each_candidate() {
    let stamp = CompilerVersion::VisualStudio2017.release_date();
    let table = vec![module("VCRUNTIME140.dll", &[])];
    let mut info = Info::new(stamp);
    let findings = specific_imports(&table, &mut info, &loud());
    assert_eq!(info.compiler_version(), RuntimeFamily::Universal.members());
    assert!(!info.likely_correct());
    assert_eq!(
        findings,
        vec![Finding::MultipleCompilers {
            module: "VCRUNTIME140.dll".to_string(),
            candidates: vec![
                Candidate { version: CompilerVersion::VisualStudio2015, plausible: true },
                Candidate { version: CompilerVersion::VisualStudio2017, plausible: false },
                Candidate { version: CompilerVersion::VisualStudio2019, plausible: false },
                Candidate { version: CompilerVersion::VisualStudio2022, plausible: false },
            ],
        }]
    );
}

#[test]
fn widen_of_plausible_candidates_raises_no_flag() {
    let table = vec![module("ucrtbase.dll", &[]), module("api-ms-win-crt-math-l1-1-0.dll", &[])];
    let mut info = Info::new(NEW_YEAR_2023);
    specific_imports(&table, &mut info, &loud());
    assert_eq!(info.compiler_version(), RuntimeFamily::Universal.members());
    assert!(info.likely_correct());
}

#[test]
fn narrow_at_the_release_second_is_flagged() {
    let release = CompilerVersion::VisualCPP6_0.release_date();
    let table = vec![module("msvcp60.dll", &[])];
    let mut at = Info::new(release);
    specific_imports(&table, &mut at, &loud());
    assert!(!at.likely_correct());
    let mut after = Info::new(release + 1);
    specific_imports(&table, &mut after, &loud());
    assert!(after.likely_correct());
}

#[test]
fn modules_without_a_name_call_for_no_rule() {
    let table = vec![
        ImportDescriptor { name: None, imports: Some(Vec::new()) },
        ImportDescriptor { name: None, imports: None },
    ];
    let mut info = Info::new(NEW_YEAR_2000);
    let untouched = info.clone();
    let findings = specific_imports(&table, &mut info, &loud());
    assert!(findings.is_empty());
    assert_eq!(info, untouched);
}

#[test]
fn unknown_modules_raise_no_flag() {
    let table = vec![module("kernel32.dll", &["CreateFileA"]), module("user32.dll", &[])];
    let mut info = Info::new(0);
    let findings = versions_from_import_table(&table, &mut info, &loud());
    assert!(findings.is_empty());
    assert!(info.compiler_version().is_empty());
    assert!(info.likely_correct());
    assert!(!info.is_cpp());
    assert_eq!(info.standard(), None);
}

#[test]
fn first_mangled_symbol_of_each_module_marks_cpp() {
    let table = vec![
        module("a.dll", &["printf", "?first@@YAXXZ", "?second@@YAXXZ"]),
        module("b.dll", &["puts"]),
        ImportDescriptor {
            name: None,
            imports: Some(vec![
                ImportData::Ordinal(7),
                ImportData::ImportByName("?third@@YAXXZ".to_string()),
            ]),
        },
        ImportDescriptor { name: Some("d.dll".to_string()), imports: None },
    ];
    let mut info = Info::new(NEW_YEAR_2000);
    let findings = specific_symbols(&table, &mut info, &loud());
    assert!(info.is_cpp());
    assert_eq!(info.standard(), None);
    assert_eq!(
        findings,
        vec![
            Finding::CppSymbol { symbol: "?first@@YAXXZ".to_string(), module: "a.dll".to_string() },
            Finding::CppSymbol { symbol: "?third@@YAXXZ".to_string(), module: String::new() },
        ]
    );
}

#[test]
fn standard_is_raised_only_for_cpp() {
    let table = vec![module("ucrtbase.dll", &["atoll", "mbrtoc8"])];
    let mut info = Info::new(NEW_YEAR_2023);
    let findings = specific_symbols(&table, &mut info, &loud());
    assert!(!info.is_cpp());
    assert_eq!(info.standard(), None);
    assert!(findings.is_empty());
}

#[test]
fn standard_pass_waits_for_the_whole_table() {
    let table = vec![
        module("ucrtbase.dll", &["atoll"]),
        module("msvcp140.dll", &["?_Xbad_alloc@std@@YAXXZ"]),
    ];
    let mut info = Info::new(NEW_YEAR_2023);
    let findings = specific_symbols(&table, &mut info, &loud());
    assert!(info.is_cpp());
    assert_eq!(info.standard(), Some(CppStandard::Cpp11));
    assert_eq!(
        findings,
        vec![
            Finding::CppSymbol {
                symbol: "?_Xbad_alloc@std@@YAXXZ".to_string(),
                module: "msvcp140.dll".to_string(),
            },
            Finding::StandardSymbol {
                symbol: "atoll".to_string(),
                module: "ucrtbase.dll".to_string(),
                standard: CppStandard::Cpp11,
            },
        ]
    );
}

#[test]
fn standard_is_the_latest_that_any_import_calls_for() {
    let table = vec![
        module("msvcp140.dll", &["?a@@YAXXZ", "c8rtomb", "strtoll"]),
        module("ucrtbase.dll", &["isblank"]),
    ];
    let mut info = Info::new(NEW_YEAR_2023);
    let findings = specific_symbols(&table, &mut info, &loud());
    assert_eq!(info.standard(), Some(CppStandard::Cpp20));
    assert_eq!(findings.len(), 4);
}

#[test]
fn passes_run_symbols_first_then_modules() {
    let table = vec![module("MSVCP140.dll", &["?a@@YAXXZ", "atoll"])];
    let mut info = Info::new(NEW_YEAR_2023);
    let findings = versions_from_import_table(&table, &mut info, &loud());
    assert!(info.is_cpp());
    assert_eq!(info.standard(), Some(CppStandard::Cpp11));
    assert_eq!(info.compiler_version(), RuntimeFamily::Universal.members());
    assert_eq!(info.linker_version(), None);
    assert!(info.likely_correct());
    assert_eq!(
        findings,
        vec![
            Finding::CppSymbol { symbol: "?a@@YAXXZ".to_string(), module: "MSVCP140.dll".to_string() },
            Finding::StandardSymbol {
                symbol: "atoll".to_string(),
                module: "MSVCP140.dll".to_string(),
                standard: CppStandard::Cpp11,
            },
            Finding::MultipleCompilers {
                module: "MSVCP140.dll".to_string(),
                candidates: vec![
                    Candidate { version: CompilerVersion::VisualStudio2015, plausible: true },
                    Candidate { version: CompilerVersion::VisualStudio2017, plausible: true },
                    Candidate { version: CompilerVersion::VisualStudio2019, plausible: true },
                    Candidate { version: CompilerVersion::VisualStudio2022, plausible: true },
                ],
            },
        ]
    );
}

#[test]
fn quiet_import_passes_report_nothing() {
    let table = vec![module("MSVCP140.dll", &["?a@@YAXXZ", "atoll"])];
    let mut info = Info::new(NEW_YEAR_2023);
    let args = Args { quiet: true, strict: true, files: Vec::new() };
    let findings = versions_from_import_table(&table, &mut info, &args);
    assert!(findings.is_empty());
    assert!(info.is_cpp());
    assert_eq!(info.standard(), Some(CppStandard::Cpp11));
    assert_eq!(info.compiler_version(), RuntimeFamily::Universal.members());
}

#[test]
fn empty_table_changes_nothing() {
    let mut info = Info::new(NEW_YEAR_2000);
    let untouched = info.clone();
    let findings = versions_from_import_table(&Vec::new(), &mut info, &loud());
    assert!(findings.is_empty());
    assert_eq!(info, untouched);
}
