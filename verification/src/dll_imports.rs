//! What the import table says about the compiler and the language.
//!
//! The table is read in three passes. The first looks for imported symbols
//! with mangled C++ names. The second, which relies on the first being
//! complete, raises the minimum language standard for every imported
//! function that a later standard introduced. The third holds the name of
//! each imported module against the runtime libraries that the compilers
//! ship.
//!
//! The table is not read out of the image here. Whoever reads it hands over
//! what the reading came to: the table, entry by entry as
//! [`descriptor_from_reads`] makes them, or the failure to read it at all.

use crate::args::Args;
use crate::compiler_version::CompilerVersion;
use crate::finding::{report, reported, Candidate, Finding, FindingView};
use crate::info::{Evidence, Info, InfoView};
use crate::standard::{get_cpp_standard_for_function, spec_cpp_standard_for_function};
use crate::text::{is_substring, lowercase, str_contains, str_eq, to_lowercase};
use vstd::prelude::*;

verus! {

/// One entry of a module's list of imports.
#[derive(Debug, Clone, PartialEq, Eq)]
pub enum ImportData {
    /// A symbol imported by its number.
    Ordinal(u32),
    /// A symbol imported by its name.
    ImportByName(String),
}

/// An import as plain values.
pub enum ImportDataView {
    Ordinal(u32),
    ImportByName(Seq<char>),
}

impl View for ImportData {
    type V = ImportDataView;

    open spec fn view(&self) -> ImportDataView {
        match *self {
            ImportData::Ordinal(ordinal) => ImportDataView::Ordinal(ordinal),
            ImportData::ImportByName(name) => ImportDataView::ImportByName(name@),
        }
    }
}

impl DeepView for ImportData {
    type V = ImportDataView;

    open spec fn deep_view(&self) -> ImportDataView {
        self@
    }
}

/// One entry of the import table: a module and what the binary imports
/// from it.
#[derive(Debug, Clone, PartialEq, Eq)]
pub struct ImportDescriptor {
    /// The module's name, where the table holds a readable one.
    pub name: Option<String>,
    /// The imported symbols in table order, where the list can be read.
    pub imports: Option<Vec<ImportData>>,
}

/// An entry of the import table as plain values.
pub struct ImportDescriptorView {
    pub name: Option<Seq<char>>,
    pub imports: Option<Seq<ImportDataView>>,
}

impl ImportDescriptorView {
    /// The name to report the module under: its own, or the empty text
    /// where it has none.
    pub open spec fn reported_name(self) -> Seq<char> {
        match self.name {
            Some(name) => name,
            None => Seq::empty(),
        }
    }
}

impl View for ImportDescriptor {
    type V = ImportDescriptorView;

    open spec fn view(&self) -> ImportDescriptorView {
        ImportDescriptorView { name: self.name.deep_view(), imports: self.imports.deep_view() }
    }
}

impl DeepView for ImportDescriptor {
    type V = ImportDescriptorView;

    open spec fn deep_view(&self) -> ImportDescriptorView {
        self@
    }
}

/// The compilers that share one runtime library.
#[derive(Debug, Copy, Clone, PartialEq, Eq, Structural)]
pub enum RuntimeFamily {
    /// The runtime library that Visual C++ 4.2 to 6.0 link against.
    Msvcrt,
    /// The universal C runtime of Visual Studio 2015 and later.
    Universal,
}

impl RuntimeFamily {
    /// The compilers of the family, earliest first.
    pub open spec fn spec_members(self) -> Seq<CompilerVersion> {
        match self {
            RuntimeFamily::Msvcrt => seq![
                CompilerVersion::VisualCPP4_2,
                CompilerVersion::VisualCPP5_0,
                CompilerVersion::VisualCPP6_0,
            ],
            RuntimeFamily::Universal => seq![
                CompilerVersion::VisualStudio2015,
                CompilerVersion::VisualStudio2017,
                CompilerVersion::VisualStudio2019,
                CompilerVersion::VisualStudio2022,
            ],
        }
    }

    /// The compilers of the family, earliest first.
    pub fn members(&self) -> (members: Vec<CompilerVersion>)
        ensures
            members@ == self.spec_members(),
    {
        match self {
            RuntimeFamily::Msvcrt => vec![
                CompilerVersion::VisualCPP4_2,
                CompilerVersion::VisualCPP5_0,
                CompilerVersion::VisualCPP6_0,
            ],
            RuntimeFamily::Universal => vec![
                CompilerVersion::VisualStudio2015,
                CompilerVersion::VisualStudio2017,
                CompilerVersion::VisualStudio2019,
                CompilerVersion::VisualStudio2022,
            ],
        }
    }
}

/// What the import of a module says about the compiler.
#[derive(Debug, Copy, Clone, PartialEq, Eq, Structural)]
pub enum ModuleRule {
    /// Nothing: the module is no runtime library of a known compiler.
    NoRule,
    /// The compiler is this one and no other.
    Narrow(CompilerVersion),
    /// The compiler may be any of this family.
    Widen(RuntimeFamily),
}

/// The rule for a module whose name, in lower case, is `module`.
pub open spec fn spec_rule_for_module(module: Seq<char>) -> ModuleRule {
    if module == "msvcrt.dll"@ {
        ModuleRule::Widen(RuntimeFamily::Msvcrt)
    } else if module == "msvcp50.dll"@ {
        ModuleRule::Narrow(CompilerVersion::VisualCPP5_0)
    } else if module == "msvcp60.dll"@ {
        ModuleRule::Narrow(CompilerVersion::VisualCPP6_0)
    } else if module == "msvcr70.dll"@ || module == "msvcp70.dll"@ {
        ModuleRule::Narrow(CompilerVersion::VisualStudioDotNet2002)
    } else if module == "msvcr71.dll"@ || module == "msvcp71.dll"@ {
        ModuleRule::Narrow(CompilerVersion::VisualStudioDotNet2003)
    } else if module == "msvcr80.dll"@ || module == "msvcp80.dll"@ {
        ModuleRule::Narrow(CompilerVersion::VisualStudio2005)
    } else if module == "msvcr90.dll"@ || module == "msvcp90.dll"@ {
        ModuleRule::Narrow(CompilerVersion::VisualStudio2008)
    } else if module == "msvcr100.dll"@ || module == "msvcp100.dll"@ {
        ModuleRule::Narrow(CompilerVersion::VisualStudio2010)
    } else if module == "msvcr110.dll"@ || module == "msvcp110.dll"@ {
        ModuleRule::Narrow(CompilerVersion::VisualStudio2012)
    } else if module == "msvcr120.dll"@ || module == "msvcp120.dll"@ {
        ModuleRule::Narrow(CompilerVersion::VisualStudio2013)
    } else if module == "ucrtbase.dll"@ || module == "vcruntime140.dll"@ || module
        == "msvcp140.dll"@ {
        ModuleRule::Widen(RuntimeFamily::Universal)
    } else if is_substring("api-ms-win-crt"@, module) {
        ModuleRule::Widen(RuntimeFamily::Universal)
    } else {
        ModuleRule::NoRule
    }
}

/// The rule for a module whose name, in lower case, is `module`.
pub fn rule_for_module(module: &str) -> (rule: ModuleRule)
    ensures
        rule == spec_rule_for_module(module@),
{
    if str_eq(module, "msvcrt.dll") {
        ModuleRule::Widen(RuntimeFamily::Msvcrt)
    } else if str_eq(module, "msvcp50.dll") {
        ModuleRule::Narrow(CompilerVersion::VisualCPP5_0)
    } else if str_eq(module, "msvcp60.dll") {
        ModuleRule::Narrow(CompilerVersion::VisualCPP6_0)
    } else if str_eq(module, "msvcr70.dll") || str_eq(module, "msvcp70.dll") {
        ModuleRule::Narrow(CompilerVersion::VisualStudioDotNet2002)
    } else if str_eq(module, "msvcr71.dll") || str_eq(module, "msvcp71.dll") {
        ModuleRule::Narrow(CompilerVersion::VisualStudioDotNet2003)
    } else if str_eq(module, "msvcr80.dll") || str_eq(module, "msvcp80.dll") {
        ModuleRule::Narrow(CompilerVersion::VisualStudio2005)
    } else if str_eq(module, "msvcr90.dll") || str_eq(module, "msvcp90.dll") {
        ModuleRule::Narrow(CompilerVersion::VisualStudio2008)
    } else if str_eq(module, "msvcr100.dll") || str_eq(module, "msvcp100.dll") {
        ModuleRule::Narrow(CompilerVersion::VisualStudio2010)
    } else if str_eq(module, "msvcr110.dll") || str_eq(module, "msvcp110.dll") {
        ModuleRule::Narrow(CompilerVersion::VisualStudio2012)
    } else if str_eq(module, "msvcr120.dll") || str_eq(module, "msvcp120.dll") {
        ModuleRule::Narrow(CompilerVersion::VisualStudio2013)
    } else if str_eq(module, "ucrtbase.dll")
        || str_eq(module, "vcruntime140.dll")
        || str_eq(module, "msvcp140.dll")
    {
        ModuleRule::Widen(RuntimeFamily::Universal)
    } else if str_contains(module, "api-ms-win-crt") {
        ModuleRule::Widen(RuntimeFamily::Universal)
    } else {
        ModuleRule::NoRule
    }
}

/// The rule for a module of the given name, whatever its case.
pub fn rule_for_module_name(name: &str) -> (rule: ModuleRule)
    ensures
        rule == spec_rule_for_module(lowercase(name@)),
{
    let lowered = to_lowercase(name);
    rule_for_module(lowered.as_str())
}

/// Each of `versions` with the answer to whether a binary compiled at
/// `timestamp` can have been built with it.
pub open spec fn candidates_at(timestamp: int, versions: Seq<CompilerVersion>) -> Seq<Candidate> {
    Seq::new(
        versions.len(),
        |i: int|
            Candidate {
                version: versions[i],
                plausible: timestamp > versions[i].spec_release_date(),
            },
    )
}

/// Whether a binary compiled at `timestamp` cannot have been built with one
/// of `versions`.
pub open spec fn any_implausible(timestamp: int, versions: Seq<CompilerVersion>) -> bool {
    exists|i: int|
        0 <= i < versions.len() && timestamp <= (#[trigger] versions[i]).spec_release_date()
}

/// The record after `rule` was applied. A narrowing rule leaves its
/// compiler as the only candidate; a widening rule adds its family to the
/// candidates. Either flags the record if the binary was not compiled
/// after the release of each compiler that the rule names.
pub open spec fn rule_outcome(state: InfoView, rule: ModuleRule) -> InfoView {
    match rule {
        ModuleRule::NoRule => state,
        ModuleRule::Narrow(version) => state.flag_if(!state.is_plausible(version)).apply(
            Evidence::Narrow(version),
        ),
        ModuleRule::Widen(family) => state.flag_if(
            any_implausible(state.timestamp, family.spec_members()),
        ).apply(Evidence::Widen(family.spec_members())),
    }
}

/// What there is to say about a module named `module` to which `rule`
/// applies: one finding, or none where there is no rule.
pub open spec fn rule_findings(timestamp: int, module: Seq<char>, rule: ModuleRule) -> Seq<
    FindingView,
> {
    match rule {
        ModuleRule::NoRule => Seq::empty(),
        ModuleRule::Narrow(version) => seq![
            FindingView::SingleCompiler {
                module,
                candidate: Candidate {
                    version,
                    plausible: timestamp > version.spec_release_date(),
                },
            },
        ],
        ModuleRule::Widen(family) => seq![
            FindingView::MultipleCompilers {
                module,
                candidates: candidates_at(timestamp, family.spec_members()),
            },
        ],
    }
}

/// The rule that the name of `descriptor` calls for. The name is compared
/// in lower case; an entry without a readable name calls for none.
pub open spec fn descriptor_rule(descriptor: ImportDescriptorView) -> ModuleRule {
    match descriptor.name {
        Some(name) => spec_rule_for_module(lowercase(name)),
        None => ModuleRule::NoRule,
    }
}

/// The record after the rules for the modules of `table` were applied in
/// table order.
pub open spec fn toolchain_outcome(state: InfoView, table: Seq<ImportDescriptorView>) -> InfoView
    decreases table.len(),
{
    if table.len() == 0 {
        state
    } else {
        rule_outcome(toolchain_outcome(state, table.drop_last()), descriptor_rule(table.last()))
    }
}

/// What there is to say about the modules of `table`, in table order.
pub open spec fn toolchain_findings(timestamp: int, table: Seq<ImportDescriptorView>) -> Seq<
    FindingView,
>
    decreases table.len(),
{
    if table.len() == 0 {
        Seq::empty()
    } else {
        toolchain_findings(timestamp, table.drop_last()) + rule_findings(
            timestamp,
            table.last().reported_name(),
            descriptor_rule(table.last()),
        )
    }
}

/// No rule changes the timestamp, or anything but the candidates and the
/// flag.
pub proof fn lemma_toolchain_outcome_keeps(state: InfoView, table: Seq<ImportDescriptorView>)
    ensures
        toolchain_outcome(state, table) == (InfoView {
            candidates: toolchain_outcome(state, table).candidates,
            likely_incorrect: toolchain_outcome(state, table).likely_incorrect,
            ..state
        }),
        state.likely_incorrect ==> toolchain_outcome(state, table).likely_incorrect,
    decreases table.len(),
{
    if table.len() > 0 {
        lemma_toolchain_outcome_keeps(state, table.drop_last());
    }
}

/// The candidates after the whole table depend on the order of its
/// modules: where the last module calls for narrowing, its compiler is the
/// only candidate, whatever the modules before it called for; where it
/// calls for widening, its family joins the candidates that the modules
/// before it left.
pub proof fn lemma_last_module_decides(state: InfoView, table: Seq<ImportDescriptorView>)
    requires
        table.len() > 0,
    ensures
        match descriptor_rule(table.last()) {
            ModuleRule::NoRule => toolchain_outcome(state, table).candidates == toolchain_outcome(
                state,
                table.drop_last(),
            ).candidates,
            ModuleRule::Narrow(version) => toolchain_outcome(state, table).candidates
                == set![version],
            ModuleRule::Widen(family) => toolchain_outcome(state, table).candidates
                == toolchain_outcome(state, table.drop_last()).candidates.union(
                family.spec_members().to_set(),
            ),
        },
{
}

/// Leaves `version` as the only candidate, as the import of `module` calls
/// for.
fn narrow_to(
    version: CompilerVersion,
    module: &String,
    info: &mut Info,
    args: &Args,
    findings: &mut Vec<Finding>,
)
    ensures
        final(info)@ == rule_outcome(old(info)@, ModuleRule::Narrow(version)),
        final(findings).deep_view() == old(findings).deep_view() + reported(
            args.quiet,
            rule_findings(old(info)@.timestamp, module@, ModuleRule::Narrow(version)),
        ),
{
    let plausible = info.timestamp() > version.release_date();
    if !plausible {
        info.set_likely_incorrect();
    }
    report(
        findings,
        Finding::SingleCompiler { module: module.clone(), candidate: Candidate { version, plausible } },
        args.quiet,
    );
    info.exclude_all_compiler_versions_except(version);
}

/// Adds the compilers of `family` to the candidates, as the import of
/// `module` calls for.
fn widen_by(
    family: RuntimeFamily,
    module: &String,
    info: &mut Info,
    args: &Args,
    findings: &mut Vec<Finding>,
)
    ensures
        final(info)@ == rule_outcome(old(info)@, ModuleRule::Widen(family)),
        final(findings).deep_view() == old(findings).deep_view() + reported(
            args.quiet,
            rule_findings(old(info)@.timestamp, module@, ModuleRule::Widen(family)),
        ),
{
    let members = family.members();
    let timestamp: i64 = info.timestamp();
    let mut candidates: Vec<Candidate> = Vec::new();
    let mut i: usize = 0;
    while i < members.len()
        invariant
            i <= members@.len(),
            members@ == family.spec_members(),
            timestamp == old(info)@.timestamp,
            info@ == old(info)@.flag_if(any_implausible(timestamp as int, members@.take(i as int))),
            candidates@ == candidates_at(timestamp as int, members@.take(i as int)),
        decreases members@.len() - i,
    {
        let version = members[i];
        let plausible = timestamp > version.release_date();
        if !plausible {
            info.set_likely_incorrect();
        }
        candidates.push(Candidate { version, plausible });
        proof {
            let seen = members@.take(i as int);
            let now = members@.take(i + 1);
            assert(now.drop_last() =~= seen);
            assert(now.last() == version);
            assert(any_implausible(timestamp as int, now) == (any_implausible(
                timestamp as int,
                seen,
            ) || !plausible)) by {
                if any_implausible(timestamp as int, seen) {
                    let k = choose|k: int|
                        0 <= k < seen.len() && timestamp <= (#[trigger] seen[k]).spec_release_date();
                    assert(now[k] == seen[k]);
                }
                if !plausible {
                    assert(timestamp <= now[i as int].spec_release_date());
                }
                if any_implausible(timestamp as int, now) {
                    let k = choose|k: int|
                        0 <= k < now.len() && timestamp <= (#[trigger] now[k]).spec_release_date();
                    if k < i {
                        assert(seen[k] == now[k]);
                    }
                }
            }
            assert(candidates@ =~= candidates_at(timestamp as int, now));
            assert(info@ =~= old(info)@.flag_if(any_implausible(timestamp as int, now)));
        }
        i += 1;
    }
    assert(members@.take(i as int) =~= members@);
    report(
        findings,
        Finding::MultipleCompilers { module: module.clone(), candidates },
        args.quiet,
    );
    info.insert_multiple_compiler_versions(members.as_slice());
}

/// Holds the name of each module of `table` against the runtime libraries
/// of the known compilers, in table order, and narrows or widens the
/// candidate compilers as each calls for. A later narrowing discards what
/// came before it; a later widening only adds.
pub fn specific_imports(table: &Vec<ImportDescriptor>, info: &mut Info, args: &Args) -> (findings:
    Vec<Finding>)
    ensures
        final(info)@ == toolchain_outcome(old(info)@, table.deep_view()),
        findings.deep_view() == reported(
            args.quiet,
            toolchain_findings(old(info)@.timestamp, table.deep_view()),
        ),
{
    let mut findings: Vec<Finding> = Vec::new();
    let ghost modules = table.deep_view();
    let ghost timestamp = info@.timestamp;
    let mut i: usize = 0;
    assert(findings.deep_view() =~= Seq::<FindingView>::empty());
    assert(modules.take(0) =~= Seq::<ImportDescriptorView>::empty());
    while i < table.len()
        invariant
            i <= table@.len(),
            modules == table.deep_view(),
            timestamp == old(info)@.timestamp,
            info@ == toolchain_outcome(old(info)@, modules.take(i as int)),
            findings.deep_view() == reported(
                args.quiet,
                toolchain_findings(timestamp, modules.take(i as int)),
            ),
        decreases table@.len() - i,
    {
        proof {
            lemma_toolchain_outcome_keeps(old(info)@, modules.take(i as int));
            assert(modules.take(i + 1).drop_last() =~= modules.take(i as int));
            assert(modules.take(i + 1).last() == table@[i as int]@);
        }
        match &table[i].name {
            Some(name) => {
                match rule_for_module_name(name.as_str()) {
                    ModuleRule::NoRule => {},
                    ModuleRule::Narrow(version) => {
                        narrow_to(version, name, info, args, &mut findings);
                    },
                    ModuleRule::Widen(family) => {
                        widen_by(family, name, info, args, &mut findings);
                    },
                }
            },
            None => {},
        }
        i += 1;
        assert(findings.deep_view() =~= reported(
            args.quiet,
            toolchain_findings(timestamp, modules.take(i as int)),
        ));
    }
    assert(modules.take(i as int) =~= modules);
    findings
}

/// Whether `name` is a mangled C++ name: it begins with a question mark.
pub open spec fn is_mangled(name: Seq<char>) -> bool {
    name.len() > 0 && name[0] == '?'
}

/// Whether `name` is a mangled C++ name: it begins with a question mark.
pub fn has_mangled_name(name: &str) -> (mangled: bool)
    ensures
        mangled == is_mangled(name@),
{
    !name.is_empty() && name.get_char(0) == '?'
}

/// The first of `imports` that is imported by a mangled C++ name.
pub open spec fn first_mangled(imports: Seq<ImportDataView>) -> Option<Seq<char>>
    decreases imports.len(),
{
    if imports.len() == 0 {
        None
    } else {
        match imports.first() {
            ImportDataView::ImportByName(name) if is_mangled(name) => Some(name),
            _ => first_mangled(imports.drop_first()),
        }
    }
}

/// The first import of `descriptor` with a mangled C++ name; none where
/// the list of imports cannot be read.
pub open spec fn descriptor_mangled(descriptor: ImportDescriptorView) -> Option<Seq<char>> {
    match descriptor.imports {
        Some(imports) => first_mangled(imports),
        None => None,
    }
}

/// The record after `table` was searched for imports with mangled C++
/// names: each module that has one marks the binary as C++.
pub open spec fn native_code_outcome(state: InfoView, table: Seq<ImportDescriptorView>) -> InfoView
    decreases table.len(),
{
    if table.len() == 0 {
        state
    } else {
        let before = native_code_outcome(state, table.drop_last());
        match descriptor_mangled(table.last()) {
            Some(_) => before.apply(Evidence::NativeCode(true)),
            None => before,
        }
    }
}

/// For each module of `table` that has an import with a mangled C++ name,
/// the first such import, in table order.
pub open spec fn native_code_findings(table: Seq<ImportDescriptorView>) -> Seq<FindingView>
    decreases table.len(),
{
    if table.len() == 0 {
        Seq::empty()
    } else {
        let before = native_code_findings(table.drop_last());
        match descriptor_mangled(table.last()) {
            Some(symbol) => before.push(
                FindingView::CppSymbol { symbol, module: table.last().reported_name() },
            ),
            None => before,
        }
    }
}

/// The record after one import was held against the functions that the
/// standards introduced. Only a binary known to be C++ has its minimum
/// standard raised.
pub open spec fn import_standard_outcome(state: InfoView, import: ImportDataView) -> InfoView {
    match import {
        ImportDataView::ImportByName(name) => match spec_cpp_standard_for_function(name) {
            Some(standard) if state.is_cpp => state.apply(Evidence::Standard(standard)),
            _ => state,
        },
        ImportDataView::Ordinal(_) => state,
    }
}

/// What there is to say about one import of `module` of a binary; nothing
/// unless the binary is C++ and the import is a function that a standard
/// introduced.
pub open spec fn import_standard_findings(
    is_cpp: bool,
    module: Seq<char>,
    import: ImportDataView,
) -> Seq<FindingView> {
    match import {
        ImportDataView::ImportByName(name) => match spec_cpp_standard_for_function(name) {
            Some(standard) if is_cpp => seq![
                FindingView::StandardSymbol { symbol: name, module, standard },
            ],
            _ => Seq::empty(),
        },
        ImportDataView::Ordinal(_) => Seq::empty(),
    }
}

/// The record after each of `imports` was held against the functions that
/// the standards introduced.
pub open spec fn imports_standard_outcome(state: InfoView, imports: Seq<ImportDataView>) -> InfoView
    decreases imports.len(),
{
    if imports.len() == 0 {
        state
    } else {
        import_standard_outcome(
            imports_standard_outcome(state, imports.drop_last()),
            imports.last(),
        )
    }
}

/// What there is to say about the imports of `module`, in table order.
pub open spec fn imports_standard_findings(
    is_cpp: bool,
    module: Seq<char>,
    imports: Seq<ImportDataView>,
) -> Seq<FindingView>
    decreases imports.len(),
{
    if imports.len() == 0 {
        Seq::empty()
    } else {
        imports_standard_findings(is_cpp, module, imports.drop_last()) + import_standard_findings(
            is_cpp,
            module,
            imports.last(),
        )
    }
}

/// The record after every import of every module of `table` was held
/// against the functions that the standards introduced. A module whose
/// imports cannot be read is passed over.
pub open spec fn standard_outcome(state: InfoView, table: Seq<ImportDescriptorView>) -> InfoView
    decreases table.len(),
{
    if table.len() == 0 {
        state
    } else {
        let before = standard_outcome(state, table.drop_last());
        match table.last().imports {
            Some(imports) => imports_standard_outcome(before, imports),
            None => before,
        }
    }
}

/// What there is to say about the standard that the imports of `table`
/// call for, in table order.
pub open spec fn standard_findings(is_cpp: bool, table: Seq<ImportDescriptorView>) -> Seq<
    FindingView,
>
    decreases table.len(),
{
    if table.len() == 0 {
        Seq::empty()
    } else {
        let before = standard_findings(is_cpp, table.drop_last());
        match table.last().imports {
            Some(imports) => before + imports_standard_findings(
                is_cpp,
                table.last().reported_name(),
                imports,
            ),
            None => before,
        }
    }
}

/// The search for mangled names changes nothing but the C++ mark, and
/// never takes it away.
pub proof fn lemma_native_code_outcome_keeps(state: InfoView, table: Seq<ImportDescriptorView>)
    ensures
        native_code_outcome(state, table) == (InfoView {
            is_cpp: native_code_outcome(state, table).is_cpp,
            ..state
        }),
        state.is_cpp ==> native_code_outcome(state, table).is_cpp,
    decreases table.len(),
{
    if table.len() > 0 {
        lemma_native_code_outcome_keeps(state, table.drop_last());
    }
}

/// The binary is marked as C++ after the search exactly if it was before
/// or some module of the table has an import with a mangled name.
pub proof fn lemma_native_code_outcome_marks(state: InfoView, table: Seq<ImportDescriptorView>)
    ensures
        native_code_outcome(state, table).is_cpp == (state.is_cpp || exists|i: int|
            0 <= i < table.len() && descriptor_mangled(#[trigger] table[i]) is Some),
    decreases table.len(),
{
    if table.len() > 0 {
        let shorter = table.drop_last();
        lemma_native_code_outcome_marks(state, shorter);
        if exists|i: int| 0 <= i < shorter.len() && descriptor_mangled(#[trigger] shorter[i]) is Some {
            let i = choose|i: int|
                0 <= i < shorter.len() && descriptor_mangled(#[trigger] shorter[i]) is Some;
            assert(table[i] == shorter[i]);
        }
        if exists|i: int| 0 <= i < table.len() && descriptor_mangled(#[trigger] table[i]) is Some {
            let i = choose|i: int|
                0 <= i < table.len() && descriptor_mangled(#[trigger] table[i]) is Some;
            if i < shorter.len() {
                assert(shorter[i] == table[i]);
            }
        }
    }
}

/// Raising the standard import by import changes nothing but the minimum
/// standard.
pub proof fn lemma_imports_standard_outcome_keeps(state: InfoView, imports: Seq<ImportDataView>)
    ensures
        imports_standard_outcome(state, imports) == (InfoView {
            standard: imports_standard_outcome(state, imports).standard,
            ..state
        }),
    decreases imports.len(),
{
    if imports.len() > 0 {
        lemma_imports_standard_outcome_keeps(state, imports.drop_last());
    }
}

/// Raising the standard module by module changes nothing but the minimum
/// standard.
pub proof fn lemma_standard_outcome_keeps(state: InfoView, table: Seq<ImportDescriptorView>)
    ensures
        standard_outcome(state, table) == (InfoView {
            standard: standard_outcome(state, table).standard,
            ..state
        }),
    decreases table.len(),
{
    if table.len() > 0 {
        lemma_standard_outcome_keeps(state, table.drop_last());
        match table.last().imports {
            Some(imports) => {
                lemma_imports_standard_outcome_keeps(
                    standard_outcome(state, table.drop_last()),
                    imports,
                );
            },
            None => {},
        }
    }
}

/// The first import of `imports` with a mangled C++ name.
fn find_mangled(imports: &Vec<ImportData>) -> (found: Option<&String>)
    ensures
        found.deep_view() == first_mangled(imports.deep_view()),
{
    let ghost all = imports.deep_view();
    let mut i: usize = 0;
    assert(all.skip(0) =~= all);
    while i < imports.len()
        invariant
            i <= imports@.len(),
            all == imports.deep_view(),
            first_mangled(all) == first_mangled(all.skip(i as int)),
        decreases imports@.len() - i,
    {
        let ghost rest = all.skip(i as int);
        assert(rest.first() == imports@[i as int]@);
        assert(rest.drop_first() =~= all.skip(i + 1));
        match &imports[i] {
            ImportData::ImportByName(name) => {
                if has_mangled_name(name.as_str()) {
                    return Some(name);
                }
            },
            ImportData::Ordinal(_) => {},
        }
        i += 1;
    }
    None
}

/// The name to report a module under: its own, or the empty text where it
/// has none.
fn reported_name(descriptor: &ImportDescriptor) -> (name: String)
    ensures
        name@ == descriptor@.reported_name(),
{
    match &descriptor.name {
        Some(name) => name.clone(),
        None => String::new(),
    }
}

/// Raises the minimum standard for each of `imports` that a standard
/// introduced, if the binary is known to be C++.
fn imports_standard(
    module: &ImportDescriptor,
    imports: &Vec<ImportData>,
    info: &mut Info,
    args: &Args,
    findings: &mut Vec<Finding>,
)
    ensures
        final(info)@ == imports_standard_outcome(old(info)@, imports.deep_view()),
        final(findings).deep_view() == old(findings).deep_view() + reported(
            args.quiet,
            imports_standard_findings(
                old(info)@.is_cpp,
                module@.reported_name(),
                imports.deep_view(),
            ),
        ),
{
    let ghost all = imports.deep_view();
    let ghost is_cpp = info@.is_cpp;
    let ghost name = module@.reported_name();
    let mut i: usize = 0;
    assert(all.take(0) =~= Seq::<ImportDataView>::empty());
    assert(findings.deep_view() =~= old(findings).deep_view() + reported(
        args.quiet,
        imports_standard_findings(is_cpp, name, all.take(0)),
    ));
    while i < imports.len()
        invariant
            i <= imports@.len(),
            all == imports.deep_view(),
            is_cpp == old(info)@.is_cpp,
            name == module@.reported_name(),
            info@ == imports_standard_outcome(old(info)@, all.take(i as int)),
            findings.deep_view() == old(findings).deep_view() + reported(
                args.quiet,
                imports_standard_findings(is_cpp, name, all.take(i as int)),
            ),
        decreases imports@.len() - i,
    {
        proof {
            lemma_imports_standard_outcome_keeps(old(info)@, all.take(i as int));
            assert(all.take(i + 1).drop_last() =~= all.take(i as int));
            assert(all.take(i + 1).last() == imports@[i as int]@);
        }
        let ghost logged = findings.deep_view();
        match &imports[i] {
            ImportData::Ordinal(_) => {},
            ImportData::ImportByName(symbol) => {
                if let Some(standard) = get_cpp_standard_for_function(symbol.as_str()) {
                    if info.is_cpp() {
                        report(
                            findings,
                            Finding::StandardSymbol {
                                symbol: symbol.clone(),
                                module: reported_name(module),
                                standard,
                            },
                            args.quiet,
                        );
                        info.add_standard(standard);
                    }
                }
            },
        }
        i += 1;
        assert(findings.deep_view() =~= old(findings).deep_view() + reported(
            args.quiet,
            imports_standard_findings(is_cpp, name, all.take(i as int)),
        ));
    }
    assert(all.take(i as int) =~= all);
}

/// Searches the imports of `table` for mangled C++ names and, once the
/// whole table has been searched, for the functions that tell one language
/// standard from another.
pub fn specific_symbols(table: &Vec<ImportDescriptor>, info: &mut Info, args: &Args) -> (findings:
    Vec<Finding>)
    ensures
        final(info)@ == standard_outcome(
            native_code_outcome(old(info)@, table.deep_view()),
            table.deep_view(),
        ),
        findings.deep_view() == reported(
            args.quiet,
            native_code_findings(table.deep_view()) + standard_findings(
                native_code_outcome(old(info)@, table.deep_view()).is_cpp,
                table.deep_view(),
            ),
        ),
{
    let mut findings: Vec<Finding> = Vec::new();
    let ghost modules = table.deep_view();
    assert(findings.deep_view() =~= Seq::<FindingView>::empty());
    assert(modules.take(0) =~= Seq::<ImportDescriptorView>::empty());

    let mut i: usize = 0;
    while i < table.len()
        invariant
            i <= table@.len(),
            modules == table.deep_view(),
            info@ == native_code_outcome(old(info)@, modules.take(i as int)),
            findings.deep_view() == reported(
                args.quiet,
                native_code_findings(modules.take(i as int)),
            ),
        decreases table@.len() - i,
    {
        proof {
            assert(modules.take(i + 1).drop_last() =~= modules.take(i as int));
            assert(modules.take(i + 1).last() == table@[i as int]@);
        }
        if let Some(imports) = &table[i].imports {
            if let Some(symbol) = find_mangled(imports) {
                info.set_cpp(true);
                report(
                    &mut findings,
                    Finding::CppSymbol { symbol: symbol.clone(), module: reported_name(&table[i]) },
                    args.quiet,
                );
            }
        }
        i += 1;
        assert(findings.deep_view() =~= reported(
            args.quiet,
            native_code_findings(modules.take(i as int)),
        ));
    }
    assert(modules.take(i as int) =~= modules);

    let ghost marked = info@;
    let ghost first = findings.deep_view();
    let mut i: usize = 0;
    assert(findings.deep_view() =~= first + reported(
        args.quiet,
        standard_findings(marked.is_cpp, modules.take(0)),
    ));
    while i < table.len()
        invariant
            i <= table@.len(),
            modules == table.deep_view(),
            marked == native_code_outcome(old(info)@, modules),
            first == reported(args.quiet, native_code_findings(modules)),
            info@ == standard_outcome(marked, modules.take(i as int)),
            findings.deep_view() == first + reported(
                args.quiet,
                standard_findings(marked.is_cpp, modules.take(i as int)),
            ),
        decreases table@.len() - i,
    {
        proof {
            lemma_standard_outcome_keeps(marked, modules.take(i as int));
            assert(modules.take(i + 1).drop_last() =~= modules.take(i as int));
            assert(modules.take(i + 1).last() == table@[i as int]@);
        }
        if let Some(imports) = &table[i].imports {
            imports_standard(&table[i], imports, info, args, &mut findings);
        }
        i += 1;
        assert(findings.deep_view() =~= first + reported(
            args.quiet,
            standard_findings(marked.is_cpp, modules.take(i as int)),
        ));
    }
    assert(modules.take(i as int) =~= modules);
    assert(findings.deep_view() =~= reported(
        args.quiet,
        native_code_findings(modules) + standard_findings(marked.is_cpp, modules),
    ));
    findings
}

/// The record after all three passes over `table`.
pub open spec fn import_outcome(state: InfoView, table: Seq<ImportDescriptorView>) -> InfoView {
    toolchain_outcome(standard_outcome(native_code_outcome(state, table), table), table)
}

/// What the three passes over `table` have to say, pass by pass.
pub open spec fn import_findings(state: InfoView, table: Seq<ImportDescriptorView>) -> Seq<
    FindingView,
> {
    native_code_findings(table) + standard_findings(
        native_code_outcome(state, table).is_cpp,
        table,
    ) + toolchain_findings(state.timestamp, table)
}

/// The three passes change neither the timestamp nor what the header
/// fields are recorded as, and lower no flag.
pub proof fn lemma_import_outcome_keeps(state: InfoView, table: Seq<ImportDescriptorView>)
    ensures
        import_outcome(state, table).timestamp == state.timestamp,
        import_outcome(state, table).linker == state.linker,
        import_outcome(state, table).operating_system == state.operating_system,
        import_outcome(state, table).subsystem == state.subsystem,
        state.is_cpp ==> import_outcome(state, table).is_cpp,
        state.likely_incorrect ==> import_outcome(state, table).likely_incorrect,
{
    let marked = native_code_outcome(state, table);
    lemma_native_code_outcome_keeps(state, table);
    lemma_standard_outcome_keeps(marked, table);
    lemma_toolchain_outcome_keeps(standard_outcome(marked, table), table);
}

/// Runs the three passes over an import table that has been read.
pub fn versions_from_import_table(
    table: &Vec<ImportDescriptor>,
    info: &mut Info,
    args: &Args,
) -> (findings: Vec<Finding>)
    ensures
        final(info)@ == import_outcome(old(info)@, table.deep_view()),
        findings.deep_view() == reported(
            args.quiet,
            import_findings(old(info)@, table.deep_view()),
        ),
{
    let mut findings = specific_symbols(table, info, args);
    let ghost symbols = findings.deep_view();
    proof {
        lemma_native_code_outcome_keeps(old(info)@, table.deep_view());
        lemma_standard_outcome_keeps(
            native_code_outcome(old(info)@, table.deep_view()),
            table.deep_view(),
        );
    }
    let mut modules = specific_imports(table, info, args);
    let ghost narrowing = modules.deep_view();
    findings.append(&mut modules);
    assert(findings.deep_view() =~= symbols + narrowing);
    findings
}

/// The failure to read the import table of a binary at all.
#[derive(Debug, Copy, Clone, PartialEq, Eq, Structural)]
pub struct ImportDirectoryError;

/// The message of the failure to read an import table.
pub open spec fn import_directory_failure() -> Seq<char> {
    "Unable to parse import directory"@
}

/// Takes what the reading of the import table came to and, where a table
/// was read, runs the three passes over it. A table that could not be read
/// at all is a failure of its own, never an empty table: the result is an
/// error exactly then, the record is flagged and nothing else is written.
pub fn versions_from_imported_dlls(
    read: Result<Vec<ImportDescriptor>, ImportDirectoryError>,
    info: &mut Info,
    args: &Args,
) -> (outcome: Result<Vec<Finding>, String>)
    ensures
        match read {
            Ok(table) => {
                &&& outcome matches Ok(findings)
                &&& final(info)@ == import_outcome(old(info)@, table.deep_view())
                &&& findings.deep_view() == reported(
                    args.quiet,
                    import_findings(old(info)@, table.deep_view()),
                )
            },
            Err(_) => {
                &&& outcome matches Err(message)
                &&& final(info)@ == old(info)@.apply(Evidence::Implausible)
                &&& message@ == import_directory_failure()
            },
        },
{
    match read {
        Ok(table) => Ok(versions_from_import_table(&table, info, args)),
        Err(_) => {
            info.set_likely_incorrect();
            Err("Unable to parse import directory".to_owned())
        },
    }
}

/// The entry of the import table that two reads come to: the name where
/// it was read, the imports where they were read, and either left out
/// where its read failed. A failure of the one does not touch the other.
pub open spec fn spec_descriptor_from_reads<N, I>(
    name: Result<&str, N>,
    imports: Result<Vec<ImportData>, I>,
) -> ImportDescriptorView {
    ImportDescriptorView {
        name: match name {
            Ok(text) => Some(text@),
            Err(_) => None,
        },
        imports: match imports {
            Ok(imports) => Some(imports.deep_view()),
            Err(_) => None,
        },
    }
}

/// Makes an entry of the import table out of what the reading of its name
/// and of its imports came to, whatever the errors of the reader are.
pub fn descriptor_from_reads<N, I>(
    name: Result<&str, N>,
    imports: Result<Vec<ImportData>, I>,
) -> (entry: ImportDescriptor)
    ensures
        entry@ == spec_descriptor_from_reads(name, imports),
{
    let name = match name {
        Ok(text) => Some(text.to_owned()),
        Err(_) => None,
    };
    let imports = match imports {
        Ok(imports) => Some(imports),
        Err(_) => None,
    };
    ImportDescriptor { name, imports }
}

} // verus!
