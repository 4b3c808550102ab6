//! The evidence gathered about one binary.
//!
//! [`Info`] is the accumulator that every heuristic writes into. Its model,
//! [`InfoView`], is a record of plain values; each way of writing into it is
//! one [`Evidence`], and [`InfoView::apply`] says what that evidence does to
//! the record.

use crate::compiler_version::CompilerVersion;
use crate::latch::Latch;
use crate::standard::CppStandard;
use crate::versions_for_operating_system::OperatingSystem;
use vstd::prelude::*;

verus! {

/// What is known about a binary at some point of its analysis.
#[verifier::ext_equal]
pub struct InfoView {
    /// The compilers that the imports leave possible.
    pub candidates: Set<CompilerVersion>,
    /// The toolchain that the declared linker version names.
    pub linker: Option<CompilerVersion>,
    /// The earliest language standard that the imports allow.
    pub standard: Option<CppStandard>,
    /// The compile time that the binary declares, in seconds of Unix time.
    pub timestamp: int,
    /// Whether the binary imports symbols with mangled C++ names.
    pub is_cpp: bool,
    /// The release named by the declared minimum operating system version.
    pub operating_system: Option<OperatingSystem>,
    /// The release named by the declared minimum subsystem version.
    pub subsystem: Option<OperatingSystem>,
    /// Whether some piece of evidence contradicts another, so that the
    /// binary's metadata is likely forged, damaged or misread.
    pub likely_incorrect: bool,
}

/// One piece of evidence about a binary.
pub enum Evidence {
    /// The compiler is this one and no other.
    Narrow(CompilerVersion),
    /// The compiler may be any of these, besides those already possible.
    Widen(Seq<CompilerVersion>),
    /// The linker belongs to this toolchain.
    Linker(CompilerVersion),
    /// The source was written to this standard or a later one.
    Standard(CppStandard),
    /// Whether mangled C++ names were seen among the imports.
    NativeCode(bool),
    /// The declared minimum operating system is this release.
    DeclaredSystem(OperatingSystem),
    /// The declared minimum subsystem is this release.
    DeclaredSubsystem(OperatingSystem),
    /// Something about the binary does not add up.
    Implausible,
}

impl InfoView {
    /// What is known of a binary before any evidence is in.
    pub open spec fn initial(timestamp: int) -> InfoView {
        InfoView {
            candidates: Set::empty(),
            linker: None,
            standard: None,
            timestamp,
            is_cpp: false,
            operating_system: None,
            subsystem: None,
            likely_incorrect: false,
        }
    }

    /// The record after one more piece of evidence.
    pub open spec fn apply(self, evidence: Evidence) -> InfoView {
        match evidence {
            Evidence::Narrow(version) => InfoView { candidates: set![version], ..self },
            Evidence::Widen(versions) => InfoView {
                candidates: self.candidates.union(versions.to_set()),
                ..self
            },
            Evidence::Linker(version) => InfoView { linker: Some(version), ..self },
            Evidence::Standard(standard) => InfoView {
                standard: match self.standard {
                    None => Some(standard),
                    Some(known) => Some(known.later(standard)),
                },
                ..self
            },
            Evidence::NativeCode(seen) => InfoView { is_cpp: self.is_cpp || seen, ..self },
            Evidence::DeclaredSystem(os) => InfoView { operating_system: Some(os), ..self },
            Evidence::DeclaredSubsystem(os) => InfoView { subsystem: Some(os), ..self },
            Evidence::Implausible => InfoView { likely_incorrect: true, ..self },
        }
    }

    /// The record after a run of evidence, taken in order.
    pub open spec fn apply_all(self, evidence: Seq<Evidence>) -> InfoView
        decreases evidence.len(),
    {
        if evidence.len() == 0 {
            self
        } else {
            self.apply_all(evidence.drop_last()).apply(evidence.last())
        }
    }

    /// The record after noting, where `implausible` holds, that something
    /// does not add up.
    pub open spec fn flag_if(self, implausible: bool) -> InfoView {
        if implausible {
            self.apply(Evidence::Implausible)
        } else {
            self
        }
    }

    /// Whether a binary compiled at this record's timestamp can have been
    /// built with `version`: the timestamp is later than the release date.
    pub open spec fn is_plausible(self, version: CompilerVersion) -> bool {
        self.timestamp > version.spec_release_date()
    }

    /// The operating system that the binary needs at least: the release that
    /// the declared operating system and subsystem versions both name.
    pub open spec fn minimum_operating_system(self) -> Option<OperatingSystem> {
        if self.operating_system is Some && self.subsystem == self.operating_system {
            self.operating_system
        } else {
            None
        }
    }
}

impl InfoView {
    /// Raising the minimum standard twice gives the same record in either
    /// order.
    pub proof fn lemma_standard_order_irrelevant(self, a: CppStandard, b: CppStandard)
        ensures
            self.apply(Evidence::Standard(a)).apply(Evidence::Standard(b)) == self.apply(
                Evidence::Standard(b),
            ).apply(Evidence::Standard(a)),
    {
    }

    /// Raising the minimum standard to the same value a second time changes
    /// nothing.
    pub proof fn lemma_standard_repeat_irrelevant(self, a: CppStandard)
        ensures
            self.apply(Evidence::Standard(a)).apply(Evidence::Standard(a)) == self.apply(
                Evidence::Standard(a),
            ),
    {
    }

    /// After the minimum standard was raised to `a` and to `b`, it is the
    /// later of the two, or a still later one that was known before.
    pub proof fn lemma_standard_is_maximum(self, a: CppStandard, b: CppStandard)
        ensures
            self.apply(Evidence::Standard(a)).apply(Evidence::Standard(b)).standard == Some(
                match self.standard {
                    None => a.later(b),
                    Some(known) => known.later(a).later(b),
                },
            ),
    {
    }

    /// After C++11 and C++20 were both called for, in either order, the
    /// minimum standard is C++20.
    pub proof fn lemma_cpp11_and_cpp20_make_cpp20(self)
        ensures
            self.apply(Evidence::Standard(CppStandard::Cpp11)).apply(
                Evidence::Standard(CppStandard::Cpp20),
            ).standard == Some(CppStandard::Cpp20),
            self.apply(Evidence::Standard(CppStandard::Cpp20)).apply(
                Evidence::Standard(CppStandard::Cpp11),
            ).standard == Some(CppStandard::Cpp20),
    {
    }

    /// No evidence lowers a flag that is up, and none changes the timestamp:
    /// once mangled C++ names were seen, or something was found not to add
    /// up, the record says so whatever evidence follows.
    pub proof fn lemma_flags_are_sticky(self, evidence: Seq<Evidence>)
        ensures
            self.is_cpp ==> self.apply_all(evidence).is_cpp,
            self.likely_incorrect ==> self.apply_all(evidence).likely_incorrect,
            self.apply_all(evidence).timestamp == self.timestamp,
        decreases evidence.len(),
    {
        if evidence.len() > 0 {
            self.lemma_flags_are_sticky(evidence.drop_last());
        }
    }

    /// Narrowing to `version` leaves exactly that candidate, whatever
    /// evidence came before.
    pub proof fn lemma_narrow_discards_history(
        self,
        history: Seq<Evidence>,
        version: CompilerVersion,
    )
        ensures
            self.apply_all(history).apply(Evidence::Narrow(version)).candidates == set![version],
    {
    }

    /// Widening after narrowing to `version` keeps `version` and adds the new
    /// candidates to it.
    pub proof fn lemma_widen_after_narrow(
        self,
        version: CompilerVersion,
        versions: Seq<CompilerVersion>,
    )
        ensures
            self.apply(Evidence::Narrow(version)).apply(Evidence::Widen(versions)).candidates
                == set![version].union(versions.to_set()),
    {
    }

    /// Widening by two candidates after narrowing to `version` leaves those
    /// three.
    pub proof fn lemma_widen_pair_after_narrow(
        self,
        version: CompilerVersion,
        first: CompilerVersion,
        second: CompilerVersion,
    )
        ensures
            self.apply(Evidence::Narrow(version)).apply(
                Evidence::Widen(seq![first, second]),
            ).candidates == set![version, first, second],
    {
        let pair = seq![first, second];
        assert(pair.to_set() =~= set![first, second]) by {
            assert(pair[0] == first);
            assert(pair[1] == second);
        }
        assert(set![version].union(pair.to_set()) =~= set![version, first, second]);
    }

    /// Once the operating system and the subsystem are both declared, the
    /// minimum operating system is the release that both name, and there
    /// is none where they name different releases. While no operating
    /// system is declared there is none, whatever the subsystem.
    pub proof fn lemma_minimum_needs_agreement(
        self,
        system: OperatingSystem,
        subsystem: OperatingSystem,
    )
        ensures
            self.apply(Evidence::DeclaredSystem(system)).apply(
                Evidence::DeclaredSubsystem(subsystem),
            ).minimum_operating_system() == (if system == subsystem {
                Some(system)
            } else {
                None
            }),
            self.operating_system is None ==> self.apply(
                Evidence::DeclaredSubsystem(subsystem),
            ).minimum_operating_system() is None,
    {
    }
}

/// Whether the releases stand in strictly chronological order.
pub open spec fn is_chronological(versions: Seq<CompilerVersion>) -> bool {
    forall|i: int, j: int|
        0 <= i < j < versions.len() ==> (#[trigger] versions[i]).spec_rank() < (
        #[trigger] versions[j]).spec_rank()
}

/// The members of a list with one more element are those of the list and
/// the new element.
pub proof fn lemma_to_set_push(list: Seq<CompilerVersion>, version: CompilerVersion)
    ensures
        list.push(version).to_set() == list.to_set().insert(version),
{
    let longer = list.push(version);
    assert(longer.to_set() =~= list.to_set().insert(version)) by {
        assert forall|v: CompilerVersion| longer.to_set().contains(v) implies list.to_set().insert(
            version,
        ).contains(v) by {
            let k = choose|k: int| 0 <= k < longer.len() && longer[k] == v;
            if k < list.len() {
                assert(list[k] == v);
            }
        }
        assert forall|v: CompilerVersion| list.to_set().insert(version).contains(
            v,
        ) implies longer.to_set().contains(v) by {
            if v == version {
                assert(longer[list.len() as int] == v);
            } else {
                let k = choose|k: int| 0 <= k < list.len() && list[k] == v;
                assert(longer[k] == v);
            }
        }
    }
}

/// Two chronological lists of the same releases are the same list.
pub proof fn lemma_chronological_by_set(a: Seq<CompilerVersion>, b: Seq<CompilerVersion>)
    requires
        is_chronological(a),
        is_chronological(b),
        a.to_set() == b.to_set(),
    ensures
        a == b,
    decreases a.len(),
{
    if a.len() == 0 {
        if b.len() > 0 {
            assert(b.to_set().contains(b[0]));
            assert(a.to_set().contains(b[0]));
        }
        assert(a =~= b);
    } else if b.len() == 0 {
        assert(a.to_set().contains(a[0]));
        assert(b.to_set().contains(a[0]));
    } else {
        let x = a.last();
        let y = b.last();
        assert(a.to_set().contains(x));
        assert(b.to_set().contains(x));
        assert(b.to_set().contains(y));
        assert(a.to_set().contains(y));
        let i = choose|i: int| 0 <= i < b.len() && b[i] == x;
        let j = choose|j: int| 0 <= j < a.len() && a[j] == y;
        assert(x.spec_rank() <= y.spec_rank()) by {
            if i < b.len() - 1 {
                assert(b[i].spec_rank() < b[b.len() - 1].spec_rank());
            }
        }
        assert(y.spec_rank() <= x.spec_rank()) by {
            if j < a.len() - 1 {
                assert(a[j].spec_rank() < a[a.len() - 1].spec_rank());
            }
        }
        CompilerVersion::lemma_rank_injective(x, y);
        let a0 = a.drop_last();
        let b0 = b.drop_last();
        assert(is_chronological(a0));
        assert(is_chronological(b0));
        assert(a0.to_set() =~= b0.to_set()) by {
            assert forall|v: CompilerVersion| a0.to_set().contains(v) implies b0.to_set().contains(
                v,
            ) by {
                let k = choose|k: int| 0 <= k < a0.len() && a0[k] == v;
                assert(a[k] == v);
                assert(a[k].spec_rank() < a[a.len() - 1].spec_rank());
                assert(a.to_set().contains(v));
                assert(b.to_set().contains(v));
                let m = choose|m: int| 0 <= m < b.len() && b[m] == v;
                assert(m < b.len() - 1);
                assert(b0[m] == v);
            }
            assert forall|v: CompilerVersion| b0.to_set().contains(v) implies a0.to_set().contains(
                v,
            ) by {
                let k = choose|k: int| 0 <= k < b0.len() && b0[k] == v;
                assert(b[k] == v);
                assert(b[k].spec_rank() < b[b.len() - 1].spec_rank());
                assert(b.to_set().contains(v));
                assert(a.to_set().contains(v));
                let m = choose|m: int| 0 <= m < a.len() && a[m] == v;
                assert(m < a.len() - 1);
                assert(a0[m] == v);
            }
        }
        lemma_chronological_by_set(a0, b0);
        assert(a =~= a0.push(x));
        assert(b =~= b0.push(y));
    }
}

/// The evidence gathered about one binary.
#[derive(Debug, Ord, PartialOrd, Eq, PartialEq, Hash)]
pub struct Info {
    compiler_version: Vec<CompilerVersion>,
    linker_version: Option<CompilerVersion>,
    standard: Option<CppStandard>,
    timestamp: i64,
    is_cpp: Latch,
    operating_system: Option<OperatingSystem>,
    subsystem: Option<OperatingSystem>,
    information_likely_incorrect: Latch,
}

impl View for Info {
    type V = InfoView;

    closed spec fn view(&self) -> InfoView {
        InfoView {
            candidates: self.compiler_version@.to_set(),
            linker: self.linker_version,
            standard: self.standard,
            timestamp: self.timestamp as int,
            is_cpp: self.is_cpp@,
            operating_system: self.operating_system,
            subsystem: self.subsystem,
            likely_incorrect: self.information_likely_incorrect@,
        }
    }
}

impl Clone for Info {
    fn clone(&self) -> (copy: Info)
        ensures
            copy@ == self@,
    {
        proof {
            use_type_invariant(self);
        }
        let copy = Info {
            compiler_version: self.compiler_version(),
            linker_version: self.linker_version,
            standard: self.standard,
            timestamp: self.timestamp,
            is_cpp: self.is_cpp,
            operating_system: self.operating_system,
            subsystem: self.subsystem,
            information_likely_incorrect: self.information_likely_incorrect,
        };
        assert(copy@ =~= self@);
        copy
    }
}

impl Info {
    /// The candidate compilers are kept in chronological order, each once.
    #[verifier::type_invariant]
    spec fn candidates_in_order(self) -> bool {
        is_chronological(self.compiler_version@)
    }

    /// An empty record for a binary that declares `timestamp`, in seconds of
    /// Unix time, as the time it was compiled.
    pub fn new(timestamp: i64) -> (info: Info)
        ensures
            info@ == InfoView::initial(timestamp as int),
    {
        let info = Info {
            compiler_version: Vec::new(),
            linker_version: None,
            standard: None,
            timestamp,
            is_cpp: Latch::new(),
            operating_system: None,
            subsystem: None,
            information_likely_incorrect: Latch::new(),
        };
        assert(info@ =~= InfoView::initial(timestamp as int));
        info
    }

    /// The compilers that the imports leave possible, earliest first.
    pub fn compiler_version(&self) -> (versions: Vec<CompilerVersion>)
        ensures
            versions@.to_set() == self@.candidates,
            is_chronological(versions@),
    {
        proof {
            use_type_invariant(self);
        }
        let mut versions: Vec<CompilerVersion> = Vec::new();
        let mut i: usize = 0;
        while i < self.compiler_version.len()
            invariant
                i <= self.compiler_version@.len(),
                versions@ == self.compiler_version@.subrange(0, i as int),
            decreases self.compiler_version@.len() - i,
        {
            versions.push(self.compiler_version[i]);
            i += 1;
            assert(versions@ =~= self.compiler_version@.subrange(0, i as int));
        }
        assert(versions@ =~= self.compiler_version@);
        versions
    }

    /// The toolchain that the declared linker version names.
    pub fn linker_version(&self) -> (version: Option<CompilerVersion>)
        ensures
            version == self@.linker,
    {
        self.linker_version
    }

    /// Records that something about the binary does not add up.
    pub fn set_likely_incorrect(&mut self)
        ensures
            final(self)@ == old(self)@.apply(Evidence::Implausible),
    {
        proof {
            use_type_invariant(&*self);
        }
        self.information_likely_incorrect.raise();
        assert(self@ =~= old(self)@.apply(Evidence::Implausible));
    }

    /// Whether all the evidence so far is consistent.
    pub fn likely_correct(&self) -> (correct: bool)
        ensures
            correct == !self@.likely_incorrect,
    {
        !self.information_likely_incorrect.is_raised()
    }

    /// The compile time that the binary declares, in seconds of Unix time.
    pub fn timestamp(&self) -> (timestamp: i64)
        ensures
            timestamp == self@.timestamp,
    {
        self.timestamp
    }

    /// Whether the binary imports symbols with mangled C++ names.
    pub fn is_cpp(&self) -> (is_cpp: bool)
        ensures
            is_cpp == self@.is_cpp,
    {
        self.is_cpp.is_raised()
    }

    /// Records whether mangled C++ names were seen. Once they were, the
    /// record keeps saying so.
    pub fn set_cpp(&mut self, is_cpp: bool)
        ensures
            final(self)@ == old(self)@.apply(Evidence::NativeCode(is_cpp)),
    {
        proof {
            use_type_invariant(&*self);
        }
        self.is_cpp.raise_if(is_cpp);
        assert(self@ =~= old(self)@.apply(Evidence::NativeCode(is_cpp)));
    }

    /// The release named by the declared minimum operating system version.
    pub fn os(&self) -> (os: Option<OperatingSystem>)
        ensures
            os == self@.operating_system,
    {
        self.operating_system
    }

    /// Records the release named by the declared minimum operating system
    /// version.
    pub fn set_os(&mut self, os: OperatingSystem)
        ensures
            final(self)@ == old(self)@.apply(Evidence::DeclaredSystem(os)),
    {
        proof {
            use_type_invariant(&*self);
        }
        self.operating_system = Some(os);
        assert(self@ =~= old(self)@.apply(Evidence::DeclaredSystem(os)));
    }

    /// Records the release named by the declared minimum subsystem version.
    pub fn set_subsystem(&mut self, os: OperatingSystem)
        ensures
            final(self)@ == old(self)@.apply(Evidence::DeclaredSubsystem(os)),
    {
        proof {
            use_type_invariant(&*self);
        }
        self.subsystem = Some(os);
        assert(self@ =~= old(self)@.apply(Evidence::DeclaredSubsystem(os)));
    }

    /// Raises the minimum standard to `standard` unless a later one is
    /// already known.
    pub fn add_standard(&mut self, standard: CppStandard)
        ensures
            final(self)@ == old(self)@.apply(Evidence::Standard(standard)),
    {
        proof {
            use_type_invariant(&*self);
        }
        match self.standard {
            None => {
                self.standard = Some(standard);
            },
            Some(known) => {
                if standard.year() > known.year() {
                    self.standard = Some(standard);
                }
            },
        }
        assert(self@ =~= old(self)@.apply(Evidence::Standard(standard)));
    }

    /// The earliest language standard that the imports allow.
    pub fn standard(&self) -> (standard: Option<CppStandard>)
        ensures
            standard == self@.standard,
    {
        self.standard
    }

    /// Records the toolchain that the declared linker version names.
    pub fn set_linker_version(&mut self, version: CompilerVersion)
        ensures
            final(self)@ == old(self)@.apply(Evidence::Linker(version)),
    {
        proof {
            use_type_invariant(&*self);
        }
        self.linker_version = Some(version);
        assert(self@ =~= old(self)@.apply(Evidence::Linker(version)));
    }

    /// Leaves `version` as the only possible compiler.
    pub fn exclude_all_compiler_versions_except(&mut self, version: CompilerVersion)
        ensures
            final(self)@ == old(self)@.apply(Evidence::Narrow(version)),
    {
        proof {
            use_type_invariant(&*self);
        }
        let mut versions: Vec<CompilerVersion> = Vec::new();
        versions.push(version);
        assert(versions@ =~= seq![version]);
        assert(versions@.to_set() =~= set![version]) by {
            assert(versions@[0] == version);
        }
        self.compiler_version = versions;
        assert(self@ =~= old(self)@.apply(Evidence::Narrow(version)));
    }

    /// Adds `version` to the possible compilers.
    pub fn insert_single_compiler_version(&mut self, version: CompilerVersion)
        ensures
            final(self)@ == old(self)@.apply(Evidence::Widen(seq![version])),
    {
        proof {
            use_type_invariant(&*self);
        }
        let rank: u8 = version.rank();
        let mut i: usize = 0;
        while i < self.compiler_version.len() && self.compiler_version[i].rank() < rank
            invariant
                i <= self.compiler_version@.len(),
                self.compiler_version@ == old(self).compiler_version@,
                forall|k: int| 0 <= k < i ==> (#[trigger] self.compiler_version@[k]).spec_rank() < rank,
            decreases self.compiler_version@.len() - i,
        {
            i += 1;
        }
        let ghost before = self.compiler_version@;
        if i < self.compiler_version.len() && self.compiler_version[i].rank() == rank {
            proof {
                CompilerVersion::lemma_rank_injective(version, before[i as int]);
                assert(before.to_set() =~= before.to_set().union(seq![version].to_set())) by {
                    assert(before.contains(version));
                    assert forall|v: CompilerVersion| seq![version].to_set().contains(v) implies v
                        == version by {
                        let k = choose|k: int| 0 <= k < 1 && seq![version][k] == v;
                    }
                }
            }
        } else {
            let mut versions = self.compiler_version();
            assert(versions@ =~= before) by {
                lemma_chronological_by_set(versions@, before);
            }
            versions.insert(i, version);
            let ghost after = versions@;
            proof {
                assert(after == before.insert(i as int, version));
                assert(is_chronological(after)) by {
                    assert forall|a: int, b: int| 0 <= a < b < after.len() implies (
                    #[trigger] after[a]).spec_rank() < (#[trigger] after[b]).spec_rank() by {
                        if a < i && b > i {
                            assert(after[a] == before[a]);
                            assert(after[b] == before[b - 1]);
                        } else if a < i && b < i {
                            assert(after[a] == before[a]);
                            assert(after[b] == before[b]);
                        } else if a > i {
                            assert(after[a] == before[a - 1]);
                            assert(after[b] == before[b - 1]);
                        } else if a == i {
                            assert(after[b] == before[b - 1]);
                            assert(before[i as int].spec_rank() <= before[b - 1].spec_rank());
                        } else {
                            assert(after[a] == before[a]);
                        }
                    }
                }
                assert(after.to_set() =~= before.to_set().union(seq![version].to_set())) by {
                    assert forall|v: CompilerVersion| after.to_set().contains(v) implies (
                    before.to_set().contains(v) || seq![version].to_set().contains(v)) by {
                        let k = choose|k: int| 0 <= k < after.len() && after[k] == v;
                        if k < i {
                            assert(before[k] == v);
                        } else if k == i {
                            assert(seq![version][0] == v);
                        } else {
                            assert(before[k - 1] == v);
                        }
                    }
                    assert forall|v: CompilerVersion|
                        before.to_set().contains(v) || seq![version].to_set().contains(
                            v,
                        ) implies after.to_set().contains(v) by {
                        if before.to_set().contains(v) {
                            let k = choose|k: int| 0 <= k < before.len() && before[k] == v;
                            if k < i {
                                assert(after[k] == v);
                            } else {
                                assert(after[k + 1] == v);
                            }
                        } else {
                            let k = choose|k: int| 0 <= k < 1 && seq![version][k] == v;
                            assert(after[i as int] == v);
                        }
                    }
                }
            }
            self.compiler_version = versions;
        }
        assert(self@ =~= old(self)@.apply(Evidence::Widen(seq![version])));
    }

    /// Adds each of `versions` to the possible compilers.
    pub fn insert_multiple_compiler_versions(&mut self, versions: &[CompilerVersion])
        ensures
            final(self)@ == old(self)@.apply(Evidence::Widen(versions@)),
    {
        let mut i: usize = 0;
        assert(self@ =~= old(self)@.apply(Evidence::Widen(versions@.subrange(0, 0))));
        while i < versions.len()
            invariant
                i <= versions@.len(),
                self@ == old(self)@.apply(Evidence::Widen(versions@.subrange(0, i as int))),
            decreases versions@.len() - i,
        {
            let ghost seen = versions@.subrange(0, i as int);
            self.insert_single_compiler_version(versions[i]);
            i += 1;
            proof {
                let now = versions@.subrange(0, i as int);
                assert(now =~= seen.push(versions@[i - 1]));
                lemma_to_set_push(seen, versions@[i - 1]);
                assert(seq![versions@[i - 1]].to_set() =~= set![versions@[i - 1]]) by {
                    assert(seq![versions@[i - 1]][0] == versions@[i - 1]);
                }
                assert(self@ =~= old(self)@.apply(Evidence::Widen(now)));
            }
        }
        assert(versions@.subrange(0, i as int) =~= versions@);
    }

    /// The operating system that the binary needs at least: the release
    /// that the declared operating system and subsystem versions both name,
    /// and none where either is unknown or the two differ.
    pub fn minimum_operating_system(&self) -> (os: Option<OperatingSystem>)
        ensures
            os == self@.minimum_operating_system(),
    {
        let Some(os) = self.os() else {
            return None;
        };
        let Some(subsystem) = self.subsystem else {
            return None;
        };
        if os == subsystem {
            return Some(os);
        }
        None
    }
}

} // verus!
