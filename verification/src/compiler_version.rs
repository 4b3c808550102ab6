//! The catalog of compiler releases and their release dates.

use crate::calendar::{date_to_timestamp, days_before_month, midnight_unix_seconds, CalendarDate};
use vstd::prelude::*;

verus! {

/// A release of the Visual C++ toolchain.
///
/// The variants are declared in the order in which the releases shipped, so
/// the derived order is the chronological one; verified code orders them by
/// [`CompilerVersion::rank`].
#[derive(Debug, Copy, Clone, Ord, PartialOrd, Eq, PartialEq, Hash, Structural)]
pub enum CompilerVersion {
    VisualCPP1_0,
    VisualCPP1_5,
    VisualCPP2_0,
    VisualCPP4_0,
    VisualCPP4_1,
    VisualCPP4_2,
    VisualCPP5_0,
    VisualCPP6_0,
    VisualStudioDotNet2002,
    VisualStudioDotNet2003,
    VisualStudio2005,
    VisualStudio2008,
    VisualStudio2010,
    VisualStudio2012,
    VisualStudio2013,
    VisualStudio2015,
    VisualStudio2017,
    VisualStudio2019,
    VisualStudio2022,
}

impl CompilerVersion {
    /// The name under which the release was sold.
    pub open spec fn spec_name(self) -> Seq<char> {
        match self {
            CompilerVersion::VisualCPP1_0 => "Visual C++ 1.0"@,
            CompilerVersion::VisualCPP1_5 => "Visual C++ 1.5"@,
            CompilerVersion::VisualCPP2_0 => "Visual C++ 2.0"@,
            CompilerVersion::VisualCPP4_0 => "Visual C++ 4.0"@,
            CompilerVersion::VisualCPP4_1 => "Visual C++ 4.1"@,
            CompilerVersion::VisualCPP4_2 => "Visual C++ 4.2"@,
            CompilerVersion::VisualCPP5_0 => "Visual C++ 5.0 (Visual Studio 97)"@,
            CompilerVersion::VisualCPP6_0 => "Visual C++ 6.0 (Visual Studio 6.0)"@,
            CompilerVersion::VisualStudioDotNet2002 => "Visual Studio .NET 2002"@,
            CompilerVersion::VisualStudioDotNet2003 => "Visual Studio .NET 2003"@,
            CompilerVersion::VisualStudio2005 => "Visual Studio 2005"@,
            CompilerVersion::VisualStudio2008 => "Visual Studio 2008"@,
            CompilerVersion::VisualStudio2010 => "Visual Studio 2010"@,
            CompilerVersion::VisualStudio2012 => "Visual Studio 2012"@,
            CompilerVersion::VisualStudio2013 => "Visual Studio 2013"@,
            CompilerVersion::VisualStudio2015 => "Visual Studio 2015"@,
            CompilerVersion::VisualStudio2017 => "Visual Studio 2017"@,
            CompilerVersion::VisualStudio2019 => "Visual Studio 2019"@,
            CompilerVersion::VisualStudio2022 => "Visual Studio 2022"@,
        }
    }

    /// The name under which the release was sold.
    pub fn name(&self) -> (text: &'static str)
        ensures
            text@ == self.spec_name(),
    {
        match self {
            CompilerVersion::VisualCPP1_0 => "Visual C++ 1.0",
            CompilerVersion::VisualCPP1_5 => "Visual C++ 1.5",
            CompilerVersion::VisualCPP2_0 => "Visual C++ 2.0",
            CompilerVersion::VisualCPP4_0 => "Visual C++ 4.0",
            CompilerVersion::VisualCPP4_1 => "Visual C++ 4.1",
            CompilerVersion::VisualCPP4_2 => "Visual C++ 4.2",
            CompilerVersion::VisualCPP5_0 => "Visual C++ 5.0 (Visual Studio 97)",
            CompilerVersion::VisualCPP6_0 => "Visual C++ 6.0 (Visual Studio 6.0)",
            CompilerVersion::VisualStudioDotNet2002 => "Visual Studio .NET 2002",
            CompilerVersion::VisualStudioDotNet2003 => "Visual Studio .NET 2003",
            CompilerVersion::VisualStudio2005 => "Visual Studio 2005",
            CompilerVersion::VisualStudio2008 => "Visual Studio 2008",
            CompilerVersion::VisualStudio2010 => "Visual Studio 2010",
            CompilerVersion::VisualStudio2012 => "Visual Studio 2012",
            CompilerVersion::VisualStudio2013 => "Visual Studio 2013",
            CompilerVersion::VisualStudio2015 => "Visual Studio 2015",
            CompilerVersion::VisualStudio2017 => "Visual Studio 2017",
            CompilerVersion::VisualStudio2019 => "Visual Studio 2019",
            CompilerVersion::VisualStudio2022 => "Visual Studio 2022",
        }
    }

    /// Position of the release in chronological order, counted from zero.
    pub open spec fn spec_rank(self) -> nat {
        match self {
            CompilerVersion::VisualCPP1_0 => 0,
            CompilerVersion::VisualCPP1_5 => 1,
            CompilerVersion::VisualCPP2_0 => 2,
            CompilerVersion::VisualCPP4_0 => 3,
            CompilerVersion::VisualCPP4_1 => 4,
            CompilerVersion::VisualCPP4_2 => 5,
            CompilerVersion::VisualCPP5_0 => 6,
            CompilerVersion::VisualCPP6_0 => 7,
            CompilerVersion::VisualStudioDotNet2002 => 8,
            CompilerVersion::VisualStudioDotNet2003 => 9,
            CompilerVersion::VisualStudio2005 => 10,
            CompilerVersion::VisualStudio2008 => 11,
            CompilerVersion::VisualStudio2010 => 12,
            CompilerVersion::VisualStudio2012 => 13,
            CompilerVersion::VisualStudio2013 => 14,
            CompilerVersion::VisualStudio2015 => 15,
            CompilerVersion::VisualStudio2017 => 16,
            CompilerVersion::VisualStudio2019 => 17,
            CompilerVersion::VisualStudio2022 => 18,
        }
    }

    /// Position of the release in chronological order, counted from zero.
    pub fn rank(&self) -> (r: u8)
        ensures
            r == self.spec_rank(),
    {
        match self {
            CompilerVersion::VisualCPP1_0 => 0,
            CompilerVersion::VisualCPP1_5 => 1,
            CompilerVersion::VisualCPP2_0 => 2,
            CompilerVersion::VisualCPP4_0 => 3,
            CompilerVersion::VisualCPP4_1 => 4,
            CompilerVersion::VisualCPP4_2 => 5,
            CompilerVersion::VisualCPP5_0 => 6,
            CompilerVersion::VisualCPP6_0 => 7,
            CompilerVersion::VisualStudioDotNet2002 => 8,
            CompilerVersion::VisualStudioDotNet2003 => 9,
            CompilerVersion::VisualStudio2005 => 10,
            CompilerVersion::VisualStudio2008 => 11,
            CompilerVersion::VisualStudio2010 => 12,
            CompilerVersion::VisualStudio2012 => 13,
            CompilerVersion::VisualStudio2013 => 14,
            CompilerVersion::VisualStudio2015 => 15,
            CompilerVersion::VisualStudio2017 => 16,
            CompilerVersion::VisualStudio2019 => 17,
            CompilerVersion::VisualStudio2022 => 18,
        }
    }

    /// All releases, earliest first.
    pub open spec fn catalog() -> Seq<CompilerVersion> {
        seq![
            CompilerVersion::VisualCPP1_0,
            CompilerVersion::VisualCPP1_5,
            CompilerVersion::VisualCPP2_0,
            CompilerVersion::VisualCPP4_0,
            CompilerVersion::VisualCPP4_1,
            CompilerVersion::VisualCPP4_2,
            CompilerVersion::VisualCPP5_0,
            CompilerVersion::VisualCPP6_0,
            CompilerVersion::VisualStudioDotNet2002,
            CompilerVersion::VisualStudioDotNet2003,
            CompilerVersion::VisualStudio2005,
            CompilerVersion::VisualStudio2008,
            CompilerVersion::VisualStudio2010,
            CompilerVersion::VisualStudio2012,
            CompilerVersion::VisualStudio2013,
            CompilerVersion::VisualStudio2015,
            CompilerVersion::VisualStudio2017,
            CompilerVersion::VisualStudio2019,
            CompilerVersion::VisualStudio2022,
        ]
    }

    /// All releases, earliest first.
    pub fn values() -> (all: Vec<CompilerVersion>)
        ensures
            all@ == Self::catalog(),
    {
        vec![
            CompilerVersion::VisualCPP1_0,
            CompilerVersion::VisualCPP1_5,
            CompilerVersion::VisualCPP2_0,
            CompilerVersion::VisualCPP4_0,
            CompilerVersion::VisualCPP4_1,
            CompilerVersion::VisualCPP4_2,
            CompilerVersion::VisualCPP5_0,
            CompilerVersion::VisualCPP6_0,
            CompilerVersion::VisualStudioDotNet2002,
            CompilerVersion::VisualStudioDotNet2003,
            CompilerVersion::VisualStudio2005,
            CompilerVersion::VisualStudio2008,
            CompilerVersion::VisualStudio2010,
            CompilerVersion::VisualStudio2012,
            CompilerVersion::VisualStudio2013,
            CompilerVersion::VisualStudio2015,
            CompilerVersion::VisualStudio2017,
            CompilerVersion::VisualStudio2019,
            CompilerVersion::VisualStudio2022,
        ]
    }

    /// The day on which the release shipped.
    pub open spec fn spec_release_day(self) -> CalendarDate {
        match self {
            CompilerVersion::VisualCPP1_0 => CalendarDate { year: 1993, month: 2, day: 22 },
            CompilerVersion::VisualCPP1_5 => CalendarDate { year: 1993, month: 12, day: 1 },
            CompilerVersion::VisualCPP2_0 => CalendarDate { year: 1994, month: 9, day: 16 },
            CompilerVersion::VisualCPP4_0 => CalendarDate { year: 1995, month: 12, day: 11 },
            CompilerVersion::VisualCPP4_1 => CalendarDate { year: 1996, month: 2, day: 27 },
            CompilerVersion::VisualCPP4_2 => CalendarDate { year: 1996, month: 7, day: 22 },
            CompilerVersion::VisualCPP5_0 => CalendarDate { year: 1997, month: 3, day: 19 },
            CompilerVersion::VisualCPP6_0 => CalendarDate { year: 1998, month: 9, day: 2 },
            CompilerVersion::VisualStudioDotNet2002 => CalendarDate { year: 2002, month: 2, day: 13 },
            CompilerVersion::VisualStudioDotNet2003 => CalendarDate { year: 2003, month: 4, day: 24 },
            CompilerVersion::VisualStudio2005 => CalendarDate { year: 2005, month: 11, day: 7 },
            CompilerVersion::VisualStudio2008 => CalendarDate { year: 2007, month: 11, day: 19 },
            CompilerVersion::VisualStudio2010 => CalendarDate { year: 2010, month: 4, day: 12 },
            CompilerVersion::VisualStudio2012 => CalendarDate { year: 2012, month: 9, day: 12 },
            CompilerVersion::VisualStudio2013 => CalendarDate { year: 2013, month: 10, day: 17 },
            CompilerVersion::VisualStudio2015 => CalendarDate { year: 2015, month: 6, day: 20 },
            CompilerVersion::VisualStudio2017 => CalendarDate { year: 2017, month: 3, day: 7 },
            CompilerVersion::VisualStudio2019 => CalendarDate { year: 2019, month: 4, day: 2 },
            CompilerVersion::VisualStudio2022 => CalendarDate { year: 2021, month: 11, day: 8 },
        }
    }

    /// The day on which the release shipped.
    pub fn release_day(&self) -> (date: CalendarDate)
        ensures
            date == self.spec_release_day(),
            date.is_valid(),
    {
        proof {
            reveal_with_fuel(days_before_month, 13);
        }
        match self {
            CompilerVersion::VisualCPP1_0 => CalendarDate { year: 1993, month: 2, day: 22 },
            CompilerVersion::VisualCPP1_5 => CalendarDate { year: 1993, month: 12, day: 1 },
            CompilerVersion::VisualCPP2_0 => CalendarDate { year: 1994, month: 9, day: 16 },
            CompilerVersion::VisualCPP4_0 => CalendarDate { year: 1995, month: 12, day: 11 },
            CompilerVersion::VisualCPP4_1 => CalendarDate { year: 1996, month: 2, day: 27 },
            CompilerVersion::VisualCPP4_2 => CalendarDate { year: 1996, month: 7, day: 22 },
            CompilerVersion::VisualCPP5_0 => CalendarDate { year: 1997, month: 3, day: 19 },
            CompilerVersion::VisualCPP6_0 => CalendarDate { year: 1998, month: 9, day: 2 },
            CompilerVersion::VisualStudioDotNet2002 => CalendarDate { year: 2002, month: 2, day: 13 },
            CompilerVersion::VisualStudioDotNet2003 => CalendarDate { year: 2003, month: 4, day: 24 },
            CompilerVersion::VisualStudio2005 => CalendarDate { year: 2005, month: 11, day: 7 },
            CompilerVersion::VisualStudio2008 => CalendarDate { year: 2007, month: 11, day: 19 },
            CompilerVersion::VisualStudio2010 => CalendarDate { year: 2010, month: 4, day: 12 },
            CompilerVersion::VisualStudio2012 => CalendarDate { year: 2012, month: 9, day: 12 },
            CompilerVersion::VisualStudio2013 => CalendarDate { year: 2013, month: 10, day: 17 },
            CompilerVersion::VisualStudio2015 => CalendarDate { year: 2015, month: 6, day: 20 },
            CompilerVersion::VisualStudio2017 => CalendarDate { year: 2017, month: 3, day: 7 },
            CompilerVersion::VisualStudio2019 => CalendarDate { year: 2019, month: 4, day: 2 },
            CompilerVersion::VisualStudio2022 => CalendarDate { year: 2021, month: 11, day: 8 },
        }
    }

    /// Unix time, in seconds, of the release: midnight UTC on the release
    /// day.
    pub open spec fn spec_release_date(self) -> int {
        match self {
            CompilerVersion::VisualCPP1_0 => 730_339_200,
            CompilerVersion::VisualCPP1_5 => 754_704_000,
            CompilerVersion::VisualCPP2_0 => 779_673_600,
            CompilerVersion::VisualCPP4_0 => 818_640_000,
            CompilerVersion::VisualCPP4_1 => 825_379_200,
            CompilerVersion::VisualCPP4_2 => 837_993_600,
            CompilerVersion::VisualCPP5_0 => 858_729_600,
            CompilerVersion::VisualCPP6_0 => 904_694_400,
            CompilerVersion::VisualStudioDotNet2002 => 1_013_558_400,
            CompilerVersion::VisualStudioDotNet2003 => 1_051_142_400,
            CompilerVersion::VisualStudio2005 => 1_131_321_600,
            CompilerVersion::VisualStudio2008 => 1_195_430_400,
            CompilerVersion::VisualStudio2010 => 1_271_030_400,
            CompilerVersion::VisualStudio2012 => 1_347_408_000,
            CompilerVersion::VisualStudio2013 => 1_381_968_000,
            CompilerVersion::VisualStudio2015 => 1_434_758_400,
            CompilerVersion::VisualStudio2017 => 1_488_844_800,
            CompilerVersion::VisualStudio2019 => 1_554_163_200,
            CompilerVersion::VisualStudio2022 => 1_636_329_600,
        }
    }

    /// Unix time, in seconds, of the release: midnight UTC on the release
    /// day.
    pub fn release_date(&self) -> (t: i64)
        ensures
            t == self.spec_release_date(),
    {
        proof {
            self.lemma_release_date_is_midnight();
        }
        date_to_timestamp(self.release_day())
    }

    /// The release date of each release is midnight UTC on its release day.
    pub proof fn lemma_release_date_is_midnight(self)
        ensures
            self.spec_release_date() == self.spec_release_day().unix_seconds(),
    {
        reveal(midnight_unix_seconds);
        reveal_with_fuel(days_before_month, 13);
    }

    /// The earliest release of the catalog.
    pub open spec fn earliest() -> CompilerVersion {
        CompilerVersion::VisualCPP1_0
    }

    /// The release that shipped immediately before this one; the earliest
    /// release stands for its own predecessor.
    pub open spec fn predecessor(self) -> CompilerVersion {
        if self.spec_rank() == 0 {
            self
        } else {
            Self::catalog()[self.spec_rank() - 1]
        }
    }

    /// Whether `v` is the newest release that a binary compiled at Unix time
    /// `t` can have been built with: the latest release whose release date is
    /// not after `t`. Where `t` precedes every release date, the earliest
    /// release stands in.
    pub open spec fn is_newest_possible(t: int, v: CompilerVersion) -> bool {
        if Self::earliest().spec_release_date() <= t {
            &&& v.spec_release_date() <= t
            &&& forall|w: CompilerVersion| #[trigger]
                w.spec_release_date() <= t ==> w.spec_rank() <= v.spec_rank()
        } else {
            v == Self::earliest()
        }
    }

    /// The newest release that a binary compiled at Unix time `t` can have
    /// been built with: going from the latest release back, the first whose
    /// release date is not after `t`, and the earliest release where there
    /// is none.
    pub open spec fn spec_newest_possible(t: int) -> CompilerVersion {
        if CompilerVersion::VisualStudio2022.spec_release_date() <= t {
            CompilerVersion::VisualStudio2022
        } else if CompilerVersion::VisualStudio2019.spec_release_date() <= t {
            CompilerVersion::VisualStudio2019
        } else if CompilerVersion::VisualStudio2017.spec_release_date() <= t {
            CompilerVersion::VisualStudio2017
        } else if CompilerVersion::VisualStudio2015.spec_release_date() <= t {
            CompilerVersion::VisualStudio2015
        } else if CompilerVersion::VisualStudio2013.spec_release_date() <= t {
            CompilerVersion::VisualStudio2013
        } else if CompilerVersion::VisualStudio2012.spec_release_date() <= t {
            CompilerVersion::VisualStudio2012
        } else if CompilerVersion::VisualStudio2010.spec_release_date() <= t {
            CompilerVersion::VisualStudio2010
        } else if CompilerVersion::VisualStudio2008.spec_release_date() <= t {
            CompilerVersion::VisualStudio2008
        } else if CompilerVersion::VisualStudio2005.spec_release_date() <= t {
            CompilerVersion::VisualStudio2005
        } else if CompilerVersion::VisualStudioDotNet2003.spec_release_date() <= t {
            CompilerVersion::VisualStudioDotNet2003
        } else if CompilerVersion::VisualStudioDotNet2002.spec_release_date() <= t {
            CompilerVersion::VisualStudioDotNet2002
        } else if CompilerVersion::VisualCPP6_0.spec_release_date() <= t {
            CompilerVersion::VisualCPP6_0
        } else if CompilerVersion::VisualCPP5_0.spec_release_date() <= t {
            CompilerVersion::VisualCPP5_0
        } else if CompilerVersion::VisualCPP4_2.spec_release_date() <= t {
            CompilerVersion::VisualCPP4_2
        } else if CompilerVersion::VisualCPP4_1.spec_release_date() <= t {
            CompilerVersion::VisualCPP4_1
        } else if CompilerVersion::VisualCPP4_0.spec_release_date() <= t {
            CompilerVersion::VisualCPP4_0
        } else if CompilerVersion::VisualCPP2_0.spec_release_date() <= t {
            CompilerVersion::VisualCPP2_0
        } else if CompilerVersion::VisualCPP1_5.spec_release_date() <= t {
            CompilerVersion::VisualCPP1_5
        } else {
            CompilerVersion::VisualCPP1_0
        }
    }

    /// The newest release that a binary compiled at `datetime`, in seconds of
    /// Unix time, can have been built with.
    pub fn newest_possible(datetime: i64) -> (newest: Self)
        ensures
            Self::is_newest_possible(datetime as int, newest),
            newest == Self::spec_newest_possible(datetime as int),
    {
        let all = Self::values();
        let mut newest = CompilerVersion::VisualCPP1_0;
        let mut i: usize = 0;
        proof {
            Self::lemma_catalog_by_rank();
            Self::lemma_release_dates_increase();
        }
        while i < all.len()
            invariant
                all@ == Self::catalog(),
                i <= all@.len(),
                i == 0 ==> newest == Self::earliest(),
                i > 0 ==> newest == all@[i - 1] && newest.spec_release_date() <= datetime,
            decreases all@.len() - i,
        {
            let v = all[i];
            if v.release_date() > datetime {
                proof {
                    Self::lemma_catalog_by_rank();
                    Self::lemma_release_dates_increase();
                    assert(v.spec_rank() == i);
                    assert(Self::is_newest_possible(datetime as int, newest));
                    Self::lemma_newest_possible_unique(datetime as int, newest);
                }
                return newest;
            }
            newest = v;
            i += 1;
        }
        proof {
            Self::lemma_catalog_by_rank();
            assert(Self::is_newest_possible(datetime as int, newest));
            Self::lemma_newest_possible_unique(datetime as int, newest);
        }
        newest
    }

    /// The catalog lists every release once, at the index of its rank.
    pub proof fn lemma_catalog_by_rank()
        ensures
            Self::catalog().len() == 19,
            forall|v: CompilerVersion| #[trigger] v.spec_rank() < 19,
            forall|v: CompilerVersion| Self::catalog()[#[trigger] v.spec_rank() as int] == v,
            forall|i: int| 0 <= i < 19 ==> (#[trigger] Self::catalog()[i]).spec_rank() == i,
    {
    }

    /// Two releases of the same rank are the same release.
    pub proof fn lemma_rank_injective(a: CompilerVersion, b: CompilerVersion)
        requires
            a.spec_rank() == b.spec_rank(),
        ensures
            a == b,
    {
    }

    /// A later release has a later release date.
    pub proof fn lemma_release_dates_increase()
        ensures
            forall|a: CompilerVersion, b: CompilerVersion|
                a.spec_rank() < b.spec_rank() ==> #[trigger] a.spec_release_date()
                    < #[trigger] b.spec_release_date(),
    {
    }

    /// `spec_newest_possible` is the newest possible release in the sense of
    /// `is_newest_possible`.
    pub proof fn lemma_newest_possible_is_newest(t: int)
        ensures
            Self::is_newest_possible(t, Self::spec_newest_possible(t)),
    {
    }

    /// At most one release is the newest possible one for a given time.
    pub proof fn lemma_newest_possible_unique(t: int, v: CompilerVersion)
        requires
            Self::is_newest_possible(t, v),
        ensures
            Self::spec_newest_possible(t) == v,
    {
        let w = Self::spec_newest_possible(t);
        Self::lemma_newest_possible_is_newest(t);
        if Self::earliest().spec_release_date() <= t {
            assert(w.spec_rank() <= v.spec_rank());
            assert(v.spec_rank() <= w.spec_rank());
            Self::lemma_rank_injective(v, w);
        }
    }

    /// A binary compiled on the very release day of `v` can have been built
    /// with `v` and with nothing newer.
    pub proof fn lemma_newest_possible_on_release_day(v: CompilerVersion)
        ensures
            Self::spec_newest_possible(v.spec_release_date()) == v,
    {
        Self::lemma_release_dates_increase();
        assert(Self::is_newest_possible(v.spec_release_date(), v));
        Self::lemma_newest_possible_unique(v.spec_release_date(), v);
    }

    /// At any time from the release day of the predecessor of `v` up to, but
    /// not including, the release day of `v`, the newest possible release is
    /// that predecessor. Before the earliest release day it is the earliest
    /// release.
    pub proof fn lemma_newest_possible_before_release(v: CompilerVersion, t: int)
        requires
            t < v.spec_release_date(),
            v.spec_rank() > 0 ==> v.predecessor().spec_release_date() <= t,
        ensures
            Self::spec_newest_possible(t) == v.predecessor(),
    {
        Self::lemma_release_dates_increase();
        Self::lemma_catalog_by_rank();
        let p = v.predecessor();
        assert(Self::is_newest_possible(t, p)) by {
            if v.spec_rank() > 0 {
                assert(p.spec_rank() == v.spec_rank() - 1);
                assert forall|w: CompilerVersion| #[trigger]
                    w.spec_release_date() <= t implies w.spec_rank() <= p.spec_rank() by {
                    if w.spec_rank() > p.spec_rank() {
                        if w.spec_rank() > v.spec_rank() {
                            assert(v.spec_release_date() < w.spec_release_date());
                        } else {
                            Self::lemma_rank_injective(v, w);
                        }
                    }
                }
            }
        }
        Self::lemma_newest_possible_unique(t, p);
    }

    /// One day before the release day of `v`, the newest possible release is
    /// the predecessor of `v`, or `v` itself where it is the earliest.
    pub proof fn lemma_newest_possible_on_eve_of_release(v: CompilerVersion)
        ensures
            Self::spec_newest_possible(v.spec_release_date() - 86_400) == v.predecessor(),
    {
        Self::lemma_catalog_by_rank();
        Self::lemma_newest_possible_before_release(v, v.spec_release_date() - 86_400);
    }
}

} // verus!
