//! Language standards and the library functions that each introduced.

use crate::text::str_eq;
use vstd::prelude::*;

verus! {

/// A revision of the C++ standard.
///
/// The variants are declared in order of adoption; verified code orders them
/// by [`CppStandard::year`].
#[derive(Debug, Copy, Clone, Ord, PartialOrd, Eq, PartialEq, Hash, Structural)]
pub enum CppStandard {
    Cpp11,
    Cpp20,
}

impl CppStandard {
    /// Year in which the revision was adopted.
    pub open spec fn spec_year(self) -> nat {
        match self {
            CppStandard::Cpp11 => 2011,
            CppStandard::Cpp20 => 2020,
        }
    }

    /// Year in which the revision was adopted.
    pub fn year(&self) -> (y: u16)
        ensures
            y == self.spec_year(),
    {
        match self {
            CppStandard::Cpp11 => 2011,
            CppStandard::Cpp20 => 2020,
        }
    }

    /// The later of two revisions.
    pub open spec fn later(self, other: CppStandard) -> CppStandard {
        if other.spec_year() > self.spec_year() {
            other
        } else {
            self
        }
    }

    /// The name under which the revision is known.
    pub open spec fn spec_name(self) -> Seq<char> {
        match self {
            CppStandard::Cpp11 => "C++11"@,
            CppStandard::Cpp20 => "C++20"@,
        }
    }

    /// The name under which the revision is known.
    pub fn name(&self) -> (text: &'static str)
        ensures
            text@ == self.spec_name(),
    {
        match self {
            CppStandard::Cpp11 => "C++11",
            CppStandard::Cpp20 => "C++20",
        }
    }
}

/// Whether the C runtime gained the function `name` with C++11.
pub open spec fn introduced_with_cpp11(name: Seq<char>) -> bool {
    ||| name == "atoll"@
    ||| name == "strtoll"@
    ||| name == "strtoull"@
    ||| name == "isblank"@
    ||| name == "strtoimax"@
    ||| name == "strtoumax"@
    ||| name == "mbrtoc16"@
    ||| name == "c16rtomb"@
    ||| name == "mbrtoc32"@
    ||| name == "c32rtomb"@
    ||| name == "iswblank"@
    ||| name == "wcstoimax"@
    ||| name == "wcstoumax"@
}

/// Whether the C runtime gained the function `name` with C++20.
pub open spec fn introduced_with_cpp20(name: Seq<char>) -> bool {
    ||| name == "mbrtoc8"@
    ||| name == "c8rtomb"@
}

/// The earliest standard whose runtime library exports `name`, for the
/// functions that tell one standard from another.
pub open spec fn spec_cpp_standard_for_function(name: Seq<char>) -> Option<CppStandard> {
    if introduced_with_cpp11(name) {
        Some(CppStandard::Cpp11)
    } else if introduced_with_cpp20(name) {
        Some(CppStandard::Cpp20)
    } else {
        None
    }
}

/// The earliest standard whose runtime library exports `name`, for the
/// functions that tell one standard from another; `None` for any other name.
pub fn get_cpp_standard_for_function(name: &str) -> (standard: Option<CppStandard>)
    ensures
        standard == spec_cpp_standard_for_function(name@),
{
    if str_eq(name, "atoll")
        || str_eq(name, "strtoll")
        || str_eq(name, "strtoull")
        || str_eq(name, "isblank")
        || str_eq(name, "strtoimax")
        || str_eq(name, "strtoumax")
        || str_eq(name, "mbrtoc16")
        || str_eq(name, "c16rtomb")
        || str_eq(name, "mbrtoc32")
        || str_eq(name, "c32rtomb")
        || str_eq(name, "iswblank")
        || str_eq(name, "wcstoimax")
        || str_eq(name, "wcstoumax")
    {
        Some(CppStandard::Cpp11)
    } else if str_eq(name, "mbrtoc8") || str_eq(name, "c8rtomb") {
        Some(CppStandard::Cpp20)
    } else {
        None
    }
}

} // verus!
