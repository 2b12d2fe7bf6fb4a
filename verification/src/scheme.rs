//! The closed set of scheme systems (color-scheme specification styles)
//! an item may declare support for.

use vstd::prelude::*;

verus! {

/// One scheme-format variant. The set is fixed; `Base16` is the default.
#[derive(Clone, Copy, PartialEq, Eq, Structural, Debug)]
pub enum SchemeSystem {
    Base16,
    Base24,
    Tinted8,
}

impl SchemeSystem {
    /// The canonical lower-case name of this system.
    pub open spec fn spec_name(self) -> Seq<char> {
        match self {
            SchemeSystem::Base16 => "base16"@,
            SchemeSystem::Base24 => "base24"@,
            SchemeSystem::Tinted8 => "tinted8"@,
        }
    }

    pub fn name(&self) -> (r: &'static str)
        ensures
            r@ == self.spec_name(),
    {
        match self {
            SchemeSystem::Base16 => "base16",
            SchemeSystem::Base24 => "base24",
            SchemeSystem::Tinted8 => "tinted8",
        }
    }

    /// The system a name denotes, if it is one of the recognized names.
    pub open spec fn spec_of_name(s: Seq<char>) -> Option<SchemeSystem> {
        if s == "base16"@ {
            Some(SchemeSystem::Base16)
        } else if s == "base24"@ {
            Some(SchemeSystem::Base24)
        } else if s == "tinted8"@ {
            Some(SchemeSystem::Tinted8)
        } else {
            None
        }
    }

    pub fn of_name(s: &str) -> (r: Option<SchemeSystem>)
        ensures
            r == SchemeSystem::spec_of_name(s@),
    {
        if crate::text::str_eq(s, "base16") {
            Some(SchemeSystem::Base16)
        } else if crate::text::str_eq(s, "base24") {
            Some(SchemeSystem::Base24)
        } else if crate::text::str_eq(s, "tinted8") {
            Some(SchemeSystem::Tinted8)
        } else {
            None
        }
    }
}

impl core::default::Default for SchemeSystem {
    /// The default system is `Base16`.
    fn default() -> (r: SchemeSystem)
        ensures
            r == SchemeSystem::Base16,
    {
        SchemeSystem::Base16
    }
}

} // verus!
