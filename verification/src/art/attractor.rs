//! Strange attractor kinds.

use crate::text::{lowercase, str_eq, to_lower};
use vstd::prelude::*;

verus! {

/// Attractor type.
#[derive(Debug, Clone, Copy, PartialEq, Eq, Structural)]
pub enum AttractorType {
    Lorenz,
    Rossler,
    Clifford,
}

/// The attractor an already lowercased name stands for.
pub open spec fn attractor_named(name: Seq<char>) -> Option<AttractorType> {
    if name == "lorenz"@ {
        Some(AttractorType::Lorenz)
    } else if name == "rossler"@ {
        Some(AttractorType::Rossler)
    } else if name == "clifford"@ {
        Some(AttractorType::Clifford)
    } else {
        None
    }
}

impl AttractorType {
    /// The attractor an already lowercased name stands for.
    pub fn from_name(name: &str) -> (t: Option<AttractorType>)
        ensures
            t == attractor_named(name@),
    {
        proof {
            reveal_strlit("lorenz");
            reveal_strlit("rossler");
            reveal_strlit("clifford");
        }
        if str_eq(name, "lorenz") {
            Some(AttractorType::Lorenz)
        } else if str_eq(name, "rossler") {
            Some(AttractorType::Rossler)
        } else if str_eq(name, "clifford") {
            Some(AttractorType::Clifford)
        } else {
            None
        }
    }

    /// The attractor a name stands for, in any case.
    pub fn from_str(s: &str) -> (t: Option<AttractorType>)
        ensures
            t == attractor_named(lowercase(s@)),
    {
        let l = to_lower(s);
        AttractorType::from_name(l.as_str())
    }
}

} // verus!
