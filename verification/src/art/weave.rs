//! Fabric weave kinds and which thread lies on top.

use crate::text::{lowercase, str_eq, to_lower};
use vstd::prelude::*;

verus! {

/// Weave pattern type.
#[derive(Debug, Clone, Copy, PartialEq, Eq, Structural)]
pub enum WeaveType {
    /// Simple over-under (checkerboard).
    Plain,
    /// Diagonal lines.
    Twill,
    /// Long floats, a smooth surface.
    Satin,
    /// Threads in groups of two.
    Basket,
    /// Zigzag.
    Herringbone,
}

/// The weave an already lowercased name stands for.
pub open spec fn weave_named(name: Seq<char>) -> Option<WeaveType> {
    if name == "plain"@ {
        Some(WeaveType::Plain)
    } else if name == "twill"@ {
        Some(WeaveType::Twill)
    } else if name == "satin"@ {
        Some(WeaveType::Satin)
    } else if name == "basket"@ {
        Some(WeaveType::Basket)
    } else if name == "herringbone"@ {
        Some(WeaveType::Herringbone)
    } else {
        None
    }
}

impl WeaveType {
    /// The weave an already lowercased name stands for.
    pub fn from_name(name: &str) -> (t: Option<WeaveType>)
        ensures
            t == weave_named(name@),
    {
        proof {
            reveal_strlit("plain");
            reveal_strlit("twill");
            reveal_strlit("satin");
            reveal_strlit("basket");
            reveal_strlit("herringbone");
        }
        if str_eq(name, "plain") {
            Some(WeaveType::Plain)
        } else if str_eq(name, "twill") {
            Some(WeaveType::Twill)
        } else if str_eq(name, "satin") {
            Some(WeaveType::Satin)
        } else if str_eq(name, "basket") {
            Some(WeaveType::Basket)
        } else if str_eq(name, "herringbone") {
            Some(WeaveType::Herringbone)
        } else {
            None
        }
    }

    /// The weave a name stands for, in any case.
    pub fn from_str(s: &str) -> (t: Option<WeaveType>)
        ensures
            t == weave_named(lowercase(s@)),
    {
        let l = to_lower(s);
        WeaveType::from_name(l.as_str())
    }
}

/// Whether the warp thread lies on top in cell `(x, y)`.
pub open spec fn warp_up(x: int, y: int, t: WeaveType, shift: int) -> bool {
    match t {
        WeaveType::Plain => (x + y) % 2 == 0,
        WeaveType::Twill => (x + y * shift) % (shift + 1) == 0,
        WeaveType::Satin => (x + (y * 2) % (shift + 2)) % (shift + 2) == 0,
        WeaveType::Basket => (x / 2 + y / 2) % 2 == 0,
        WeaveType::Herringbone => {
            let period = (shift + 1) * 2;
            let phase = y % period;
            if phase < period / 2 {
                (x + phase) % (shift + 1) == 0
            } else {
                (x + period - phase) % (shift + 1) == 0
            }
        },
    }
}

/// Whether the arithmetic of a weave cell stays within machine words.
pub open spec fn weave_in_range(x: int, y: int, t: WeaveType, shift: int) -> bool {
    match t {
        WeaveType::Plain => x + y <= usize::MAX,
        WeaveType::Twill => x + y * shift <= usize::MAX && shift + 1 <= usize::MAX,
        WeaveType::Satin => x + shift + 2 <= usize::MAX && y * 2 <= usize::MAX,
        WeaveType::Basket => true,
        WeaveType::Herringbone => x + (shift + 1) * 2 <= usize::MAX,
    }
}

/// Whether the warp thread lies on top in cell `(cell_x, cell_y)`.
pub fn warp_on_top(cell_x: usize, cell_y: usize, weave_type: WeaveType, shift: usize) -> (b: bool)
    requires
        weave_in_range(cell_x as int, cell_y as int, weave_type, shift as int),
    ensures
        b == warp_up(cell_x as int, cell_y as int, weave_type, shift as int),
{
    match weave_type {
        WeaveType::Plain => (cell_x + cell_y) % 2 == 0,
        WeaveType::Twill => {
            assert(cell_y * shift <= usize::MAX);
            (cell_x + cell_y * shift) % (shift + 1) == 0
        },
        WeaveType::Satin => {
            let pattern_size = shift + 2;
            let offset = (cell_y * 2) % pattern_size;
            (cell_x + offset) % pattern_size == 0
        },
        WeaveType::Basket => (cell_x / 2 + cell_y / 2) % 2 == 0,
        WeaveType::Herringbone => {
            let period = (shift + 1) * 2;
            let phase = cell_y % period;
            if phase < period / 2 {
                (cell_x + phase) % (shift + 1) == 0
            } else {
                (cell_x + period - phase) % (shift + 1) == 0
            }
        },
    }
}

} // verus!
