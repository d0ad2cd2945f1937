//! Voronoi rendering modes.

use crate::text::{lowercase, str_eq, to_lower};
use vstd::prelude::*;

verus! {

/// Rendering mode for Voronoi cells.
#[derive(Debug, Clone, Copy, PartialEq, Eq, Structural)]
pub enum RenderMode {
    /// Cell edges only.
    Edges,
    /// Cells filled with a distance gradient.
    Distance,
    /// Cells filled with one value each.
    Cells,
    /// Cells and edges.
    CellsAndEdges,
}

/// The mode an already lowercased name stands for.
pub open spec fn render_mode_named(name: Seq<char>) -> Option<RenderMode> {
    if name == "edges"@ {
        Some(RenderMode::Edges)
    } else if name == "distance"@ {
        Some(RenderMode::Distance)
    } else if name == "cells"@ {
        Some(RenderMode::Cells)
    } else if name == "cells_and_edges"@ || name == "cellsandedges"@ {
        Some(RenderMode::CellsAndEdges)
    } else {
        None
    }
}

impl RenderMode {
    /// The mode an already lowercased name stands for.
    pub fn from_name(name: &str) -> (m: Option<RenderMode>)
        ensures
            m == render_mode_named(name@),
    {
        proof {
            reveal_strlit("edges");
            reveal_strlit("distance");
            reveal_strlit("cells");
            reveal_strlit("cells_and_edges");
            reveal_strlit("cellsandedges");
        }
        if str_eq(name, "edges") {
            Some(RenderMode::Edges)
        } else if str_eq(name, "distance") {
            Some(RenderMode::Distance)
        } else if str_eq(name, "cells") {
            Some(RenderMode::Cells)
        } else if str_eq(name, "cells_and_edges") || str_eq(name, "cellsandedges") {
            Some(RenderMode::CellsAndEdges)
        } else {
            None
        }
    }

    /// The mode a name stands for, in any case.
    pub fn from_str(s: &str) -> (m: Option<RenderMode>)
        ensures
            m == render_mode_named(lowercase(s@)),
    {
        let l = to_lower(s);
        RenderMode::from_name(l.as_str())
    }
}

} // verus!
