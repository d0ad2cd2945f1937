//! Elementary cellular automata.

use crate::text::{lowercase, str_eq, to_lower};
use vstd::prelude::*;

verus! {

/// How the first generation is seeded.
#[derive(Debug, Clone, Copy, PartialEq, Eq, Structural)]
pub enum InitType {
    /// One live cell in the middle.
    Single,
    /// Pseudo-random cells.
    Random,
    /// Every other cell.
    Alternating,
}

/// The seeding an already lowercased name stands for.
pub open spec fn init_named(name: Seq<char>) -> Option<InitType> {
    if name == "single"@ {
        Some(InitType::Single)
    } else if name == "random"@ {
        Some(InitType::Random)
    } else if name == "alternating"@ {
        Some(InitType::Alternating)
    } else {
        None
    }
}

impl InitType {
    /// The seeding an already lowercased name stands for.
    pub fn from_name(name: &str) -> (t: Option<InitType>)
        ensures
            t == init_named(name@),
    {
        proof {
            reveal_strlit("single");
            reveal_strlit("random");
            reveal_strlit("alternating");
        }
        if str_eq(name, "single") {
            Some(InitType::Single)
        } else if str_eq(name, "random") {
            Some(InitType::Random)
        } else if str_eq(name, "alternating") {
            Some(InitType::Alternating)
        } else {
            None
        }
    }

    /// The seeding a name stands for, in any case.
    pub fn from_str(s: &str) -> (t: Option<InitType>)
        ensures
            t == init_named(lowercase(s@)),
    {
        let l = to_lower(s);
        InitType::from_name(l.as_str())
    }
}

/// The rule's bit for a neighborhood read as the 3-bit number `left center right`.
pub open spec fn rule_bit(rule: u8, l: bool, c: bool, r: bool) -> bool {
    let idx = (if l { 4int } else { 0int }) + (if c { 2int } else { 0int }) + (if r { 1int } else { 0int });
    (rule >> (idx as u8)) & 1u8 == 1u8
}

/// Cell `x` of generation `y`, grown from `first` by `rule`, rows wrapping
/// around at their ends.
pub open spec fn ca_cell(first: Seq<bool>, rule: u8, y: nat, x: int) -> bool
    decreases y,
{
    if y == 0 {
        first[x]
    } else {
        let w = first.len() as int;
        let p = (y - 1) as nat;
        let l = if x > 0 { x - 1 } else { w - 1 };
        let r = if x < w - 1 { x + 1 } else { 0 };
        rule_bit(rule, ca_cell(first, rule, p, l), ca_cell(first, rule, p, x), ca_cell(first, rule, p, r))
    }
}

/// Generation `y` as a row.
pub open spec fn ca_row(first: Seq<bool>, rule: u8, y: nat) -> Seq<bool> {
    Seq::new(first.len(), |x: int| ca_cell(first, rule, y, x))
}

/// The first generation of `width` cells: one live cell in the middle,
/// every other cell from the first, or the given pseudo-random cells.
pub open spec fn seed_row(width: nat, init: InitType, random: Seq<bool>) -> Seq<bool> {
    match init {
        InitType::Single => Seq::new(width, |x: int| x == width / 2),
        InitType::Alternating => Seq::new(width, |x: int| x % 2 == 0),
        InitType::Random => random,
    }
}

/// The generations of an elementary cellular automaton.
pub struct CellularAutomaton {
    grid: Vec<Vec<bool>>,
    width: usize,
    height: usize,
}

impl CellularAutomaton {
    #[verifier::type_invariant]
    spec fn well_formed(self) -> bool {
        &&& self.grid@.len() == self.height
        &&& forall|y: int| 0 <= y < self.height ==> (#[trigger] self.grid@[y])@.len() == self.width
    }

    /// Cells per generation.
    pub closed spec fn spec_width(self) -> usize {
        self.width
    }

    /// Number of generations.
    pub closed spec fn spec_height(self) -> usize {
        self.height
    }

    /// Cell `x` of generation `y`.
    pub closed spec fn spec_cell(self, x: int, y: int) -> bool {
        self.grid@[y]@[x]
    }

    /// `height` generations of `width` cells grown by `rule` from the seeding
    /// `init`. The pseudo-random seeding compares a hash of each cell with a
    /// density, so its cells are given as `random`; the other seedings ignore it.
    pub fn new(width: usize, height: usize, rule: u8, init: InitType, random: Vec<bool>) -> (ca: CellularAutomaton)
        requires
            height > 0,
            init is Single ==> width > 0,
            init is Random ==> random@.len() == width,
        ensures
            ca.spec_width() == width,
            ca.spec_height() == height,
            forall|x: int, y: int|
                0 <= x < width && 0 <= y < height ==> #[trigger] ca.spec_cell(x, y) == ca_cell(
                    seed_row(width as nat, init, random@),
                    rule,
                    y as nat,
                    x,
                ),
    {
        let first = match init {
            InitType::Random => random,
            _ => {
                let mut row: Vec<bool> = Vec::new();
                let mut x: usize = 0;
                while x < width
                    invariant
                        !(init is Random),
                        x <= width,
                        row@.len() == x,
                        forall|k: int| 0 <= k < x ==> #[trigger] row@[k] == seed_row(width as nat, init, random@)[k],
                    decreases width - x,
                {
                    let live = match init {
                        InitType::Single => x == width / 2,
                        _ => x % 2 == 0,
                    };
                    row.push(live);
                    x = x + 1;
                }
                row
            },
        };
        assert(first@ =~= seed_row(width as nat, init, random@));
        CellularAutomaton::evolve(first, height, rule)
    }

    /// `height` generations grown from `first` by `rule`.
    pub fn evolve(first: Vec<bool>, height: usize, rule: u8) -> (ca: CellularAutomaton)
        requires
            height > 0,
        ensures
            ca.spec_width() == first@.len(),
            ca.spec_height() == height,
            forall|x: int, y: int| 0 <= x < first@.len() && 0 <= y < height ==> #[trigger] ca.spec_cell(x, y) == ca_cell(first@, rule, y as nat, x),
    {
        let width = first.len();
        let ghost f = first@;
        let mut grid: Vec<Vec<bool>> = Vec::new();
        grid.push(first);
        assert(grid@[0]@ =~= ca_row(f, rule, 0));
        let mut y: usize = 1;
        while y < height
            invariant
                1 <= y <= height,
                width == f.len(),
                grid@.len() == y,
                forall|j: int| 0 <= j < y ==> (#[trigger] grid@[j])@ == ca_row(f, rule, j as nat),
            decreases height - y,
        {
            let mut row: Vec<bool> = Vec::new();
            let mut x: usize = 0;
            while x < width
                invariant
                    1 <= y < height,
                    width == f.len(),
                    grid@.len() == y,
                    grid@[y - 1]@ == ca_row(f, rule, (y - 1) as nat),
                    x <= width,
                    row@.len() == x,
                    forall|k: int| 0 <= k < x ==> #[trigger] row@[k] == ca_cell(f, rule, y as nat, k),
                decreases width - x,
            {
                let prev = &grid[y - 1];
                let left = if x > 0 { prev[x - 1] } else { prev[width - 1] };
                let center = prev[x];
                let right = if x < width - 1 { prev[x + 1] } else { prev[0] };
                let idx: u8 = (if left { 4 } else { 0 }) + (if center { 2 } else { 0 }) + (if right { 1 } else { 0 });
                let cell = (rule >> idx) & 1 == 1;
                row.push(cell);
                x = x + 1;
            }
            assert(row@ =~= ca_row(f, rule, y as nat));
            grid.push(row);
            y = y + 1;
        }
        CellularAutomaton { grid, width, height }
    }

    /// Cell `x` of generation `y`; dead outside the grid.
    pub fn get(&self, x: usize, y: usize) -> (b: bool)
        ensures
            b == (x < self.spec_width() && y < self.spec_height() && self.spec_cell(x as int, y as int)),
    {
        proof {
            use_type_invariant(self);
        }
        if x < self.width && y < self.height {
            self.grid[y][x]
        } else {
            false
        }
    }
}

} // verus!
