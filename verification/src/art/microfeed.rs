//! The micro-feed test pattern: lines whose spacing grows by a fixed step.

use vstd::prelude::*;

verus! {

/// Parameters of the micro-feed pattern.
#[derive(Debug, Clone)]
pub struct Params {
    /// Gap in pixels before the second line.
    pub start_gap: usize,
    /// How much each gap exceeds the one before.
    pub gap_increment: usize,
}

impl Default for Params {
    fn default() -> (p: Params)
        ensures
            p.start_gap == 1 && p.gap_increment == 1,
    {
        Params { start_gap: 1, gap_increment: 1 }
    }
}

/// The row of line `n`: line 0 at row 0, then gaps of `start`,
/// `start + inc`, `start + 2 * inc`, ...
pub open spec fn line_row(start: nat, inc: nat, n: nat) -> nat
    decreases n,
{
    if n == 0 {
        0
    } else {
        line_row(start, inc, (n - 1) as nat) + start + ((n - 1) as nat) * inc
    }
}

/// Whether row `y` holds a line.
pub open spec fn is_line_row(y: nat, start: nat, inc: nat) -> bool {
    exists|n: nat| line_row(start, inc, n) == y
}

proof fn lemma_line_row_monotone(start: nat, inc: nat, n: nat, m: nat)
    requires
        n <= m,
    ensures
        line_row(start, inc, n) <= line_row(start, inc, m),
    decreases m - n,
{
    if n < m {
        lemma_line_row_monotone(start, inc, n, (m - 1) as nat);
        assert(((m - 1) as nat) * inc >= 0) by (nonlinear_arith);
    }
}

/// The micro-feed pattern with its default parameters.
#[derive(Debug, Clone, Default)]
pub struct Microfeed {}

impl Microfeed {
    /// The pattern's name.
    pub fn name(&self) -> (n: &'static str)
        ensures
            n@ == "microfeed"@,
    {
        "microfeed"
    }
}

/// Whether row `y` of the pattern holds a line.
pub fn on_line(y: usize, params: &Params) -> (b: bool)
    requires
        params.start_gap > 0 || params.gap_increment > 0 || y == 0,
        y + params.start_gap + (y + 1) * params.gap_increment <= usize::MAX,
    ensures
        b == is_line_row(y as nat, params.start_gap as nat, params.gap_increment as nat),
{
    let start = params.start_gap;
    let inc = params.gap_increment;
    let ghost s = start as nat;
    let ghost c = inc as nat;
    let mut line_pos: usize = 0;
    let mut line_num: usize = 0;
    while line_pos <= y
        invariant
            start == params.start_gap,
            inc == params.gap_increment,
            s == start,
            c == inc,
            start > 0 || inc > 0 || y == 0,
            y + start + (y + 1) * inc <= usize::MAX,
            line_pos == line_row(s, c, line_num as nat),
            line_num <= line_pos + 1,
            forall|k: nat| k < line_num ==> #[trigger] line_row(s, c, k) != y,
        decreases if line_pos <= y { y + 2 - line_pos - if line_num > 0 { 1int } else { 0int } } else { 0int },
    {
        if line_pos == y {
            return true;
        }
        assert(start > 0 || inc > 0);
        assert(line_num * inc <= (y + 1) * inc) by (nonlinear_arith)
            requires
                line_num <= y + 1,
        ;
        let gap = start + line_num * inc;
        assert(line_num > 0 ==> gap >= 1) by (nonlinear_arith)
            requires
                start > 0 || inc > 0,
                gap == start + line_num * inc,
        ;
        assert(line_row(s, c, (line_num + 1) as nat) == line_row(s, c, line_num as nat) + s + (line_num as nat) * c);
        line_pos = line_pos + gap;
        line_num = line_num + 1;
    }
    assert forall|k: nat| line_row(s, c, k) != y by {
        if k >= line_num {
            lemma_line_row_monotone(s, c, line_num as nat, k);
        }
    }
    false
}

} // verus!
