//! Tables: box-drawn grids whose column widths follow their content.

use crate::document::types::{BorderStyle, ColumnAlign, Table};
use crate::document::EmitContext;
use crate::ir::{ops_view, Alignment, Font, Op, OpV};
use crate::text::{
    blen, byte_len, can_cut, cuttable, pad_center, pad_left, pad_right, push_char, push_pad_center, push_pad_left,
    push_pad_right, push_rep, rep, sat_sub, take_bytes, truncate_bytes,
};
use vstd::prelude::*;
use vstd::set_lib::{lemma_int_range, lemma_map_size, lemma_subset_equality, set_int_range};

verus! {

/// Sum of a sequence of widths.
pub open spec fn width_sum(s: Seq<usize>) -> int
    decreases s.len(),
{
    if s.len() == 0 {
        0
    } else {
        width_sum(s.drop_last()) + s.last()
    }
}

/// Each of the first `n` content widths times `available` fits in a `usize`
/// (the products that the proportional split computes).
pub open spec fn products_fit(m: Seq<usize>, n: nat, available: nat) -> bool {
    forall|i: int| 0 <= i < n ==> #[trigger] m[i] * available <= usize::MAX
}

/// Characters a table of `n` columns spends on borders (`n + 1`) and cell
/// padding (one space each side of every cell).
pub open spec fn table_overhead(n: int) -> int {
    (n + 1) + 2 * n
}

/// The space left for cell content in a table `total` characters wide.
pub open spec fn table_available(n: nat, total: usize) -> nat {
    sat_sub(total as int, table_overhead(n as int))
}

/// Widths when no column has content: `available` split evenly, the first
/// `available % n` columns one wider.
pub open spec fn even_widths(n: nat, available: nat) -> Seq<usize> {
    Seq::new(n, |i: int| (available / n + if i < available % n { 1int } else { 0int }) as usize)
}

/// The proportional share of the first `k` columns, before the remainder is
/// dealt out: `m[i] * available / total` rounded down, raised to 1 for a
/// column with content while the columns before it hold less than `available`.
pub open spec fn share_widths(m: Seq<usize>, available: nat, total: nat, k: nat) -> Seq<usize>
    decreases k,
{
    if k == 0 {
        Seq::empty()
    } else {
        let prev = share_widths(m, available, total, (k - 1) as nat);
        let raw = (m[k - 1] * available / (total as int)) as usize;
        let w = if raw == 0 && m[k - 1] > 0 && available > width_sum(prev) { 1usize } else { raw };
        prev.push(w)
    }
}

/// Among the columns before `k`, how many come ahead of column `i` when
/// columns are ordered widest content first, ties kept in column order.
pub open spec fn width_rank(m: Seq<usize>, i: int, k: int) -> nat
    decreases k,
{
    if k <= 0 {
        0
    } else {
        width_rank(m, i, k - 1) + if m[k - 1] > m[i] || (m[k - 1] == m[i] && k - 1 < i) {
            1nat
        } else {
            0nat
        }
    }
}

/// Column widths for `n` columns whose widest contents are `m`, in a table
/// `total` characters wide: proportional to the content, the space left by
/// rounding going one character each to the widest columns first.
pub open spec fn col_widths(n: nat, m: Seq<usize>, total: usize) -> Seq<usize> {
    let available = table_available(n, total);
    let content = width_sum(m);
    if n == 0 {
        Seq::empty()
    } else if available == 0 {
        Seq::new(n, |_i: int| 0usize)
    } else if content == 0 {
        even_widths(n, available)
    } else {
        let share = share_widths(m, available, content as nat, n);
        let remainder = sat_sub(available as int, width_sum(share));
        Seq::new(n, |i: int| (share[i] + if width_rank(m, i, n as int) < remainder { 1int } else { 0int }) as usize)
    }
}

/// The rounded-down proportional shares of the first `k` columns, summed.
pub open spec fn raw_share_sum(m: Seq<usize>, available: nat, total: nat, k: nat) -> int
    decreases k,
{
    if k == 0 {
        0
    } else {
        raw_share_sum(m, available, total, (k - 1) as nat) + m[k - 1] * available / (total as int)
    }
}

proof fn lemma_width_sum_take(m: Seq<usize>, k: int)
    requires
        0 <= k < m.len(),
    ensures
        width_sum(m.take(k + 1)) == width_sum(m.take(k)) + m[k],
{
    assert(m.take(k + 1).drop_last() =~= m.take(k));
}

proof fn lemma_width_sum_prefix(m: Seq<usize>, k: int)
    requires
        0 <= k <= m.len(),
    ensures
        0 <= width_sum(m.take(k)) <= width_sum(m),
    decreases m.len() - k,
{
    if k == m.len() {
        assert(m.take(k) =~= m);
        lemma_width_sum_nonneg(m);
    } else {
        lemma_width_sum_take(m, k);
        lemma_width_sum_prefix(m, k + 1);
        lemma_width_sum_nonneg(m.take(k));
    }
}

proof fn lemma_width_sum_nonneg(s: Seq<usize>)
    ensures
        width_sum(s) >= 0,
    decreases s.len(),
{
    if s.len() > 0 {
        lemma_width_sum_nonneg(s.drop_last());
    }
}

/// Each width is at most the sum.
proof fn lemma_width_sum_elem(s: Seq<usize>, i: int)
    requires
        0 <= i < s.len(),
    ensures
        s[i] <= width_sum(s),
    decreases s.len(),
{
    lemma_width_sum_nonneg(s.drop_last());
    if i < s.len() - 1 {
        lemma_width_sum_elem(s.drop_last(), i);
    }
}

/// `total * (the rounded-down shares) <= available * (the content so far)`.
proof fn lemma_raw_share_bound(m: Seq<usize>, available: nat, total: nat, k: nat)
    requires
        total > 0,
        k <= m.len(),
    ensures
        total * raw_share_sum(m, available, total, k) <= available * width_sum(m.take(k as int)),
        raw_share_sum(m, available, total, k) >= 0,
    decreases k,
{
    if k == 0 {
        assert(m.take(0) =~= Seq::<usize>::empty());
    } else {
        let j = (k - 1) as nat;
        lemma_raw_share_bound(m, available, total, j);
        lemma_width_sum_take(m, j as int);
        let x = m[j as int] * available;
        let q = x / (total as int);
        assert(total * q <= x) by (nonlinear_arith)
            requires
                total > 0,
                x >= 0,
                q == x / (total as int),
        ;
        assert(q >= 0) by (nonlinear_arith)
            requires
                total > 0,
                x >= 0,
                q == x / (total as int),
        ;
        let r = raw_share_sum(m, available, total, j);
        let p = width_sum(m.take(j as int));
        assert(total * (r + q) == total * r + total * q) by (nonlinear_arith);
        assert(available * (p + m[j as int]) == available * p + m[j as int] * available) by (nonlinear_arith);
    }
}

/// The shares of the first `k` columns hold at most `available + k` characters,
/// and each is at most `available`.
proof fn lemma_share_bound(m: Seq<usize>, available: nat, total: nat, k: nat)
    requires
        total > 0,
        k <= m.len(),
        width_sum(m) == total,
    ensures
        share_widths(m, available, total, k).len() == k,
        width_sum(share_widths(m, available, total, k)) <= raw_share_sum(m, available, total, k) + k,
        raw_share_sum(m, available, total, k) <= available,
        forall|i: int| 0 <= i < k ==> #[trigger] share_widths(m, available, total, k)[i] <= available + 1,
    decreases k,
{
    lemma_raw_share_bound(m, available, total, k);
    lemma_width_sum_prefix(m, k as int);
    let r = raw_share_sum(m, available, total, k);
    let p = width_sum(m.take(k as int));
    assert(r <= available) by (nonlinear_arith)
        requires
            total > 0,
            total * r <= available * p,
            0 <= p <= total,
            r >= 0,
    ;
    if k > 0 {
        let j = (k - 1) as nat;
        lemma_share_bound(m, available, total, j);
        let prev = share_widths(m, available, total, j);
        let cur = share_widths(m, available, total, k);
        assert(cur.drop_last() =~= prev);
        lemma_width_sum_elem(m, j as int);
        let x = m[j as int] * available;
        assert(x / (total as int) <= available) by (nonlinear_arith)
            requires
                total > 0,
                m[j as int] <= total,
                x == m[j as int] * available,
        ;
        assert(x / (total as int) >= 0) by (nonlinear_arith)
            requires
                total > 0,
                x >= 0,
        ;
    }
}

proof fn lemma_even_sum(n: nat, available: nat, k: nat)
    requires
        n > 0,
        k <= n,
        available / n + 1 <= usize::MAX,
    ensures
        width_sum(even_widths(n, available).take(k as int)) == k * (available / n) + if k < available % n {
            k as int
        } else {
            (available % n) as int
        },
    decreases k,
{
    let e = even_widths(n, available);
    if k == 0 {
        assert(e.take(0) =~= Seq::<usize>::empty());
    } else {
        lemma_even_sum(n, available, (k - 1) as nat);
        lemma_width_sum_take(e, k - 1);
        let q = available / n;
        assert(k * q == (k - 1) * q + q) by (nonlinear_arith);
    }
}

/// Whether column `j` comes ahead of column `i` when columns are ordered
/// widest content first, ties kept in column order.
pub open spec fn ahead_of(m: Seq<usize>, j: int, i: int) -> bool {
    m[j] > m[i] || (m[j] == m[i] && j < i)
}

proof fn lemma_rank_ahead(m: Seq<usize>, i: int, j: int, k: int)
    requires
        ahead_of(m, i, j),
        0 <= i < m.len(),
        0 <= j < m.len(),
        0 <= k <= m.len(),
    ensures
        width_rank(m, j, k) >= width_rank(m, i, k) + if i < k { 1int } else { 0int },
    decreases k,
{
    if k > 0 {
        lemma_rank_ahead(m, i, j, k - 1);
    }
}

proof fn lemma_rank_bound(m: Seq<usize>, i: int, k: int)
    requires
        0 <= i < m.len(),
        0 <= k <= m.len(),
    ensures
        width_rank(m, i, k) <= k - if i < k { 1int } else { 0int },
    decreases k,
{
    if k > 0 {
        lemma_rank_bound(m, i, k - 1);
    }
}

/// The number of the first `k` columns that get one more character.
pub open spec fn bump_count(m: Seq<usize>, n: int, remainder: nat, k: int) -> nat
    decreases k,
{
    if k <= 0 {
        0
    } else {
        bump_count(m, n, remainder, k - 1) + if width_rank(m, k - 1, n) < remainder { 1nat } else { 0nat }
    }
}

proof fn lemma_bump_count_set(m: Seq<usize>, n: int, remainder: nat, k: int)
    requires
        0 <= k <= n,
    ensures
        Set::new(|i: int| 0 <= i < k && width_rank(m, i, n) < remainder).finite(),
        bump_count(m, n, remainder, k) == Set::new(|i: int| 0 <= i < k && width_rank(m, i, n) < remainder).len(),
    decreases k,
{
    let cur = Set::new(|i: int| 0 <= i < k && width_rank(m, i, n) < remainder);
    if k == 0 {
        assert(cur =~= Set::<int>::empty());
    } else {
        lemma_bump_count_set(m, n, remainder, k - 1);
        let prev = Set::new(|i: int| 0 <= i < k - 1 && width_rank(m, i, n) < remainder);
        if width_rank(m, k - 1, n) < remainder {
            assert(cur =~= prev.insert(k - 1));
        } else {
            assert(cur =~= prev);
        }
    }
}

/// Exactly `min(remainder, n)` of the `n` columns get one more character:
/// the ranks of the columns are `0..n`, each once.
proof fn lemma_bump_count(m: Seq<usize>, n: int, remainder: nat)
    requires
        0 < n == m.len(),
    ensures
        bump_count(m, n, remainder, n) == if remainder < n { remainder as int } else { n },
{
    let rank = |i: int| width_rank(m, i, n) as int;
    let idx = set_int_range(0, n);
    lemma_int_range(0, n);
    assert forall|a: int, b: int| idx.contains(a) && idx.contains(b) && #[trigger] rank(a) == #[trigger] rank(b) implies a == b by {
        if a != b {
            if ahead_of(m, a, b) {
                lemma_rank_ahead(m, a, b, n);
            } else {
                lemma_rank_ahead(m, b, a, n);
            }
        }
    }
    let ranks = idx.map(rank);
    lemma_map_size(idx, ranks, rank);
    assert forall|r: int| ranks.contains(r) implies #[trigger] idx.contains(r) by {
        let i = choose|i: int| idx.contains(i) && rank(i) == r;
        lemma_rank_bound(m, i, n);
    }
    lemma_subset_equality(ranks, idx);
    let limit = if remainder < n { remainder as int } else { n };
    let chosen = Set::new(|i: int| 0 <= i < n && width_rank(m, i, n) < remainder);
    lemma_bump_count_set(m, n, remainder, n);
    assert forall|a: int, b: int| chosen.contains(a) && chosen.contains(b) && #[trigger] rank(a) == #[trigger] rank(b) implies a == b by {
        assert(idx.contains(a) && idx.contains(b));
    }
    let low = chosen.map(rank);
    assert forall|r: int| #[trigger] low.contains(r) <==> set_int_range(0, limit).contains(r) by {
        if set_int_range(0, limit).contains(r) {
            assert(ranks.contains(r));
            let i = choose|i: int| idx.contains(i) && rank(i) == r;
            assert(chosen.contains(i));
        }
        if low.contains(r) {
            let i = choose|i: int| chosen.contains(i) && rank(i) == r;
            lemma_rank_bound(m, i, n);
        }
    }
    assert(low =~= set_int_range(0, limit));
    lemma_map_size(chosen, low, rank);
    lemma_int_range(0, limit);
}

proof fn lemma_bumped_sum(share: Seq<usize>, m: Seq<usize>, n: int, remainder: nat, k: int)
    requires
        0 <= k <= n == share.len(),
        forall|i: int| 0 <= i < n ==> #[trigger] share[i] + 1 <= usize::MAX,
    ensures
        width_sum(Seq::new(n as nat, |i: int| (share[i] + if width_rank(m, i, n) < remainder { 1int } else { 0int }) as usize).take(k))
            == width_sum(share.take(k)) + bump_count(m, n, remainder, k),
    decreases k,
{
    let f = Seq::new(n as nat, |i: int| (share[i] + if width_rank(m, i, n) < remainder { 1int } else { 0int }) as usize);
    if k == 0 {
        assert(f.take(0) =~= Seq::<usize>::empty());
        assert(share.take(0) =~= Seq::<usize>::empty());
    } else {
        lemma_bumped_sum(share, m, n, remainder, k - 1);
        lemma_width_sum_take(f, k - 1);
        lemma_width_sum_take(share, k - 1);
    }
}

/// `total * (the rounded-down shares + k) > available * (the content so far)`.
proof fn lemma_raw_share_lower(m: Seq<usize>, available: nat, total: nat, k: nat)
    requires
        total > 0,
        k <= m.len(),
    ensures
        total * (raw_share_sum(m, available, total, k) + k) >= available * width_sum(m.take(k as int)) + if k > 0 {
            1int
        } else {
            0int
        },
    decreases k,
{
    if k == 0 {
        assert(m.take(0) =~= Seq::<usize>::empty());
    } else {
        let j = (k - 1) as nat;
        lemma_raw_share_lower(m, available, total, j);
        lemma_width_sum_take(m, j as int);
        let x = m[j as int] * available;
        let q = x / (total as int);
        assert(total * (q + 1) >= x + 1) by (nonlinear_arith)
            requires
                total > 0,
                x >= 0,
                q == x / (total as int),
        ;
        let r = raw_share_sum(m, available, total, j);
        let p = width_sum(m.take(j as int));
        assert(total * (r + q + k) == total * (r + j) + total * (q + 1)) by (nonlinear_arith)
            requires
                k == j + 1,
        ;
        assert(available * (p + m[j as int]) == available * p + m[j as int] * available) by (nonlinear_arith);
    }
}

proof fn lemma_share_at_least_raw(m: Seq<usize>, available: nat, total: nat, k: nat)
    requires
        total > 0,
        k <= m.len(),
        available <= usize::MAX,
        width_sum(m) == total,
    ensures
        width_sum(share_widths(m, available, total, k)) >= raw_share_sum(m, available, total, k),
    decreases k,
{
    if k > 0 {
        let j = (k - 1) as nat;
        lemma_share_at_least_raw(m, available, total, j);
        let prev = share_widths(m, available, total, j);
        assert(share_widths(m, available, total, k).drop_last() =~= prev);
        lemma_width_sum_elem(m, j as int);
        let x = m[j as int] * available;
        assert(0 <= x / (total as int) <= available) by (nonlinear_arith)
            requires
                total > 0,
                m[j as int] <= total,
                x == m[j as int] * available,
        ;
    }
}

/// The column widths use up the space available for content: exactly, when
/// no column has content (an even split) and, otherwise, unless the
/// one-character minimum of narrow columns alone takes more, in which case
/// nothing is added to the proportional shares.
pub proof fn lemma_col_widths_fill(n: nat, m: Seq<usize>, total: usize)
    requires
        n > 0,
        m.len() == n,
    ensures
        ({
            let a = table_available(n, total);
            let w = col_widths(n, m, total);
            let share = share_widths(m, a, width_sum(m) as nat, n);
            &&& width_sum(m) == 0 ==> width_sum(w) == a
            &&& width_sum(m) > 0 ==> width_sum(w) == if width_sum(share) > a { width_sum(share) } else { a as int }
        }),
{
    let a = table_available(n, total);
    let w = col_widths(n, m, total);
    if a == 0 {
        lemma_width_sum_nonneg(m);
        let z = Seq::new(n, |_i: int| 0usize);
        assert forall|k: int| 0 <= k <= n implies width_sum(#[trigger] z.take(k)) == 0 by {
            lemma_zero_sum(z, k);
        }
        assert(z.take(n as int) =~= z);
        if width_sum(m) > 0 {
            lemma_share_nothing(m, width_sum(m) as nat, n);
        }
        return;
    }
    lemma_width_sum_nonneg(m);
    if width_sum(m) == 0 {
        assert(a + 1 <= usize::MAX);
        assert(a / n + 1 <= usize::MAX) by (nonlinear_arith)
            requires
                n > 0,
                a + 1 <= usize::MAX,
        ;
        lemma_even_sum(n, a, n);
        assert(even_widths(n, a).take(n as int) =~= even_widths(n, a));
        let q = a / n;
        assert(n * q + a % n == a) by (nonlinear_arith)
            requires
                n > 0,
                q == a / n,
        ;
        assert(a % n < n) by (nonlinear_arith)
            requires
                n > 0,
        ;
    } else {
        let t = width_sum(m) as nat;
        let share = share_widths(m, a, t, n);
        lemma_share_bound(m, a, t, n);
        let remainder = sat_sub(a as int, width_sum(share));
        assert forall|i: int| 0 <= i < n implies #[trigger] share[i] + 1 <= usize::MAX by {}
        lemma_bumped_sum(share, m, n as int, remainder, n as int);
        assert(w =~= Seq::new(n as nat, |i: int| (share[i] + if width_rank(m, i, n as int) < remainder { 1int } else { 0int }) as usize));
        assert(w.take(n as int) =~= w);
        assert(share.take(n as int) =~= share);
        lemma_bump_count(m, n as int, remainder);
        lemma_raw_share_lower(m, a, t, n);
        lemma_share_at_least_raw(m, a, t, n);
        assert(m.take(n as int) =~= m);
        let r = raw_share_sum(m, a, t, n);
        assert(r + n > a) by (nonlinear_arith)
            requires
                t > 0,
                t * (r + n) >= a * t + 1,
        ;
        assert(remainder < n);
        assert(width_sum(w) == width_sum(share) + bump_count(m, n as int, remainder, n as int));
        assert(bump_count(m, n as int, remainder, n as int) == remainder);
    }
}

proof fn lemma_share_nothing(m: Seq<usize>, total: nat, k: nat)
    requires
        total > 0,
        k <= m.len(),
    ensures
        width_sum(share_widths(m, 0, total, k)) == 0,
    decreases k,
{
    if k > 0 {
        lemma_share_nothing(m, total, (k - 1) as nat);
        let prev = share_widths(m, 0, total, (k - 1) as nat);
        assert(share_widths(m, 0, total, k).drop_last() =~= prev);
        let x = m[k - 1] * 0nat;
        assert(x == 0);
    }
}

proof fn lemma_zero_sum(z: Seq<usize>, k: int)
    requires
        0 <= k <= z.len(),
        forall|i: int| 0 <= i < z.len() ==> z[i] == 0,
    ensures
        width_sum(z.take(k)) == 0,
    decreases k,
{
    if k == 0 {
        assert(z.take(0) =~= Seq::<usize>::empty());
    } else {
        lemma_zero_sum(z, k - 1);
        lemma_width_sum_take(z, k - 1);
    }
}

fn sum_widths(m: &[usize]) -> (s: usize)
    requires
        width_sum(m@) <= usize::MAX,
    ensures
        s == width_sum(m@),
{
    let mut s: usize = 0;
    let mut i: usize = 0;
    while i < m.len()
        invariant
            i <= m@.len(),
            s == width_sum(m@.take(i as int)),
            width_sum(m@) <= usize::MAX,
        decreases m@.len() - i,
    {
        proof {
            lemma_width_sum_take(m@, i as int);
            lemma_width_sum_prefix(m@, i as int + 1);
        }
        s = s + m[i];
        i = i + 1;
    }
    assert(m@.take(i as int) =~= m@);
    s
}

fn rank_of(m: &[usize], n: usize, i: usize) -> (r: usize)
    requires
        i < n <= m@.len(),
    ensures
        r == width_rank(m@, i as int, n as int),
{
    let mut r: usize = 0;
    let mut k: usize = 0;
    while k < n
        invariant
            k <= n <= m@.len(),
            i < n,
            r == width_rank(m@, i as int, k as int),
            r <= k,
        decreases n - k,
    {
        if m[k] > m[i] || (m[k] == m[i] && k < i) {
            r = r + 1;
        }
        k = k + 1;
    }
    r
}

/// Column widths for `num_cols` columns whose widest contents are
/// `max_widths`, in a table `total_width` characters wide.
pub fn compute_col_widths(num_cols: usize, max_widths: &[usize], total_width: usize) -> (w: Vec<usize>)
    requires
        max_widths@.len() >= num_cols,
        table_overhead(num_cols as int) <= usize::MAX,
        width_sum(max_widths@) <= usize::MAX,
        products_fit(max_widths@, num_cols as nat, table_available(num_cols as nat, total_width)),
    ensures
        w@ == col_widths(num_cols as nat, max_widths@, total_width),
{
    let ghost n = num_cols as nat;
    let mut widths: Vec<usize> = Vec::new();
    if num_cols == 0 {
        assert(widths@ =~= col_widths(n, max_widths@, total_width));
        return widths;
    }
    let overhead = (num_cols + 1) + 2 * num_cols;
    let available = if total_width > overhead { total_width - overhead } else { 0 };
    if available == 0 {
        let mut i: usize = 0;
        while i < num_cols
            invariant
                i <= num_cols,
                widths@ == Seq::new(i as nat, |_j: int| 0usize),
            decreases num_cols - i,
        {
            widths.push(0);
            i = i + 1;
            assert(widths@ =~= Seq::new(i as nat, |_j: int| 0usize));
        }
        assert(widths@ =~= col_widths(n, max_widths@, total_width));
        return widths;
    }
    let total_content = sum_widths(max_widths);
    if total_content == 0 {
        let each = available / num_cols;
        let extra = available % num_cols;
        let mut i: usize = 0;
        while i < num_cols
            invariant
                i <= num_cols,
                each == available / num_cols,
                extra == available % num_cols,
                available == table_available(n, total_width),
                num_cols > 0,
                n == num_cols,
                forall|j: int| 0 <= j < i ==> #[trigger] widths@[j] == even_widths(n, available as nat)[j],
                widths@.len() == i,
            decreases num_cols - i,
        {
            if i < extra {
                assert(each + 1 <= available) by (nonlinear_arith)
                    requires
                        num_cols > 0,
                        each == available / num_cols,
                        extra == available % num_cols,
                        extra > 0,
                ;
                widths.push(each + 1);
            } else {
                widths.push(each);
            }
            i = i + 1;
        }
        assert(widths@ =~= col_widths(n, max_widths@, total_width));
        return widths;
    }
    let ghost m = max_widths@;
    let ghost t = total_content as nat;
    let ghost a = available as nat;
    let mut share: Vec<usize> = Vec::new();
    let mut assigned: usize = 0;
    let mut i: usize = 0;
    while i < num_cols
        invariant
            i <= num_cols <= m.len(),
            m == max_widths@,
            t == width_sum(m),
            t > 0,
            total_content == t,
            a == available,
            available == table_available(n, total_width),
            num_cols == n,
            num_cols > 0,
            available > 0,
            available + num_cols <= total_width,
            products_fit(m, n, a),
            share@ == share_widths(m, a, t, i as nat),
            assigned == width_sum(share@),
        decreases num_cols - i,
    {
        proof {
            lemma_share_bound(m, a, t, (i + 1) as nat);
            assert(m[i as int] * available <= usize::MAX);
            assert(share_widths(m, a, t, (i + 1) as nat).drop_last() =~= share@);
        }
        let raw = max_widths[i] * available / total_content;
        let w = if raw == 0 && max_widths[i] > 0 && available > assigned { 1 } else { raw };
        proof {
            assert(share_widths(m, a, t, (i + 1) as nat) == share@.push(w));
            assert(share@.push(w).drop_last() =~= share@);
        }
        share.push(w);
        assigned = assigned + w;
        i = i + 1;
    }
    let remainder = if available > assigned { available - assigned } else { 0 };
    proof {
        lemma_share_bound(m, a, t, n);
    }
    let mut j: usize = 0;
    while j < num_cols
        invariant
            j <= num_cols <= m.len(),
            m == max_widths@,
            share@ == share_widths(m, a, t, n),
            share@.len() == num_cols,
            n == num_cols,
            forall|k: int| 0 <= k < num_cols ==> #[trigger] share@[k] <= available + 1,
            available + 4 <= total_width,
            num_cols > 0,
            widths@.len() == j,
            forall|k: int| 0 <= k < j ==> #[trigger] widths@[k] == (share@[k] + if width_rank(m, k, n as int) < remainder { 1int } else { 0int }) as usize,
        decreases num_cols - j,
    {
        let r = rank_of(max_widths, num_cols, j);
        if r < remainder {
            widths.push(share[j] + 1);
        } else {
            widths.push(share[j]);
        }
        j = j + 1;
    }
    assert(widths@ =~= col_widths(n, max_widths@, total_width));
    widths
}

/// Box-drawing characters of a table border.
#[derive(Debug, Clone, Copy)]
pub struct TableChars {
    pub tl: char,
    pub tr: char,
    pub bl: char,
    pub br: char,
    pub horiz: char,
    pub vert: char,
    pub t_down: char,
    pub t_up: char,
    pub t_right: char,
    pub t_left: char,
    pub cross: char,
}

/// The characters a border style draws a table with; the banner-only styles
/// draw single lines.
pub open spec fn table_frame(style: BorderStyle) -> TableChars {
    match style {
        BorderStyle::Double => TableChars {
            tl: '\u{2554}', tr: '\u{2557}', bl: '\u{255A}', br: '\u{255D}', horiz: '\u{2550}', vert: '\u{2551}',
            t_down: '\u{2566}', t_up: '\u{2569}', t_right: '\u{2560}', t_left: '\u{2563}', cross: '\u{256C}',
        },
        BorderStyle::Heavy => TableChars {
            tl: '\u{2588}', tr: '\u{2588}', bl: '\u{2588}', br: '\u{2588}', horiz: '\u{2588}', vert: '\u{2588}',
            t_down: '\u{2588}', t_up: '\u{2588}', t_right: '\u{2588}', t_left: '\u{2588}', cross: '\u{2588}',
        },
        BorderStyle::Shade => TableChars {
            tl: '\u{2592}', tr: '\u{2592}', bl: '\u{2592}', br: '\u{2592}', horiz: '\u{2592}', vert: '\u{2592}',
            t_down: '\u{2592}', t_up: '\u{2592}', t_right: '\u{2592}', t_left: '\u{2592}', cross: '\u{2592}',
        },
        _ => TableChars {
            tl: '\u{250C}', tr: '\u{2510}', bl: '\u{2514}', br: '\u{2518}', horiz: '\u{2500}', vert: '\u{2502}',
            t_down: '\u{252C}', t_up: '\u{2534}', t_right: '\u{251C}', t_left: '\u{2524}', cross: '\u{253C}',
        },
    }
}

fn table_chars(style: BorderStyle) -> (c: TableChars)
    ensures
        c == table_frame(style),
{
    match style {
        BorderStyle::Double => TableChars {
            tl: '\u{2554}', tr: '\u{2557}', bl: '\u{255A}', br: '\u{255D}', horiz: '\u{2550}', vert: '\u{2551}',
            t_down: '\u{2566}', t_up: '\u{2569}', t_right: '\u{2560}', t_left: '\u{2563}', cross: '\u{256C}',
        },
        BorderStyle::Heavy => TableChars {
            tl: '\u{2588}', tr: '\u{2588}', bl: '\u{2588}', br: '\u{2588}', horiz: '\u{2588}', vert: '\u{2588}',
            t_down: '\u{2588}', t_up: '\u{2588}', t_right: '\u{2588}', t_left: '\u{2588}', cross: '\u{2588}',
        },
        BorderStyle::Shade => TableChars {
            tl: '\u{2592}', tr: '\u{2592}', bl: '\u{2592}', br: '\u{2592}', horiz: '\u{2592}', vert: '\u{2592}',
            t_down: '\u{2592}', t_up: '\u{2592}', t_right: '\u{2592}', t_left: '\u{2592}', cross: '\u{2592}',
        },
        _ => TableChars {
            tl: '\u{250C}', tr: '\u{2510}', bl: '\u{2514}', br: '\u{2518}', horiz: '\u{2500}', vert: '\u{2502}',
            t_down: '\u{252C}', t_up: '\u{2534}', t_right: '\u{251C}', t_left: '\u{2524}', cross: '\u{253C}',
        },
    }
}

/// The segments of a horizontal rule for the first `k` columns: `fill`
/// across each column and its padding, `junction` between columns.
pub open spec fn rule_cells(fill: char, junction: char, widths: Seq<usize>, k: nat) -> Seq<char>
    decreases k,
{
    if k == 0 {
        Seq::empty()
    } else {
        rule_cells(fill, junction, widths, (k - 1) as nat) + rep(fill, (widths[k - 1] + 2) as nat) + if k < widths.len() {
            seq![junction]
        } else {
            Seq::empty()
        }
    }
}

/// A horizontal rule across all columns between `left` and `right`.
pub open spec fn rule_row(left: char, fill: char, junction: char, right: char, widths: Seq<usize>) -> Seq<char> {
    seq![left] + rule_cells(fill, junction, widths, widths.len()) + seq![right]
}

fn horizontal_line(left: char, fill: char, junction: char, right: char, col_widths: &Vec<usize>) -> (line: String)
    ensures
        line@ == rule_row(left, fill, junction, right, col_widths@),
{
    let ghost ws = col_widths@;
    let mut line = String::new();
    push_char(&mut line, left);
    let mut i: usize = 0;
    while i < col_widths.len()
        invariant
            i <= col_widths@.len(),
            ws == col_widths@,
            line@ == seq![left] + rule_cells(fill, junction, ws, i as nat),
        decreases col_widths@.len() - i,
    {
        push_rep(&mut line, fill, col_widths[i]);
        push_char(&mut line, fill);
        push_char(&mut line, fill);
        if i + 1 < col_widths.len() {
            push_char(&mut line, junction);
        }
        i = i + 1;
        assert(rep(fill, (ws[i - 1] + 2) as nat) =~= rep(fill, ws[i - 1] as nat).push(fill).push(fill));
        assert(line@ =~= seq![left] + rule_cells(fill, junction, ws, i as nat));
    }
    push_char(&mut line, right);
    line
}

/// The text of cell `i` of a row; missing cells are empty.
pub open spec fn cell_text(cells: Seq<String>, i: int) -> Seq<char> {
    if 0 <= i < cells.len() { cells[i]@ } else { Seq::empty() }
}

/// The alignment of column `i`; columns past the list are left-aligned.
pub open spec fn cell_align(align: Seq<ColumnAlign>, i: int) -> ColumnAlign {
    if 0 <= i < align.len() { align[i] } else { ColumnAlign::Left }
}

/// `s` padded to `w` characters with the given alignment.
pub open spec fn aligned(s: Seq<char>, w: nat, a: ColumnAlign) -> Seq<char> {
    match a {
        ColumnAlign::Left => pad_right(s, w),
        ColumnAlign::Right => pad_left(s, w),
        ColumnAlign::Center => pad_center(s, w),
    }
}

/// One cell: a space, the text cut to the column's bytes and aligned in it, a space.
pub open spec fn cell_field(cells: Seq<String>, widths: Seq<usize>, align: Seq<ColumnAlign>, i: int) -> Seq<char> {
    seq![' '] + aligned(take_bytes(cell_text(cells, i), widths[i] as nat), widths[i] as nat, cell_align(align, i))
        + seq![' ']
}

/// The cells of the first `k` columns, `vert` between columns.
pub open spec fn row_cells(vert: char, cells: Seq<String>, widths: Seq<usize>, align: Seq<ColumnAlign>, k: nat) -> Seq<char>
    decreases k,
{
    if k == 0 {
        Seq::empty()
    } else {
        row_cells(vert, cells, widths, align, (k - 1) as nat) + cell_field(cells, widths, align, k - 1) + if k
            < widths.len() {
            seq![vert]
        } else {
            Seq::empty()
        }
    }
}

/// A data row across all columns between two `vert`s.
pub open spec fn row_line(vert: char, cells: Seq<String>, widths: Seq<usize>, align: Seq<ColumnAlign>) -> Seq<char> {
    seq![vert] + row_cells(vert, cells, widths, align, widths.len()) + seq![vert]
}

/// Whether every cell of a row can be cut to its column's width on a character boundary.
pub open spec fn row_cuttable(cells: Seq<String>, widths: Seq<usize>) -> bool {
    forall|i: int| 0 <= i < widths.len() ==> cuttable(#[trigger] cell_text(cells, i), widths[i] as nat)
}

fn push_cell(line: &mut String, cells: &Vec<String>, col_widths: &Vec<usize>, align: &Vec<ColumnAlign>, i: usize)
    requires
        i < col_widths@.len(),
        cuttable(cell_text(cells@, i as int), col_widths@[i as int] as nat),
    ensures
        final(line)@ == old(line)@ + cell_field(cells@, col_widths@, align@, i as int),
{
    let w = col_widths[i];
    let cell: &str = if i < cells.len() { cells[i].as_str() } else { "" };
    proof {
        reveal_strlit("");
        assert(cell@ == cell_text(cells@, i as int));
    }
    let truncated = truncate_bytes(cell, w);
    let alignment = if i < align.len() { align[i] } else { ColumnAlign::Left };
    push_char(line, ' ');
    match alignment {
        ColumnAlign::Left => push_pad_right(line, truncated, w),
        ColumnAlign::Right => push_pad_left(line, truncated, w),
        ColumnAlign::Center => push_pad_center(line, truncated, w),
    }
    push_char(line, ' ');
    assert(line@ =~= old(line)@ + cell_field(cells@, col_widths@, align@, i as int));
}

fn data_row(vert: char, cells: &Vec<String>, col_widths: &Vec<usize>, align: &Vec<ColumnAlign>) -> (line: String)
    requires
        row_cuttable(cells@, col_widths@),
    ensures
        line@ == row_line(vert, cells@, col_widths@, align@),
{
    let ghost ws = col_widths@;
    let mut line = String::new();
    push_char(&mut line, vert);
    let mut i: usize = 0;
    while i < col_widths.len()
        invariant
            i <= col_widths@.len(),
            ws == col_widths@,
            row_cuttable(cells@, ws),
            line@ == seq![vert] + row_cells(vert, cells@, ws, align@, i as nat),
        decreases col_widths@.len() - i,
    {
        assert(cuttable(cell_text(cells@, i as int), ws[i as int] as nat));
        push_cell(&mut line, cells, col_widths, align, i);
        if i + 1 < col_widths.len() {
            push_char(&mut line, vert);
        }
        i = i + 1;
        assert(line@ =~= seq![vert] + row_cells(vert, cells@, ws, align@, i as nat));
    }
    push_char(&mut line, vert);
    line
}

/// The longest of the first `k` rows, in cells.
pub open spec fn rows_max_len(rows: Seq<Vec<String>>, k: nat) -> nat
    decreases k,
{
    if k == 0 {
        0
    } else {
        let p = rows_max_len(rows, (k - 1) as nat);
        let l = rows[k - 1]@.len();
        if l > p { l } else { p }
    }
}

/// Number of columns: the header's or the longest row's, whichever is more.
pub open spec fn table_cols(t: Table) -> nat {
    let h = match t.headers {
        Some(h) => h@.len(),
        None => 0,
    };
    let r = rows_max_len(t.rows@, t.rows@.len());
    if h > r { h } else { r }
}

/// Byte length of cell `i` of a row; 0 for a missing cell.
pub open spec fn cell_len(cells: Seq<String>, i: int) -> usize {
    if 0 <= i < cells.len() { blen(cells[i]@) } else { 0 }
}

/// The widest cell of column `i` among the first `k` rows, in bytes.
pub open spec fn rows_col_max(rows: Seq<Vec<String>>, i: int, k: nat) -> usize
    decreases k,
{
    if k == 0 {
        0
    } else {
        let p = rows_col_max(rows, i, (k - 1) as nat);
        let l = cell_len(rows[k - 1]@, i);
        if l > p { l } else { p }
    }
}

/// The widest content of column `i`, header included, in bytes.
pub open spec fn col_content(t: Table, i: int) -> usize {
    let h = match t.headers {
        Some(h) => cell_len(h@, i),
        None => 0,
    };
    let r = rows_col_max(t.rows@, i, t.rows@.len());
    if h > r { h } else { r }
}

/// The widest content of every column.
pub open spec fn content_widths(t: Table) -> Seq<usize> {
    Seq::new(table_cols(t), |i: int| col_content(t, i))
}

/// The table's width in characters: its own, else the characters per line.
pub open spec fn table_width(t: Table, print_width: usize) -> usize {
    match t.width {
        Some(w) => w,
        None => print_width / 12,
    }
}

/// The column widths a table is drawn with.
pub open spec fn table_widths(t: Table, print_width: usize) -> Seq<usize> {
    col_widths(table_cols(t), content_widths(t), table_width(t, print_width))
}

/// A line of text followed by a newline.
pub open spec fn text_line(s: Seq<char>) -> Seq<OpV> {
    seq![OpV::Text(s), OpV::Newline]
}

/// The rule under the header row: double for mixed borders.
pub open spec fn header_rule(border: BorderStyle, widths: Seq<usize>) -> Seq<char> {
    let ch = table_frame(border);
    if border is Mixed {
        rule_row('\u{255E}', '\u{2550}', '\u{256A}', '\u{2561}', widths)
    } else {
        rule_row(ch.t_right, ch.horiz, ch.cross, ch.t_left, widths)
    }
}

/// The first `k` data rows, each followed by a separator rule when asked
/// for, except after the last row.
pub open spec fn body_ops(t: Table, widths: Seq<usize>, k: nat) -> Seq<OpV>
    decreases k,
{
    if k == 0 {
        Seq::empty()
    } else {
        let ch = table_frame(t.border);
        body_ops(t, widths, (k - 1) as nat) + text_line(row_line(ch.vert, t.rows@[k - 1]@, widths, t.align@)) + if t.row_separator
            && k < t.rows@.len() {
            text_line(rule_row(ch.t_right, ch.horiz, ch.cross, ch.t_left, widths))
        } else {
            Seq::empty()
        }
    }
}

/// The header row, bold, and its rule; nothing without headers.
pub open spec fn table_header_ops(t: Table, widths: Seq<usize>) -> Seq<OpV> {
    match t.headers {
        Some(h) => seq![OpV::SetBold(true)] + text_line(row_line(table_frame(t.border).vert, h@, widths, t.align@))
            + seq![OpV::SetBold(false)] + text_line(header_rule(t.border, widths)),
        None => Seq::empty(),
    }
}

/// Everything a table emits on a line `print_width` dots wide; nothing
/// when it has no columns.
pub open spec fn table_ops(t: Table, print_width: usize) -> Seq<OpV> {
    let widths = table_widths(t, print_width);
    let ch = table_frame(t.border);
    if table_cols(t) == 0 {
        Seq::empty()
    } else {
        seq![OpV::SetFont(Font::A), OpV::SetAlign(Alignment::Left)] + text_line(
            rule_row(ch.tl, ch.horiz, ch.t_down, ch.tr, widths),
        ) + table_header_ops(t, widths) + body_ops(t, widths, t.rows@.len()) + text_line(
            rule_row(ch.bl, ch.horiz, ch.t_up, ch.br, widths),
        )
    }
}

/// Whether a table can be drawn: its sizes fit in machine words, and every
/// cell can be cut to its column on a character boundary.
pub open spec fn table_ready(t: Table, print_width: usize) -> bool {
    let n = table_cols(t);
    let m = content_widths(t);
    let widths = table_widths(t, print_width);
    n == 0 || {
        &&& table_overhead(n as int) <= usize::MAX
        &&& width_sum(m) <= usize::MAX
        &&& products_fit(m, n, table_available(n, table_width(t, print_width)))
        &&& forall|r: int| 0 <= r < t.rows@.len() ==> row_cuttable(#[trigger] t.rows@[r]@, widths)
        &&& match t.headers {
            Some(h) => row_cuttable(h@, widths),
            None => true,
        }
    }
}

fn products_fit_in(m: &Vec<usize>, n: usize, available: usize) -> (b: bool)
    requires
        n <= m@.len(),
    ensures
        b == products_fit(m@, n as nat, available as nat),
{
    let mut i: usize = 0;
    while i < n
        invariant
            i <= n <= m@.len(),
            forall|j: int| 0 <= j < i ==> #[trigger] m@[j] * available <= usize::MAX,
        decreases n - i,
    {
        if m[i].checked_mul(available).is_none() {
            return false;
        }
        i = i + 1;
    }
    true
}

fn push_line(ctx: &mut EmitContext, line: String)
    ensures
        final(ctx).print_width == old(ctx).print_width,
        ops_view(final(ctx).ops@) == ops_view(old(ctx).ops@) + text_line(line@),
{
    let ghost l = line@;
    ctx.push(Op::Text(line));
    ctx.push(Op::Newline);
    assert(ops_view(ctx.ops@) =~= ops_view(old(ctx).ops@) + text_line(l));
}

impl Table {
    fn num_cols(&self) -> (n: usize)
        ensures
            n == table_cols(*self),
    {
        let mut r: usize = 0;
        let mut k: usize = 0;
        while k < self.rows.len()
            invariant
                k <= self.rows@.len(),
                r == rows_max_len(self.rows@, k as nat),
            decreases self.rows@.len() - k,
        {
            let l = self.rows[k].len();
            if l > r {
                r = l;
            }
            k = k + 1;
        }
        match &self.headers {
            Some(h) => if h.len() > r { h.len() } else { r },
            None => r,
        }
    }

    fn column_content(&self, i: usize) -> (w: usize)
        ensures
            w == col_content(*self, i as int),
    {
        let mut r: usize = 0;
        let mut k: usize = 0;
        while k < self.rows.len()
            invariant
                k <= self.rows@.len(),
                r == rows_col_max(self.rows@, i as int, k as nat),
            decreases self.rows@.len() - k,
        {
            if i < self.rows[k].len() {
                let l = byte_len(self.rows[k][i].as_str());
                if l > r {
                    r = l;
                }
            }
            k = k + 1;
        }
        match &self.headers {
            Some(h) => {
                if i < h.len() {
                    let l = byte_len(h[i].as_str());
                    if l > r { l } else { r }
                } else {
                    r
                }
            },
            None => r,
        }
    }

    fn content_widths_of(&self, n: usize) -> (m: Vec<usize>)
        requires
            n == table_cols(*self),
        ensures
            m@ == content_widths(*self),
    {
        let mut m: Vec<usize> = Vec::new();
        let mut i: usize = 0;
        while i < n
            invariant
                i <= n,
                n == table_cols(*self),
                m@.len() == i,
                forall|j: int| 0 <= j < i ==> #[trigger] m@[j] == col_content(*self, j),
            decreases n - i,
        {
            m.push(self.column_content(i));
            i = i + 1;
        }
        assert(m@ =~= content_widths(*self));
        m
    }

    fn emit_header(&self, ctx: &mut EmitContext, widths: &Vec<usize>, chars: TableChars)
        requires
            chars == table_frame(self.border),
            match self.headers {
                Some(h) => row_cuttable(h@, widths@),
                None => true,
            },
        ensures
            final(ctx).print_width == old(ctx).print_width,
            ops_view(final(ctx).ops@) == ops_view(old(ctx).ops@) + table_header_ops(*self, widths@),
    {
        let ghost b = ops_view(ctx.ops@);
        match &self.headers {
            Some(h) => {
                ctx.push(Op::SetBold(true));
                push_line(ctx, data_row(chars.vert, h, widths, &self.align));
                ctx.push(Op::SetBold(false));
                let sep = match self.border {
                    BorderStyle::Mixed => horizontal_line('\u{255E}', '\u{2550}', '\u{256A}', '\u{2561}', widths),
                    _ => horizontal_line(chars.t_right, chars.horiz, chars.cross, chars.t_left, widths),
                };
                push_line(ctx, sep);
                assert(ops_view(ctx.ops@) =~= b + table_header_ops(*self, widths@));
            },
            None => {
                assert(ops_view(ctx.ops@) =~= b + table_header_ops(*self, widths@));
            },
        }
    }

    fn emit_body(&self, ctx: &mut EmitContext, widths: &Vec<usize>, chars: TableChars)
        requires
            chars == table_frame(self.border),
            forall|r: int| 0 <= r < self.rows@.len() ==> row_cuttable(#[trigger] self.rows@[r]@, widths@),
        ensures
            final(ctx).print_width == old(ctx).print_width,
            ops_view(final(ctx).ops@) == ops_view(old(ctx).ops@) + body_ops(*self, widths@, self.rows@.len()),
    {
        let ghost b = ops_view(ctx.ops@);
        let mut k: usize = 0;
        while k < self.rows.len()
            invariant
                k <= self.rows@.len(),
                chars == table_frame(self.border),
                forall|r: int| 0 <= r < self.rows@.len() ==> row_cuttable(#[trigger] self.rows@[r]@, widths@),
                ctx.print_width == old(ctx).print_width,
                ops_view(ctx.ops@) == b + body_ops(*self, widths@, k as nat),
            decreases self.rows@.len() - k,
        {
            assert(row_cuttable(self.rows@[k as int]@, widths@));
            let ghost before = ops_view(ctx.ops@);
            push_line(ctx, data_row(chars.vert, &self.rows[k], widths, &self.align));
            if self.row_separator && k + 1 < self.rows.len() {
                push_line(ctx, horizontal_line(chars.t_right, chars.horiz, chars.cross, chars.t_left, widths));
            }
            k = k + 1;
            assert(ops_view(ctx.ops@) =~= b + body_ops(*self, widths@, k as nat));
        }
    }

    /// Whether the table can be drawn on a line `print_width` dots wide.
    pub open spec fn ready(self, print_width: usize) -> bool {
        table_ready(self, print_width)
    }

    /// Emit the table: Font A, left aligned, the top rule, the bold header
    /// and its rule, the data rows, the bottom rule; nothing without columns.
    pub fn emit(&self, ctx: &mut EmitContext)
        requires
            self.ready(old(ctx).print_width),
        ensures
            final(ctx).print_width == old(ctx).print_width,
            ops_view(final(ctx).ops@) == ops_view(old(ctx).ops@) + table_ops(*self, old(ctx).print_width),
    {
        let ghost b = ops_view(ctx.ops@);
        let total = match self.width {
            Some(w) => w,
            None => ctx.chars_per_line(),
        };
        let n = self.num_cols();
        if n == 0 {
            assert(ops_view(ctx.ops@) =~= b + table_ops(*self, old(ctx).print_width));
            return;
        }
        let max_widths = self.content_widths_of(n);
        let widths = compute_col_widths(n, max_widths.as_slice(), total);
        let chars = table_chars(self.border);
        ctx.push(Op::SetFont(Font::A));
        ctx.push(Op::SetAlign(Alignment::Left));
        push_line(ctx, horizontal_line(chars.tl, chars.horiz, chars.t_down, chars.tr, &widths));
        let ghost s1 = ops_view(ctx.ops@);
        self.emit_header(ctx, &widths, chars);
        let ghost s2 = ops_view(ctx.ops@);
        self.emit_body(ctx, &widths, chars);
        let ghost s3 = ops_view(ctx.ops@);
        push_line(ctx, horizontal_line(chars.bl, chars.horiz, chars.t_up, chars.br, &widths));
        assert(ops_view(ctx.ops@) =~= b + table_ops(*self, old(ctx).print_width));
    }
}

fn checked_width_sum(m: &Vec<usize>) -> (r: Option<usize>)
    ensures
        match r {
            Some(t) => t == width_sum(m@),
            None => width_sum(m@) > usize::MAX,
        },
{
    let mut t: usize = 0;
    let mut i: usize = 0;
    while i < m.len()
        invariant
            i <= m@.len(),
            t == width_sum(m@.take(i as int)),
        decreases m@.len() - i,
    {
        proof {
            lemma_width_sum_take(m@, i as int);
            lemma_width_sum_prefix(m@, i as int + 1);
        }
        match t.checked_add(m[i]) {
            Some(u) => t = u,
            None => return None,
        }
        i = i + 1;
    }
    assert(m@.take(i as int) =~= m@);
    Some(t)
}

fn row_can_cut(cells: &Vec<String>, widths: &Vec<usize>) -> (b: bool)
    ensures
        b == row_cuttable(cells@, widths@),
{
    let mut i: usize = 0;
    while i < widths.len()
        invariant
            i <= widths@.len(),
            forall|j: int| 0 <= j < i ==> cuttable(#[trigger] cell_text(cells@, j), widths@[j] as nat),
        decreases widths@.len() - i,
    {
        let cell: &str = if i < cells.len() { cells[i].as_str() } else { "" };
        proof {
            reveal_strlit("");
            assert(cell@ == cell_text(cells@, i as int));
        }
        if !can_cut(cell, widths[i]) {
            return false;
        }
        i = i + 1;
    }
    true
}

impl Table {
    /// Whether the table can be drawn on a line `print_width` dots wide.
    pub fn is_ready(&self, print_width: usize) -> (b: bool)
        ensures
            b == self.ready(print_width),
    {
        let n = self.num_cols();
        if n == 0 {
            return true;
        }
        if n > (usize::MAX - 1) / 3 {
            return false;
        }
        let total = match self.width {
            Some(w) => w,
            None => print_width / 12,
        };
        let m = self.content_widths_of(n);
        let sum = match checked_width_sum(&m) {
            Some(t) => t,
            None => return false,
        };
        let overhead = (n + 1) + 2 * n;
        let available = if total > overhead { total - overhead } else { 0 };
        if !products_fit_in(&m, n, available) {
            return false;
        }
        let widths = compute_col_widths(n, m.as_slice(), total);
        let ghost ws = table_widths(*self, print_width);
        assert(widths@ == ws);
        match &self.headers {
            Some(h) => {
                if !row_can_cut(h, &widths) {
                    return false;
                }
            },
            None => {},
        }
        let mut k: usize = 0;
        while k < self.rows.len()
            invariant
                k <= self.rows@.len(),
                widths@ == table_widths(*self, print_width),
                forall|r: int| 0 <= r < k ==> row_cuttable(#[trigger] self.rows@[r]@, widths@),
            decreases self.rows@.len() - k,
        {
            if !row_can_cut(&self.rows[k], &widths) {
                return false;
            }
            k = k + 1;
        }
        true
    }
}

/// Each cell of a data row is a space, the cell's text (empty for a missing
/// cell) cut to its column's width `w` in bytes, padded with spaces to `w`
/// characters, and a space. The `p` padding spaces (0 when the text fills
/// the column) go after the text in a left-aligned column (and in a column
/// with no alignment given), before it in a right-aligned one, and in a
/// centered column `p / 2` before and the rest after, so its two sides
/// differ by at most one space.
pub proof fn lemma_cell_alignment(cells: Seq<String>, widths: Seq<usize>, align: Seq<ColumnAlign>, i: int)
    requires
        0 <= i < widths.len(),
    ensures
        ({
            let f = cell_field(cells, widths, align, i);
            let text = if i < cells.len() { cells[i]@ } else { Seq::empty() };
            let t = take_bytes(text, widths[i] as nat);
            let l = t.len() as int;
            let p = if widths[i] > l { widths[i] - l } else { 0 };
            let before = match (if i < align.len() { align[i] } else { ColumnAlign::Left }) {
                ColumnAlign::Left => 0,
                ColumnAlign::Right => p,
                ColumnAlign::Center => p / 2,
            };
            &&& f.len() == l + p + 2
            &&& forall|k: int| 0 <= k <= before ==> f[k] == ' '
            &&& f.subrange(before + 1, before + 1 + l) == t
            &&& forall|k: int| before + 1 + l <= k < f.len() ==> f[k] == ' '
        }),
{
    let t = take_bytes(cell_text(cells, i), widths[i] as nat);
    let l = t.len() as int;
    let w = widths[i] as nat;
    let p = if widths[i] > l { widths[i] - l } else { 0 };
    assert(sat_sub(w as int, l) == p);
    let f = cell_field(cells, widths, align, i);
    let body = aligned(t, w, cell_align(align, i));
    assert(f == seq![' '] + body + seq![' ']);
    let before = match cell_align(align, i) {
        ColumnAlign::Left => 0,
        ColumnAlign::Right => p,
        ColumnAlign::Center => p / 2,
    };
    let after = p - before;
    assert(body =~= rep(' ', before as nat) + t + rep(' ', after as nat));
    assert forall|k: int| 0 <= k <= before implies f[k] == ' ' by {
        if k > 0 {
            assert(f[k] == body[k - 1]);
        }
    }
    assert(f.subrange(before + 1, before + 1 + l) =~= t) by {
        assert forall|k: int| 0 <= k < l implies f.subrange(before + 1, before + 1 + l)[k] == t[k] by {
            assert(f[before + 1 + k] == body[before + k]);
        }
    }
    assert forall|k: int| before + 1 + l <= k < f.len() implies f[k] == ' ' by {
        if k < f.len() - 1 {
            assert(f[k] == body[k - 1]);
        }
    }
}

} // verus!
