//! Canvas geometry: rasters, content bounds and element layout records.

use vstd::prelude::*;

verus! {

/// A 1-bit raster: `height` rows of `row_bytes(width)` bytes, the most
/// significant bit leftmost, a set bit black.
#[derive(Debug, Clone)]
pub struct RawRaster {
    pub width: usize,
    pub height: usize,
    pub data: Vec<u8>,
}

/// Bounding box of a rendered canvas element, in canvas space.
#[derive(Debug, Clone)]
pub struct ElementLayout {
    /// Content bounds in canvas space.
    pub x: i32,
    pub y: i32,
    pub width: usize,
    pub height: usize,
    /// Offset from the content's origin to the element's origin.
    pub content_offset_x: i32,
    pub content_offset_y: i32,
    /// Full rendered size of the element, before cropping to its content.
    pub full_width: usize,
    pub full_height: usize,
}

/// Layout of a canvas: its size and the bounding box of every element.
#[derive(Debug, Clone)]
pub struct CanvasLayout {
    pub width: usize,
    pub height: usize,
    pub elements: Vec<ElementLayout>,
}

/// Bytes per raster row: `width / 8` rounded up.
pub open spec fn row_bytes(width: usize) -> int {
    width / 8 + if width % 8 != 0 { 1int } else { 0int }
}

/// Byte `i` of the data; bytes past the end read as white.
pub open spec fn byte_at(data: Seq<u8>, i: int) -> u8 {
    if 0 <= i < data.len() { data[i] } else { 0 }
}

/// Whether bit `i` of `b`, counted from the most significant, is set.
pub open spec fn bit_set(b: u8, i: int) -> bool {
    0 <= i < 8 && (b >> ((7 - i) as u8)) & 1u8 == 1u8
}

/// Whether pixel `8 * bx + i` of row `y` is black (bit `i` of byte `bx` of
/// the row); pixels in the padding of a row's last byte count.
pub open spec fn black_at(r: RawRaster, y: int, bx: int, i: int) -> bool {
    &&& 0 <= y < r.height
    &&& 0 <= bx < row_bytes(r.width)
    &&& bit_set(byte_at(r.data@, y * row_bytes(r.width) + bx), i)
}

/// A pixel's column, clamped to the last column of the raster.
pub open spec fn clamp_col(x: int, width: usize) -> int {
    if x < width - 1 { x } else { width - 1 }
}

/// Whether the raster has a black pixel.
pub open spec fn has_black(r: RawRaster) -> bool {
    exists|y: int, bx: int, i: int| black_at(r, y, bx, i)
}

/// `(min_x, min_y, max_x, max_y)` is the tight box of the black pixels:
/// the leftmost black column (or the width, for a black pixel only in the
/// padding), the first and last rows with black, and the rightmost black
/// column clamped to the raster.
pub open spec fn tight_bounds(r: RawRaster, min_x: int, min_y: int, max_x: int, max_y: int) -> bool {
    &&& min_x <= r.width
    &&& forall|y: int, bx: int, i: int| #[trigger] black_at(r, y, bx, i) ==> {
        &&& min_x <= 8 * bx + i
        &&& min_y <= y <= max_y
        &&& clamp_col(8 * bx + i, r.width) <= max_x
    }
    &&& min_x == r.width || exists|y: int, bx: int, i: int| #[trigger] black_at(r, y, bx, i) && 8 * bx + i == min_x
    &&& exists|bx: int, i: int| #[trigger] black_at(r, min_y, bx, i)
    &&& exists|bx: int, i: int| #[trigger] black_at(r, max_y, bx, i)
    &&& exists|y: int, bx: int, i: int| #[trigger] black_at(r, y, bx, i) && clamp_col(8 * bx + i, r.width) == max_x
}

fn first_set(b: u8) -> (i: usize)
    requires
        b != 0,
    ensures
        i < 8,
        bit_set(b, i as int),
        forall|j: int| 0 <= j < i ==> !bit_set(b, j),
{
    let mut i: usize = 0;
    while i < 8
        invariant
            i <= 8,
            b != 0,
            forall|j: int| 0 <= j < i ==> !bit_set(b, j),
        decreases 8 - i,
    {
        let s: u8 = 7 - i as u8;
        if (b >> s) & 1 == 1 {
            return i;
        }
        i = i + 1;
    }
    assert(!bit_set(b, 0) && !bit_set(b, 1) && !bit_set(b, 2) && !bit_set(b, 3));
    assert(!bit_set(b, 4) && !bit_set(b, 5) && !bit_set(b, 6) && !bit_set(b, 7));
    assert(b == 0) by (bit_vector)
        requires
            (b >> 7u8) & 1u8 != 1u8,
            (b >> 6u8) & 1u8 != 1u8,
            (b >> 5u8) & 1u8 != 1u8,
            (b >> 4u8) & 1u8 != 1u8,
            (b >> 3u8) & 1u8 != 1u8,
            (b >> 2u8) & 1u8 != 1u8,
            (b >> 1u8) & 1u8 != 1u8,
            (b >> 0u8) & 1u8 != 1u8,
    ;
    0
}

fn last_set(b: u8) -> (i: usize)
    requires
        b != 0,
    ensures
        i < 8,
        bit_set(b, i as int),
        forall|j: int| i < j < 8 ==> !bit_set(b, j),
{
    let mut k: usize = 8;
    while k > 0
        invariant
            k <= 8,
            b != 0,
            forall|j: int| k <= j < 8 ==> !bit_set(b, j),
        decreases k,
    {
        let i = k - 1;
        let s: u8 = 7 - i as u8;
        if (b >> s) & 1 == 1 {
            return i;
        }
        k = i;
    }
    assert(!bit_set(b, 0) && !bit_set(b, 1) && !bit_set(b, 2) && !bit_set(b, 3));
    assert(!bit_set(b, 4) && !bit_set(b, 5) && !bit_set(b, 6) && !bit_set(b, 7));
    assert(b == 0) by (bit_vector)
        requires
            (b >> 7u8) & 1u8 != 1u8,
            (b >> 6u8) & 1u8 != 1u8,
            (b >> 5u8) & 1u8 != 1u8,
            (b >> 4u8) & 1u8 != 1u8,
            (b >> 3u8) & 1u8 != 1u8,
            (b >> 2u8) & 1u8 != 1u8,
            (b >> 1u8) & 1u8 != 1u8,
            (b >> 0u8) & 1u8 != 1u8,
    ;
    0
}

/// Whether byte `bx` of row `yy` comes before byte `bx0` of row `y0` in scan order.
pub open spec fn scanned_before(yy: int, bb: int, y0: int, bx0: int) -> bool {
    yy < y0 || (yy == y0 && bb < bx0)
}

/// The running bounds after scanning every byte before byte `bx0` of row `y0`.
pub open spec fn scan_state(r: RawRaster, y0: int, bx0: int, min_x: int, min_y: int, max_x: int, max_y: int) -> bool {
    let seen = exists|yy: int, bb: int, i: int| #[trigger] black_at(r, yy, bb, i) && scanned_before(yy, bb, y0, bx0);
    &&& 0 <= min_x <= r.width
    &&& 0 <= max_x
    &&& forall|yy: int, bb: int, i: int| #[trigger] black_at(r, yy, bb, i) && scanned_before(yy, bb, y0, bx0) ==> {
        &&& min_x <= 8 * bb + i
        &&& min_y <= yy <= max_y
        &&& clamp_col(8 * bb + i, r.width) <= max_x
    }
    &&& min_x == r.width || exists|yy: int, bb: int, i: int| #[trigger] black_at(r, yy, bb, i) && scanned_before(yy, bb, y0, bx0)
        && 8 * bb + i == min_x
    &&& max_x == 0 || exists|yy: int, bb: int, i: int| #[trigger] black_at(r, yy, bb, i) && scanned_before(yy, bb, y0, bx0)
        && clamp_col(8 * bb + i, r.width) == max_x
    &&& seen ==> min_y <= max_y && (exists|bb: int, i: int| #[trigger] black_at(r, min_y, bb, i)) && (exists|bb: int, i: int|
        #[trigger] black_at(r, max_y, bb, i))
    &&& !seen ==> min_y == r.height && max_y == 0
}

proof fn lemma_zero_byte()
    by (bit_vector)
    ensures
        forall|s: u8| #[trigger] ((0u8 >> s) & 1u8) == 0u8,
{
}

fn scan_byte(r: &RawRaster, y: usize, bx: usize, wb: usize, b: u8, st: (usize, usize, usize, usize)) -> (ns: (
    usize,
    usize,
    usize,
    usize,
))
    requires
        wb == row_bytes(r.width),
        y < r.height,
        bx < wb,
        b == byte_at(r.data@, y * wb + bx),
        r.width > 0,
        r.width + 7 <= usize::MAX,
        scan_state(*r, y as int, bx as int, st.0 as int, st.1 as int, st.2 as int, st.3 as int),
    ensures
        scan_state(*r, y as int, bx + 1, ns.0 as int, ns.1 as int, ns.2 as int, ns.3 as int),
{
    let (mut min_x, mut min_y, mut max_x, mut max_y) = st;
    if b == 0 {
        proof {
            lemma_zero_byte();
            assert forall|yy: int, bb: int, i: int| #[trigger] black_at(*r, yy, bb, i) && scanned_before(yy, bb, y as int, bx + 1)
                implies scanned_before(yy, bb, y as int, bx as int) by {
                if yy == y && bb == bx {
                    assert((0u8 >> ((7 - i) as u8)) & 1u8 == 0u8);
                }
            }
        }
        return st;
    }
    let first = first_set(b);
    let last = last_set(b);
    assert(8 * bx + 7 < 8 * wb);
    let ghost was_seen = exists|yy: int, bb: int, i: int| #[trigger] black_at(*r, yy, bb, i) && scanned_before(yy, bb, y as int, bx as int);
    assert(black_at(*r, y as int, bx as int, first as int));
    assert(black_at(*r, y as int, bx as int, last as int));
    if y < min_y {
        min_y = y;
    }
    if y > max_y {
        max_y = y;
    }
    let left = bx * 8 + first;
    let right0 = bx * 8 + last;
    let right = if right0 < r.width - 1 { right0 } else { r.width - 1 };
    if left < min_x {
        min_x = left;
    }
    if right > max_x {
        max_x = right;
    }
    proof {
        assert forall|yy: int, bb: int, i: int| #[trigger] black_at(*r, yy, bb, i) && scanned_before(yy, bb, y as int, bx + 1)
            implies min_x <= 8 * bb + i && min_y <= yy <= max_y && clamp_col(8 * bb + i, r.width) <= max_x by {
            if yy == y && bb == bx {
                assert(first <= i <= last);
            } else {
                assert(scanned_before(yy, bb, y as int, bx as int));
            }
        }
    }
    (min_x, min_y, max_x, max_y)
}

/// The tight box `(min_x, min_y, max_x, max_y)`, inclusive, of the black
/// pixels of a raster, scanning whole bytes; `None` when no pixel is black.
pub fn content_bounds(raster: &RawRaster) -> (r: Option<(usize, usize, usize, usize)>)
    requires
        raster.width + 7 <= usize::MAX,
        raster.height * row_bytes(raster.width) <= usize::MAX,
    ensures
        match r {
            None => !has_black(*raster),
            Some(b) => tight_bounds(*raster, b.0 as int, b.1 as int, b.2 as int, b.3 as int),
        },
{
    let width = raster.width;
    let height = raster.height;
    if width == 0 || height == 0 {
        return None;
    }
    let wb = width / 8 + if width % 8 != 0 { 1 } else { 0 };
    let mut st: (usize, usize, usize, usize) = (width, height, 0, 0);
    let mut y: usize = 0;
    let mut row_offset: usize = 0;
    while y < height
        invariant
            wb == row_bytes(width),
            width == raster.width,
            height == raster.height,
            width > 0,
            width + 7 <= usize::MAX,
            height * wb <= usize::MAX,
            y <= height,
            row_offset == y * wb,
            scan_state(*raster, y as int, 0, st.0 as int, st.1 as int, st.2 as int, st.3 as int),
        decreases height - y,
    {
        let mut bx: usize = 0;
        assert(row_offset + wb <= height * wb) by (nonlinear_arith)
            requires
                row_offset == y * wb,
                y < height,
        ;
        while bx < wb
            invariant
                wb == row_bytes(width),
                width == raster.width,
                height == raster.height,
                width > 0,
                width + 7 <= usize::MAX,
                y < height,
                row_offset == y * wb,
                row_offset + wb <= usize::MAX,
                bx <= wb,
                scan_state(*raster, y as int, bx as int, st.0 as int, st.1 as int, st.2 as int, st.3 as int),
            decreases wb - bx,
        {
            let idx = row_offset + bx;
            let byte = if idx < raster.data.len() { raster.data[idx] } else { 0 };
            st = scan_byte(raster, y, bx, wb, byte, st);
            bx = bx + 1;
        }
        proof {
            assert forall|yy: int, bb: int, i: int| #[trigger] black_at(*raster, yy, bb, i) implies scanned_before(yy, bb, y + 1, 0)
                == scanned_before(yy, bb, y as int, wb as int) by {}
        }
        assert((y + 1) * wb == y * wb + wb) by (nonlinear_arith);
        row_offset = row_offset + wb;
        y = y + 1;
    }
    if st.1 > st.3 {
        None
    } else {
        Some(st)
    }
}

/// What rendering one canvas element gave: the position it was given, if
/// any, its full size, and the tight box `(min_x, min_y, max_x, max_y)` of
/// its black pixels relative to its own origin (`None` when all white).
#[derive(Debug, Clone, Copy)]
pub struct ElementMeasurement {
    pub position: Option<(i32, i32)>,
    pub full_width: usize,
    pub full_height: usize,
    pub content_bounds: Option<(usize, usize, usize, usize)>,
}

/// How far an element pushes down the elements that flow after it: its
/// height when it has no position of its own.
pub open spec fn flow_advance(m: Option<ElementMeasurement>) -> int {
    match m {
        Some(e) => if e.position is None { e.full_height as int } else { 0 },
        None => 0,
    }
}

/// Where the `k`-th flowing element starts: the elements without a
/// position are stacked from the top, each below the previous one.
pub open spec fn flow_top(ms: Seq<Option<ElementMeasurement>>, k: nat) -> int
    decreases k,
{
    if k == 0 {
        0
    } else {
        flow_top(ms, (k - 1) as nat) + flow_advance(ms[k - 1])
    }
}

/// The origin of element `k` on the canvas: its position, or its place in
/// the flow.
pub open spec fn element_origin(ms: Seq<Option<ElementMeasurement>>, k: nat) -> (int, int) {
    match ms[k as int] {
        Some(e) => match e.position {
            Some(p) => (p.0 as int, p.1 as int),
            None => (0, flow_top(ms, k)),
        },
        None => (0, 0),
    }
}

/// Where element `k` ends at the bottom, counted from the top of the canvas
/// and never above it.
pub open spec fn element_bottom(ms: Seq<Option<ElementMeasurement>>, k: nat) -> int {
    let b = element_origin(ms, k).1 + ms[k as int]->0.full_height;
    if b < 0 { 0 } else { b }
}

/// The lowest bottom of the first `k` rendered elements, if any rendered.
pub open spec fn lowest_bottom(ms: Seq<Option<ElementMeasurement>>, k: nat) -> Option<int>
    decreases k,
{
    if k == 0 {
        None
    } else {
        let prev = lowest_bottom(ms, (k - 1) as nat);
        if ms[k - 1] is Some {
            let b = element_bottom(ms, (k - 1) as nat);
            match prev {
                Some(p) => Some(if p < b { b } else { p }),
                None => Some(b),
            }
        } else {
            prev
        }
    }
}

/// The record of an element on the canvas: its content box in canvas
/// space, with its full size; the full box when it is all white; all zero
/// when it rendered nothing.
pub open spec fn layout_of(l: ElementLayout, m: Option<ElementMeasurement>, ox: int, oy: int) -> bool {
    match m {
        None => l.x == 0 && l.y == 0 && l.width == 0 && l.height == 0 && l.content_offset_x == 0
            && l.content_offset_y == 0 && l.full_width == 0 && l.full_height == 0,
        Some(e) => {
            &&& l.full_width == e.full_width
            &&& l.full_height == e.full_height
            &&& match e.content_bounds {
                Some(b) => l.x == ox + b.0 && l.y == oy + b.1 && l.width == b.2 - b.0 + 1 && l.height == b.3 - b.1
                    + 1 && l.content_offset_x == b.0 && l.content_offset_y == b.1,
                None => l.x == ox && l.y == oy && l.width == e.full_width && l.height == e.full_height
                    && l.content_offset_x == 0 && l.content_offset_y == 0,
            }
        },
    }
}

/// Every coordinate the layout computes fits an `i32`, and every content
/// box is a box: what the measurements of a real canvas satisfy.
pub open spec fn measurements_fit(ms: Seq<Option<ElementMeasurement>>) -> bool {
    &&& forall|k: nat| k <= ms.len() ==> #[trigger] flow_top(ms, k) <= i32::MAX
    &&& forall|k: nat|
        k < ms.len() && ms[k as int] is Some ==> {
            let e = #[trigger] ms[k as int]->0;
            let (ox, oy) = element_origin(ms, k);
            &&& e.full_height <= i32::MAX
            &&& i32::MIN <= oy + e.full_height <= i32::MAX
            &&& match e.content_bounds {
                Some(b) => b.0 <= b.2 < usize::MAX && b.1 <= b.3 < usize::MAX && b.0 <= i32::MAX && b.1 <= i32::MAX
                    && i32::MIN <= ox + b.0 <= i32::MAX && i32::MIN <= oy + b.1 <= i32::MAX,
                None => true,
            }
        }
}

proof fn lemma_flow_top_nonneg(ms: Seq<Option<ElementMeasurement>>, k: nat)
    ensures
        flow_top(ms, k) >= 0,
    decreases k,
{
    if k > 0 {
        lemma_flow_top_nonneg(ms, (k - 1) as nat);
    }
}

/// The layout of a canvas from what rendering its elements gave: the
/// canvas is `width` wide, or as wide as the paper; elements without a
/// position flow from the top, one below the other; each element is recorded
/// by its content box in canvas space; and the canvas is `height` tall, or
/// as tall as the lowest element reaches (one dot when nothing rendered).
pub fn layout_from_measurements(
    width: Option<usize>,
    height: Option<usize>,
    print_width: usize,
    ms: &Vec<Option<ElementMeasurement>>,
) -> (l: CanvasLayout)
    requires
        measurements_fit(ms@),
    ensures
        l.width == (match width { Some(w) => w, None => print_width }),
        l.height == (match height {
            Some(h) => h as int,
            None => match lowest_bottom(ms@, ms@.len()) {
                Some(b) => b,
                None => 1,
            },
        }),
        l.elements@.len() == ms@.len(),
        forall|k: int|
            0 <= k < ms@.len() ==> layout_of(
                #[trigger] l.elements@[k],
                ms@[k],
                element_origin(ms@, k as nat).0,
                element_origin(ms@, k as nat).1,
            ),
{
    let canvas_width = match width {
        Some(w) => w,
        None => print_width,
    };
    let mut layouts: Vec<ElementLayout> = Vec::new();
    let mut lowest: Option<usize> = None;
    let mut flow_y: i32 = 0;
    let mut i: usize = 0;
    while i < ms.len()
        invariant
            measurements_fit(ms@),
            i <= ms@.len(),
            layouts@.len() == i,
            flow_y as int == flow_top(ms@, i as nat),
            match lowest {
                Some(b) => lowest_bottom(ms@, i as nat) == Some(b as int),
                None => lowest_bottom(ms@, i as nat) is None,
            },
            forall|k: int|
                0 <= k < i ==> layout_of(
                    #[trigger] layouts@[k],
                    ms@[k],
                    element_origin(ms@, k as nat).0,
                    element_origin(ms@, k as nat).1,
                ),
        decreases ms@.len() - i,
    {
        proof {
            lemma_flow_top_nonneg(ms@, i as nat);
            assert(flow_top(ms@, (i + 1) as nat) <= i32::MAX);
        }
        match ms[i] {
            Some(e) => {
                let ghost k = i as nat;
                assert(ms@[k as int] is Some);
                let (ex, ey): (i32, i32) = match e.position {
                    Some(p) => p,
                    None => {
                        let top = flow_y;
                        flow_y = flow_y + e.full_height as i32;
                        (0, top)
                    },
                };
                let bottom_i: i32 = ey + e.full_height as i32;
                let bottom: usize = if bottom_i < 0 { 0 } else { bottom_i as usize };
                lowest = match lowest {
                    Some(b) => Some(if b < bottom { bottom } else { b }),
                    None => Some(bottom),
                };
                let rec = match e.content_bounds {
                    Some(b) => ElementLayout {
                        x: ex + b.0 as i32,
                        y: ey + b.1 as i32,
                        width: b.2 - b.0 + 1,
                        height: b.3 - b.1 + 1,
                        content_offset_x: b.0 as i32,
                        content_offset_y: b.1 as i32,
                        full_width: e.full_width,
                        full_height: e.full_height,
                    },
                    None => ElementLayout {
                        x: ex,
                        y: ey,
                        width: e.full_width,
                        height: e.full_height,
                        content_offset_x: 0,
                        content_offset_y: 0,
                        full_width: e.full_width,
                        full_height: e.full_height,
                    },
                };
                layouts.push(rec);
            },
            None => {
                layouts.push(
                    ElementLayout {
                        x: 0,
                        y: 0,
                        width: 0,
                        height: 0,
                        content_offset_x: 0,
                        content_offset_y: 0,
                        full_width: 0,
                        full_height: 0,
                    },
                );
            },
        }
        i = i + 1;
    }
    let canvas_height = match height {
        Some(h) => h,
        None => match lowest {
            Some(b) => b,
            None => 1,
        },
    };
    CanvasLayout { width: canvas_width, height: canvas_height, elements: layouts }
}

/// A recorded element maps back to where it was placed: its content
/// position minus its content offset is its origin.
pub proof fn lemma_offsets_recover_origin(l: ElementLayout, m: ElementMeasurement, ox: int, oy: int)
    requires
        layout_of(l, Some(m), ox, oy),
    ensures
        l.x - l.content_offset_x == ox,
        l.y - l.content_offset_y == oy,
{
}

proof fn lemma_flow_top_monotone(ms: Seq<Option<ElementMeasurement>>, j: nat, k: nat)
    requires
        j <= k,
    ensures
        flow_top(ms, j) <= flow_top(ms, k),
    decreases k - j,
{
    if j < k {
        lemma_flow_top_monotone(ms, j, (k - 1) as nat);
        assert(flow_advance(ms[k - 1]) >= 0);
    }
}

/// Elements without a position do not overlap: each starts no higher than
/// where every earlier flowing element ends.
pub proof fn lemma_flow_elements_stack(ms: Seq<Option<ElementMeasurement>>, j: nat, k: nat)
    requires
        j < k < ms.len(),
        ms[j as int] is Some && ms[j as int]->0.position is None,
        ms[k as int] is Some && ms[k as int]->0.position is None,
    ensures
        element_origin(ms, j).1 + ms[j as int]->0.full_height <= element_origin(ms, k).1,
{
    lemma_flow_top_monotone(ms, j + 1, k);
}

/// Without a height of its own, a canvas is tall enough for the full box of
/// every element that rendered.
pub proof fn lemma_lowest_bottom_covers(ms: Seq<Option<ElementMeasurement>>, j: nat, k: nat)
    requires
        j < k <= ms.len(),
        ms[j as int] is Some,
    ensures
        lowest_bottom(ms, k) is Some,
        element_bottom(ms, j) <= lowest_bottom(ms, k)->0,
        element_origin(ms, j).1 + ms[j as int]->0.full_height <= lowest_bottom(ms, k)->0,
    decreases k - j,
{
    if j + 1 < k {
        lemma_lowest_bottom_covers(ms, j, (k - 1) as nat);
    }
}

} // verus!
