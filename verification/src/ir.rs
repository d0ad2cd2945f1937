//! The intermediate representation: printer operations and programs.

use vstd::prelude::*;

verus! {

/// Text alignment.
#[derive(Debug, Clone, Copy, PartialEq, Eq, Structural)]
pub enum Alignment {
    Left,
    Center,
    Right,
}

/// Printer font.
#[derive(Debug, Clone, Copy, PartialEq, Eq, Structural)]
pub enum Font {
    /// 12x24
    A,
    /// 9x24
    B,
    /// 9x17
    C,
}

/// QR code error correction level.
#[derive(Debug, Clone, Copy, PartialEq, Eq, Structural)]
pub enum QrErrorLevel {
    L,
    M,
    Q,
    H,
}

/// 1D barcode symbology.
#[derive(Debug, Clone, Copy, PartialEq, Eq, Structural)]
pub enum BarcodeKind {
    Code39,
    Code128,
    Ean13,
    UpcA,
    Itf,
}

/// How raster graphics are sent to the printer.
#[derive(Debug, Clone, Copy, PartialEq, Eq, Structural)]
pub enum GraphicsMode {
    /// ESC GS S raster mode.
    Raster,
    /// ESC k band mode (24-row chunks).
    Band,
}

/// A printer operation.
#[derive(Debug, Clone, PartialEq, Eq)]
pub enum Op {
    Init,
    SetCodepage(u8),
    SetAlign(Alignment),
    SetFont(Font),
    SetSmoothing(bool),
    SetBold(bool),
    SetUnderline(bool),
    SetUpperline(bool),
    SetInvert(bool),
    SetUpsideDown(bool),
    SetReduced(bool),
    SetExpandedWidth(u8),
    SetExpandedHeight(u8),
    SetSize { height: u8, width: u8 },
    Text(String),
    Newline,
    Cut { partial: bool },
    Feed { units: u8 },
    SetAbsolutePosition(u16),
    QrCode { data: String, cell_size: u8, error_level: QrErrorLevel },
    Pdf417 { data: String, module_width: u8, ecc_level: u8 },
    Barcode1D { kind: BarcodeKind, data: String, height: u8 },
    Raster { width: u16, height: u16, data: Vec<u8> },
    Band { width_bytes: u8, data: Vec<u8> },
    NvPrint { key: String, scale_x: u8, scale_y: u8 },
    Raw(Vec<u8>),
}

/// The mathematical value of an [`Op`]: strings as character sequences,
/// byte buffers as byte sequences.
pub enum OpV {
    Init,
    SetCodepage(u8),
    SetAlign(Alignment),
    SetFont(Font),
    SetSmoothing(bool),
    SetBold(bool),
    SetUnderline(bool),
    SetUpperline(bool),
    SetInvert(bool),
    SetUpsideDown(bool),
    SetReduced(bool),
    SetExpandedWidth(u8),
    SetExpandedHeight(u8),
    SetSize { height: u8, width: u8 },
    Text(Seq<char>),
    Newline,
    Cut { partial: bool },
    Feed { units: u8 },
    SetAbsolutePosition(u16),
    QrCode { data: Seq<char>, cell_size: u8, error_level: QrErrorLevel },
    Pdf417 { data: Seq<char>, module_width: u8, ecc_level: u8 },
    Barcode1D { kind: BarcodeKind, data: Seq<char>, height: u8 },
    Raster { width: u16, height: u16, data: Seq<u8> },
    Band { width_bytes: u8, data: Seq<u8> },
    NvPrint { key: Seq<char>, scale_x: u8, scale_y: u8 },
    Raw(Seq<u8>),
}

impl View for Op {
    type V = OpV;

    open spec fn view(&self) -> OpV {
        match self {
            Op::Init => OpV::Init,
            Op::SetCodepage(c) => OpV::SetCodepage(*c),
            Op::SetAlign(a) => OpV::SetAlign(*a),
            Op::SetFont(f) => OpV::SetFont(*f),
            Op::SetSmoothing(b) => OpV::SetSmoothing(*b),
            Op::SetBold(b) => OpV::SetBold(*b),
            Op::SetUnderline(b) => OpV::SetUnderline(*b),
            Op::SetUpperline(b) => OpV::SetUpperline(*b),
            Op::SetInvert(b) => OpV::SetInvert(*b),
            Op::SetUpsideDown(b) => OpV::SetUpsideDown(*b),
            Op::SetReduced(b) => OpV::SetReduced(*b),
            Op::SetExpandedWidth(n) => OpV::SetExpandedWidth(*n),
            Op::SetExpandedHeight(n) => OpV::SetExpandedHeight(*n),
            Op::SetSize { height, width } => OpV::SetSize { height: *height, width: *width },
            Op::Text(s) => OpV::Text(s@),
            Op::Newline => OpV::Newline,
            Op::Cut { partial } => OpV::Cut { partial: *partial },
            Op::Feed { units } => OpV::Feed { units: *units },
            Op::SetAbsolutePosition(p) => OpV::SetAbsolutePosition(*p),
            Op::QrCode { data, cell_size, error_level } => OpV::QrCode {
                data: data@,
                cell_size: *cell_size,
                error_level: *error_level,
            },
            Op::Pdf417 { data, module_width, ecc_level } => OpV::Pdf417 {
                data: data@,
                module_width: *module_width,
                ecc_level: *ecc_level,
            },
            Op::Barcode1D { kind, data, height } => OpV::Barcode1D {
                kind: *kind,
                data: data@,
                height: *height,
            },
            Op::Raster { width, height, data } => OpV::Raster {
                width: *width,
                height: *height,
                data: data@,
            },
            Op::Band { width_bytes, data } => OpV::Band { width_bytes: *width_bytes, data: data@ },
            Op::NvPrint { key, scale_x, scale_y } => OpV::NvPrint {
                key: key@,
                scale_x: *scale_x,
                scale_y: *scale_y,
            },
            Op::Raw(b) => OpV::Raw(b@),
        }
    }
}

/// Whether every op of `s` satisfies `p`.
pub open spec fn all_ops(s: Seq<OpV>, p: spec_fn(OpV) -> bool) -> bool {
    forall|i: int| 0 <= i < s.len() ==> #[trigger] p(s[i])
}

/// Every op of a concatenation satisfies `p` when every op of both parts does.
pub proof fn lemma_all_ops_concat(a: Seq<OpV>, b: Seq<OpV>, p: spec_fn(OpV) -> bool)
    requires
        all_ops(a, p),
        all_ops(b, p),
    ensures
        all_ops(a + b, p),
{
    assert forall|i: int| 0 <= i < (a + b).len() implies #[trigger] p((a + b)[i]) by {
        if i < a.len() {
            assert((a + b)[i] == a[i]);
        } else {
            assert((a + b)[i] == b[i - a.len()]);
        }
    }
}

/// `seq![op]` when `cond` holds, else the empty sequence.
pub open spec fn op_if(cond: bool, op: OpV) -> Seq<OpV> {
    if cond { seq![op] } else { Seq::empty() }
}

/// The values of a sequence of ops.
pub open spec fn ops_view(ops: Seq<Op>) -> Seq<OpV> {
    ops.map_values(|o: Op| o@)
}

/// The character styles the printer keeps from one text op to the next
/// (alignment, font and smoothing are left out: they persist by design).
pub struct Style {
    pub bold: bool,
    pub underline: bool,
    pub upperline: bool,
    pub invert: bool,
    pub upside_down: bool,
    pub reduced: bool,
    pub expanded_width: u8,
    pub expanded_height: u8,
    pub height_mult: u8,
    pub width_mult: u8,
}

/// The style after a printer reset: every style off.
pub open spec fn plain_style() -> Style {
    Style {
        bold: false,
        underline: false,
        upperline: false,
        invert: false,
        upside_down: false,
        reduced: false,
        expanded_width: 0,
        expanded_height: 0,
        height_mult: 0,
        width_mult: 0,
    }
}

/// The style after one op.
pub open spec fn apply_op(s: Style, op: OpV) -> Style {
    match op {
        OpV::Init => plain_style(),
        OpV::SetBold(b) => Style { bold: b, ..s },
        OpV::SetUnderline(b) => Style { underline: b, ..s },
        OpV::SetUpperline(b) => Style { upperline: b, ..s },
        OpV::SetInvert(b) => Style { invert: b, ..s },
        OpV::SetUpsideDown(b) => Style { upside_down: b, ..s },
        OpV::SetReduced(b) => Style { reduced: b, ..s },
        OpV::SetExpandedWidth(w) => Style { expanded_width: w, ..s },
        OpV::SetExpandedHeight(h) => Style { expanded_height: h, ..s },
        OpV::SetSize { height, width } => Style { height_mult: height, width_mult: width, ..s },
        _ => s,
    }
}

/// The style after a sequence of ops.
pub open spec fn run_ops(s: Style, ops: Seq<OpV>) -> Style
    decreases ops.len(),
{
    if ops.len() == 0 {
        s
    } else {
        apply_op(run_ops(s, ops.drop_last()), ops.last())
    }
}

/// Running two sequences one after the other is running their concatenation.
pub proof fn lemma_run_concat(s: Style, a: Seq<OpV>, b: Seq<OpV>)
    ensures
        run_ops(s, a + b) == run_ops(run_ops(s, a), b),
    decreases b.len(),
{
    if b.len() == 0 {
        assert(a + b =~= a);
    } else {
        assert((a + b).drop_last() =~= a + b.drop_last());
        lemma_run_concat(s, a, b.drop_last());
    }
}

/// Running at most one op.
pub proof fn lemma_run_op_if(s: Style, cond: bool, op: OpV)
    ensures
        run_ops(s, op_if(cond, op)) == if cond { apply_op(s, op) } else { s },
{
    assert(run_ops(s, Seq::<OpV>::empty()) == s);
    if cond {
        assert(op_if(cond, op).drop_last() =~= Seq::<OpV>::empty());
        assert(op_if(cond, op).last() == op);
    } else {
        assert(op_if(cond, op) =~= Seq::<OpV>::empty());
    }
}

/// Running a sequence and then at most one more op.
pub proof fn lemma_run_then(s: Style, a: Seq<OpV>, cond: bool, op: OpV)
    ensures
        run_ops(s, a + op_if(cond, op)) == if cond { apply_op(run_ops(s, a), op) } else { run_ops(s, a) },
{
    lemma_run_concat(s, a, op_if(cond, op));
    lemma_run_op_if(run_ops(s, a), cond, op);
}

/// Append one op to a buffer.
pub fn push_op(ops: &mut Vec<Op>, op: Op)
    ensures
        ops_view(final(ops)@) == ops_view(old(ops)@).push(op@),
{
    ops.push(op);
    assert(ops_view(ops@) =~= ops_view(old(ops)@).push(op@));
}

impl Op {
    /// An op with the same value.
    pub fn duplicate(&self) -> (r: Op)
        ensures
            r@ == self@,
    {
        match self {
            Op::Init => Op::Init,
            Op::SetCodepage(c) => Op::SetCodepage(*c),
            Op::SetAlign(a) => Op::SetAlign(*a),
            Op::SetFont(f) => Op::SetFont(*f),
            Op::SetSmoothing(b) => Op::SetSmoothing(*b),
            Op::SetBold(b) => Op::SetBold(*b),
            Op::SetUnderline(b) => Op::SetUnderline(*b),
            Op::SetUpperline(b) => Op::SetUpperline(*b),
            Op::SetInvert(b) => Op::SetInvert(*b),
            Op::SetUpsideDown(b) => Op::SetUpsideDown(*b),
            Op::SetReduced(b) => Op::SetReduced(*b),
            Op::SetExpandedWidth(n) => Op::SetExpandedWidth(*n),
            Op::SetExpandedHeight(n) => Op::SetExpandedHeight(*n),
            Op::SetSize { height, width } => Op::SetSize { height: *height, width: *width },
            Op::Text(s) => Op::Text(s.clone()),
            Op::Newline => Op::Newline,
            Op::Cut { partial } => Op::Cut { partial: *partial },
            Op::Feed { units } => Op::Feed { units: *units },
            Op::SetAbsolutePosition(p) => Op::SetAbsolutePosition(*p),
            Op::QrCode { data, cell_size, error_level } => Op::QrCode {
                data: data.clone(),
                cell_size: *cell_size,
                error_level: *error_level,
            },
            Op::Pdf417 { data, module_width, ecc_level } => Op::Pdf417 {
                data: data.clone(),
                module_width: *module_width,
                ecc_level: *ecc_level,
            },
            Op::Barcode1D { kind, data, height } => Op::Barcode1D {
                kind: *kind,
                data: data.clone(),
                height: *height,
            },
            Op::Raster { width, height, data } => {
                let d = copy_bytes(data);
                Op::Raster { width: *width, height: *height, data: d }
            },
            Op::Band { width_bytes, data } => {
                let d = copy_bytes(data);
                Op::Band { width_bytes: *width_bytes, data: d }
            },
            Op::NvPrint { key, scale_x, scale_y } => Op::NvPrint {
                key: key.clone(),
                scale_x: *scale_x,
                scale_y: *scale_y,
            },
            Op::Raw(b) => {
                let d = copy_bytes(b);
                Op::Raw(d)
            },
        }
    }
}

/// A copy of a byte buffer.
pub fn copy_bytes(b: &Vec<u8>) -> (r: Vec<u8>)
    ensures
        r@ == b@,
{
    let mut r: Vec<u8> = Vec::new();
    let mut i: usize = 0;
    while i < b.len()
        invariant
            i <= b.len(),
            r@ == b@.subrange(0, i as int),
        decreases b.len() - i,
    {
        r.push(b[i]);
        i = i + 1;
        assert(r@ =~= b@.subrange(0, i as int));
    }
    assert(b@.subrange(0, b.len() as int) =~= b@);
    r
}

/// Append `op` when `cond` holds.
pub fn push_if(ops: &mut Vec<Op>, cond: bool, op: Op)
    ensures
        ops_view(final(ops)@) == ops_view(old(ops)@) + op_if(cond, op@),
{
    if cond {
        push_op(ops, op);
    }
    assert(ops_view(ops@) =~= ops_view(old(ops)@) + op_if(cond, op@));
}

/// Append `op` to a buffer whose value is `base + acc`.
pub fn push_acc(ops: &mut Vec<Op>, op: Op, Ghost(base): Ghost<Seq<OpV>>, Ghost(acc): Ghost<Seq<OpV>>)
    requires
        ops_view(old(ops)@) == base + acc,
    ensures
        ops_view(final(ops)@) == base + (acc + seq![op@]),
{
    let ghost v = op@;
    push_op(ops, op);
    assert(base + (acc + seq![v]) =~= (base + acc).push(v));
}

/// Append `op` when `cond` holds to a buffer whose value is `base + acc`.
pub fn push_if_acc(
    ops: &mut Vec<Op>,
    cond: bool,
    op: Op,
    Ghost(base): Ghost<Seq<OpV>>,
    Ghost(acc): Ghost<Seq<OpV>>,
)
    requires
        ops_view(old(ops)@) == base + acc,
    ensures
        ops_view(final(ops)@) == base + (acc + op_if(cond, op@)),
{
    let ghost v = op@;
    push_if(ops, cond, op);
    assert(base + (acc + op_if(cond, v)) =~= (base + acc) + op_if(cond, v));
}

/// Append copies of all ops of `src` to `dst`.
pub fn extend_ops(dst: &mut Vec<Op>, src: &Vec<Op>)
    ensures
        ops_view(final(dst)@) == ops_view(old(dst)@) + ops_view(src@),
{
    let mut i: usize = 0;
    while i < src.len()
        invariant
            i <= src.len(),
            ops_view(dst@) == ops_view(old(dst)@) + ops_view(src@.subrange(0, i as int)),
        decreases src.len() - i,
    {
        let op = src[i].duplicate();
        push_op(dst, op);
        assert(ops_view(src@.subrange(0, i + 1)) =~= ops_view(src@.subrange(0, i as int)).push(
            src@[i as int]@,
        ));
        i = i + 1;
    }
    assert(src@.subrange(0, src.len() as int) =~= src@);
}

/// A compiled program: a sequence of ops.
#[derive(Debug, Clone)]
pub struct Program {
    pub ops: Vec<Op>,
}

impl Program {
    /// An empty program.
    pub fn new() -> (p: Program)
        ensures
            p.ops@.len() == 0,
    {
        Program { ops: Vec::new() }
    }

    /// Append an op.
    pub fn push(&mut self, op: Op)
        ensures
            ops_view(final(self).ops@) == ops_view(old(self).ops@).push(op@),
    {
        push_op(&mut self.ops, op);
    }

    /// Number of ops.
    pub fn len(&self) -> (n: usize)
        ensures
            n == self.ops@.len(),
    {
        self.ops.len()
    }

    /// Whether the program holds no op.
    pub fn is_empty(&self) -> (b: bool)
        ensures
            b == (self.ops@.len() == 0),
    {
        self.ops.len() == 0
    }
}

} // verus!
