//! Layout components: dividers, spacers, two-column rows, blank lines and raw ops.

use crate::components::Component;
use crate::ir::{extend_ops, op_if, ops_view, push_acc, push_if_acc, push_op, Alignment, Op, OpV};
use crate::text::{add_sat, blen, byte_len, pad_left, push_pad_left, push_str, rep, repeat_char, sat_add, sat_sub};
use vstd::prelude::*;

verus! {

/// Divider style options.
#[derive(Debug, Clone, Copy, PartialEq, Eq, Structural)]
pub enum DividerStyle {
    /// Dashed line: `-----`
    Dashed,
    /// Solid line: `─────`
    Solid,
    /// Double line: `═════`
    Double,
    /// Equals line: `=====`
    Equals,
}

impl Default for DividerStyle {
    fn default() -> (s: DividerStyle)
        ensures
            s == DividerStyle::Dashed,
    {
        DividerStyle::Dashed
    }
}

/// The character a divider of this style repeats.
pub open spec fn divider_char(style: DividerStyle) -> char {
    match style {
        DividerStyle::Dashed => '-',
        DividerStyle::Solid => '\u{2500}',
        DividerStyle::Double => '\u{2550}',
        DividerStyle::Equals => '=',
    }
}

/// The character a divider of this style repeats.
pub fn divider_char_of(style: DividerStyle) -> (c: char)
    ensures
        c == divider_char(style),
{
    match style {
        DividerStyle::Dashed => '-',
        DividerStyle::Solid => '\u{2500}',
        DividerStyle::Double => '\u{2550}',
        DividerStyle::Equals => '=',
    }
}

/// The value of a [`Divider`].
pub struct DividerModel {
    pub style: DividerStyle,
    pub width: usize,
}

/// A horizontal divider line.
pub struct Divider {
    style: DividerStyle,
    width: usize,
}

impl View for Divider {
    type V = DividerModel;

    closed spec fn view(&self) -> DividerModel {
        DividerModel { style: self.style, width: self.width }
    }
}

impl Divider {
    /// A divider of the given style, 48 characters wide.
    pub fn new(style: DividerStyle) -> (d: Divider)
        ensures
            d@ == (DividerModel { style, width: 48 }),
    {
        Divider { style, width: 48 }
    }

    /// A dashed divider.
    pub fn dashed() -> (d: Divider)
        ensures
            d@ == (DividerModel { style: DividerStyle::Dashed, width: 48 }),
    {
        Self::new(DividerStyle::Dashed)
    }

    /// A solid divider.
    pub fn solid() -> (d: Divider)
        ensures
            d@ == (DividerModel { style: DividerStyle::Solid, width: 48 }),
    {
        Self::new(DividerStyle::Solid)
    }

    /// A double-line divider.
    pub fn double() -> (d: Divider)
        ensures
            d@ == (DividerModel { style: DividerStyle::Double, width: 48 }),
    {
        Self::new(DividerStyle::Double)
    }

    /// An equals-sign divider.
    pub fn equals() -> (d: Divider)
        ensures
            d@ == (DividerModel { style: DividerStyle::Equals, width: 48 }),
    {
        Self::new(DividerStyle::Equals)
    }

    /// Set the character width.
    pub fn width(self, width: usize) -> (d: Divider)
        ensures
            d@ == (DividerModel { width, ..self@ }),
    {
        Divider { style: self.style, width }
    }
}

impl Default for Divider {
    fn default() -> (d: Divider)
        ensures
            d@ == (DividerModel { style: DividerStyle::Dashed, width: 48 }),
    {
        Self::dashed()
    }
}

impl Component for Divider {
    open spec fn ready(&self) -> bool {
        true
    }

    open spec fn emitted(&self) -> Seq<OpV> {
        seq![
            OpV::SetAlign(Alignment::Left),
            OpV::Text(rep(divider_char(self@.style), self@.width as nat)),
            OpV::Newline,
        ]
    }

    fn emit(&self, ops: &mut Vec<Op>) {
        let ghost b = ops_view(ops@);
        let line = repeat_char(divider_char_of(self.style), self.width);
        push_op(ops, Op::SetAlign(Alignment::Left));
        push_op(ops, Op::Text(line));
        push_op(ops, Op::Newline);
        assert(ops_view(ops@) =~= b + self.emitted());
    }
}

/// A vertical spacer (paper feed in 1/4 mm units).
pub struct Spacer {
    units: u8,
}

impl View for Spacer {
    type V = u8;

    closed spec fn view(&self) -> u8 {
        self.units
    }
}

/// Feed units for `n` lines of about 3 mm each: `min(12 n, 255)`.
pub open spec fn line_units(n: u8) -> u8 {
    if 12 * n > 255 { 255 } else { (12 * n) as u8 }
}

impl Spacer {
    /// A spacer about `n` lines tall (3 mm per line).
    pub fn lines(n: u8) -> (s: Spacer)
        ensures
            s@ == line_units(n),
    {
        let units: u8 = if n > 21 { 255 } else { 12 * n };
        Spacer { units }
    }

    /// A spacer of raw 1/4 mm units.
    pub fn units(units: u8) -> (s: Spacer)
        ensures
            s@ == units,
    {
        Spacer { units }
    }
}

impl Component for Spacer {
    open spec fn ready(&self) -> bool {
        true
    }

    open spec fn emitted(&self) -> Seq<OpV> {
        op_if(self@ > 0, OpV::Feed { units: self@ })
    }

    fn emit(&self, ops: &mut Vec<Op>) {
        crate::ir::push_if(ops, self.units > 0, Op::Feed { units: self.units });
    }
}

/// The line of a two-column row: `left`, then `right` right-aligned so that the
/// row fills `width` bytes.
pub open spec fn columns_line(left: Seq<char>, right: Seq<char>, width: usize) -> Seq<char> {
    let padding = sat_sub(width as int, sat_add(blen(left), blen(right)) as int);
    left + pad_left(right, (padding + blen(right)) as nat)
}

/// The text of a two-column row.
pub fn columns_text(left: &str, right: &str, width: usize) -> (line: String)
    ensures
        line@ == columns_line(left@, right@, width),
{
    let l = byte_len(left);
    let r = byte_len(right);
    let sum = add_sat(l, r);
    let padding = if width > sum { width - sum } else { 0 };
    let field = if padding > 0 { width - l } else { r };
    let mut line = left.to_owned();
    push_pad_left(&mut line, right, field);
    line
}

/// The value of a [`Columns`] row.
pub struct ColumnsModel {
    pub left: Seq<char>,
    pub right: Seq<char>,
    pub width: usize,
    pub bold: bool,
    pub underline: bool,
    pub invert: bool,
}

/// A two-column row (left and right aligned text on one line).
pub struct Columns {
    left: String,
    right: String,
    width: usize,
    bold: bool,
    underline: bool,
    invert: bool,
}

impl View for Columns {
    type V = ColumnsModel;

    closed spec fn view(&self) -> ColumnsModel {
        ColumnsModel {
            left: self.left@,
            right: self.right@,
            width: self.width,
            bold: self.bold,
            underline: self.underline,
            invert: self.invert,
        }
    }
}

impl Columns {
    /// A two-column row, 48 characters wide.
    pub fn new(left: &str, right: &str) -> (c: Columns)
        ensures
            c@ == (ColumnsModel {
                left: left@,
                right: right@,
                width: 48,
                bold: false,
                underline: false,
                invert: false,
            }),
    {
        Columns {
            left: left.to_owned(),
            right: right.to_owned(),
            width: 48,
            bold: false,
            underline: false,
            invert: false,
        }
    }

    /// Set the character width.
    pub fn width(self, width: usize) -> (c: Columns)
        ensures
            c@ == (ColumnsModel { width, ..self@ }),
    {
        let mut c = self;
        c.width = width;
        c
    }

    /// Make the row bold.
    pub fn bold(self) -> (c: Columns)
        ensures
            c@ == (ColumnsModel { bold: true, ..self@ }),
    {
        let mut c = self;
        c.bold = true;
        c
    }

    /// Underline the row.
    pub fn underline(self) -> (c: Columns)
        ensures
            c@ == (ColumnsModel { underline: true, ..self@ }),
    {
        let mut c = self;
        c.underline = true;
        c
    }

    /// Invert the row (white on black).
    pub fn invert(self) -> (c: Columns)
        ensures
            c@ == (ColumnsModel { invert: true, ..self@ }),
    {
        let mut c = self;
        c.invert = true;
        c
    }
}

/// The ops of a styled single line: left alignment, style on, text, newline, style off.
pub open spec fn styled_line_ops(line: Seq<char>, bold: bool, underline: bool, invert: bool) -> Seq<OpV> {
    seq![OpV::SetAlign(Alignment::Left)]
        + op_if(bold, OpV::SetBold(true))
        + op_if(underline, OpV::SetUnderline(true))
        + op_if(invert, OpV::SetInvert(true))
        + seq![OpV::Text(line), OpV::Newline]
        + op_if(invert, OpV::SetInvert(false))
        + op_if(underline, OpV::SetUnderline(false))
        + op_if(bold, OpV::SetBold(false))
}

/// Emit a styled single line.
pub fn emit_styled_line(ops: &mut Vec<Op>, line: String, bold: bool, underline: bool, invert: bool)
    ensures
        ops_view(final(ops)@) == ops_view(old(ops)@) + styled_line_ops(line@, bold, underline, invert),
{
    let ghost b = ops_view(ops@);
    let ghost l = line@;
    push_op(ops, Op::SetAlign(Alignment::Left));
    let ghost a0 = seq![OpV::SetAlign(Alignment::Left)];
    assert(ops_view(ops@) =~= b + a0);
    push_if_acc(ops, bold, Op::SetBold(true), Ghost(b), Ghost(a0));
    let ghost a1 = a0 + op_if(bold, OpV::SetBold(true));
    push_if_acc(ops, underline, Op::SetUnderline(true), Ghost(b), Ghost(a1));
    let ghost a2 = a1 + op_if(underline, OpV::SetUnderline(true));
    push_if_acc(ops, invert, Op::SetInvert(true), Ghost(b), Ghost(a2));
    let ghost a3 = a2 + op_if(invert, OpV::SetInvert(true));
    push_acc(ops, Op::Text(line), Ghost(b), Ghost(a3));
    let ghost a4 = a3 + seq![OpV::Text(l)];
    push_acc(ops, Op::Newline, Ghost(b), Ghost(a4));
    let ghost a5 = a3 + seq![OpV::Text(l), OpV::Newline];
    assert(a4 + seq![OpV::Newline] =~= a5);
    push_if_acc(ops, invert, Op::SetInvert(false), Ghost(b), Ghost(a5));
    let ghost a6 = a5 + op_if(invert, OpV::SetInvert(false));
    push_if_acc(ops, underline, Op::SetUnderline(false), Ghost(b), Ghost(a6));
    let ghost a7 = a6 + op_if(underline, OpV::SetUnderline(false));
    push_if_acc(ops, bold, Op::SetBold(false), Ghost(b), Ghost(a7));
}

impl Component for Columns {
    open spec fn ready(&self) -> bool {
        true
    }

    open spec fn emitted(&self) -> Seq<OpV> {
        styled_line_ops(
            columns_line(self@.left, self@.right, self@.width),
            self@.bold,
            self@.underline,
            self@.invert,
        )
    }

    fn emit(&self, ops: &mut Vec<Op>) {
        let line = columns_text(self.left.as_str(), self.right.as_str(), self.width);
        emit_styled_line(ops, line, self.bold, self.underline, self.invert);
    }
}

/// An empty line (just a newline).
pub struct BlankLine;

impl BlankLine {
    /// A blank line.
    pub fn new() -> BlankLine {
        BlankLine
    }
}

impl Default for BlankLine {
    fn default() -> BlankLine {
        BlankLine
    }
}

impl Component for BlankLine {
    open spec fn ready(&self) -> bool {
        true
    }

    open spec fn emitted(&self) -> Seq<OpV> {
        seq![OpV::Newline]
    }

    fn emit(&self, ops: &mut Vec<Op>) {
        push_op(ops, Op::Newline);
    }
}

/// Raw ops: the escape hatch for direct protocol access.
pub struct Raw {
    ops: Vec<Op>,
}

impl View for Raw {
    type V = Seq<OpV>;

    closed spec fn view(&self) -> Seq<OpV> {
        ops_view(self.ops@)
    }
}

impl Raw {
    /// Raw bytes, sent as one `Raw` op.
    pub fn bytes(data: Vec<u8>) -> (r: Raw)
        ensures
            r@ == seq![OpV::Raw(data@)],
    {
        let mut ops: Vec<Op> = Vec::new();
        push_op(&mut ops, Op::Raw(data));
        assert(ops_view(ops@) =~= seq![OpV::Raw(data@)]);
        Raw { ops }
    }

    /// The given ops.
    pub fn ops(ops: Vec<Op>) -> (r: Raw)
        ensures
            r@ == ops_view(ops@),
    {
        Raw { ops }
    }

    /// A single op.
    pub fn op(op: Op) -> (r: Raw)
        ensures
            r@ == seq![op@],
    {
        let mut ops: Vec<Op> = Vec::new();
        push_op(&mut ops, op);
        assert(ops_view(ops@) =~= seq![op@]);
        Raw { ops }
    }
}

impl Component for Raw {
    open spec fn ready(&self) -> bool {
        true
    }

    open spec fn emitted(&self) -> Seq<OpV> {
        self@
    }

    fn emit(&self, ops: &mut Vec<Op>) {
        extend_ops(ops, &self.ops);
    }
}

} // verus!
