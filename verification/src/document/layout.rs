//! Emitting the layout components of a document: Divider, Spacer, BlankLine, Columns.

use crate::components::layout::{columns_line, columns_text, divider_char_of, emit_styled_line, styled_line_ops};
use crate::document::types::{BlankLine, Columns, Divider, DividerStyle, Spacer};
use crate::document::EmitContext;
use crate::ir::{op_if, ops_view, push_if, push_op, Alignment, Font, Op, OpV};
use crate::text::{rep, repeat_char};
use vstd::prelude::*;

verus! {

/// The character a divider of this style repeats.
pub open spec fn doc_divider_char(style: DividerStyle) -> char {
    match style {
        DividerStyle::Dashed => '-',
        DividerStyle::Solid => '\u{2500}',
        DividerStyle::Double => '\u{2550}',
        DividerStyle::Equals => '=',
    }
}

fn divider_char(style: DividerStyle) -> (c: char)
    ensures
        c == doc_divider_char(style),
{
    match style {
        DividerStyle::Dashed => '-',
        DividerStyle::Solid => '\u{2500}',
        DividerStyle::Double => '\u{2550}',
        DividerStyle::Equals => '=',
    }
}

impl Divider {
    /// Emit Font A, left alignment, the line and a newline; the line is as
    /// wide as given, else as the characters per line.
    pub fn emit(&self, ctx: &mut EmitContext)
        ensures
            final(ctx).print_width == old(ctx).print_width,
            ops_view(final(ctx).ops@) == ops_view(old(ctx).ops@) + seq![
                OpV::SetFont(Font::A),
                OpV::SetAlign(Alignment::Left),
                OpV::Text(rep(doc_divider_char(self.style), (match self.width {
                    Some(w) => w,
                    None => old(ctx).print_width / 12,
                }) as nat)),
                OpV::Newline,
            ],
    {
        let ghost b = ops_view(ctx.ops@);
        let width = match self.width {
            Some(w) => w,
            None => ctx.chars_per_line(),
        };
        let line = repeat_char(divider_char(self.style), width);
        ctx.push(Op::SetFont(Font::A));
        ctx.push(Op::SetAlign(Alignment::Left));
        ctx.push(Op::Text(line));
        ctx.push(Op::Newline);
        assert(ops_view(ctx.ops@) =~= b + seq![
            OpV::SetFont(Font::A),
            OpV::SetAlign(Alignment::Left),
            OpV::Text(rep(doc_divider_char(self.style), width as nat)),
            OpV::Newline,
        ]);
    }
}

impl Spacer {
    /// The feed in 1/4 mm units: the millimeters if given, else 12 per line
    /// (at most 255), else the raw units, else 0.
    pub open spec fn feed_units(self) -> u8 {
        match self.mm_units {
            Some(u) => u,
            None => match self.lines {
                Some(l) => if 12 * l > 255 { 255 } else { (12 * l) as u8 },
                None => match self.units {
                    Some(u) => u,
                    None => 0,
                },
            },
        }
    }

    /// Emit a feed of the spacer's units, when there are any.
    pub fn emit(&self, ctx: &mut EmitContext)
        ensures
            final(ctx).print_width == old(ctx).print_width,
            ops_view(final(ctx).ops@) == ops_view(old(ctx).ops@) + op_if(self.feed_units() > 0, OpV::Feed { units: self.feed_units() }),
    {
        let units: u8 = match self.mm_units {
            Some(u) => u,
            None => match self.lines {
                Some(l) => if l > 21 { 255 } else { 12 * l },
                None => match self.units {
                    Some(u) => u,
                    None => 0,
                },
            },
        };
        push_if(&mut ctx.ops, units > 0, Op::Feed { units });
    }
}

impl BlankLine {
    /// Emit a newline.
    pub fn emit(&self, ctx: &mut EmitContext)
        ensures
            final(ctx).print_width == old(ctx).print_width,
            ops_view(final(ctx).ops@) == ops_view(old(ctx).ops@).push(OpV::Newline),
    {
        ctx.push(Op::Newline);
    }
}

impl Columns {
    /// The width of the row: given, else the characters per line.
    pub open spec fn row_width(self, print_width: usize) -> usize {
        match self.width {
            Some(w) => w,
            None => print_width / 12,
        }
    }

    /// Emit Font A, then the styled row.
    pub fn emit(&self, ctx: &mut EmitContext)
        ensures
            final(ctx).print_width == old(ctx).print_width,
            ops_view(final(ctx).ops@) == ops_view(old(ctx).ops@) + seq![OpV::SetFont(Font::A)] + styled_line_ops(
                columns_line(self.left@, self.right@, self.row_width(old(ctx).print_width)),
                self.bold,
                self.underline,
                self.invert,
            ),
    {
        let width = match self.width {
            Some(w) => w,
            None => ctx.chars_per_line(),
        };
        let line = columns_text(self.left.as_str(), self.right.as_str(), width);
        ctx.push(Op::SetFont(Font::A));
        let ghost m = ops_view(ctx.ops@);
        emit_styled_line(&mut ctx.ops, line, self.bold, self.underline, self.invert);
        assert(ops_view(ctx.ops@) =~= ops_view(old(ctx).ops@) + seq![OpV::SetFont(Font::A)] + styled_line_ops(
            columns_line(self.left@, self.right@, self.row_width(old(ctx).print_width)),
            self.bold,
            self.underline,
            self.invert,
        ));
    }
}

} // verus!
