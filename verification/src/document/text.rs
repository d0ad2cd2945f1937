//! Emitting the text components of a document: Text, Header, LineItem, Total.

use crate::components::text::{text_settings, text_style_off, text_style_on, lemma_text_restores_style, emit_total_line, line_item_line, line_item_name_room, line_item_text, total_line, total_text, text_ops};
use crate::components::{Component, TextModel};
use crate::document::types::{
    dec, doc_text_model, text_alignment, text_is_scaled, text_scaled, text_smoothing, Header, LineItem, Text, Total,
};
use crate::ir::{all_ops, lemma_all_ops_concat, lemma_run_then, op_if, ops_view, plain_style, push_if, push_op, run_ops, Alignment, Font, Op, OpV};
use crate::markdown::opt_view;
use crate::text::{byte_len, can_cut, cuttable, str_eq};
use vstd::prelude::*;

verus! {

/// What a document text emits: its component text, then smoothing off again
/// when it was switched on only because the text is enlarged.
pub open spec fn doc_text_ops(t: Text) -> Seq<OpV> {
    text_ops(doc_text_model(t)) + op_if(t.smoothing is None && text_is_scaled(t), OpV::SetSmoothing(false))
}

/// Starting from the plain style, a document text leaves the printer in the
/// plain style.
pub proof fn lemma_doc_text_restores_style(t: Text)
    ensures
        run_ops(plain_style(), doc_text_ops(t)) == plain_style(),
{
    lemma_text_restores_style(doc_text_model(t));
    lemma_run_then(plain_style(), text_ops(doc_text_model(t)), t.smoothing is None && text_is_scaled(t), OpV::SetSmoothing(false));
}

fn resolve_alignment(t: &Text) -> (a: Option<Alignment>)
    ensures
        a == text_alignment(*t),
{
    match &t.align {
        Some(a) => {
            let s = a.as_str();
            proof {
                reveal_strlit("center");
                reveal_strlit("right");
                reveal_strlit("left");
            }
            if str_eq(s, "center") {
                Some(Alignment::Center)
            } else if str_eq(s, "right") {
                Some(Alignment::Right)
            } else if str_eq(s, "left") {
                Some(Alignment::Left)
            } else {
                None
            }
        },
        None => if t.center {
            Some(Alignment::Center)
        } else if t.right {
            Some(Alignment::Right)
        } else {
            Some(Alignment::Left)
        },
    }
}

impl Text {
    /// Whether this text prints with printer fonts (no custom font).
    pub open spec fn printable(self) -> bool {
        self.font is None
    }

    /// Emit the ops of this text.
    pub fn emit(&self, ops: &mut Vec<Op>)
        requires
            self.printable(),
        ensures
            ops_view(final(ops)@) == ops_view(old(ops)@) + doc_text_ops(*self),
    {
        let alignment = resolve_alignment(self);
        let h = self.size[0];
        let w = self.size[1];
        let font = if h == 0 && w == 0 { Font::B } else { Font::A };
        let esc_h: u8 = if h > 0 { h - 1 } else { 0 };
        let esc_w: u8 = if w > 0 { w - 1 } else { 0 };
        let (scaled_width, scaled_height): (u8, u8) = match self.scale {
            Some(s) => (s[1], s[0]),
            None => (if self.double_width { 1 } else { 0 }, if self.double_height { 1 } else { 0 }),
        };
        let is_scaled = scaled_width > 0 || scaled_height > 0 || esc_h > 0 || esc_w > 0;
        let smoothing = match self.smoothing {
            Some(e) => Some(e),
            None => if is_scaled { Some(true) } else { None },
        };
        let text = crate::components::Text::from_model_parts(
            self.content.clone(),
            !self.inline,
            (self.bold, self.underline, self.upperline, self.invert, self.upside_down, self.reduced),
            smoothing,
            (scaled_width, scaled_height),
            Some(font),
            alignment,
            (esc_h, esc_w),
        );
        assert(text@ == doc_text_model(*self));
        text.emit(ops);
        push_if(ops, self.smoothing.is_none() && is_scaled, Op::SetSmoothing(false));
    }
}

/// The text a header prints as.
pub open spec fn header_text(h: Header) -> TextModel {
    let small = match h.variant {
        Some(v) => v@ == "small"@,
        None => false,
    };
    TextModel {
        content: h.content@,
        newline: true,
        bold: true,
        underline: false,
        upperline: false,
        invert: false,
        smoothing: if small { None } else { Some(true) },
        upside_down: false,
        reduced: false,
        scaled_width: 0,
        scaled_height: 0,
        font: Some(Font::A),
        alignment: Some(Alignment::Center),
        height_mult: if small { 0 } else { 1 },
        width_mult: if small { 0 } else { 1 },
    }
}

/// What a header emits: a centered bold text, double size unless `variant` is "small".
pub open spec fn header_ops(h: Header) -> Seq<OpV> {
    let small = match h.variant {
        Some(v) => v@ == "small"@,
        None => false,
    };
    text_ops(header_text(h)) + op_if(!small, OpV::SetSmoothing(false))
}

/// Starting from the plain style, a header leaves the printer in the plain style.
pub proof fn lemma_header_restores_style(h: Header)
    ensures
        run_ops(plain_style(), header_ops(h)) == plain_style(),
{
    let small = match h.variant {
        Some(v) => v@ == "small"@,
        None => false,
    };
    lemma_text_restores_style(header_text(h));
    lemma_run_then(plain_style(), text_ops(header_text(h)), !small, OpV::SetSmoothing(false));
}

impl Header {
    /// Emit the ops of this header.
    pub fn emit(&self, ops: &mut Vec<Op>)
        ensures
            ops_view(final(ops)@) == ops_view(old(ops)@) + header_ops(*self),
    {
        let small = match &self.variant {
            Some(v) => {
                proof {
                    reveal_strlit("small");
                }
                str_eq(v.as_str(), "small")
            },
            None => false,
        };
        let mut t = Text::default();
        t.content = self.content.clone();
        t.bold = true;
        t.center = true;
        if !small {
            t.size = [2, 2];
        }
        assert(t.size@ == if small { seq![1u8, 1u8] } else { seq![2u8, 2u8] });
        assert(doc_text_model(t) == header_text(*self));
        t.emit(ops);
    }
}

impl LineItem {
    /// The width of the line: given, else 48.
    pub open spec fn line_width(self) -> usize {
        match self.width {
            Some(w) => w,
            None => 48,
        }
    }

    /// Whether the name can be cut to fit without splitting a character.
    pub open spec fn fits(self) -> bool {
        cuttable(self.name@, line_item_name_room(self.price@, self.line_width()) as nat)
    }

    /// Whether the name can be cut to fit without splitting a character.
    pub fn name_fits(&self) -> (b: bool)
        ensures
            b == self.fits(),
    {
        let width = match self.width {
            Some(w) => w,
            None => 48,
        };
        let price_len = byte_len(self.price.as_str());
        let need = if price_len < usize::MAX { price_len + 1 } else { usize::MAX };
        let room = if width > need { width - need } else { 0 };
        can_cut(self.name.as_str(), room)
    }

    /// Emit Font A, left alignment, the line and a newline.
    pub fn emit(&self, ops: &mut Vec<Op>)
        requires
            self.fits(),
        ensures
            ops_view(final(ops)@) == ops_view(old(ops)@) + seq![
                OpV::SetFont(Font::A),
                OpV::SetAlign(Alignment::Left),
                OpV::Text(line_item_line(self.name@, self.price@, self.line_width())),
                OpV::Newline,
            ],
    {
        let ghost b = ops_view(ops@);
        let width = match self.width {
            Some(w) => w,
            None => 48,
        };
        let line = line_item_text(self.name.as_str(), self.price.as_str(), width);
        push_op(ops, Op::SetFont(Font::A));
        push_op(ops, Op::SetAlign(Alignment::Left));
        push_op(ops, Op::Text(line));
        push_op(ops, Op::Newline);
        assert(ops_view(ops@) =~= b + seq![
            OpV::SetFont(Font::A),
            OpV::SetAlign(Alignment::Left),
            OpV::Text(line_item_line(self.name@, self.price@, self.line_width())),
            OpV::Newline,
        ]);
    }
}

impl Total {
    /// The label: given, else `TOTAL:`.
    pub open spec fn label_text(self) -> Seq<char> {
        match self.label {
            Some(l) => l@,
            None => "TOTAL:"@,
        }
    }

    /// Bold: as given, else bold exactly when there is no custom label.
    pub open spec fn is_bold(self) -> bool {
        match self.bold {
            Some(b) => b,
            None => self.label is None,
        }
    }

    /// Right-aligned unless `align` is "left".
    pub open spec fn right_aligned(self) -> bool {
        match self.align {
            Some(a) => a@ != "left"@,
            None => true,
        }
    }

    /// Emit Font A, then the total line with its alignment and emphasis.
    pub fn emit(&self, ops: &mut Vec<Op>)
        ensures
            ops_view(final(ops)@) == ops_view(old(ops)@) + total_ops(*self),
    {
        let ghost b = ops_view(ops@);
        let line = match &self.label {
            Some(l) => total_text(l.as_str(), self.amount.as_str()),
            None => {
                proof {
                    reveal_strlit("TOTAL:");
                }
                total_text("TOTAL:", self.amount.as_str())
            },
        };
        let bold = match self.bold {
            Some(v) => v,
            None => self.label.is_none(),
        };
        let right = match &self.align {
            Some(a) => {
                proof {
                    reveal_strlit("left");
                }
                !str_eq(a.as_str(), "left")
            },
            None => true,
        };
        let scaled: u8 = if self.double_width { 1 } else { 0 };
        push_op(ops, Op::SetFont(Font::A));
        let ghost m = ops_view(ops@);
        emit_total_line(ops, line, right, bold, scaled);
        assert(ops_view(ops@) =~= b + seq![OpV::SetFont(Font::A)]
            + op_if(self.right_aligned(), OpV::SetAlign(Alignment::Right))
            + op_if(self.is_bold(), OpV::SetBold(true))
            + op_if(self.double_width, OpV::SetExpandedWidth(1))
            + seq![OpV::Text(total_line(self.label_text(), self.amount@)), OpV::Newline]
            + op_if(self.double_width, OpV::SetExpandedWidth(0))
            + op_if(self.is_bold(), OpV::SetBold(false)));
    }
}

/// Everything a document total emits: Font A, right alignment unless its
/// `align` is "left", the emphasis, the total line, the emphasis switched off.
pub open spec fn total_ops(t: Total) -> Seq<OpV> {
    seq![OpV::SetFont(Font::A)] + op_if(t.right_aligned(), OpV::SetAlign(Alignment::Right)) + op_if(
        t.is_bold(),
        OpV::SetBold(true),
    ) + op_if(t.double_width, OpV::SetExpandedWidth(1)) + seq![
        OpV::Text(total_line(t.label_text(), t.amount@)),
        OpV::Newline,
    ] + op_if(t.double_width, OpV::SetExpandedWidth(0)) + op_if(t.is_bold(), OpV::SetBold(false))
}

/// A total is right-aligned exactly when its `align` field is not "left": a
/// total with `align` "left" emits no right alignment at all, and every
/// other total sets right alignment straight after selecting the font.
pub proof fn lemma_total_alignment(t: Total)
    ensures
        (match t.align {
            Some(a) => a@ == "left"@,
            None => false,
        }) ==> all_ops(total_ops(t), |op: OpV| op != OpV::SetAlign(Alignment::Right)),
        !(match t.align {
            Some(a) => a@ == "left"@,
            None => false,
        }) ==> total_ops(t)[1] == OpV::SetAlign(Alignment::Right),
{
    let p = |op: OpV| op != OpV::SetAlign(Alignment::Right);
    let ops = total_ops(t);
    let a0 = seq![OpV::SetFont(Font::A)];
    let a1 = op_if(t.right_aligned(), OpV::SetAlign(Alignment::Right));
    let a2 = op_if(t.is_bold(), OpV::SetBold(true));
    let a3 = op_if(t.double_width, OpV::SetExpandedWidth(1));
    let a4 = seq![OpV::Text(total_line(t.label_text(), t.amount@)), OpV::Newline];
    let a5 = op_if(t.double_width, OpV::SetExpandedWidth(0));
    let a6 = op_if(t.is_bold(), OpV::SetBold(false));
    assert(ops == a0 + a1 + a2 + a3 + a4 + a5 + a6);
    if t.right_aligned() {
        assert((a0 + a1)[1] == OpV::SetAlign(Alignment::Right));
        assert(ops[1] == (a0 + a1)[1]);
    } else {
        assert(all_ops(a0, p));
        assert(a1.len() == 0);
        assert(all_ops(a1, p));
        assert(all_ops(a2, p));
        assert(all_ops(a3, p));
        assert(all_ops(a4, p));
        assert(all_ops(a5, p));
        assert(all_ops(a6, p));
        lemma_all_ops_concat(a0, a1, p);
        lemma_all_ops_concat(a0 + a1, a2, p);
        lemma_all_ops_concat(a0 + a1 + a2, a3, p);
        lemma_all_ops_concat(a0 + a1 + a2 + a3, a4, p);
        lemma_all_ops_concat(a0 + a1 + a2 + a3 + a4, a5, p);
        lemma_all_ops_concat(a0 + a1 + a2 + a3 + a4 + a5, a6, p);
    }
}

proof fn lemma_doc_text_first_op(t: Text)
    requires
        text_alignment(t) is Some,
    ensures
        doc_text_ops(t)[0] == OpV::SetAlign(text_alignment(t)->0),
{
    let m = doc_text_model(t);
    let settings = text_settings(m);
    assert(settings[0] == OpV::SetAlign(m.alignment->0));
    assert(text_style_on(m)[0] == settings[0]);
    assert(text_ops(m)[0] == text_style_on(m)[0]);
    assert(doc_text_ops(t)[0] == text_ops(m)[0]);
}

proof fn lemma_style_on_no_align(m: TextModel)
    requires
        m.alignment is None,
    ensures
        all_ops(text_style_on(m), |op: OpV| !(op is SetAlign)),
{
    let p = |op: OpV| !(op is SetAlign);
    let f = if m.font is Some { seq![OpV::SetFont(m.font->0)] } else { Seq::empty() };
    let g = if m.smoothing is Some { seq![OpV::SetSmoothing(m.smoothing->0)] } else { Seq::empty() };
    assert(text_settings(m) =~= f + g);
    assert(all_ops(f, p));
    assert(all_ops(g, p));
    lemma_all_ops_concat(f, g, p);
    let o1 = op_if(m.bold, OpV::SetBold(true));
    let o2 = op_if(m.underline, OpV::SetUnderline(true));
    let o3 = op_if(m.upperline, OpV::SetUpperline(true));
    let o4 = op_if(m.invert, OpV::SetInvert(true));
    let o5 = op_if(m.upside_down, OpV::SetUpsideDown(true));
    let o6 = op_if(m.reduced, OpV::SetReduced(true));
    let o7 = op_if(m.scaled_width > 0, OpV::SetExpandedWidth(m.scaled_width));
    let o8 = op_if(m.scaled_height > 0, OpV::SetExpandedHeight(m.scaled_height));
    let o9 = op_if(m.height_mult > 0 || m.width_mult > 0, OpV::SetSize { height: m.height_mult, width: m.width_mult });
    assert(all_ops(o1, p) && all_ops(o2, p) && all_ops(o3, p) && all_ops(o4, p) && all_ops(o5, p));
    assert(all_ops(o6, p) && all_ops(o7, p) && all_ops(o8, p) && all_ops(o9, p));
    let s = text_settings(m);
    lemma_all_ops_concat(s, o1, p);
    lemma_all_ops_concat(s + o1, o2, p);
    lemma_all_ops_concat(s + o1 + o2, o3, p);
    lemma_all_ops_concat(s + o1 + o2 + o3, o4, p);
    lemma_all_ops_concat(s + o1 + o2 + o3 + o4, o5, p);
    lemma_all_ops_concat(s + o1 + o2 + o3 + o4 + o5, o6, p);
    lemma_all_ops_concat(s + o1 + o2 + o3 + o4 + o5 + o6, o7, p);
    lemma_all_ops_concat(s + o1 + o2 + o3 + o4 + o5 + o6 + o7, o8, p);
    lemma_all_ops_concat(s + o1 + o2 + o3 + o4 + o5 + o6 + o7 + o8, o9, p);
}

proof fn lemma_style_off_no_align(m: TextModel)
    ensures
        all_ops(text_style_off(m), |op: OpV| !(op is SetAlign)),
{
    let p = |op: OpV| !(op is SetAlign);
    let f1 = op_if(m.height_mult > 0 || m.width_mult > 0, OpV::SetSize { height: 0, width: 0 });
    let f2 = op_if(m.scaled_height > 0, OpV::SetExpandedHeight(0));
    let f3 = op_if(m.scaled_width > 0, OpV::SetExpandedWidth(0));
    let f4 = op_if(m.reduced, OpV::SetReduced(false));
    let f5 = op_if(m.upside_down, OpV::SetUpsideDown(false));
    let f6 = op_if(m.invert, OpV::SetInvert(false));
    let f7 = op_if(m.upperline, OpV::SetUpperline(false));
    let f8 = op_if(m.underline, OpV::SetUnderline(false));
    let f9 = op_if(m.bold, OpV::SetBold(false));
    assert(all_ops(f1, p) && all_ops(f2, p) && all_ops(f3, p) && all_ops(f4, p) && all_ops(f5, p));
    assert(all_ops(f6, p) && all_ops(f7, p) && all_ops(f8, p) && all_ops(f9, p));
    lemma_all_ops_concat(f1, f2, p);
    lemma_all_ops_concat(f1 + f2, f3, p);
    lemma_all_ops_concat(f1 + f2 + f3, f4, p);
    lemma_all_ops_concat(f1 + f2 + f3 + f4, f5, p);
    lemma_all_ops_concat(f1 + f2 + f3 + f4 + f5, f6, p);
    lemma_all_ops_concat(f1 + f2 + f3 + f4 + f5 + f6, f7, p);
    lemma_all_ops_concat(f1 + f2 + f3 + f4 + f5 + f6 + f7, f8, p);
    lemma_all_ops_concat(f1 + f2 + f3 + f4 + f5 + f6 + f7 + f8, f9, p);
}

proof fn lemma_doc_text_no_align(t: Text)
    requires
        text_alignment(t) is None,
    ensures
        all_ops(doc_text_ops(t), |op: OpV| !(op is SetAlign)),
{
    let p = |op: OpV| !(op is SetAlign);
    let m = doc_text_model(t);
    lemma_style_on_no_align(m);
    lemma_style_off_no_align(m);
    let t1 = seq![OpV::Text(m.content)];
    let t2 = op_if(m.newline, OpV::Newline);
    let t4 = op_if(t.smoothing is None && text_is_scaled(t), OpV::SetSmoothing(false));
    assert(all_ops(t1, p) && all_ops(t2, p) && all_ops(t4, p));
    let on = text_style_on(m);
    lemma_all_ops_concat(on, t1, p);
    lemma_all_ops_concat(on + t1, t2, p);
    lemma_all_ops_concat(on + t1 + t2, text_style_off(m), p);
    lemma_all_ops_concat(on + t1 + t2 + text_style_off(m), t4, p);
}

/// The alignment a document text sets before anything else: the `align`
/// field when it names one ("center", "right", "left"), else centered when
/// `center` is set, else right-aligned when `right` is set, else left; an
/// `align` naming none of the three sets no alignment at all.
pub proof fn lemma_doc_text_alignment(t: Text)
    ensures
        t.align is None && t.center ==> doc_text_ops(t)[0] == OpV::SetAlign(Alignment::Center),
        t.align is None && !t.center && t.right ==> doc_text_ops(t)[0] == OpV::SetAlign(Alignment::Right),
        t.align is None && !t.center && !t.right ==> doc_text_ops(t)[0] == OpV::SetAlign(Alignment::Left),
        (match t.align {
            Some(a) => a@ == "center"@,
            None => false,
        }) ==> doc_text_ops(t)[0] == OpV::SetAlign(Alignment::Center),
        (match t.align {
            Some(a) => a@ == "right"@,
            None => false,
        }) ==> doc_text_ops(t)[0] == OpV::SetAlign(Alignment::Right),
        (match t.align {
            Some(a) => a@ == "left"@,
            None => false,
        }) ==> doc_text_ops(t)[0] == OpV::SetAlign(Alignment::Left),
        (match t.align {
            Some(a) => a@ != "center"@ && a@ != "right"@ && a@ != "left"@,
            None => false,
        }) ==> all_ops(doc_text_ops(t), |op: OpV| !(op is SetAlign)),
{
    reveal_strlit("center");
    reveal_strlit("right");
    reveal_strlit("left");
    assert("center"@.len() == 6 && "right"@.len() == 5 && "left"@.len() == 4);
    if text_alignment(t) is Some {
        lemma_doc_text_first_op(t);
    } else {
        lemma_doc_text_no_align(t);
    }
}

/// A total prints one line, its label (`TOTAL:` when it has none), two
/// spaces and the amount, in Font A. It is emphasized as its `bold` field
/// says, else exactly when it has no label of its own: an emphasized total
/// switches bold on before the line and ends by switching it off, any other
/// sets no bold. Double width is switched on before the line and off right
/// after it, and only for a double-width total.
pub proof fn lemma_total_line(t: Total)
    ensures
        ({
            let ops = total_ops(t);
            let label = match t.label {
                Some(l) => l@,
                None => "TOTAL:"@,
            };
            let line = label + seq![' ', ' '] + t.amount@;
            let emph = match t.bold {
                Some(v) => v,
                None => t.label is None,
            };
            &&& ops[0] == OpV::SetFont(Font::A)
            &&& all_ops(ops, |op: OpV| op is Text ==> op == OpV::Text(line))
            &&& exists|k: int|
                0 <= k && k + 1 < ops.len() && #[trigger] ops[k] == OpV::Text(line) && ops[k + 1] == OpV::Newline && (emph
                    ==> exists|j: int| 0 <= j < k && #[trigger] ops[j] == OpV::SetBold(true)) && (t.double_width ==> k + 2
                    < ops.len() && ops[k + 2] == OpV::SetExpandedWidth(0) && exists|j: int|
                    0 <= j < k && #[trigger] ops[j] == OpV::SetExpandedWidth(1))
            &&& emph ==> ops.last() == OpV::SetBold(false)
            &&& !emph ==> all_ops(ops, |op: OpV| !(op is SetBold))
            &&& !t.double_width ==> all_ops(ops, |op: OpV| !(op is SetExpandedWidth))
        }),
{
    let ops = total_ops(t);
    let label = match t.label {
        Some(l) => l@,
        None => "TOTAL:"@,
    };
    let line = label + seq![' ', ' '] + t.amount@;
    assert(total_line(t.label_text(), t.amount@) == line);
    let a0 = seq![OpV::SetFont(Font::A)];
    let a1 = op_if(t.right_aligned(), OpV::SetAlign(Alignment::Right));
    let a2 = op_if(t.is_bold(), OpV::SetBold(true));
    let a3 = op_if(t.double_width, OpV::SetExpandedWidth(1));
    let a4 = seq![OpV::Text(line), OpV::Newline];
    let a5 = op_if(t.double_width, OpV::SetExpandedWidth(0));
    let a6 = op_if(t.is_bold(), OpV::SetBold(false));
    assert(ops == a0 + a1 + a2 + a3 + a4 + a5 + a6);
    let pre = a0 + a1 + a2 + a3;
    let k = pre.len() as int;
    assert(ops[0] == a0[0]);
    assert(ops[k] == OpV::Text(line));
    assert(ops[k + 1] == OpV::Newline);
    if t.is_bold() {
        let j = (a0 + a1).len() as int;
        assert(ops[j] == OpV::SetBold(true));
        assert(ops.last() == OpV::SetBold(false));
    }
    if t.double_width {
        let j = (a0 + a1 + a2).len() as int;
        assert(ops[j] == OpV::SetExpandedWidth(1));
        assert(ops[k + 2] == OpV::SetExpandedWidth(0));
    }
    let p = |op: OpV| op is Text ==> op == OpV::Text(line);
    assert(all_ops(a0, p) && all_ops(a1, p) && all_ops(a2, p) && all_ops(a3, p));
    assert(all_ops(a4, p) && all_ops(a5, p) && all_ops(a6, p));
    lemma_all_ops_concat(a0, a1, p);
    lemma_all_ops_concat(a0 + a1, a2, p);
    lemma_all_ops_concat(a0 + a1 + a2, a3, p);
    lemma_all_ops_concat(a0 + a1 + a2 + a3, a4, p);
    lemma_all_ops_concat(a0 + a1 + a2 + a3 + a4, a5, p);
    lemma_all_ops_concat(a0 + a1 + a2 + a3 + a4 + a5, a6, p);
    if !t.is_bold() {
        let q = |op: OpV| !(op is SetBold);
        assert(all_ops(a0, q) && all_ops(a1, q) && all_ops(a2, q) && all_ops(a3, q));
        assert(all_ops(a4, q) && all_ops(a5, q) && all_ops(a6, q));
        lemma_all_ops_concat(a0, a1, q);
        lemma_all_ops_concat(a0 + a1, a2, q);
        lemma_all_ops_concat(a0 + a1 + a2, a3, q);
        lemma_all_ops_concat(a0 + a1 + a2 + a3, a4, q);
        lemma_all_ops_concat(a0 + a1 + a2 + a3 + a4, a5, q);
        lemma_all_ops_concat(a0 + a1 + a2 + a3 + a4 + a5, a6, q);
    }
    if !t.double_width {
        let q = |op: OpV| !(op is SetExpandedWidth);
        assert(all_ops(a0, q) && all_ops(a1, q) && all_ops(a2, q) && all_ops(a3, q));
        assert(all_ops(a4, q) && all_ops(a5, q) && all_ops(a6, q));
        lemma_all_ops_concat(a0, a1, q);
        lemma_all_ops_concat(a0 + a1, a2, q);
        lemma_all_ops_concat(a0 + a1 + a2, a3, q);
        lemma_all_ops_concat(a0 + a1 + a2 + a3, a4, q);
        lemma_all_ops_concat(a0 + a1 + a2 + a3 + a4, a5, q);
        lemma_all_ops_concat(a0 + a1 + a2 + a3 + a4 + a5, a6, q);
    }
}

} // verus!
