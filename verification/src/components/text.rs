//! Text components: styled text and headers.

use crate::components::layout::{columns_line, columns_text};
use crate::components::Component;
use crate::text::{blen, byte_len, cuttable, sat_add, sat_sub, take_bytes, truncate_bytes, add_sat, push_str};
use crate::ir::{apply_op, lemma_run_concat, lemma_run_op_if, lemma_run_then, plain_style, run_ops, push_acc, push_op, push_if, push_if_acc, op_if, Alignment, Font, Op, OpV, Style, ops_view};
use vstd::prelude::*;

verus! {

/// The value of a [`Text`] component.
pub struct TextModel {
    pub content: Seq<char>,
    pub newline: bool,
    pub bold: bool,
    pub underline: bool,
    pub upperline: bool,
    pub invert: bool,
    pub smoothing: Option<bool>,
    pub upside_down: bool,
    pub reduced: bool,
    pub scaled_width: u8,
    pub scaled_height: u8,
    pub font: Option<Font>,
    pub alignment: Option<Alignment>,
    pub height_mult: u8,
    pub width_mult: u8,
}

/// A text component with optional styling.
pub struct Text {
    content: String,
    newline: bool,
    bold: bool,
    underline: bool,
    upperline: bool,
    invert: bool,
    smoothing: Option<bool>,
    upside_down: bool,
    reduced: bool,
    scaled_width: u8,
    scaled_height: u8,
    font: Option<Font>,
    alignment: Option<Alignment>,
    height_mult: u8,
    width_mult: u8,
}

impl View for Text {
    type V = TextModel;

    closed spec fn view(&self) -> TextModel {
        TextModel {
            content: self.content@,
            newline: self.newline,
            bold: self.bold,
            underline: self.underline,
            upperline: self.upperline,
            invert: self.invert,
            smoothing: self.smoothing,
            upside_down: self.upside_down,
            reduced: self.reduced,
            scaled_width: self.scaled_width,
            scaled_height: self.scaled_height,
            font: self.font,
            alignment: self.alignment,
            height_mult: self.height_mult,
            width_mult: self.width_mult,
        }
    }
}

/// A plain model: given content and newline, no styling.
pub open spec fn plain_text(content: Seq<char>, newline: bool) -> TextModel {
    TextModel {
        content,
        newline,
        bold: false,
        underline: false,
        upperline: false,
        invert: false,
        smoothing: None,
        upside_down: false,
        reduced: false,
        scaled_width: 0,
        scaled_height: 0,
        font: None,
        alignment: None,
        height_mult: 0,
        width_mult: 0,
    }
}

/// `min(v, hi)`.
pub open spec fn cap(v: u8, hi: u8) -> u8 {
    if v > hi { hi } else { v }
}

/// The alignment, font and smoothing settings, each when given.
pub open spec fn text_settings(m: TextModel) -> Seq<OpV> {
    (if m.alignment is Some { seq![OpV::SetAlign(m.alignment->0)] } else { Seq::empty() })
    + (if m.font is Some { seq![OpV::SetFont(m.font->0)] } else { Seq::empty() })
    + (if m.smoothing is Some { seq![OpV::SetSmoothing(m.smoothing->0)] } else { Seq::empty() })
}

/// The style changes made before the text, in emission order.
pub open spec fn text_style_on(m: TextModel) -> Seq<OpV> {
    text_settings(m)
    + op_if(m.bold, OpV::SetBold(true))
    + op_if(m.underline, OpV::SetUnderline(true))
    + op_if(m.upperline, OpV::SetUpperline(true))
    + op_if(m.invert, OpV::SetInvert(true))
    + op_if(m.upside_down, OpV::SetUpsideDown(true))
    + op_if(m.reduced, OpV::SetReduced(true))
    + op_if(m.scaled_width > 0, OpV::SetExpandedWidth(m.scaled_width))
    + op_if(m.scaled_height > 0, OpV::SetExpandedHeight(m.scaled_height))
    + op_if(m.height_mult > 0 || m.width_mult > 0, OpV::SetSize { height: m.height_mult, width: m.width_mult })
}

/// The resets after the text, in reverse order; alignment, font and
/// smoothing persist.
pub open spec fn text_style_off(m: TextModel) -> Seq<OpV> {
    op_if(m.height_mult > 0 || m.width_mult > 0, OpV::SetSize { height: 0, width: 0 })
    + op_if(m.scaled_height > 0, OpV::SetExpandedHeight(0))
    + op_if(m.scaled_width > 0, OpV::SetExpandedWidth(0))
    + op_if(m.reduced, OpV::SetReduced(false))
    + op_if(m.upside_down, OpV::SetUpsideDown(false))
    + op_if(m.invert, OpV::SetInvert(false))
    + op_if(m.upperline, OpV::SetUpperline(false))
    + op_if(m.underline, OpV::SetUnderline(false))
    + op_if(m.bold, OpV::SetBold(false))
}

/// Everything a text component emits.
pub open spec fn text_ops(m: TextModel) -> Seq<OpV> {
    text_style_on(m) + seq![OpV::Text(m.content)] + op_if(m.newline, OpV::Newline) + text_style_off(m)
}

proof fn lemma_settings_keep_style(s: Style, m: TextModel)
    ensures
        run_ops(s, text_settings(m)) == s,
{
    let a = if m.alignment is Some { seq![OpV::SetAlign(m.alignment->0)] } else { Seq::empty() };
    let f = if m.font is Some { seq![OpV::SetFont(m.font->0)] } else { Seq::empty() };
    let g = if m.smoothing is Some { seq![OpV::SetSmoothing(m.smoothing->0)] } else { Seq::empty() };
    assert(run_ops(s, Seq::<OpV>::empty()) == s);
    assert(a.len() > 0 ==> a.drop_last() =~= Seq::<OpV>::empty());
    assert(f.len() > 0 ==> f.drop_last() =~= Seq::<OpV>::empty());
    assert(g.len() > 0 ==> g.drop_last() =~= Seq::<OpV>::empty());
    assert(run_ops(s, a) == s);
    lemma_run_concat(s, a, f);
    assert(run_ops(s, f) == s);
    lemma_run_concat(s, a + f, g);
    assert(run_ops(s, g) == s);
}

proof fn lemma_style_on(m: TextModel)
    ensures
        run_ops(plain_style(), text_style_on(m)) == text_style(m),
{
    let s = plain_style();
    let a0 = text_settings(m);
    lemma_settings_keep_style(s, m);
    let a1 = a0 + op_if(m.bold, OpV::SetBold(true));
    lemma_run_then(s, a0, m.bold, OpV::SetBold(true));
    let a2 = a1 + op_if(m.underline, OpV::SetUnderline(true));
    lemma_run_then(s, a1, m.underline, OpV::SetUnderline(true));
    let a3 = a2 + op_if(m.upperline, OpV::SetUpperline(true));
    lemma_run_then(s, a2, m.upperline, OpV::SetUpperline(true));
    let a4 = a3 + op_if(m.invert, OpV::SetInvert(true));
    lemma_run_then(s, a3, m.invert, OpV::SetInvert(true));
    let a5 = a4 + op_if(m.upside_down, OpV::SetUpsideDown(true));
    lemma_run_then(s, a4, m.upside_down, OpV::SetUpsideDown(true));
    let a6 = a5 + op_if(m.reduced, OpV::SetReduced(true));
    lemma_run_then(s, a5, m.reduced, OpV::SetReduced(true));
    let a7 = a6 + op_if(m.scaled_width > 0, OpV::SetExpandedWidth(m.scaled_width));
    lemma_run_then(s, a6, m.scaled_width > 0, OpV::SetExpandedWidth(m.scaled_width));
    let a8 = a7 + op_if(m.scaled_height > 0, OpV::SetExpandedHeight(m.scaled_height));
    lemma_run_then(s, a7, m.scaled_height > 0, OpV::SetExpandedHeight(m.scaled_height));
    let sized = m.height_mult > 0 || m.width_mult > 0;
    lemma_run_then(s, a8, sized, OpV::SetSize { height: m.height_mult, width: m.width_mult });
}

/// The style a text component sets before its text.
pub open spec fn text_style(m: TextModel) -> Style {
    Style {
        bold: m.bold,
        underline: m.underline,
        upperline: m.upperline,
        invert: m.invert,
        upside_down: m.upside_down,
        reduced: m.reduced,
        expanded_width: m.scaled_width,
        expanded_height: m.scaled_height,
        height_mult: if m.height_mult > 0 || m.width_mult > 0 { m.height_mult } else { 0 },
        width_mult: if m.height_mult > 0 || m.width_mult > 0 { m.width_mult } else { 0 },
    }
}

#[verifier::rlimit(30)]
proof fn lemma_style_off(m: TextModel)
    ensures
        run_ops(text_style(m), text_style_off(m)) == plain_style(),
{
    let s = text_style(m);
    let sized = m.height_mult > 0 || m.width_mult > 0;
    let a1 = op_if(sized, OpV::SetSize { height: 0, width: 0 });
    lemma_run_op_if(s, sized, OpV::SetSize { height: 0, width: 0 });
    let a2 = a1 + op_if(m.scaled_height > 0, OpV::SetExpandedHeight(0));
    lemma_run_then(s, a1, m.scaled_height > 0, OpV::SetExpandedHeight(0));
    let a3 = a2 + op_if(m.scaled_width > 0, OpV::SetExpandedWidth(0));
    lemma_run_then(s, a2, m.scaled_width > 0, OpV::SetExpandedWidth(0));
    let a4 = a3 + op_if(m.reduced, OpV::SetReduced(false));
    lemma_run_then(s, a3, m.reduced, OpV::SetReduced(false));
    let a5 = a4 + op_if(m.upside_down, OpV::SetUpsideDown(false));
    lemma_run_then(s, a4, m.upside_down, OpV::SetUpsideDown(false));
    let a6 = a5 + op_if(m.invert, OpV::SetInvert(false));
    lemma_run_then(s, a5, m.invert, OpV::SetInvert(false));
    let a7 = a6 + op_if(m.upperline, OpV::SetUpperline(false));
    lemma_run_then(s, a6, m.upperline, OpV::SetUpperline(false));
    let a8 = a7 + op_if(m.underline, OpV::SetUnderline(false));
    lemma_run_then(s, a7, m.underline, OpV::SetUnderline(false));
    lemma_run_then(s, a8, m.bold, OpV::SetBold(false));
}

/// Starting from the plain style, a text component leaves the printer in
/// the plain style: every style it switches on it switches off after the
/// text.
pub proof fn lemma_text_restores_style(m: TextModel)
    ensures
        run_ops(plain_style(), text_ops(m)) == plain_style(),
{
    let s = plain_style();
    lemma_style_on(m);
    let on = run_ops(s, text_style_on(m));
    let mid = text_style_on(m) + seq![OpV::Text(m.content)];
    lemma_run_concat(s, text_style_on(m), seq![OpV::Text(m.content)]);
    assert(seq![OpV::Text(m.content)].drop_last() =~= Seq::<OpV>::empty());
    assert(run_ops(on, Seq::<OpV>::empty()) == on);
    assert(run_ops(on, seq![OpV::Text(m.content)]) == on);
    lemma_run_then(s, mid, m.newline, OpV::Newline);
    lemma_run_concat(s, mid + op_if(m.newline, OpV::Newline), text_style_off(m));
    lemma_style_off(m);
}

impl Text {
    /// A text component with every style given.
    pub(crate) fn from_model_parts(
        content: String,
        newline: bool,
        flags: (bool, bool, bool, bool, bool, bool),
        smoothing: Option<bool>,
        scaled: (u8, u8),
        font: Option<Font>,
        alignment: Option<Alignment>,
        mult: (u8, u8),
    ) -> (t: Text)
        ensures
            t@ == (TextModel {
                content: content@,
                newline,
                bold: flags.0,
                underline: flags.1,
                upperline: flags.2,
                invert: flags.3,
                upside_down: flags.4,
                reduced: flags.5,
                smoothing,
                scaled_width: scaled.0,
                scaled_height: scaled.1,
                font,
                alignment,
                height_mult: mult.0,
                width_mult: mult.1,
            }),
    {
        Text {
            content,
            newline,
            bold: flags.0,
            underline: flags.1,
            upperline: flags.2,
            invert: flags.3,
            smoothing,
            upside_down: flags.4,
            reduced: flags.5,
            scaled_width: scaled.0,
            scaled_height: scaled.1,
            font,
            alignment,
            height_mult: mult.0,
            width_mult: mult.1,
        }
    }

    /// A text component ending with a newline.
    pub fn new(content: &str) -> (t: Text)
        ensures
            t@ == plain_text(content@, true),
    {
        Text {
            content: content.to_owned(),
            newline: true,
            bold: false,
            underline: false,
            upperline: false,
            invert: false,
            smoothing: None,
            upside_down: false,
            reduced: false,
            scaled_width: 0,
            scaled_height: 0,
            font: None,
            alignment: None,
            height_mult: 0,
            width_mult: 0,
        }
    }

    /// Inline text (no trailing newline).
    pub fn inline(content: &str) -> (t: Text)
        ensures
            t@ == plain_text(content@, false),
    {
        let mut t = Text::new(content);
        t.newline = false;
        t
    }

    /// Add a newline after the text.
    pub fn line(self) -> (t: Text)
        ensures
            t@ == (TextModel { newline: true, ..self@ }),
    {
        let mut t = self;
        t.newline = true;
        t
    }

    /// Make text bold.
    pub fn bold(self) -> (t: Text)
        ensures
            t@ == (TextModel { bold: true, ..self@ }),
    {
        let mut t = self;
        t.bold = true;
        t
    }

    /// Underline the text.
    pub fn underline(self) -> (t: Text)
        ensures
            t@ == (TextModel { underline: true, ..self@ }),
    {
        let mut t = self;
        t.underline = true;
        t
    }

    /// Add an upperline (line above text).
    pub fn upperline(self) -> (t: Text)
        ensures
            t@ == (TextModel { upperline: true, ..self@ }),
    {
        let mut t = self;
        t.upperline = true;
        t
    }

    /// Invert the text (white on black).
    pub fn invert(self) -> (t: Text)
        ensures
            t@ == (TextModel { invert: true, ..self@ }),
    {
        let mut t = self;
        t.invert = true;
        t
    }

    /// Enable character smoothing.
    pub fn smoothing(self) -> (t: Text)
        ensures
            t@ == (TextModel { smoothing: Some(true), ..self@ }),
    {
        let mut t = self;
        t.smoothing = Some(true);
        t
    }

    /// Disable character smoothing.
    pub fn no_smoothing(self) -> (t: Text)
        ensures
            t@ == (TextModel { smoothing: Some(false), ..self@ }),
    {
        let mut t = self;
        t.smoothing = Some(false);
        t
    }

    /// Print upside-down.
    pub fn upside_down(self) -> (t: Text)
        ensures
            t@ == (TextModel { upside_down: true, ..self@ }),
    {
        let mut t = self;
        t.upside_down = true;
        t
    }

    /// Print reduced (condensed) text.
    pub fn reduced(self) -> (t: Text)
        ensures
            t@ == (TextModel { reduced: true, ..self@ }),
    {
        let mut t = self;
        t.reduced = true;
        t
    }

    /// Double the width only (ESC W).
    pub fn double_width(self) -> (t: Text)
        ensures
            t@ == (TextModel { scaled_width: 1, ..self@ }),
    {
        let mut t = self;
        t.scaled_width = 1;
        t
    }

    /// Double the height only (ESC h).
    pub fn double_height(self) -> (t: Text)
        ensures
            t@ == (TextModel { scaled_height: 1, ..self@ }),
    {
        let mut t = self;
        t.scaled_height = 1;
        t
    }

    /// Set character scale via ESC W / ESC h (0 = 1x ... 7 = 8x; larger values cap at 7).
    pub fn scale(self, height: u8, width: u8) -> (t: Text)
        ensures
            t@ == (TextModel { scaled_height: cap(height, 7), scaled_width: cap(width, 7), ..self@ }),
    {
        let mut t = self;
        t.scaled_height = if height > 7 { 7 } else { height };
        t.scaled_width = if width > 7 { 7 } else { width };
        t
    }

    /// Set the font.
    pub fn font(self, font: Font) -> (t: Text)
        ensures
            t@ == (TextModel { font: Some(font), ..self@ }),
    {
        let mut t = self;
        t.font = Some(font);
        t
    }

    /// Use Font A (12x24).
    pub fn font_a(self) -> (t: Text)
        ensures
            t@ == (TextModel { font: Some(Font::A), ..self@ }),
    {
        self.font(Font::A)
    }

    /// Use Font B (9x24).
    pub fn font_b(self) -> (t: Text)
        ensures
            t@ == (TextModel { font: Some(Font::B), ..self@ }),
    {
        self.font(Font::B)
    }

    /// Use Font C (9x17).
    pub fn font_c(self) -> (t: Text)
        ensures
            t@ == (TextModel { font: Some(Font::C), ..self@ }),
    {
        self.font(Font::C)
    }

    /// Center the text.
    pub fn center(self) -> (t: Text)
        ensures
            t@ == (TextModel { alignment: Some(Alignment::Center), ..self@ }),
    {
        let mut t = self;
        t.alignment = Some(Alignment::Center);
        t
    }

    /// Right-align the text.
    pub fn right(self) -> (t: Text)
        ensures
            t@ == (TextModel { alignment: Some(Alignment::Right), ..self@ }),
    {
        let mut t = self;
        t.alignment = Some(Alignment::Right);
        t
    }

    /// Left-align the text (explicit).
    pub fn left(self) -> (t: Text)
        ensures
            t@ == (TextModel { alignment: Some(Alignment::Left), ..self@ }),
    {
        let mut t = self;
        t.alignment = Some(Alignment::Left);
        t
    }

    /// Set the character size multiplier (ESC i): 0 = 1x ... 7 = 8x; larger values cap at 7.
    pub fn size(self, height: u8, width: u8) -> (t: Text)
        ensures
            t@ == (TextModel { height_mult: cap(height, 7), width_mult: cap(width, 7), ..self@ }),
    {
        let mut t = self;
        t.height_mult = if height > 7 { 7 } else { height };
        t.width_mult = if width > 7 { 7 } else { width };
        t
    }
}

impl Component for Text {
    open spec fn ready(&self) -> bool {
        true
    }

    open spec fn emitted(&self) -> Seq<OpV> {
        text_ops(self@)
    }

    fn emit(&self, ops: &mut Vec<Op>) {
        let ghost start = ops_view(ops@);
        self.emit_style_on(ops);
        let ghost a = ops_view(ops@);
        push_op(ops, Op::Text(self.content.clone()));
        push_if(ops, self.newline, Op::Newline);
        let ghost b = ops_view(ops@);
        self.emit_style_off(ops);
        assert(b =~= a + seq![OpV::Text(self@.content)] + op_if(self@.newline, OpV::Newline));
        assert(ops_view(ops@) =~= start + text_ops(self@));
    }
}

impl Text {
    fn emit_style_on(&self, ops: &mut Vec<Op>)
        ensures
            ops_view(final(ops)@) == ops_view(old(ops)@) + text_style_on(self@),
    {
        let ghost b = ops_view(ops@);
        let ghost m = self@;
        self.emit_settings(ops);
        let ghost a2 = text_settings(m);
        push_if_acc(ops, self.bold, Op::SetBold(true), Ghost(b), Ghost(a2));
        let ghost a3 = a2 + op_if(m.bold, OpV::SetBold(true));
        push_if_acc(ops, self.underline, Op::SetUnderline(true), Ghost(b), Ghost(a3));
        let ghost a4 = a3 + op_if(m.underline, OpV::SetUnderline(true));
        push_if_acc(ops, self.upperline, Op::SetUpperline(true), Ghost(b), Ghost(a4));
        let ghost a5 = a4 + op_if(m.upperline, OpV::SetUpperline(true));
        push_if_acc(ops, self.invert, Op::SetInvert(true), Ghost(b), Ghost(a5));
        let ghost a6 = a5 + op_if(m.invert, OpV::SetInvert(true));
        push_if_acc(ops, self.upside_down, Op::SetUpsideDown(true), Ghost(b), Ghost(a6));
        let ghost a7 = a6 + op_if(m.upside_down, OpV::SetUpsideDown(true));
        push_if_acc(ops, self.reduced, Op::SetReduced(true), Ghost(b), Ghost(a7));
        let ghost a8 = a7 + op_if(m.reduced, OpV::SetReduced(true));
        push_if_acc(ops, self.scaled_width > 0, Op::SetExpandedWidth(self.scaled_width), Ghost(b), Ghost(a8));
        let ghost a9 = a8 + op_if(m.scaled_width > 0, OpV::SetExpandedWidth(m.scaled_width));
        push_if_acc(ops, self.scaled_height > 0, Op::SetExpandedHeight(self.scaled_height), Ghost(b), Ghost(a9));
        let ghost a10 = a9 + op_if(m.scaled_height > 0, OpV::SetExpandedHeight(m.scaled_height));
        let sized = self.height_mult > 0 || self.width_mult > 0;
        push_if_acc(ops, sized, Op::SetSize { height: self.height_mult, width: self.width_mult }, Ghost(b), Ghost(a10));
    }

    fn emit_settings(&self, ops: &mut Vec<Op>)
        ensures
            ops_view(final(ops)@) == ops_view(old(ops)@) + text_settings(self@),
    {
        let ghost b = ops_view(ops@);
        let ghost m = self@;
        let ghost a0 = if m.alignment is Some { seq![OpV::SetAlign(m.alignment->0)] } else { Seq::<OpV>::empty() };
        match self.alignment {
            Some(a) => {
                push_op(ops, Op::SetAlign(a));
                assert(ops_view(ops@) =~= b + a0);
            },
            None => {
                assert(ops_view(ops@) =~= b + a0);
            },
        }
        let ghost f0 = if m.font is Some { seq![OpV::SetFont(m.font->0)] } else { Seq::<OpV>::empty() };
        let ghost a1 = a0 + f0;
        match self.font {
            Some(f) => {
                push_acc(ops, Op::SetFont(f), Ghost(b), Ghost(a0));
            },
            None => {
                assert(a1 =~= a0);
            },
        }
        let ghost g0 = if m.smoothing is Some { seq![OpV::SetSmoothing(m.smoothing->0)] } else { Seq::<OpV>::empty() };
        let ghost a2 = a1 + g0;
        match self.smoothing {
            Some(sm) => {
                push_acc(ops, Op::SetSmoothing(sm), Ghost(b), Ghost(a1));
            },
            None => {
                assert(a2 =~= a1);
            },
        }
    }

    fn emit_style_off(&self, ops: &mut Vec<Op>)
        ensures
            ops_view(final(ops)@) == ops_view(old(ops)@) + text_style_off(self@),
    {
        let ghost b = ops_view(ops@);
        let ghost m = self@;
        let sized = self.height_mult > 0 || self.width_mult > 0;
        push_if(ops, sized, Op::SetSize { height: 0, width: 0 });
        let ghost a0 = op_if(sized, OpV::SetSize { height: 0, width: 0 });
        push_if_acc(ops, self.scaled_height > 0, Op::SetExpandedHeight(0), Ghost(b), Ghost(a0));
        let ghost a1 = a0 + op_if(m.scaled_height > 0, OpV::SetExpandedHeight(0));
        push_if_acc(ops, self.scaled_width > 0, Op::SetExpandedWidth(0), Ghost(b), Ghost(a1));
        let ghost a2 = a1 + op_if(m.scaled_width > 0, OpV::SetExpandedWidth(0));
        push_if_acc(ops, self.reduced, Op::SetReduced(false), Ghost(b), Ghost(a2));
        let ghost a3 = a2 + op_if(m.reduced, OpV::SetReduced(false));
        push_if_acc(ops, self.upside_down, Op::SetUpsideDown(false), Ghost(b), Ghost(a3));
        let ghost a4 = a3 + op_if(m.upside_down, OpV::SetUpsideDown(false));
        push_if_acc(ops, self.invert, Op::SetInvert(false), Ghost(b), Ghost(a4));
        let ghost a5 = a4 + op_if(m.invert, OpV::SetInvert(false));
        push_if_acc(ops, self.upperline, Op::SetUpperline(false), Ghost(b), Ghost(a5));
        let ghost a6 = a5 + op_if(m.upperline, OpV::SetUpperline(false));
        push_if_acc(ops, self.underline, Op::SetUnderline(false), Ghost(b), Ghost(a6));
        let ghost a7 = a6 + op_if(m.underline, OpV::SetUnderline(false));
        push_if_acc(ops, self.bold, Op::SetBold(false), Ghost(b), Ghost(a7));
    }
}

/// The value of a [`Header`]: the text it prints.
pub struct Header {
    text: Text,
}

impl View for Header {
    type V = TextModel;

    closed spec fn view(&self) -> TextModel {
        self.text@
    }
}

impl Header {
    /// A header: centered, bold, double size.
    pub fn new(content: &str) -> (h: Header)
        ensures
            h@ == (TextModel {
                alignment: Some(Alignment::Center),
                bold: true,
                height_mult: 1,
                width_mult: 1,
                ..plain_text(content@, true)
            }),
    {
        Header { text: Text::new(content).center().bold().size(1, 1) }
    }

    /// A smaller header: normal size, still bold and centered.
    pub fn small(content: &str) -> (h: Header)
        ensures
            h@ == (TextModel {
                alignment: Some(Alignment::Center),
                bold: true,
                ..plain_text(content@, true)
            }),
    {
        Header { text: Text::new(content).center().bold() }
    }
}

impl Component for Header {
    open spec fn ready(&self) -> bool {
        true
    }

    open spec fn emitted(&self) -> Seq<OpV> {
        text_ops(self@)
    }

    fn emit(&self, ops: &mut Vec<Op>) {
        self.text.emit(ops);
    }
}

/// The longest name a line item keeps: the width less the price and one space.
pub open spec fn line_item_name_room(price: Seq<char>, width: usize) -> usize {
    sat_sub(width as int, sat_add(blen(price), 1) as int) as usize
}

/// The line of a line item: the name, cut to fit, on the left and the
/// (already formatted) price right-aligned so the line fills `width` bytes.
pub open spec fn line_item_line(name: Seq<char>, price: Seq<char>, width: usize) -> Seq<char> {
    columns_line(take_bytes(name, line_item_name_room(price, width) as nat), price, width)
}

/// The text of a line item; `price` is the price already formatted with two decimals.
pub fn line_item_text(name: &str, price: &str, width: usize) -> (line: String)
    requires
        cuttable(name@, line_item_name_room(price@, width) as nat),
    ensures
        line@ == line_item_line(name@, price@, width),
{
    let p = byte_len(price);
    let reserved = add_sat(p, 1);
    let room = if width > reserved { width - reserved } else { 0 };
    let shown = truncate_bytes(name, room);
    columns_text(shown, price, width)
}

/// The line of a total: the label, two spaces, the (already formatted) amount.
pub open spec fn total_line(label: Seq<char>, amount: Seq<char>) -> Seq<char> {
    label + seq![' ', ' '] + amount
}

/// The text of a total; `amount` is already formatted with two decimals.
pub fn total_text(label: &str, amount: &str) -> (line: String)
    ensures
        line@ == total_line(label@, amount@),
{
    let mut line = label.to_owned();
    push_str(&mut line, "  ");
    push_str(&mut line, amount);
    proof {
        reveal_strlit("  ");
    }
    assert(line@ =~= total_line(label@, amount@));
    line
}

/// The value of a [`LineItem`].
pub struct LineItemModel {
    pub name: Seq<char>,
    /// The price, formatted with two decimals.
    pub price: Seq<char>,
    pub width: usize,
}

/// A line item: name on the left, price on the right.
pub struct LineItem {
    name: String,
    price: String,
    width: usize,
}

impl View for LineItem {
    type V = LineItemModel;

    closed spec fn view(&self) -> LineItemModel {
        LineItemModel { name: self.name@, price: self.price@, width: self.width }
    }
}

impl LineItem {
    /// A line item 48 characters wide; `price` is already formatted with two decimals.
    pub fn priced(name: &str, price: &str) -> (l: LineItem)
        ensures
            l@ == (LineItemModel { name: name@, price: price@, width: 48 }),
    {
        LineItem { name: name.to_owned(), price: price.to_owned(), width: 48 }
    }

    /// Set the character width.
    pub fn width(self, width: usize) -> (l: LineItem)
        ensures
            l@ == (LineItemModel { width, ..self@ }),
    {
        let mut l = self;
        l.width = width;
        l
    }

    /// Whether the name can be cut to fit without splitting a character.
    pub open spec fn fits(self) -> bool {
        cuttable(self@.name, line_item_name_room(self@.price, self@.width) as nat)
    }

}

impl Component for LineItem {
    open spec fn ready(&self) -> bool {
        self.fits()
    }

    open spec fn emitted(&self) -> Seq<OpV> {
        seq![
            OpV::SetAlign(Alignment::Left),
            OpV::Text(line_item_line(self@.name, self@.price, self@.width)),
            OpV::Newline,
        ]
    }

    fn emit(&self, ops: &mut Vec<Op>) {
        let ghost b = ops_view(ops@);
        let line = line_item_text(self.name.as_str(), self.price.as_str(), self.width);
        push_op(ops, Op::SetAlign(Alignment::Left));
        push_op(ops, Op::Text(line));
        push_op(ops, Op::Newline);
        assert(ops_view(ops@) =~= b + seq![
            OpV::SetAlign(Alignment::Left),
            OpV::Text(line_item_line(self@.name, self@.price, self@.width)),
            OpV::Newline,
        ]);
    }
}

/// The value of a [`Total`].
pub struct TotalModel {
    pub label: Seq<char>,
    /// The amount, formatted with two decimals.
    pub amount: Seq<char>,
    pub bold: bool,
    pub scaled_width: u8,
    pub right_align: bool,
}

/// A total: label and amount, right-aligned by default.
pub struct Total {
    label: String,
    amount: String,
    bold: bool,
    scaled_width: u8,
    right_align: bool,
}

impl View for Total {
    type V = TotalModel;

    closed spec fn view(&self) -> TotalModel {
        TotalModel {
            label: self.label@,
            amount: self.amount@,
            bold: self.bold,
            scaled_width: self.scaled_width,
            right_align: self.right_align,
        }
    }
}

/// The ops of a total line.
pub open spec fn total_ops(m: TotalModel) -> Seq<OpV> {
    op_if(m.right_align, OpV::SetAlign(Alignment::Right))
        + op_if(m.bold, OpV::SetBold(true))
        + op_if(m.scaled_width > 0, OpV::SetExpandedWidth(m.scaled_width))
        + seq![OpV::Text(total_line(m.label, m.amount)), OpV::Newline]
        + op_if(m.scaled_width > 0, OpV::SetExpandedWidth(0))
        + op_if(m.bold, OpV::SetBold(false))
}

/// Emit the ops of a total line.
pub fn emit_total_line(ops: &mut Vec<Op>, line: String, right_align: bool, bold: bool, scaled_width: u8)
    ensures
        ops_view(final(ops)@) == ops_view(old(ops)@)
            + op_if(right_align, OpV::SetAlign(Alignment::Right))
            + op_if(bold, OpV::SetBold(true))
            + op_if(scaled_width > 0, OpV::SetExpandedWidth(scaled_width))
            + seq![OpV::Text(line@), OpV::Newline]
            + op_if(scaled_width > 0, OpV::SetExpandedWidth(0))
            + op_if(bold, OpV::SetBold(false)),
{
    let ghost b = ops_view(ops@);
    let ghost l = line@;
    push_if(ops, right_align, Op::SetAlign(Alignment::Right));
    let ghost a0 = op_if(right_align, OpV::SetAlign(Alignment::Right));
    push_if_acc(ops, bold, Op::SetBold(true), Ghost(b), Ghost(a0));
    let ghost a1 = a0 + op_if(bold, OpV::SetBold(true));
    push_if_acc(ops, scaled_width > 0, Op::SetExpandedWidth(scaled_width), Ghost(b), Ghost(a1));
    let ghost a2 = a1 + op_if(scaled_width > 0, OpV::SetExpandedWidth(scaled_width));
    push_acc(ops, Op::Text(line), Ghost(b), Ghost(a2));
    push_acc(ops, Op::Newline, Ghost(b), Ghost(a2 + seq![OpV::Text(l)]));
    let ghost a3 = a2 + seq![OpV::Text(l), OpV::Newline];
    assert(a2 + seq![OpV::Text(l)] + seq![OpV::Newline] =~= a3);
    push_if_acc(ops, scaled_width > 0, Op::SetExpandedWidth(0), Ghost(b), Ghost(a3));
    let ghost a4 = a3 + op_if(scaled_width > 0, OpV::SetExpandedWidth(0));
    push_if_acc(ops, bold, Op::SetBold(false), Ghost(b), Ghost(a4));
    let ghost a5 = a4 + op_if(bold, OpV::SetBold(false));
    assert(b + a5 =~= b + a0 + op_if(bold, OpV::SetBold(true))
        + op_if(scaled_width > 0, OpV::SetExpandedWidth(scaled_width))
        + seq![OpV::Text(l), OpV::Newline]
        + op_if(scaled_width > 0, OpV::SetExpandedWidth(0))
        + op_if(bold, OpV::SetBold(false)));
}

impl Total {
    /// A bold, right-aligned total labeled `TOTAL:`; `amount` is already formatted.
    pub fn with_amount(amount: &str) -> (t: Total)
        ensures
            t@ == (TotalModel {
                label: "TOTAL:"@,
                amount: amount@,
                bold: true,
                scaled_width: 0,
                right_align: true,
            }),
    {
        Total { label: owned_literal_total(), amount: amount.to_owned(), bold: true, scaled_width: 0, right_align: true }
    }

    /// A right-aligned, not bold total with a custom label; `amount` is already formatted.
    pub fn labeled_amount(label: &str, amount: &str) -> (t: Total)
        ensures
            t@ == (TotalModel {
                label: label@,
                amount: amount@,
                bold: false,
                scaled_width: 0,
                right_align: true,
            }),
    {
        Total { label: label.to_owned(), amount: amount.to_owned(), bold: false, scaled_width: 0, right_align: true }
    }

    /// Make the total bold.
    pub fn bold(self) -> (t: Total)
        ensures
            t@ == (TotalModel { bold: true, ..self@ }),
    {
        let mut t = self;
        t.bold = true;
        t
    }

    /// Disable bold.
    pub fn not_bold(self) -> (t: Total)
        ensures
            t@ == (TotalModel { bold: false, ..self@ }),
    {
        let mut t = self;
        t.bold = false;
        t
    }

    /// Double width for emphasis.
    pub fn double_width(self) -> (t: Total)
        ensures
            t@ == (TotalModel { scaled_width: 1, ..self@ }),
    {
        let mut t = self;
        t.scaled_width = 1;
        t
    }

    /// Left alignment instead of right.
    pub fn left(self) -> (t: Total)
        ensures
            t@ == (TotalModel { right_align: false, ..self@ }),
    {
        let mut t = self;
        t.right_align = false;
        t
    }
}

fn owned_literal_total() -> (s: String)
    ensures
        s@ == "TOTAL:"@,
{
    "TOTAL:".to_owned()
}

impl Component for Total {
    open spec fn ready(&self) -> bool {
        true
    }

    open spec fn emitted(&self) -> Seq<OpV> {
        total_ops(self@)
    }

    fn emit(&self, ops: &mut Vec<Op>) {
        let line = total_text(self.label.as_str(), self.amount.as_str());
        emit_total_line(ops, line, self.right_align, self.bold, self.scaled_width);
    }
}

} // verus!
