//! Banners: framed text that picks the widest character size that fits.

use crate::document::types::{dec, Banner, BorderStyle};
use crate::document::EmitContext;
use crate::ir::{all_ops, lemma_all_ops_concat, op_if, ops_view, push_if, push_op, Alignment, Font, Op, OpV};
use crate::text::{blanks, blen, byte_len, can_cut, cuttable, push_char, push_rep, push_str, rep, sat_sub, take_bytes, truncate_bytes};
use vstd::prelude::*;

verus! {

/// Characters a border takes on a line besides the content.
pub open spec fn border_overhead(border: BorderStyle) -> usize {
    match border {
        BorderStyle::Shadow => 3,
        BorderStyle::Tag => 2,
        BorderStyle::Rule | BorderStyle::Heading => 0,
        _ => 2,
    }
}

/// The fit found when trying widths `w`, `w - 1`, ..., 1: `(height, width,
/// characters per line)`; `(0, 0, print_width / 9)` (Font B) when none fits.
pub open spec fn fit_from(content_len: usize, max_size: u8, overhead: usize, print_width: usize, w: u8) -> (u8, u8, usize)
    decreases w,
{
    if w == 0 {
        (0, 0, print_width / 9)
    } else {
        let cpl = (print_width / 12) / (w as usize);
        if content_len <= sat_sub(cpl as int, overhead as int) {
            (max_size, w, cpl)
        } else {
            fit_from(content_len, max_size, overhead, print_width, (w - 1) as u8)
        }
    }
}

/// The size a banner uses: widths cascade from `max_size` down to 1 at
/// height `max_size`, then fall back to Font B.
pub open spec fn banner_fit(content_len: usize, max_size: u8, border: BorderStyle, print_width: usize) -> (u8, u8, usize) {
    fit_from(content_len, max_size, border_overhead(border), print_width, max_size)
}

/// Whether content of `content_len` bytes fits on a line at width multiplier `w`.
pub open spec fn fits_at(content_len: usize, border: BorderStyle, print_width: usize, w: u8) -> bool {
    content_len <= sat_sub(((print_width / 12) / (w as usize)) as int, border_overhead(border) as int)
}

proof fn lemma_fit_from(content_len: usize, max_size: u8, border: BorderStyle, print_width: usize, w: u8)
    ensures
        ({
            let (h, fw, cpl) = fit_from(content_len, max_size, border_overhead(border), print_width, w);
            &&& fw > 0 ==> h == max_size && fw <= w && fits_at(content_len, border, print_width, fw)
                && cpl == (print_width / 12) / (fw as usize)
                && forall|v: u8| fw < v <= w ==> !fits_at(content_len, border, print_width, v)
            &&& fw == 0 ==> h == 0 && cpl == print_width / 9
                && forall|v: u8| 1 <= v <= w ==> !fits_at(content_len, border, print_width, v)
        }),
    decreases w,
{
    if w > 0 {
        lemma_fit_from(content_len, max_size, border, print_width, (w - 1) as u8);
    }
}

/// A banner is set at the widest width multiplier, from `max_size` down to
/// 1, at which its content fits the line; when none fits it falls back to
/// Font B at the normal size.
pub proof fn lemma_banner_fit_widest(content_len: usize, max_size: u8, border: BorderStyle, print_width: usize)
    ensures
        ({
            let (h, w, cpl) = banner_fit(content_len, max_size, border, print_width);
            &&& w > 0 ==> h == max_size && w <= max_size && fits_at(content_len, border, print_width, w)
                && cpl == (print_width / 12) / (w as usize)
                && forall|v: u8| w < v <= max_size ==> !fits_at(content_len, border, print_width, v)
            &&& w == 0 ==> h == 0 && cpl == print_width / 9
                && forall|v: u8| 1 <= v <= max_size ==> !fits_at(content_len, border, print_width, v)
        }),
{
    lemma_fit_from(content_len, max_size, border, print_width, max_size);
}

/// The frame characters of a boxed border: corners (top-left, top-right,
/// bottom-left, bottom-right), horizontal, vertical.
pub open spec fn box_chars(border: BorderStyle) -> (char, char, char, char, char, char) {
    match border {
        BorderStyle::Double => ('\u{2554}', '\u{2557}', '\u{255A}', '\u{255D}', '\u{2550}', '\u{2551}'),
        BorderStyle::Heavy => ('\u{2588}', '\u{2588}', '\u{2588}', '\u{2588}', '\u{2588}', '\u{2588}'),
        BorderStyle::Shade => ('\u{2592}', '\u{2592}', '\u{2592}', '\u{2592}', '\u{2592}', '\u{2592}'),
        _ => ('\u{250C}', '\u{2510}', '\u{2514}', '\u{2518}', '\u{2500}', '\u{2502}'),
    }
}

/// `s` repeated `n` times.
pub open spec fn repeat_ops(s: Seq<OpV>, n: nat) -> Seq<OpV>
    decreases n,
{
    if n == 0 { Seq::empty() } else { repeat_ops(s, (n - 1) as nat) + s }
}

/// A framed content row: the content cut to `inner` bytes, centered in
/// `inner` columns (the extra space right), between two `vert`s.
pub open spec fn content_row(vert: char, content: Seq<char>, inner: usize) -> Seq<char> {
    let text = take_bytes(content, inner as nat);
    let pad = sat_sub(inner as int, blen(text) as int);
    seq![vert] + blanks(pad / 2) + text + blanks((pad - pad / 2) as nat) + seq![vert]
}

/// A content line and the newline, bold when asked.
pub open spec fn bold_line(line: Seq<char>, bold: bool) -> Seq<OpV> {
    op_if(bold, OpV::SetBold(true)) + seq![OpV::Text(line), OpV::Newline] + op_if(bold, OpV::SetBold(false))
}

/// A frame's top row, `padding` empty rows, the content row and `padding`
/// empty rows again.
pub open spec fn framed_ops(top: Seq<char>, empty: Seq<char>, line: Seq<char>, padding: u8, bold: bool) -> Seq<OpV> {
    let e = seq![OpV::Text(empty), OpV::Newline];
    seq![OpV::Text(top), OpV::Newline] + repeat_ops(e, padding as nat) + bold_line(line, bold) + repeat_ops(e, padding as nat)
}

/// The rows of a boxed banner `total` characters wide.
pub open spec fn boxed_ops(b: Banner, total: usize) -> Seq<OpV> {
    let (tl, tr, bl, br, h, v) = box_chars(b.border);
    let inner = (total - 2) as usize;
    framed_ops(
        seq![tl] + rep(h, inner as nat) + seq![tr],
        seq![v] + blanks(inner as nat) + seq![v],
        content_row(v, b.content@, inner),
        b.padding,
        b.bold,
    ) + seq![OpV::Text(seq![bl] + rep(h, inner as nat) + seq![br]), OpV::Newline]
}

/// The rows of a shadowed banner `total` characters wide: a single box one
/// column narrower with a dark shade column on the right and below.
pub open spec fn shadow_ops(b: Banner, total: usize) -> Seq<OpV> {
    let s = '\u{2593}';
    let box_width = (total - 1) as usize;
    let inner = (box_width - 2) as usize;
    framed_ops(
        seq!['\u{250C}'] + rep('\u{2500}', inner as nat) + seq!['\u{2510}'],
        seq!['\u{2502}'] + blanks(inner as nat) + seq!['\u{2502}', s],
        content_row('\u{2502}', b.content@, inner).push(s),
        b.padding,
        b.bold,
    ) + seq![
        OpV::Text(seq!['\u{2514}'] + rep('\u{2500}', inner as nat) + seq!['\u{2518}', s]),
        OpV::Newline,
        OpV::Text(seq![' '] + rep(s, box_width as nat)),
        OpV::Newline,
    ]
}

/// The line of a rule banner: the content with a space each side, centered
/// in horizontal rule characters filling `total` columns.
pub open spec fn rule_line(content: Seq<char>, total: usize) -> Seq<char> {
    let remaining = sat_sub(total as int, blen(content) as int + 2);
    rep('\u{2500}', remaining / 2) + seq![' '] + content + seq![' '] + rep('\u{2500}', (remaining - remaining / 2) as nat)
}

/// The rows of a heading banner: the centered content, then a full rule.
pub open spec fn heading_ops(b: Banner, total: usize) -> Seq<OpV> {
    seq![OpV::SetAlign(Alignment::Center)] + bold_line(b.content@, b.bold) + seq![
        OpV::SetAlign(Alignment::Left),
        OpV::Text(rep('\u{2500}', total as nat)),
        OpV::Newline,
    ]
}

/// The rows of a banner for its border.
pub open spec fn banner_body(b: Banner, total: usize) -> Seq<OpV> {
    match b.border {
        BorderStyle::Shadow => shadow_ops(b, total),
        BorderStyle::Rule => bold_line(rule_line(b.content@, total), b.bold),
        BorderStyle::Heading => heading_ops(b, total),
        BorderStyle::Tag => bold_line(seq!['\u{25A0}', ' '] + b.content@, b.bold),
        _ => boxed_ops(b, total),
    }
}

/// Everything a banner emits on a line `print_width` dots wide.
pub open spec fn banner_ops(b: Banner, print_width: usize) -> Seq<OpV> {
    let (h, w, total) = banner_fit(blen(b.content@), b.size, b.border, print_width);
    let sized = dec(h) > 0 || dec(w) > 0;
    seq![
        OpV::SetFont(if h == 0 && w == 0 { Font::B } else { Font::A }),
        OpV::SetAlign(Alignment::Left),
    ] + op_if(sized, OpV::SetSize { height: dec(h), width: dec(w) }) + banner_body(b, total) + op_if(
        sized,
        OpV::SetSize { height: 0, width: 0 },
    )
}

/// Whether a banner can be emitted: printer fonts only, and a frame that
/// holds its content without cutting inside a character.
pub open spec fn banner_ready(b: Banner, print_width: usize) -> bool {
    let total = banner_fit(blen(b.content@), b.size, b.border, print_width).2;
    &&& b.font is None
    &&& match b.border {
        BorderStyle::Shadow => total >= 3 && cuttable(b.content@, (total - 3) as nat),
        BorderStyle::Rule | BorderStyle::Heading | BorderStyle::Tag => true,
        _ => total >= 2 && cuttable(b.content@, (total - 2) as nat),
    }
}

impl Banner {
    /// The size that fits `content_len` bytes: `([height, width], characters per line)`.
    pub fn fit(content_len: usize, max_size: u8, border: BorderStyle, print_width: usize) -> (r: ([u8; 2], usize))
        ensures
            ({
                let (h, w, cpl) = banner_fit(content_len, max_size, border, print_width);
                r.0@ == seq![h, w] && r.1 == cpl
            }),
    {
        let overhead: usize = match border {
            BorderStyle::Shadow => 3,
            BorderStyle::Tag => 2,
            BorderStyle::Rule | BorderStyle::Heading => 0,
            _ => 2,
        };
        let mut w = max_size;
        while w > 0
            invariant
                w <= max_size,
                overhead == border_overhead(border),
                banner_fit(content_len, max_size, border, print_width) == fit_from(content_len, max_size, overhead, print_width, w),
            decreases w,
        {
            let cpl = (print_width / 12) / (w as usize);
            let usable = if cpl > overhead { cpl - overhead } else { 0 };
            if content_len <= usable {
                return ([max_size, w], cpl);
            }
            w = w - 1;
        }
        ([0, 0], print_width / 9)
    }
}

fn push_lines(ctx: &mut EmitContext, line: &String, n: u8, Ghost(base): Ghost<Seq<OpV>>)
    requires
        ops_view(old(ctx).ops@) == base,
    ensures
        final(ctx).print_width == old(ctx).print_width,
        ops_view(final(ctx).ops@) == base + repeat_ops(seq![OpV::Text(line@), OpV::Newline], n as nat),
{
    let ghost pair = seq![OpV::Text(line@), OpV::Newline];
    let mut i: u8 = 0;
    assert(ops_view(ctx.ops@) =~= base + repeat_ops(pair, 0));
    while i < n
        invariant
            i <= n,
            pair == seq![OpV::Text(line@), OpV::Newline],
            ctx.print_width == old(ctx).print_width,
            ops_view(ctx.ops@) == base + repeat_ops(pair, i as nat),
        decreases n - i,
    {
        let ghost before = ops_view(ctx.ops@);
        ctx.push(Op::Text(line.clone()));
        ctx.push(Op::Newline);
        i = i + 1;
        assert(repeat_ops(pair, i as nat) == repeat_ops(pair, (i - 1) as nat) + pair);
        assert(ops_view(ctx.ops@) =~= before + pair);
        assert(ops_view(ctx.ops@) =~= base + repeat_ops(pair, i as nat));
    }
}

fn emit_bold_line(ctx: &mut EmitContext, line: String, bold: bool)
    ensures
        final(ctx).print_width == old(ctx).print_width,
        ops_view(final(ctx).ops@) == ops_view(old(ctx).ops@) + bold_line(line@, bold),
{
    let ghost l = line@;
    push_if(&mut ctx.ops, bold, Op::SetBold(true));
    ctx.push(Op::Text(line));
    ctx.push(Op::Newline);
    push_if(&mut ctx.ops, bold, Op::SetBold(false));
    assert(ops_view(ctx.ops@) =~= ops_view(old(ctx).ops@) + bold_line(l, bold));
}

fn make_row(left: char, fill: char, n: usize, right: char) -> (s: String)
    ensures
        s@ == seq![left] + rep(fill, n as nat) + seq![right],
{
    let mut s = String::new();
    push_char(&mut s, left);
    push_rep(&mut s, fill, n);
    push_char(&mut s, right);
    assert(s@ =~= seq![left] + rep(fill, n as nat) + seq![right]);
    s
}

fn make_content_row(vert: char, content: &str, inner: usize) -> (s: String)
    requires
        cuttable(content@, inner as nat),
    ensures
        s@ == content_row(vert, content@, inner),
{
    let text = truncate_bytes(content, inner);
    let tl = byte_len(text);
    let pad = if inner > tl { inner - tl } else { 0 };
    let mut s = String::new();
    push_char(&mut s, vert);
    push_rep(&mut s, ' ', pad / 2);
    push_str(&mut s, text);
    push_rep(&mut s, ' ', pad - pad / 2);
    push_char(&mut s, vert);
    assert(s@ =~= content_row(vert, content@, inner));
    s
}

fn frame_chars(border: BorderStyle) -> (r: (char, char, char, char, char, char))
    ensures
        r == box_chars(border),
{
    match border {
        BorderStyle::Double => ('\u{2554}', '\u{2557}', '\u{255A}', '\u{255D}', '\u{2550}', '\u{2551}'),
        BorderStyle::Heavy => ('\u{2588}', '\u{2588}', '\u{2588}', '\u{2588}', '\u{2588}', '\u{2588}'),
        BorderStyle::Shade => ('\u{2592}', '\u{2592}', '\u{2592}', '\u{2592}', '\u{2592}', '\u{2592}'),
        _ => ('\u{250C}', '\u{2510}', '\u{2514}', '\u{2518}', '\u{2500}', '\u{2502}'),
    }
}

fn shade_row(row: String) -> (s: String)
    ensures
        s@ == row@.push('\u{2593}'),
{
    let mut s = row;
    push_char(&mut s, '\u{2593}');
    s
}

fn emit_framed(ctx: &mut EmitContext, top: String, empty: &String, line: String, padding: u8, bold: bool)
    ensures
        final(ctx).print_width == old(ctx).print_width,
        ops_view(final(ctx).ops@) == ops_view(old(ctx).ops@) + framed_ops(top@, empty@, line@, padding, bold),
{
    let ghost b = ops_view(ctx.ops@);
    let ghost top_v = top@;
    let ghost line_v = line@;
    let ghost e = seq![OpV::Text(empty@), OpV::Newline];
    ctx.push(Op::Text(top));
    ctx.push(Op::Newline);
    let ghost s1 = ops_view(ctx.ops@);
    push_lines(ctx, empty, padding, Ghost(s1));
    let ghost s2 = ops_view(ctx.ops@);
    emit_bold_line(ctx, line, bold);
    let ghost s3 = ops_view(ctx.ops@);
    push_lines(ctx, empty, padding, Ghost(s3));
    assert(s1 =~= b + seq![OpV::Text(top_v), OpV::Newline]);
    assert(ops_view(ctx.ops@) =~= b + framed_ops(top_v, empty@, line_v, padding, bold));
}

impl Banner {
    fn emit_boxed(&self, ctx: &mut EmitContext, total: usize)
        requires
            total >= 2,
            cuttable(self.content@, (total - 2) as nat),
        ensures
            final(ctx).print_width == old(ctx).print_width,
            ops_view(final(ctx).ops@) == ops_view(old(ctx).ops@) + boxed_ops(*self, total),
    {
        let (tl, tr, bl, br, h, v) = frame_chars(self.border);
        let inner = total - 2;
        let top = make_row(tl, h, inner, tr);
        let bot = make_row(bl, h, inner, br);
        let empty = make_row(v, ' ', inner, v);
        let line = make_content_row(v, self.content.as_str(), inner);
        let ghost bot_v = bot@;
        let ghost b = ops_view(ctx.ops@);
        emit_framed(ctx, top, &empty, line, self.padding, self.bold);
        ctx.push(Op::Text(bot));
        ctx.push(Op::Newline);
        assert(empty@ =~= seq![v] + blanks(inner as nat) + seq![v]);
        assert(ops_view(ctx.ops@) =~= b + boxed_ops(*self, total));
    }

    fn emit_shadow(&self, ctx: &mut EmitContext, total: usize)
        requires
            total >= 3,
            cuttable(self.content@, (total - 3) as nat),
        ensures
            final(ctx).print_width == old(ctx).print_width,
            ops_view(final(ctx).ops@) == ops_view(old(ctx).ops@) + shadow_ops(*self, total),
    {
        let s = '\u{2593}';
        let box_width = total - 1;
        let inner = box_width - 2;
        let top = make_row('\u{250C}', '\u{2500}', inner, '\u{2510}');
        let bot = shade_row(make_row('\u{2514}', '\u{2500}', inner, '\u{2518}'));
        let empty = shade_row(make_row('\u{2502}', ' ', inner, '\u{2502}'));
        let line = shade_row(make_content_row('\u{2502}', self.content.as_str(), inner));
        let mut under = String::new();
        push_char(&mut under, ' ');
        push_rep(&mut under, s, box_width);
        let ghost bot_v = bot@;
        let ghost under_v = under@;
        let ghost b = ops_view(ctx.ops@);
        emit_framed(ctx, top, &empty, line, self.padding, self.bold);
        ctx.push(Op::Text(bot));
        ctx.push(Op::Newline);
        ctx.push(Op::Text(under));
        ctx.push(Op::Newline);
        assert(empty@ =~= seq!['\u{2502}'] + blanks(inner as nat) + seq!['\u{2502}', s]);
        assert(bot_v =~= seq!['\u{2514}'] + rep('\u{2500}', inner as nat) + seq!['\u{2518}', s]);
        assert(under_v =~= seq![' '] + rep(s, box_width as nat));
        assert(ops_view(ctx.ops@) =~= b + shadow_ops(*self, total));
    }

    fn emit_rule(&self, ctx: &mut EmitContext, total: usize)
        ensures
            final(ctx).print_width == old(ctx).print_width,
            ops_view(final(ctx).ops@) == ops_view(old(ctx).ops@) + bold_line(rule_line(self.content@, total), self.bold),
    {
        let len = byte_len(self.content.as_str());
        let remaining = if len < usize::MAX - 1 && total > len + 2 { total - (len + 2) } else { 0 };
        let mut line = String::new();
        push_rep(&mut line, '\u{2500}', remaining / 2);
        push_char(&mut line, ' ');
        push_str(&mut line, self.content.as_str());
        push_char(&mut line, ' ');
        push_rep(&mut line, '\u{2500}', remaining - remaining / 2);
        assert(line@ =~= rule_line(self.content@, total));
        emit_bold_line(ctx, line, self.bold);
    }

    fn emit_heading(&self, ctx: &mut EmitContext, total: usize)
        ensures
            final(ctx).print_width == old(ctx).print_width,
            ops_view(final(ctx).ops@) == ops_view(old(ctx).ops@) + heading_ops(*self, total),
    {
        let ghost b = ops_view(ctx.ops@);
        ctx.push(Op::SetAlign(Alignment::Center));
        emit_bold_line(ctx, self.content.clone(), self.bold);
        ctx.push(Op::SetAlign(Alignment::Left));
        let rule = crate::text::repeat_char('\u{2500}', total);
        ctx.push(Op::Text(rule));
        ctx.push(Op::Newline);
        assert(ops_view(ctx.ops@) =~= b + heading_ops(*self, total));
    }

    fn emit_tag(&self, ctx: &mut EmitContext)
        ensures
            final(ctx).print_width == old(ctx).print_width,
            ops_view(final(ctx).ops@) == ops_view(old(ctx).ops@) + bold_line(seq!['\u{25A0}', ' '] + self.content@, self.bold),
    {
        let mut line = String::new();
        push_char(&mut line, '\u{25A0}');
        push_char(&mut line, ' ');
        push_str(&mut line, self.content.as_str());
        assert(line@ =~= seq!['\u{25A0}', ' '] + self.content@);
        emit_bold_line(ctx, line, self.bold);
    }

    /// Whether the banner can be emitted on a line `print_width` dots wide.
    pub open spec fn ready(self, print_width: usize) -> bool {
        banner_ready(self, print_width)
    }

    /// Emit the banner: the fitted font and size, the framed rows, and the size reset.
    pub fn emit(&self, ctx: &mut EmitContext)
        requires
            self.ready(old(ctx).print_width),
        ensures
            final(ctx).print_width == old(ctx).print_width,
            ops_view(final(ctx).ops@) == ops_view(old(ctx).ops@) + banner_ops(*self, old(ctx).print_width),
    {
        let ghost b = ops_view(ctx.ops@);
        let len = byte_len(self.content.as_str());
        let (size, total) = Banner::fit(len, self.size, self.border, ctx.print_width);
        let h = size[0];
        let w = size[1];
        let font = if h == 0 && w == 0 { Font::B } else { Font::A };
        let esc_h: u8 = if h > 0 { h - 1 } else { 0 };
        let esc_w: u8 = if w > 0 { w - 1 } else { 0 };
        let sized = esc_h > 0 || esc_w > 0;
        ctx.push(Op::SetFont(font));
        ctx.push(Op::SetAlign(Alignment::Left));
        push_if(&mut ctx.ops, sized, Op::SetSize { height: esc_h, width: esc_w });
        let ghost s1 = ops_view(ctx.ops@);
        match self.border {
            BorderStyle::Shadow => self.emit_shadow(ctx, total),
            BorderStyle::Rule => self.emit_rule(ctx, total),
            BorderStyle::Heading => self.emit_heading(ctx, total),
            BorderStyle::Tag => self.emit_tag(ctx),
            _ => self.emit_boxed(ctx, total),
        }
        let ghost s2 = ops_view(ctx.ops@);
        push_if(&mut ctx.ops, sized, Op::SetSize { height: 0, width: 0 });
        assert(s2 == s1 + banner_body(*self, total));
        assert(ops_view(ctx.ops@) =~= b + banner_ops(*self, old(ctx).print_width));
    }
}

impl Banner {
    /// Whether the banner can be emitted on a line `print_width` dots wide.
    pub fn is_ready(&self, print_width: usize) -> (b: bool)
        ensures
            b == self.ready(print_width),
    {
        if self.font.is_some() {
            return false;
        }
        let (_size, total) = Banner::fit(byte_len(self.content.as_str()), self.size, self.border, print_width);
        match self.border {
            BorderStyle::Shadow => total >= 3 && can_cut(self.content.as_str(), total - 3),
            BorderStyle::Rule | BorderStyle::Heading | BorderStyle::Tag => true,
            _ => total >= 2 && can_cut(self.content.as_str(), total - 2),
        }
    }
}

/// The text of a rule banner's line: `left` rule characters, a space, the
/// content, a space and `right` rule characters.
pub open spec fn ruled(line: Seq<char>, content: Seq<char>, left: int, right: int) -> bool {
    &&& line.len() == left + content.len() + 2 + right
    &&& forall|k: int| 0 <= k < left ==> line[k] == '\u{2500}'
    &&& line[left] == ' '
    &&& line.subrange(left + 1, left + 1 + content.len()) == content
    &&& line[left + 1 + content.len()] == ' '
    &&& forall|k: int| left + 2 + content.len() <= k < line.len() ==> line[k] == '\u{2500}'
}

proof fn lemma_rule_line_shape(content: Seq<char>, total: usize)
    ensures
        ({
            let r = if total >= blen(content) + 2 { total - (blen(content) + 2) } else { 0 };
            ruled(rule_line(content, total), content, r / 2, r - r / 2)
        }),
{
    let r = if total >= blen(content) + 2 { total - (blen(content) + 2) } else { 0 };
    let line = rule_line(content, total);
    let a = rep('\u{2500}', (r / 2) as nat);
    let z = rep('\u{2500}', (r - r / 2) as nat);
    assert(sat_sub(total as int, blen(content) as int + 2) == r);
    assert(line == a + seq![' '] + content + seq![' '] + z);
    let n = content.len() as int;
    let h = r / 2;
    assert forall|k: int| 0 <= k < h implies line[k] == '\u{2500}' by {
        assert(line[k] == a[k]);
    }
    assert(line[h] == ' ');
    assert(line.subrange(h + 1, h + 1 + n) =~= content) by {
        assert forall|k: int| 0 <= k < n implies line.subrange(h + 1, h + 1 + n)[k] == content[k] by {
            assert(line[h + 1 + k] == content[k]);
        }
    }
    assert(line[h + 1 + n] == ' ');
    assert forall|k: int| h + 2 + n <= k < line.len() implies line[k] == '\u{2500}' by {
        assert(line[k] == z[k - (h + 2 + n)]);
    }
}

/// A rule banner prints one line: its content with a space each side,
/// centered between horizontal rule characters that fill the banner's
/// width, `remaining / 2` of them before the content and the rest after (so
/// the two sides differ by at most one), where `remaining` is the width
/// less the content's length and the two spaces. A bold banner switches
/// bold on just before the line and off just after it; any other sets no
/// bold at all.
pub proof fn lemma_rule_banner(b: Banner, print_width: usize)
    requires
        b.border == BorderStyle::Rule,
    ensures
        ({
            let ops = banner_ops(b, print_width);
            let total = banner_fit(blen(b.content@), b.size, b.border, print_width).2;
            let r = if total >= blen(b.content@) + 2 { total - (blen(b.content@) + 2) } else { 0 };
            &&& exists|i: int| 0 <= i < ops.len() && #[trigger] ops[i] is Text
            &&& forall|i: int| 0 <= i < ops.len() && #[trigger] ops[i] is Text ==> ruled(ops[i]->Text_0, b.content@, r / 2, r - r / 2)
            &&& forall|i: int|
                0 <= i < ops.len() && #[trigger] ops[i] is Text ==> (b.bold ==> 1 <= i && i + 2 < ops.len()
                    && ops[i - 1] == OpV::SetBold(true) && ops[i + 2] == OpV::SetBold(false))
            &&& !b.bold ==> all_ops(ops, |op: OpV| !(op is SetBold))
        }),
{
    let (h, w, total) = banner_fit(blen(b.content@), b.size, b.border, print_width);
    let line = rule_line(b.content@, total);
    lemma_rule_line_shape(b.content@, total);
    let sized = dec(h) > 0 || dec(w) > 0;
    let head = seq![
        OpV::SetFont(if h == 0 && w == 0 { Font::B } else { Font::A }),
        OpV::SetAlign(Alignment::Left),
    ] + op_if(sized, OpV::SetSize { height: dec(h), width: dec(w) });
    let on = op_if(b.bold, OpV::SetBold(true));
    let mid = seq![OpV::Text(line), OpV::Newline];
    let off = op_if(b.bold, OpV::SetBold(false)) + op_if(sized, OpV::SetSize { height: 0, width: 0 });
    let ops = banner_ops(b, print_width);
    assert(ops =~= head + on + mid + off);
    let p = |op: OpV| op is Text ==> op == OpV::Text(line);
    assert(all_ops(head, p));
    assert(all_ops(on, p));
    assert(all_ops(mid, p));
    assert(all_ops(off, p));
    lemma_all_ops_concat(head, on, p);
    lemma_all_ops_concat(head + on, mid, p);
    lemma_all_ops_concat(head + on + mid, off, p);
    let i = (head + on).len() as int;
    assert(ops[i] == OpV::Text(line));
    if b.bold {
        assert(ops[i - 1] == OpV::SetBold(true));
        assert(ops[i + 2] == OpV::SetBold(false));
    } else {
        let q = |op: OpV| !(op is SetBold);
        assert(all_ops(head, q));
        assert(all_ops(on, q));
        assert(all_ops(mid, q));
        assert(all_ops(off, q));
        lemma_all_ops_concat(head, on, q);
        lemma_all_ops_concat(head + on, mid, q);
        lemma_all_ops_concat(head + on + mid, off, q);
    }
    assert forall|j: int| 0 <= j < ops.len() && #[trigger] ops[j] is Text implies ruled(
        ops[j]->Text_0,
        b.content@,
        (if total >= blen(b.content@) + 2 { total - (blen(b.content@) + 2) } else { 0 }) / 2,
        (if total >= blen(b.content@) + 2 { total - (blen(b.content@) + 2) } else { 0 }) - (if total >= blen(
            b.content@,
        ) + 2 { total - (blen(b.content@) + 2) } else { 0 }) / 2,
    ) by {
        assert(p(ops[j]));
    }
}

} // verus!
