//! Character styles across a document: every component switches off each
//! style it switches on, so a document program leaves the printer in the
//! plain style.

use crate::components::layout::{columns_line, styled_line_ops};
use crate::document::banner::{banner_body, banner_fit, bold_line, box_chars, content_row, framed_ops, repeat_ops, rule_line};
use crate::document::component::{component_ops, Component};
use crate::document::markdown::document_md_style;
use crate::document::table::{body_ops, header_rule, row_line, rule_row, table_frame, table_header_ops, table_widths, text_line};
use crate::document::text::{lemma_doc_text_restores_style, lemma_header_restores_style};
use crate::document::types::{dec, Banner, BorderStyle, Table, Total};
use crate::document::{components_ops, program_ops};
use crate::markdown::{heading_end_ops, heading_start_ops, item_indent, markdown_events, markdown_render, md_initial, md_run, md_step, wrap_inc, MdEventV, MdStateV, MdStyle, TagKind};
use crate::ir::{lemma_run_concat, lemma_run_op_if, lemma_run_then, op_if, plain_style, run_ops, Alignment, Font, OpV, Style};
use crate::text::{blanks, blen, is_blank, rep};
use vstd::prelude::*;

verus! {

/// Whether an op leaves the character style as it is.
pub open spec fn keeps_style(op: OpV) -> bool {
    match op {
        OpV::Init | OpV::SetBold(_) | OpV::SetUnderline(_) | OpV::SetUpperline(_) | OpV::SetInvert(_)
        | OpV::SetUpsideDown(_) | OpV::SetReduced(_) | OpV::SetExpandedWidth(_) | OpV::SetExpandedHeight(_)
        | OpV::SetSize { .. } => false,
        _ => true,
    }
}

/// Whether no op of the sequence changes the character style.
pub open spec fn style_free(ops: Seq<OpV>) -> bool {
    forall|i: int| 0 <= i < ops.len() ==> keeps_style(#[trigger] ops[i])
}

proof fn lemma_style_free_run(s: Style, ops: Seq<OpV>)
    requires
        style_free(ops),
    ensures
        run_ops(s, ops) == s,
    decreases ops.len(),
{
    if ops.len() > 0 {
        let rest = ops.drop_last();
        assert forall|i: int| 0 <= i < rest.len() implies keeps_style(#[trigger] rest[i]) by {
            assert(rest[i] == ops[i]);
        }
        lemma_style_free_run(s, rest);
        assert(keeps_style(ops[ops.len() - 1]));
    }
}

proof fn lemma_style_free_add(a: Seq<OpV>, b: Seq<OpV>)
    requires
        style_free(a),
        style_free(b),
    ensures
        style_free(a + b),
{
    assert forall|i: int| 0 <= i < (a + b).len() implies keeps_style(#[trigger] (a + b)[i]) by {
        if i >= a.len() {
            assert((a + b)[i] == b[i - a.len()]);
        }
    }
}

/// Running `a` then style-free ops ends where running `a` ends.
proof fn lemma_run_free_tail(s: Style, a: Seq<OpV>, b: Seq<OpV>)
    requires
        style_free(b),
    ensures
        run_ops(s, a + b) == run_ops(s, a),
{
    lemma_run_concat(s, a, b);
    lemma_style_free_run(run_ops(s, a), b);
}

proof fn lemma_repeat_style_free(e: Seq<OpV>, n: nat)
    requires
        style_free(e),
    ensures
        style_free(repeat_ops(e, n)),
    decreases n,
{
    if n > 0 {
        lemma_repeat_style_free(e, (n - 1) as nat);
        lemma_style_free_add(repeat_ops(e, (n - 1) as nat), e);
    }
}

proof fn lemma_bold_line_style(s: Style, line: Seq<char>, bold: bool)
    requires
        !s.bold,
    ensures
        run_ops(s, bold_line(line, bold)) == s,
{
    let on = op_if(bold, OpV::SetBold(true));
    lemma_run_op_if(s, bold, OpV::SetBold(true));
    lemma_run_free_tail(s, on, seq![OpV::Text(line), OpV::Newline]);
    lemma_run_then(s, on + seq![OpV::Text(line), OpV::Newline], bold, OpV::SetBold(false));
}

proof fn lemma_framed_style(s: Style, top: Seq<char>, empty: Seq<char>, line: Seq<char>, padding: u8, bold: bool)
    requires
        !s.bold,
    ensures
        run_ops(s, framed_ops(top, empty, line, padding, bold)) == s,
{
    let e = seq![OpV::Text(empty), OpV::Newline];
    let r = repeat_ops(e, padding as nat);
    lemma_repeat_style_free(e, padding as nat);
    let t = seq![OpV::Text(top), OpV::Newline];
    lemma_style_free_add(t, r);
    lemma_style_free_run(s, t + r);
    lemma_run_concat(s, t + r, bold_line(line, bold));
    lemma_bold_line_style(s, line, bold);
    lemma_run_free_tail(s, t + r + bold_line(line, bold), r);
}

proof fn lemma_banner_body_style(s: Style, b: Banner, total: usize)
    requires
        !s.bold,
    ensures
        run_ops(s, banner_body(b, total)) == s,
{
    match b.border {
        BorderStyle::Shadow => {
            let sh = '\u{2593}';
            let box_width = (total - 1) as usize;
            let inner = (box_width - 2) as usize;
            let top = seq!['\u{250C}'] + rep('\u{2500}', inner as nat) + seq!['\u{2510}'];
            let empty = seq!['\u{2502}'] + blanks(inner as nat) + seq!['\u{2502}', sh];
            let line = content_row('\u{2502}', b.content@, inner).push(sh);
            lemma_framed_style(s, top, empty, line, b.padding, b.bold);
            let tail = seq![
                OpV::Text(seq!['\u{2514}'] + rep('\u{2500}', inner as nat) + seq!['\u{2518}', sh]),
                OpV::Newline,
                OpV::Text(seq![' '] + rep(sh, box_width as nat)),
                OpV::Newline,
            ];
            lemma_run_free_tail(s, framed_ops(top, empty, line, b.padding, b.bold), tail);
        },
        BorderStyle::Rule => {
            lemma_bold_line_style(s, rule_line(b.content@, total), b.bold);
        },
        BorderStyle::Heading => {
            let head = seq![OpV::SetAlign(Alignment::Center)];
            lemma_style_free_run(s, head);
            lemma_run_concat(s, head, bold_line(b.content@, b.bold));
            lemma_bold_line_style(s, b.content@, b.bold);
            let tail = seq![OpV::SetAlign(Alignment::Left), OpV::Text(rep('\u{2500}', total as nat)), OpV::Newline];
            lemma_run_free_tail(s, head + bold_line(b.content@, b.bold), tail);
        },
        BorderStyle::Tag => {
            lemma_bold_line_style(s, seq!['\u{25A0}', ' '] + b.content@, b.bold);
        },
        _ => {
            let (tl, tr, bl, br, h, v) = box_chars(b.border);
            let inner = (total - 2) as usize;
            let top = seq![tl] + rep(h, inner as nat) + seq![tr];
            let empty = seq![v] + blanks(inner as nat) + seq![v];
            let line = content_row(v, b.content@, inner);
            lemma_framed_style(s, top, empty, line, b.padding, b.bold);
            let tail = seq![OpV::Text(seq![bl] + rep(h, inner as nat) + seq![br]), OpV::Newline];
            lemma_run_free_tail(s, framed_ops(top, empty, line, b.padding, b.bold), tail);
        },
    }
}

proof fn lemma_banner_style(b: Banner, print_width: usize)
    ensures
        run_ops(plain_style(), component_ops(Component::Banner(b), print_width)) == plain_style(),
{
    let p = plain_style();
    let (h, w, total) = banner_fit(blen(b.content@), b.size, b.border, print_width);
    let sized = dec(h) > 0 || dec(w) > 0;
    let head = seq![OpV::SetFont(if h == 0 && w == 0 { Font::B } else { Font::A }), OpV::SetAlign(Alignment::Left)];
    lemma_style_free_run(p, head);
    let set = OpV::SetSize { height: dec(h), width: dec(w) };
    lemma_run_then(p, head, sized, set);
    let a1 = head + op_if(sized, set);
    let st = run_ops(p, a1);
    lemma_banner_body_style(st, b, total);
    lemma_run_concat(p, a1, banner_body(b, total));
    lemma_run_then(p, a1 + banner_body(b, total), sized, OpV::SetSize { height: 0, width: 0 });
}

proof fn lemma_body_style_free(t: Table, widths: Seq<usize>, k: nat)
    ensures
        style_free(body_ops(t, widths, k)),
    decreases k,
{
    if k > 0 {
        lemma_body_style_free(t, widths, (k - 1) as nat);
        let ch = table_frame(t.border);
        let prev = body_ops(t, widths, (k - 1) as nat);
        let row = text_line(row_line(ch.vert, t.rows@[k - 1]@, widths, t.align@));
        lemma_style_free_add(prev, row);
        let sep = if t.row_separator && k < t.rows@.len() {
            text_line(rule_row(ch.t_right, ch.horiz, ch.cross, ch.t_left, widths))
        } else {
            Seq::empty()
        };
        lemma_style_free_add(prev + row, sep);
    }
}

proof fn lemma_table_style(t: Table, print_width: usize)
    ensures
        run_ops(plain_style(), component_ops(Component::Table(t), print_width)) == plain_style(),
{
    let p = plain_style();
    let widths = table_widths(t, print_width);
    let ch = table_frame(t.border);
    let ops = component_ops(Component::Table(t), print_width);
    if crate::document::table::table_cols(t) == 0 {
        assert(run_ops(p, Seq::<OpV>::empty()) == p);
        return;
    }
    let head = seq![OpV::SetFont(Font::A), OpV::SetAlign(Alignment::Left)] + text_line(
        rule_row(ch.tl, ch.horiz, ch.t_down, ch.tr, widths),
    );
    lemma_style_free_add(
        seq![OpV::SetFont(Font::A), OpV::SetAlign(Alignment::Left)],
        text_line(rule_row(ch.tl, ch.horiz, ch.t_down, ch.tr, widths)),
    );
    lemma_style_free_run(p, head);
    let hd = table_header_ops(t, widths);
    assert(run_ops(p, hd) == p) by {
        if t.headers is Some {
            let hh = t.headers->0;
            let l = text_line(row_line(ch.vert, hh@, widths, t.align@));
            let on = seq![OpV::SetBold(true)];
            lemma_run_free_tail(p, on, l);
            assert(on.drop_last() =~= Seq::<OpV>::empty());
            assert(run_ops(p, Seq::<OpV>::empty()) == p);
            lemma_run_concat(p, on + l, seq![OpV::SetBold(false)]);
            assert(seq![OpV::SetBold(false)].drop_last() =~= Seq::<OpV>::empty());
            let st = run_ops(p, on + l);
            assert(run_ops(st, Seq::<OpV>::empty()) == st);
            lemma_run_free_tail(p, on + l + seq![OpV::SetBold(false)], text_line(header_rule(t.border, widths)));
        } else {
            assert(run_ops(p, Seq::<OpV>::empty()) == p);
        }
    }
    lemma_run_concat(p, head, hd);
    lemma_body_style_free(t, widths, t.rows@.len());
    lemma_run_free_tail(p, head + hd, body_ops(t, widths, t.rows@.len()));
    lemma_run_free_tail(
        p,
        head + hd + body_ops(t, widths, t.rows@.len()),
        text_line(rule_row(ch.bl, ch.horiz, ch.t_up, ch.br, widths)),
    );
}

proof fn lemma_total_style(t: Total)
    ensures
        run_ops(plain_style(), component_ops(Component::Total(t), 0)) == plain_style(),
{
    let p = plain_style();
    let s0 = seq![OpV::SetFont(Font::A)];
    lemma_style_free_run(p, s0);
    lemma_run_then(p, s0, t.right_aligned(), OpV::SetAlign(Alignment::Right));
    let s1 = s0 + op_if(t.right_aligned(), OpV::SetAlign(Alignment::Right));
    lemma_run_then(p, s1, t.is_bold(), OpV::SetBold(true));
    let s2 = s1 + op_if(t.is_bold(), OpV::SetBold(true));
    lemma_run_then(p, s2, t.double_width, OpV::SetExpandedWidth(1));
    let s3 = s2 + op_if(t.double_width, OpV::SetExpandedWidth(1));
    let line = seq![OpV::Text(crate::components::text::total_line(t.label_text(), t.amount@)), OpV::Newline];
    lemma_run_free_tail(p, s3, line);
    lemma_run_then(p, s3 + line, t.double_width, OpV::SetExpandedWidth(0));
    lemma_run_then(p, s3 + line + op_if(t.double_width, OpV::SetExpandedWidth(0)), t.is_bold(), OpV::SetBold(false));
}

proof fn lemma_styled_line(line: Seq<char>, bold: bool, underline: bool, invert: bool)
    ensures
        run_ops(plain_style(), seq![OpV::SetFont(Font::A)] + styled_line_ops(line, bold, underline, invert)) == plain_style(),
{
    let p = plain_style();
    let s0 = seq![OpV::SetAlign(Alignment::Left)];
    lemma_style_free_run(p, s0);
    lemma_run_then(p, s0, bold, OpV::SetBold(true));
    let s1 = s0 + op_if(bold, OpV::SetBold(true));
    lemma_run_then(p, s1, underline, OpV::SetUnderline(true));
    let s2 = s1 + op_if(underline, OpV::SetUnderline(true));
    lemma_run_then(p, s2, invert, OpV::SetInvert(true));
    let s3 = s2 + op_if(invert, OpV::SetInvert(true));
    lemma_run_free_tail(p, s3, seq![OpV::Text(line), OpV::Newline]);
    let s4 = s3 + seq![OpV::Text(line), OpV::Newline];
    lemma_run_then(p, s4, invert, OpV::SetInvert(false));
    let s5 = s4 + op_if(invert, OpV::SetInvert(false));
    lemma_run_then(p, s5, underline, OpV::SetUnderline(false));
    let s6 = s5 + op_if(underline, OpV::SetUnderline(false));
    lemma_run_then(p, s6, bold, OpV::SetBold(false));
    let f = seq![OpV::SetFont(Font::A)];
    lemma_style_free_run(p, f);
    lemma_run_concat(p, f, styled_line_ops(line, bold, underline, invert));
}

/// A component whose rendering keeps the order of tags: markdown whose
/// parse opens and closes its tags in order, and every other component.
pub open spec fn renders_balanced(c: Component) -> bool {
    match c {
        Component::Markdown(m) => md_balanced(markdown_events(m.content@)),
        _ => true,
    }
}

/// Starting from the plain style, every component leaves the printer in the
/// plain style: each style it switches on, it switches off (markdown when
/// its tags open and close in order).
pub proof fn lemma_component_keeps_plain_style(c: Component, print_width: usize)
    requires
        renders_balanced(c),
    ensures
        run_ops(plain_style(), component_ops(c, print_width)) == plain_style(),
{
    let p = plain_style();
    let ops = component_ops(c, print_width);
    match c {
        Component::Text(t) => lemma_doc_text_restores_style(t),
        Component::Header(h) => lemma_header_restores_style(h),
        Component::Banner(b) => lemma_banner_style(b, print_width),
        Component::Total(t) => lemma_total_style(t),
        Component::Columns(col) => lemma_styled_line(
            columns_line(col.left@, col.right@, col.row_width(print_width)),
            col.bold,
            col.underline,
            col.invert,
        ),
        Component::Table(t) => lemma_table_style(t, print_width),
        Component::Spacer(s) => lemma_run_op_if(p, s.feed_units() > 0, OpV::Feed { units: s.feed_units() }),
        Component::Image(i) => {
            if i.resolved_data is Some {
                let r = i.resolved_data->0;
                let pw = print_width as u16;
                let pos = crate::document::graphics::image_position(i.align, pw, r.width);
                lemma_style_free_add(
                    op_if(r.width < pw && pos > 0, OpV::SetAbsolutePosition(pos)),
                    seq![OpV::Raster { width: r.width, height: r.height, data: r.raster_data@ }],
                );
                lemma_style_free_run(p, ops);
            } else {
                lemma_style_free_run(p, ops);
            }
        },
        Component::Markdown(m) => {
            let text = m.content@;
            if !is_blank(text) {
                let head = seq![OpV::SetAlign(Alignment::Left)];
                let body = markdown_render(document_md_style(print_width), m.show_urls, markdown_events(text));
                lemma_style_free_run(p, head);
                lemma_run_concat(p, head, body);
                lemma_markdown_keeps_plain_style(document_md_style(print_width), m.show_urls, markdown_events(text));
            } else {
                assert(run_ops(p, Seq::<OpV>::empty()) == p);
            }
        },
        _ => lemma_style_free_run(p, ops),
    }
}

proof fn lemma_components_plain(comps: Seq<Component>, print_width: usize, k: nat)
    requires
        k <= comps.len(),
        forall|i: int| 0 <= i < comps.len() ==> renders_balanced(#[trigger] comps[i]),
    ensures
        run_ops(plain_style(), components_ops(comps, print_width, k)) == plain_style(),
    decreases k,
{
    if k == 0 {
        assert(run_ops(plain_style(), Seq::<OpV>::empty()) == plain_style());
    } else {
        lemma_components_plain(comps, print_width, (k - 1) as nat);
        lemma_component_keeps_plain_style(comps[k - 1], print_width);
        lemma_run_concat(plain_style(), components_ops(comps, print_width, (k - 1) as nat), component_ops(comps[k - 1], print_width));
    }
}

/// A document leaves the printer in the plain style, whatever style it
/// started from: it begins with a printer reset and every component switches
/// off the styles it switches on (markdown when its tags open and close in
/// order).
pub proof fn lemma_program_plain_style(s: Style, comps: Seq<Component>, print_width: usize, cut: bool)
    requires
        forall|i: int| 0 <= i < comps.len() ==> renders_balanced(#[trigger] comps[i]),
    ensures
        run_ops(s, program_ops(comps, print_width, cut)) == plain_style(),
{
    let p = plain_style();
    let head = seq![OpV::Init, OpV::SetCodepage(1)];
    assert(head.drop_last() =~= seq![OpV::Init]);
    assert(seq![OpV::Init].drop_last() =~= Seq::<OpV>::empty());
    assert(run_ops(s, Seq::<OpV>::empty()) == s);
    assert(run_ops(s, seq![OpV::Init]) == p);
    assert(run_ops(s, head) == p);
    let body = components_ops(comps, print_width, comps.len());
    lemma_components_plain(comps, print_width, comps.len());
    lemma_run_concat(s, head, body);
    lemma_run_then(s, head + body, cut, OpV::Cut { partial: true });
}

/// How an event changes the number of open tags of a kind.
pub open spec fn tag_delta(ev: MdEventV, kind: TagKind) -> int {
    match ev {
        MdEventV::Start { kind: k, .. } => if k == kind { 1 } else { 0 },
        MdEventV::End(k) => if k == kind { -1 } else { 0 },
        _ => 0,
    }
}

/// The number of tags of a kind that the first `n` events leave open.
pub open spec fn open_tags(evs: Seq<MdEventV>, n: nat, kind: TagKind) -> int
    decreases n,
{
    if n == 0 {
        0
    } else {
        open_tags(evs, (n - 1) as nat, kind) + tag_delta(evs[n - 1], kind)
    }
}

/// After the first `n` events no tag that styles text has closed more often
/// than it opened, and at most one heading is open.
pub open spec fn tags_in_order(evs: Seq<MdEventV>, n: nat) -> bool {
    &&& 0 <= open_tags(evs, n, TagKind::Heading) <= 1
    &&& open_tags(evs, n, TagKind::Strong) >= 0
    &&& open_tags(evs, n, TagKind::Emphasis) >= 0
    &&& open_tags(evs, n, TagKind::Link) >= 0
    &&& open_tags(evs, n, TagKind::CodeBlock) >= 0
}

/// Events whose headings, strong and emphasized spans, links and code blocks
/// open and close in order, headings not nested, and are all closed at the
/// end (as a CommonMark parse gives them).
pub open spec fn md_balanced(evs: Seq<MdEventV>) -> bool {
    &&& forall|n: nat| n <= evs.len() ==> #[trigger] tags_in_order(evs, n)
    &&& open_tags(evs, evs.len(), TagKind::Heading) == 0
    &&& open_tags(evs, evs.len(), TagKind::Strong) == 0
    &&& open_tags(evs, evs.len(), TagKind::Emphasis) == 0
    &&& open_tags(evs, evs.len(), TagKind::Link) == 0
    &&& open_tags(evs, evs.len(), TagKind::CodeBlock) == 0
}

/// The character size an open heading sets.
pub open spec fn heading_mult(full: bool, h: Option<u8>) -> u8 {
    match h {
        Some(l) => if l == 1 { 3 } else if l == 2 { 2 } else if full && l == 3 { 1 } else { 0 },
        None => 0,
    }
}

/// The expanded height an open heading sets.
pub open spec fn heading_tall(full: bool, h: Option<u8>) -> u8 {
    match h {
        Some(l) => if full && l == 4 { 1 } else { 0 },
        None => 0,
    }
}

/// What the style is after the first `n` events: sizes are those of the
/// open heading, and a style is on only while a tag that sets it is open.
pub open spec fn md_style_inv(full: bool, st: MdStateV, s: Style, evs: Seq<MdEventV>, n: nat) -> bool {
    &&& (st.heading is Some) == (open_tags(evs, n, TagKind::Heading) == 1)
    &&& s.height_mult == heading_mult(full, st.heading)
    &&& s.width_mult == heading_mult(full, st.heading)
    &&& s.expanded_height == heading_tall(full, st.heading)
    &&& s.bold ==> open_tags(evs, n, TagKind::Strong) + open_tags(evs, n, TagKind::Heading) > 0
    &&& s.underline ==> open_tags(evs, n, TagKind::Emphasis) + open_tags(evs, n, TagKind::Link) > 0
    &&& s.invert ==> open_tags(evs, n, TagKind::CodeBlock) > 0
    &&& !s.upperline && !s.upside_down && !s.reduced && s.expanded_width == 0
}

proof fn lemma_heading_start_run(full: bool, level: u8, s: Style)
    requires
        s.height_mult == 0 && s.width_mult == 0 && s.expanded_height == 0,
    ensures
        run_ops(s, heading_start_ops(full, level)) == (Style {
            bold: true,
            height_mult: heading_mult(full, Some(level)),
            width_mult: heading_mult(full, Some(level)),
            expanded_height: heading_tall(full, Some(level)),
            ..s
        }),
{
    let ops = heading_start_ops(full, level);
    if level == 1 || level == 2 {
        let m: u8 = if level == 1 { 3 } else { 2 };
        assert(ops == seq![OpV::SetAlign(Alignment::Center), OpV::SetBold(true), OpV::SetSize { height: m, width: m }, OpV::SetSmoothing(true)]);
        reveal_with_fuel(run_ops, 5);
    } else if !full || level == 5 {
        assert(ops == seq![OpV::SetBold(true)]);
        reveal_with_fuel(run_ops, 2);
    } else if level == 3 {
        assert(ops == seq![OpV::SetBold(true), OpV::SetSize { height: 1, width: 1 }, OpV::SetSmoothing(true)]);
        reveal_with_fuel(run_ops, 4);
    } else if level == 4 {
        assert(ops == seq![OpV::SetBold(true), OpV::SetExpandedHeight(1), OpV::SetSmoothing(true)]);
        reveal_with_fuel(run_ops, 4);
    } else {
        assert(ops == seq![OpV::SetFont(Font::B), OpV::SetBold(true)]);
        reveal_with_fuel(run_ops, 3);
    }
}

proof fn lemma_md_start_style(style: MdStyle, st: MdStateV, s: Style, evs: Seq<MdEventV>, n: nat)
    requires
        n < evs.len(),
        evs[n as int] is Start,
        md_style_inv(style.full, st, s, evs, n),
        tags_in_order(evs, n),
        tags_in_order(evs, n + 1),
    ensures
        ({
            let (st2, ops) = md_step(style, st, evs[n as int]);
            md_style_inv(style.full, st2, run_ops(s, ops), evs, n + 1)
        }),
{
    let ev = evs[n as int];
    assert(open_tags(evs, n + 1, TagKind::Heading) == open_tags(evs, n, TagKind::Heading) + tag_delta(ev, TagKind::Heading));
    assert(open_tags(evs, n + 1, TagKind::Strong) == open_tags(evs, n, TagKind::Strong) + tag_delta(ev, TagKind::Strong));
    assert(open_tags(evs, n + 1, TagKind::Emphasis) == open_tags(evs, n, TagKind::Emphasis) + tag_delta(ev, TagKind::Emphasis));
    assert(open_tags(evs, n + 1, TagKind::Link) == open_tags(evs, n, TagKind::Link) + tag_delta(ev, TagKind::Link));
    assert(open_tags(evs, n + 1, TagKind::CodeBlock) == open_tags(evs, n, TagKind::CodeBlock) + tag_delta(ev, TagKind::CodeBlock));
    match ev {
        MdEventV::Start { kind, level, url, start } => {
            match kind {
                TagKind::Heading => lemma_heading_start_run(style.full, level, s),
                TagKind::List => lemma_run_op_if(s, wrap_inc(st.list_depth) == 1, OpV::Newline),
                TagKind::Item => lemma_run_op_if(
                    s,
                    st.list_depth > 1,
                    OpV::SetAbsolutePosition(item_indent(st.list_depth)),
                ),
                _ => {
                    reveal_with_fuel(run_ops, 3);
                },
            }
        },
        _ => {},
    }
}

proof fn lemma_heading_end_run(full: bool, h: Option<u8>, s: Style)
    requires
        h is Some,
    ensures
        run_ops(s, heading_end_ops(full, h)) == (Style {
            bold: false,
            height_mult: if heading_mult(full, h) == 0 { s.height_mult } else { 0 },
            width_mult: if heading_mult(full, h) == 0 { s.width_mult } else { 0 },
            expanded_height: if heading_tall(full, h) == 0 { s.expanded_height } else { 0 },
            ..s
        }),
{
    let l = h->0;
    let ops = heading_end_ops(full, h);
    if l == 1 || l == 2 {
        let u: u8 = if l == 1 { 12 } else { 6 };
        assert(ops == seq![
            OpV::Newline,
            OpV::SetSize { height: 0, width: 0 },
            OpV::SetBold(false),
            OpV::SetSmoothing(false),
            OpV::SetAlign(Alignment::Left),
            OpV::Feed { units: u },
        ]);
        reveal_with_fuel(run_ops, 7);
    } else if !full {
        if l == 3 {
            assert(ops == seq![OpV::Newline, OpV::SetBold(false), OpV::Feed { units: 4 }]);
            reveal_with_fuel(run_ops, 4);
        } else {
            assert(ops == seq![OpV::Newline, OpV::SetBold(false)]);
            reveal_with_fuel(run_ops, 3);
        }
    } else if l == 3 {
        assert(ops == seq![
            OpV::Newline,
            OpV::SetSize { height: 0, width: 0 },
            OpV::SetBold(false),
            OpV::SetSmoothing(false),
            OpV::Feed { units: 4 },
        ]);
        reveal_with_fuel(run_ops, 6);
    } else if l == 4 {
        assert(ops == seq![OpV::Newline, OpV::SetExpandedHeight(0), OpV::SetBold(false), OpV::SetSmoothing(false), OpV::Feed { units: 4 }]);
        reveal_with_fuel(run_ops, 6);
    } else if l == 5 {
        assert(ops == seq![OpV::Newline, OpV::SetBold(false), OpV::Feed { units: 2 }]);
        reveal_with_fuel(run_ops, 4);
    } else {
        assert(ops == seq![OpV::Newline, OpV::SetBold(false), OpV::SetFont(Font::A)]);
        reveal_with_fuel(run_ops, 4);
    }
}

proof fn lemma_link_end_run(s: Style, u: Seq<char>)
    ensures
        run_ops(
            s,
            seq![
                OpV::SetUnderline(false),
                OpV::Text(seq![' ', '(']),
                OpV::SetFont(Font::C),
                OpV::Text(u),
                OpV::SetFont(Font::A),
                OpV::Text(seq![')']),
            ],
        ) == (Style { underline: false, ..s }),
{
    reveal_with_fuel(run_ops, 7);
}

proof fn lemma_md_end_style(style: MdStyle, st: MdStateV, s: Style, evs: Seq<MdEventV>, n: nat)
    requires
        n < evs.len(),
        !(evs[n as int] is Start),
        md_style_inv(style.full, st, s, evs, n),
        tags_in_order(evs, n),
        tags_in_order(evs, n + 1),
    ensures
        ({
            let (st2, ops) = md_step(style, st, evs[n as int]);
            md_style_inv(style.full, st2, run_ops(s, ops), evs, n + 1)
        }),
{
    let ev = evs[n as int];
    assert(open_tags(evs, n + 1, TagKind::Heading) == open_tags(evs, n, TagKind::Heading) + tag_delta(ev, TagKind::Heading));
    assert(open_tags(evs, n + 1, TagKind::Strong) == open_tags(evs, n, TagKind::Strong) + tag_delta(ev, TagKind::Strong));
    assert(open_tags(evs, n + 1, TagKind::Emphasis) == open_tags(evs, n, TagKind::Emphasis) + tag_delta(ev, TagKind::Emphasis));
    assert(open_tags(evs, n + 1, TagKind::Link) == open_tags(evs, n, TagKind::Link) + tag_delta(ev, TagKind::Link));
    assert(open_tags(evs, n + 1, TagKind::CodeBlock) == open_tags(evs, n, TagKind::CodeBlock) + tag_delta(ev, TagKind::CodeBlock));
    match ev {
        MdEventV::End(TagKind::Heading) => {
            lemma_heading_end_run(style.full, st.heading, s);
        },
        MdEventV::End(TagKind::Link) => {
            if st.pending_url is Some {
                lemma_link_end_run(s, st.pending_url->0);
            } else {
                reveal_with_fuel(run_ops, 2);
            }
        },
        _ => {
            reveal_with_fuel(run_ops, 4);
        },
    }
}

/// The style after the first `n` events follows the open tags.
proof fn lemma_md_prefix_style(style: MdStyle, show_urls: bool, evs: Seq<MdEventV>, n: nat)
    requires
        md_balanced(evs),
        n <= evs.len(),
    ensures
        ({
            let (st, ops) = md_run(style, md_initial(show_urls), evs.take(n as int));
            md_style_inv(style.full, st, run_ops(plain_style(), ops), evs, n)
        }),
    decreases n,
{
    if n == 0 {
        assert(evs.take(0) =~= Seq::<MdEventV>::empty());
        assert(run_ops(plain_style(), Seq::<OpV>::empty()) == plain_style());
    } else {
        let m = (n - 1) as nat;
        lemma_md_prefix_style(style, show_urls, evs, m);
        assert(evs.take(n as int).drop_last() =~= evs.take(m as int));
        assert(evs.take(n as int).last() == evs[m as int]);
        let (s1, o1) = md_run(style, md_initial(show_urls), evs.take(m as int));
        let (s2, o2) = md_step(style, s1, evs[m as int]);
        lemma_run_concat(plain_style(), o1, o2);
        assert(tags_in_order(evs, m));
        assert(tags_in_order(evs, n));
        if evs[m as int] is Start {
            lemma_md_start_style(style, s1, run_ops(plain_style(), o1), evs, m);
        } else {
            lemma_md_end_style(style, s1, run_ops(plain_style(), o1), evs, m);
        }
    }
}

/// Starting from the plain style, rendering markdown whose tags open and
/// close in order leaves the printer in the plain style: headings, strong
/// and emphasized text, links and code switch off what they switch on.
pub proof fn lemma_markdown_keeps_plain_style(style: MdStyle, show_urls: bool, evs: Seq<MdEventV>)
    requires
        md_balanced(evs),
    ensures
        run_ops(plain_style(), markdown_render(style, show_urls, evs)) == plain_style(),
{
    lemma_md_prefix_style(style, show_urls, evs, evs.len());
    assert(evs.take(evs.len() as int) =~= evs);
}

} // verus!
