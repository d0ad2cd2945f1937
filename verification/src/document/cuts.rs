//! Where a document program cuts the paper: only at its end, and only when
//! the document asks for a cut. No component emits a cut.

use crate::components::layout::styled_line_ops;
use crate::components::text::{text_ops, text_settings, text_style_off, text_style_on, TextModel};
use crate::document::banner::{banner_body, bold_line, framed_ops, repeat_ops};
use crate::document::component::{component_ops, Component};
use crate::document::table::{body_ops, table_header_ops, table_ops, text_line};
use crate::document::types::{dec, Banner, BorderStyle, Table};
use crate::document::{components_ops, program_ops};
use crate::ir::{op_if, OpV};
use crate::markdown::{heading_end_ops, heading_start_ops, md_end, md_run, md_start, md_step, MdEventV, MdStateV, MdStyle};
use vstd::prelude::*;

verus! {

/// Whether no op of the sequence cuts the paper.
pub open spec fn cut_free(ops: Seq<OpV>) -> bool {
    forall|i: int| 0 <= i < ops.len() ==> !(#[trigger] ops[i] is Cut)
}

proof fn lemma_cut_free_add(a: Seq<OpV>, b: Seq<OpV>)
    requires
        cut_free(a),
        cut_free(b),
    ensures
        cut_free(a + b),
{
    assert forall|i: int| 0 <= i < (a + b).len() implies !(#[trigger] (a + b)[i] is Cut) by {
        if i >= a.len() {
            assert((a + b)[i] == b[i - a.len()]);
        }
    }
}

proof fn lemma_cut_free_if(a: Seq<OpV>, c: bool, op: OpV)
    requires
        cut_free(a),
        !(op is Cut),
    ensures
        cut_free(a + op_if(c, op)),
{
    lemma_cut_free_add(a, op_if(c, op));
}

proof fn lemma_style_on_cut_free(m: TextModel)
    ensures
        cut_free(text_style_on(m)),
{
    let a = if m.alignment is Some { seq![OpV::SetAlign(m.alignment->0)] } else { Seq::empty() };
    let f = if m.font is Some { seq![OpV::SetFont(m.font->0)] } else { Seq::empty() };
    let g = if m.smoothing is Some { seq![OpV::SetSmoothing(m.smoothing->0)] } else { Seq::empty() };
    lemma_cut_free_add(a, f);
    lemma_cut_free_add(a + f, g);
    let s0 = text_settings(m);
    lemma_cut_free_if(s0, m.bold, OpV::SetBold(true));
    let s1 = s0 + op_if(m.bold, OpV::SetBold(true));
    lemma_cut_free_if(s1, m.underline, OpV::SetUnderline(true));
    let s2 = s1 + op_if(m.underline, OpV::SetUnderline(true));
    lemma_cut_free_if(s2, m.upperline, OpV::SetUpperline(true));
    let s3 = s2 + op_if(m.upperline, OpV::SetUpperline(true));
    lemma_cut_free_if(s3, m.invert, OpV::SetInvert(true));
    let s4 = s3 + op_if(m.invert, OpV::SetInvert(true));
    lemma_cut_free_if(s4, m.upside_down, OpV::SetUpsideDown(true));
    let s5 = s4 + op_if(m.upside_down, OpV::SetUpsideDown(true));
    lemma_cut_free_if(s5, m.reduced, OpV::SetReduced(true));
    let s6 = s5 + op_if(m.reduced, OpV::SetReduced(true));
    lemma_cut_free_if(s6, m.scaled_width > 0, OpV::SetExpandedWidth(m.scaled_width));
    let s7 = s6 + op_if(m.scaled_width > 0, OpV::SetExpandedWidth(m.scaled_width));
    lemma_cut_free_if(s7, m.scaled_height > 0, OpV::SetExpandedHeight(m.scaled_height));
    let s8 = s7 + op_if(m.scaled_height > 0, OpV::SetExpandedHeight(m.scaled_height));
    let sized = m.height_mult > 0 || m.width_mult > 0;
    lemma_cut_free_if(s8, sized, OpV::SetSize { height: m.height_mult, width: m.width_mult });
}

proof fn lemma_style_off_cut_free(m: TextModel)
    ensures
        cut_free(text_style_off(m)),
{
    let sized = m.height_mult > 0 || m.width_mult > 0;
    let o1 = op_if(sized, OpV::SetSize { height: 0, width: 0 });
    lemma_cut_free_if(o1, m.scaled_height > 0, OpV::SetExpandedHeight(0));
    let o2 = o1 + op_if(m.scaled_height > 0, OpV::SetExpandedHeight(0));
    lemma_cut_free_if(o2, m.scaled_width > 0, OpV::SetExpandedWidth(0));
    let o3 = o2 + op_if(m.scaled_width > 0, OpV::SetExpandedWidth(0));
    lemma_cut_free_if(o3, m.reduced, OpV::SetReduced(false));
    let o4 = o3 + op_if(m.reduced, OpV::SetReduced(false));
    lemma_cut_free_if(o4, m.upside_down, OpV::SetUpsideDown(false));
    let o5 = o4 + op_if(m.upside_down, OpV::SetUpsideDown(false));
    lemma_cut_free_if(o5, m.invert, OpV::SetInvert(false));
    let o6 = o5 + op_if(m.invert, OpV::SetInvert(false));
    lemma_cut_free_if(o6, m.upperline, OpV::SetUpperline(false));
    let o7 = o6 + op_if(m.upperline, OpV::SetUpperline(false));
    lemma_cut_free_if(o7, m.underline, OpV::SetUnderline(false));
    let o8 = o7 + op_if(m.underline, OpV::SetUnderline(false));
    lemma_cut_free_if(o8, m.bold, OpV::SetBold(false));
}

proof fn lemma_text_cut_free(m: TextModel)
    ensures
        cut_free(text_ops(m)),
{
    lemma_style_on_cut_free(m);
    lemma_style_off_cut_free(m);
    let on = text_style_on(m);
    lemma_cut_free_add(on, seq![OpV::Text(m.content)]);
    let mid = on + seq![OpV::Text(m.content)];
    lemma_cut_free_if(mid, m.newline, OpV::Newline);
    lemma_cut_free_add(mid + op_if(m.newline, OpV::Newline), text_style_off(m));
}

proof fn lemma_repeat_cut_free(s: Seq<OpV>, n: nat)
    requires
        cut_free(s),
    ensures
        cut_free(repeat_ops(s, n)),
    decreases n,
{
    if n > 0 {
        lemma_repeat_cut_free(s, (n - 1) as nat);
        lemma_cut_free_add(repeat_ops(s, (n - 1) as nat), s);
    }
}

proof fn lemma_bold_line_cut_free(line: Seq<char>, bold: bool)
    ensures
        cut_free(bold_line(line, bold)),
{
    lemma_cut_free_add(op_if(bold, OpV::SetBold(true)), seq![OpV::Text(line), OpV::Newline]);
    lemma_cut_free_if(op_if(bold, OpV::SetBold(true)) + seq![OpV::Text(line), OpV::Newline], bold, OpV::SetBold(false));
}

proof fn lemma_framed_cut_free(top: Seq<char>, empty: Seq<char>, line: Seq<char>, padding: u8, bold: bool)
    ensures
        cut_free(framed_ops(top, empty, line, padding, bold)),
{
    let e = seq![OpV::Text(empty), OpV::Newline];
    let r = repeat_ops(e, padding as nat);
    lemma_repeat_cut_free(e, padding as nat);
    lemma_bold_line_cut_free(line, bold);
    let t = seq![OpV::Text(top), OpV::Newline];
    lemma_cut_free_add(t, r);
    lemma_cut_free_add(t + r, bold_line(line, bold));
    lemma_cut_free_add(t + r + bold_line(line, bold), r);
}

proof fn lemma_banner_cut_free(b: Banner, total: usize)
    ensures
        cut_free(banner_body(b, total)),
{
    match b.border {
        BorderStyle::Shadow => {
            let s = '\u{2593}';
            let box_width = (total - 1) as usize;
            let inner = (box_width - 2) as usize;
            let f = framed_ops(
                seq!['\u{250C}'] + crate::text::rep('\u{2500}', inner as nat) + seq!['\u{2510}'],
                seq!['\u{2502}'] + crate::text::blanks(inner as nat) + seq!['\u{2502}', s],
                crate::document::banner::content_row('\u{2502}', b.content@, inner).push(s),
                b.padding,
                b.bold,
            );
            lemma_framed_cut_free(
                seq!['\u{250C}'] + crate::text::rep('\u{2500}', inner as nat) + seq!['\u{2510}'],
                seq!['\u{2502}'] + crate::text::blanks(inner as nat) + seq!['\u{2502}', s],
                crate::document::banner::content_row('\u{2502}', b.content@, inner).push(s),
                b.padding,
                b.bold,
            );
            let tail = seq![
                OpV::Text(seq!['\u{2514}'] + crate::text::rep('\u{2500}', inner as nat) + seq!['\u{2518}', s]),
                OpV::Newline,
                OpV::Text(seq![' '] + crate::text::rep(s, box_width as nat)),
                OpV::Newline,
            ];
            lemma_cut_free_add(f, tail);
        },
        BorderStyle::Rule => {
            lemma_bold_line_cut_free(crate::document::banner::rule_line(b.content@, total), b.bold);
        },
        BorderStyle::Heading => {
            lemma_bold_line_cut_free(b.content@, b.bold);
            let head = seq![OpV::SetAlign(crate::ir::Alignment::Center)];
            lemma_cut_free_add(head, bold_line(b.content@, b.bold));
            let tail = seq![
                OpV::SetAlign(crate::ir::Alignment::Left),
                OpV::Text(crate::text::rep('\u{2500}', total as nat)),
                OpV::Newline,
            ];
            lemma_cut_free_add(head + bold_line(b.content@, b.bold), tail);
        },
        BorderStyle::Tag => {
            lemma_bold_line_cut_free(seq!['\u{25A0}', ' '] + b.content@, b.bold);
        },
        _ => {
            let (tl, tr, bl, br, h, v) = crate::document::banner::box_chars(b.border);
            let inner = (total - 2) as usize;
            lemma_framed_cut_free(
                seq![tl] + crate::text::rep(h, inner as nat) + seq![tr],
                seq![v] + crate::text::blanks(inner as nat) + seq![v],
                crate::document::banner::content_row(v, b.content@, inner),
                b.padding,
                b.bold,
            );
            let f = framed_ops(
                seq![tl] + crate::text::rep(h, inner as nat) + seq![tr],
                seq![v] + crate::text::blanks(inner as nat) + seq![v],
                crate::document::banner::content_row(v, b.content@, inner),
                b.padding,
                b.bold,
            );
            lemma_cut_free_add(f, seq![OpV::Text(seq![bl] + crate::text::rep(h, inner as nat) + seq![br]), OpV::Newline]);
        },
    }
}

proof fn lemma_table_body_cut_free(t: Table, widths: Seq<usize>, k: nat)
    ensures
        cut_free(body_ops(t, widths, k)),
    decreases k,
{
    if k > 0 {
        lemma_table_body_cut_free(t, widths, (k - 1) as nat);
        let ch = crate::document::table::table_frame(t.border);
        let prev = body_ops(t, widths, (k - 1) as nat);
        let row = text_line(crate::document::table::row_line(ch.vert, t.rows@[k - 1]@, widths, t.align@));
        lemma_cut_free_add(prev, row);
        let sep = if t.row_separator && k < t.rows@.len() {
            text_line(crate::document::table::rule_row(ch.t_right, ch.horiz, ch.cross, ch.t_left, widths))
        } else {
            Seq::empty()
        };
        lemma_cut_free_add(prev + row, sep);
    }
}

proof fn lemma_table_cut_free(t: Table, print_width: usize)
    ensures
        cut_free(table_ops(t, print_width)),
{
    let widths = crate::document::table::table_widths(t, print_width);
    let ch = crate::document::table::table_frame(t.border);
    let head = seq![OpV::SetFont(crate::ir::Font::A), OpV::SetAlign(crate::ir::Alignment::Left)] + text_line(
        crate::document::table::rule_row(ch.tl, ch.horiz, ch.t_down, ch.tr, widths),
    );
    lemma_cut_free_add(
        seq![OpV::SetFont(crate::ir::Font::A), OpV::SetAlign(crate::ir::Alignment::Left)],
        text_line(crate::document::table::rule_row(ch.tl, ch.horiz, ch.t_down, ch.tr, widths)),
    );
    let h = table_header_ops(t, widths);
    assert(cut_free(h)) by {
        if t.headers is Some {
            let hh = t.headers->0;
            let a = seq![OpV::SetBold(true)] + text_line(crate::document::table::row_line(ch.vert, hh@, widths, t.align@));
            lemma_cut_free_add(
                seq![OpV::SetBold(true)],
                text_line(crate::document::table::row_line(ch.vert, hh@, widths, t.align@)),
            );
            lemma_cut_free_add(a, seq![OpV::SetBold(false)]);
            lemma_cut_free_add(a + seq![OpV::SetBold(false)], text_line(crate::document::table::header_rule(t.border, widths)));
        }
    }
    lemma_cut_free_add(head, h);
    lemma_table_body_cut_free(t, widths, t.rows@.len());
    lemma_cut_free_add(head + h, body_ops(t, widths, t.rows@.len()));
    lemma_cut_free_add(
        head + h + body_ops(t, widths, t.rows@.len()),
        text_line(crate::document::table::rule_row(ch.bl, ch.horiz, ch.t_up, ch.br, widths)),
    );
}

proof fn lemma_md_step_cut_free(style: MdStyle, st: MdStateV, ev: MdEventV)
    ensures
        cut_free(md_step(style, st, ev).1),
{
    match ev {
        MdEventV::Start { kind, level, url, start } => {
            let o = md_start(st, style.full, kind, level, url, start).1;
            assert(cut_free(heading_start_ops(style.full, level)));
            assert(cut_free(o));
        },
        MdEventV::End(kind) => {
            assert(cut_free(heading_end_ops(style.full, st.heading)));
            assert(cut_free(md_end(st, style.full, kind).1));
        },
        _ => {},
    }
}

proof fn lemma_md_run_cut_free(style: MdStyle, st: MdStateV, evs: Seq<MdEventV>)
    ensures
        cut_free(md_run(style, st, evs).1),
    decreases evs.len(),
{
    if evs.len() > 0 {
        lemma_md_run_cut_free(style, st, evs.drop_last());
        let (s1, o1) = md_run(style, st, evs.drop_last());
        lemma_md_step_cut_free(style, s1, evs.last());
        lemma_cut_free_add(o1, md_step(style, s1, evs.last()).1);
    }
}

/// No component emits a cut.
pub proof fn lemma_component_cut_free(c: Component, print_width: usize)
    ensures
        cut_free(component_ops(c, print_width)),
{
    match c {
        Component::Text(t) => {
            lemma_text_cut_free(crate::document::types::doc_text_model(t));
            lemma_cut_free_if(
                text_ops(crate::document::types::doc_text_model(t)),
                t.smoothing is None && crate::document::types::text_is_scaled(t),
                OpV::SetSmoothing(false),
            );
        },
        Component::Header(h) => {
            let small = match h.variant {
                Some(v) => v@ == "small"@,
                None => false,
            };
            lemma_text_cut_free(crate::document::text::header_text(h));
            lemma_cut_free_if(text_ops(crate::document::text::header_text(h)), !small, OpV::SetSmoothing(false));
        },
        Component::Banner(b) => {
            let (h, w, total) = crate::document::banner::banner_fit(
                crate::text::blen(b.content@),
                b.size,
                b.border,
                print_width,
            );
            let sized = dec(h) > 0 || dec(w) > 0;
            let head = seq![
                OpV::SetFont(if h == 0 && w == 0 { crate::ir::Font::B } else { crate::ir::Font::A }),
                OpV::SetAlign(crate::ir::Alignment::Left),
            ];
            lemma_cut_free_if(head, sized, OpV::SetSize { height: dec(h), width: dec(w) });
            let a = head + op_if(sized, OpV::SetSize { height: dec(h), width: dec(w) });
            lemma_banner_cut_free(b, total);
            lemma_cut_free_add(a, banner_body(b, total));
            lemma_cut_free_if(a + banner_body(b, total), sized, OpV::SetSize { height: 0, width: 0 });
        },
        Component::Total(t) => {
            let s0 = seq![OpV::SetFont(crate::ir::Font::A)];
            lemma_cut_free_if(s0, t.right_aligned(), OpV::SetAlign(crate::ir::Alignment::Right));
            let s1 = s0 + op_if(t.right_aligned(), OpV::SetAlign(crate::ir::Alignment::Right));
            lemma_cut_free_if(s1, t.is_bold(), OpV::SetBold(true));
            let s2 = s1 + op_if(t.is_bold(), OpV::SetBold(true));
            lemma_cut_free_if(s2, t.double_width, OpV::SetExpandedWidth(1));
            let s3 = s2 + op_if(t.double_width, OpV::SetExpandedWidth(1));
            let line = seq![OpV::Text(crate::components::text::total_line(t.label_text(), t.amount@)), OpV::Newline];
            lemma_cut_free_add(s3, line);
            lemma_cut_free_if(s3 + line, t.double_width, OpV::SetExpandedWidth(0));
            lemma_cut_free_if(s3 + line + op_if(t.double_width, OpV::SetExpandedWidth(0)), t.is_bold(), OpV::SetBold(false));
        },
        Component::Columns(c) => {
            let line = crate::components::layout::columns_line(c.left@, c.right@, c.row_width(print_width));
            let s0 = seq![OpV::SetAlign(crate::ir::Alignment::Left)];
            lemma_cut_free_if(s0, c.bold, OpV::SetBold(true));
            let s1 = s0 + op_if(c.bold, OpV::SetBold(true));
            lemma_cut_free_if(s1, c.underline, OpV::SetUnderline(true));
            let s2 = s1 + op_if(c.underline, OpV::SetUnderline(true));
            lemma_cut_free_if(s2, c.invert, OpV::SetInvert(true));
            let s3 = s2 + op_if(c.invert, OpV::SetInvert(true));
            lemma_cut_free_add(s3, seq![OpV::Text(line), OpV::Newline]);
            let s4 = s3 + seq![OpV::Text(line), OpV::Newline];
            lemma_cut_free_if(s4, c.invert, OpV::SetInvert(false));
            let s5 = s4 + op_if(c.invert, OpV::SetInvert(false));
            lemma_cut_free_if(s5, c.underline, OpV::SetUnderline(false));
            let s6 = s5 + op_if(c.underline, OpV::SetUnderline(false));
            lemma_cut_free_if(s6, c.bold, OpV::SetBold(false));
            lemma_cut_free_add(seq![OpV::SetFont(crate::ir::Font::A)], styled_line_ops(line, c.bold, c.underline, c.invert));
        },
        Component::Table(t) => {
            lemma_table_cut_free(t, print_width);
        },
        Component::Markdown(m) => {
            let style = crate::document::markdown::document_md_style(print_width);
            let evs = crate::markdown::markdown_events(m.content@);
            lemma_md_run_cut_free(style, crate::markdown::md_initial(m.show_urls), evs);
            lemma_cut_free_add(
                seq![OpV::SetAlign(crate::ir::Alignment::Left)],
                md_run(style, crate::markdown::md_initial(m.show_urls), evs).1,
            );
        },
        Component::Image(i) => {
            if i.resolved_data is Some {
                let r = i.resolved_data->0;
                let pw = print_width as u16;
                let pos = crate::document::graphics::image_position(i.align, pw, r.width);
                lemma_cut_free_add(
                    op_if(r.width < pw && pos > 0, OpV::SetAbsolutePosition(pos)),
                    seq![OpV::Raster { width: r.width, height: r.height, data: r.raster_data@ }],
                );
            }
        },
        Component::Spacer(s) => {
            lemma_cut_free_add(Seq::empty(), op_if(s.feed_units() > 0, OpV::Feed { units: s.feed_units() }));
        },
        _ => {},
    }
}

proof fn lemma_components_cut_free(comps: Seq<Component>, print_width: usize, k: nat)
    requires
        k <= comps.len(),
    ensures
        cut_free(components_ops(comps, print_width, k)),
    decreases k,
{
    if k > 0 {
        lemma_components_cut_free(comps, print_width, (k - 1) as nat);
        lemma_component_cut_free(comps[k - 1], print_width);
        lemma_cut_free_add(components_ops(comps, print_width, (k - 1) as nat), component_ops(comps[k - 1], print_width));
    }
}

/// A document program cuts the paper only when the document asks for a
/// cut, and then once, as its last op.
pub proof fn lemma_program_cuts(comps: Seq<Component>, print_width: usize, cut: bool)
    ensures
        ({
            let p = program_ops(comps, print_width, cut);
            &&& forall|i: int| 0 <= i < p.len() && (#[trigger] p[i] is Cut) ==> cut && i == p.len() - 1
            &&& cut ==> p.last() == OpV::Cut { partial: true }
        }),
{
    lemma_components_cut_free(comps, print_width, comps.len());
    let body = components_ops(comps, print_width, comps.len());
    let head = seq![OpV::Init, OpV::SetCodepage(1)];
    lemma_cut_free_add(head, body);
    let p = program_ops(comps, print_width, cut);
    assert forall|i: int| 0 <= i < p.len() && (#[trigger] p[i] is Cut) implies cut && i == p.len() - 1 by {
        if i < (head + body).len() {
            assert(p[i] == (head + body)[i]);
        }
    }
}

} // verus!
