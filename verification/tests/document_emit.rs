use estrella::document::{
    Barcode, BlankLine, Columns, Divider, DividerStyle, EmitContext, Markdown, NvLogo, Pdf417, Text,
};
use estrella::ir::{Alignment, BarcodeKind, Op};

fn ctx() -> EmitContext {
    EmitContext::new(576)
}

fn compile_markdown(text: &str) -> Vec<Op> {
    let md = Markdown::new(text);
    let mut ctx = ctx();
    md.emit(&mut ctx);
    ctx.ops
}

fn text_strings(ops: &[Op]) -> Vec<&str> {
    ops.iter()
        .filter_map(|op| match op {
            Op::Text(s) => Some(s.as_str()),
            _ => None,
        })
        .collect()
}

#[test]
fn doc_barcode_test_pdf417() {
    let pdf = Pdf417 { data: "TICKET".into(), module_width: Some(4), ecc_level: Some(3), ..Default::default() };
    let mut ctx = ctx();
    pdf.emit(&mut ctx);
    assert!(ctx.ops.iter().any(|op| matches!(op, Op::Pdf417 { module_width: 4, ecc_level: 3, .. })));
}

#[test]
fn doc_barcode_test_barcode_code128() {
    let barcode = Barcode { format: "code128".into(), data: "ABC-123".into(), height: Some(100) };
    let mut ctx = ctx();
    barcode.emit(&mut ctx);
    assert!(ctx.ops.iter().any(|op| matches!(op, Op::Barcode1D { kind: BarcodeKind::Code128, height: 100, .. })));
}

#[test]
fn doc_graphics_test_nv_logo_default() {
    let logo = NvLogo { key: "A0".into(), ..Default::default() };
    let mut ctx = ctx();
    logo.emit(&mut ctx);
    assert!(ctx.ops.iter().any(|op| matches!(op, Op::NvPrint { key, scale_x: 1, scale_y: 1 } if key == "A0")));
}

#[test]
fn doc_graphics_test_nv_logo_scaled() {
    let logo = NvLogo { key: "LG".into(), scale: Some(2), ..Default::default() };
    let mut ctx = ctx();
    logo.emit(&mut ctx);
    assert!(ctx.ops.iter().any(|op| matches!(op, Op::NvPrint { key, scale_x: 2, scale_y: 2 } if key == "LG")));
}

#[test]
fn doc_layout_test_dashed_divider() {
    let div = Divider { style: DividerStyle::Dashed, width: Some(10) };
    let mut ctx = ctx();
    div.emit(&mut ctx);
    assert!(ctx.ops.iter().any(|op| *op == Op::Text("----------".into())));
}

#[test]
fn doc_layout_test_equals_divider() {
    let div = Divider { style: DividerStyle::Equals, width: Some(5) };
    let mut ctx = ctx();
    div.emit(&mut ctx);
    assert!(ctx.ops.iter().any(|op| *op == Op::Text("=====".into())));
}

#[test]
fn doc_layout_test_columns() {
    let cols = Columns { left: "Left".into(), right: "Right".into(), width: Some(20), ..Default::default() };
    let mut ctx = ctx();
    cols.emit(&mut ctx);
    let has_columns = ctx.ops.iter().any(|op| {
        if let Op::Text(s) = op {
            s.starts_with("Left") && s.ends_with("Right") && s.len() == 20
        } else {
            false
        }
    });
    assert!(has_columns);
}

#[test]
fn doc_layout_test_columns_bold() {
    let cols = Columns { left: "ITEM".into(), right: "PRICE".into(), bold: true, ..Default::default() };
    let mut ctx = ctx();
    cols.emit(&mut ctx);
    assert!(ctx.ops.contains(&Op::SetBold(true)));
    assert!(ctx.ops.contains(&Op::SetBold(false)));
}

#[test]
fn doc_layout_test_blank_line() {
    let blank = BlankLine {};
    let mut ctx = ctx();
    blank.emit(&mut ctx);
    assert!(ctx.ops.iter().any(|op| *op == Op::Newline));
}

#[test]
fn doc_markdown_test_basic_bold() {
    let ops = compile_markdown("**bold text**");
    assert!(ops.contains(&Op::SetBold(true)));
    assert!(ops.contains(&Op::Text("bold text".into())));
    assert!(ops.contains(&Op::SetBold(false)));
}

#[test]
fn doc_markdown_test_basic_italic() {
    let ops = compile_markdown("*italic text*");
    assert!(ops.contains(&Op::SetUnderline(true)));
    assert!(ops.contains(&Op::Text("italic text".into())));
    assert!(ops.contains(&Op::SetUnderline(false)));
}

#[test]
fn doc_markdown_test_heading_h1() {
    let ops = compile_markdown("# Title");
    assert!(ops.contains(&Op::SetAlign(Alignment::Center)));
    assert!(ops.contains(&Op::SetSize { height: 3, width: 3 }));
    assert!(ops.contains(&Op::Text("Title".into())));
}

#[test]
fn doc_markdown_test_unordered_list() {
    let ops = compile_markdown("- Item 1\n- Item 2");
    assert!(text_strings(&ops).iter().any(|s| s.contains("* ")));
}

#[test]
fn doc_markdown_test_empty_markdown() {
    let ops = compile_markdown("");
    assert!(ops.is_empty());
}

#[test]
fn doc_markdown_test_horizontal_rule() {
    let ops = compile_markdown("---");
    assert!(text_strings(&ops).iter().any(|s| s.contains('\u{2500}')));
}

#[test]
fn doc_text_test_simple_text() {
    let text = Text::new("Hello");
    let mut ops = Vec::new();
    text.emit(&mut ops);
    assert!(ops.iter().any(|op| *op == Op::Text("Hello".into())));
    assert!(ops.iter().any(|op| *op == Op::Newline));
}

#[test]
fn doc_text_test_inline_text() {
    let text = Text { content: "Hello".into(), inline: true, ..Default::default() };
    let mut ops = Vec::new();
    text.emit(&mut ops);
    assert!(ops.iter().any(|op| *op == Op::Text("Hello".into())));
    assert!(!ops.iter().any(|op| *op == Op::Newline));
}

#[test]
fn doc_text_test_bold_text() {
    let text = Text { content: "Bold".into(), bold: true, ..Default::default() };
    let mut ops = Vec::new();
    text.emit(&mut ops);
    let bold_on = ops.iter().position(|op| *op == Op::SetBold(true));
    let text_pos = ops.iter().position(|op| *op == Op::Text("Bold".into()));
    let bold_off = ops.iter().position(|op| *op == Op::SetBold(false));
    assert!(bold_on.unwrap() < text_pos.unwrap());
    assert!(text_pos.unwrap() < bold_off.unwrap());
}

#[test]
fn doc_text_test_centered_text() {
    let text = Text { content: "C".into(), center: true, ..Default::default() };
    let mut ops = Vec::new();
    text.emit(&mut ops);
    assert!(ops.iter().any(|op| *op == Op::SetAlign(Alignment::Center)));
}
