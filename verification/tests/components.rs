use estrella::components::{
    BlankLine, Barcode, Columns, ComponentExt, Divider, Header, Image, LineItem, Markdown, NvLogo, Pdf417,
    QrCode, Raw, Receipt, Spacer, Text, Total,
};
use estrella::ir::{Alignment, BarcodeKind, Font, Op, QrErrorLevel};

fn text_ops(ops: &[Op]) -> Vec<String> {
    ops.iter()
        .filter_map(|op| match op {
            Op::Text(s) => Some(s.clone()),
            _ => None,
        })
        .collect()
}

fn compile_markdown(text: &str) -> Vec<Op> {
    let md = Markdown::new(text);
    let mut ops = Vec::new();
    estrella::components::Component::emit(&md, &mut ops);
    ops
}

#[test]
fn test_empty_receipt() {
    let receipt = Receipt::new();
    let ir = receipt.compile();
    assert_eq!(ir.len(), 1);
    assert_eq!(ir.ops[0], Op::Init);
}

#[test]
fn test_receipt_with_cut() {
    let receipt = Receipt::new().cut();
    let ir = receipt.compile();
    assert_eq!(ir.len(), 2);
    assert_eq!(ir.ops[1], Op::Cut { partial: false });
}

#[test]
fn test_receipt_with_partial_cut() {
    let receipt = Receipt::new().partial_cut();
    let ir = receipt.compile();
    assert_eq!(ir.len(), 2);
    assert_eq!(ir.ops[1], Op::Cut { partial: true });
}

#[test]
fn test_receipt_with_children() {
    let receipt = Receipt::new().child(Text::new("Hello")).child(Text::new("World")).cut();
    let ir = receipt.compile();
    assert!(ir.len() >= 3);
    assert_eq!(*ir.ops.last().unwrap(), Op::Cut { partial: false });
}

#[test]
fn receipt_children_keep_order() {
    let receipt = Receipt::new().children(vec![Text::inline("a"), Text::inline("b")]);
    let ir = receipt.compile();
    assert_eq!(ir.ops, vec![Op::Init, Op::Text("a".into()), Op::Text("b".into())]);
}

#[test]
fn test_qr_code_with_options() {
    let qr = QrCode::new("test").cell_size(6).error_level_high();
    let ir = qr.compile();
    assert!(ir.ops.iter().any(|op| matches!(
        op,
        Op::QrCode { cell_size: 6, error_level: QrErrorLevel::H, .. }
    )));
}

#[test]
fn barcode_test_qr_code() {
    let qr = QrCode::new("https://example.com");
    let ir = qr.compile();
    assert!(ir.ops.iter().any(|op| matches!(
        op,
        Op::QrCode { cell_size: 4, error_level: QrErrorLevel::M, .. }
    )));
}

#[test]
fn qr_cell_size_is_clamped() {
    let ir = QrCode::new("x").cell_size(0).compile();
    assert!(ir.ops.iter().any(|op| matches!(op, Op::QrCode { cell_size: 1, .. })));
    let ir = QrCode::new("x").cell_size(200).left().compile();
    assert_eq!(ir.ops[1], Op::SetAlign(Alignment::Left));
    assert!(ir.ops.iter().any(|op| matches!(op, Op::QrCode { cell_size: 8, .. })));
}

#[test]
fn barcode_test_pdf417() {
    let pdf = Pdf417::new("Hello").module_width(4).ecc_level(3);
    let ir = pdf.compile();
    assert!(ir.ops.iter().any(|op| matches!(op, Op::Pdf417 { module_width: 4, ecc_level: 3, .. })));

    let doc_pdf = estrella::document::Pdf417 {
        data: "TICKET".into(),
        module_width: Some(4),
        ecc_level: Some(3),
        ..Default::default()
    };
    let mut ctx = estrella::document::EmitContext::new(576);
    doc_pdf.emit(&mut ctx);
    assert!(ctx.ops.iter().any(|op| matches!(op, Op::Pdf417 { module_width: 4, ecc_level: 3, .. })));
}

#[test]
fn test_barcode_code39() {
    let barcode = Barcode::code39("TEST-123").height(100);
    let ir = barcode.compile();
    assert!(ir.ops.iter().any(|op| matches!(
        op,
        Op::Barcode1D { kind: BarcodeKind::Code39, height: 100, .. }
    )));
}

#[test]
fn barcode_test_barcode_code128() {
    let barcode = Barcode::code128("Hello World");
    let ir = barcode.compile();
    assert!(ir.ops.iter().any(|op| matches!(op, Op::Barcode1D { kind: BarcodeKind::Code128, .. })));

    let doc_barcode = estrella::document::Barcode {
        format: "code128".into(),
        data: "ABC-123".into(),
        height: Some(100),
    };
    let mut ctx = estrella::document::EmitContext::new(576);
    doc_barcode.emit(&mut ctx);
    assert!(ctx.ops.iter().any(|op| matches!(
        op,
        Op::Barcode1D { kind: BarcodeKind::Code128, height: 100, .. }
    )));
}

#[test]
fn test_barcode_ean13() {
    let barcode = Barcode::ean13("5901234123457");
    let ir = barcode.compile();
    assert!(ir.ops.iter().any(|op| matches!(op, Op::Barcode1D { kind: BarcodeKind::Ean13, .. })));
}

#[test]
fn barcode_height_at_least_one() {
    let ir = Barcode::itf("1234").height(0).compile();
    assert_eq!(
        ir.ops[1],
        Op::Barcode1D { kind: BarcodeKind::Itf, data: "1234".into(), height: 1 }
    );
}

#[test]
fn graphics_test_nv_logo_default() {
    let logo = NvLogo::new("A0");
    let ir = logo.compile();
    assert!(ir.ops.iter().any(|op| matches!(
        op,
        Op::NvPrint { key, scale_x: 1, scale_y: 1 } if key == "A0"
    )));

    let doc_logo = estrella::document::NvLogo { key: "A0".into(), ..Default::default() };
    let mut ctx = estrella::document::EmitContext::new(576);
    doc_logo.emit(&mut ctx);
    assert!(ctx.ops.iter().any(|op| matches!(
        op,
        Op::NvPrint { key, scale_x: 1, scale_y: 1 } if key == "A0"
    )));
}

#[test]
fn graphics_test_nv_logo_scaled() {
    let logo = NvLogo::new("LG").scale(2);
    let ir = logo.compile();
    assert!(ir.ops.iter().any(|op| matches!(
        op,
        Op::NvPrint { key, scale_x: 2, scale_y: 2 } if key == "LG"
    )));

    let doc_logo = estrella::document::NvLogo { key: "LG".into(), scale: Some(2), ..Default::default() };
    let mut ctx = estrella::document::EmitContext::new(576);
    doc_logo.emit(&mut ctx);
    assert!(ctx.ops.iter().any(|op| matches!(
        op,
        Op::NvPrint { key, scale_x: 2, scale_y: 2 } if key == "LG"
    )));
}

#[test]
fn test_nv_logo_double() {
    let logo = NvLogo::new("A0").double();
    let ir = logo.compile();
    assert!(ir.ops.iter().any(|op| matches!(op, Op::NvPrint { scale_x: 2, scale_y: 2, .. })));
}

#[test]
fn image_band_width_bytes() {
    let ir = Image::from_raster(576, 24, vec![0xFF; 72 * 24]).band_mode().compile();
    assert!(ir.ops.iter().any(|op| matches!(op, Op::Band { width_bytes: 72, .. })));
    let ir = Image::from_raster(10, 1, vec![0, 0]).compile();
    assert_eq!(ir.ops[1], Op::Raster { width: 10, height: 1, data: vec![0, 0] });
}

#[test]
fn layout_test_dashed_divider() {
    let div = Divider::dashed().width(10);
    let ir = div.compile();
    assert!(ir.ops.iter().any(|op| *op == Op::Text("----------".into())));

    let doc_div = estrella::document::Divider {
        style: estrella::document::DividerStyle::Dashed,
        width: Some(10),
    };
    let mut ctx = estrella::document::EmitContext::new(576);
    doc_div.emit(&mut ctx);
    assert!(ctx.ops.iter().any(|op| *op == Op::Text("----------".into())));
}

#[test]
fn layout_test_equals_divider() {
    let div = Divider::equals().width(5);
    let ir = div.compile();
    assert!(ir.ops.iter().any(|op| *op == Op::Text("=====".into())));

    let doc_div = estrella::document::Divider {
        style: estrella::document::DividerStyle::Equals,
        width: Some(5),
    };
    let mut ctx = estrella::document::EmitContext::new(576);
    doc_div.emit(&mut ctx);
    assert!(ctx.ops.iter().any(|op| *op == Op::Text("=====".into())));
}

#[test]
fn solid_divider_uses_box_drawing() {
    let ir = Divider::solid().width(3).compile();
    assert_eq!(ir.ops[2], Op::Text("\u{2500}\u{2500}\u{2500}".into()));
    let ir = Divider::double().width(2).compile();
    assert_eq!(ir.ops[2], Op::Text("\u{2550}\u{2550}".into()));
}

#[test]
fn layout_test_columns() {
    let cols = Columns::new("Left", "Right").width(20);
    let ir = cols.compile();
    let has_columns = ir.ops.iter().any(|op| {
        if let Op::Text(s) = op {
            s.starts_with("Left") && s.ends_with("Right") && s.len() == 20
        } else {
            false
        }
    });
    assert!(has_columns);

    let doc_cols = estrella::document::Columns {
        left: "Left".into(),
        right: "Right".into(),
        width: Some(20),
        ..Default::default()
    };
    let mut ctx = estrella::document::EmitContext::new(576);
    doc_cols.emit(&mut ctx);
    let has_columns = ctx.ops.iter().any(|op| {
        if let Op::Text(s) = op {
            s.starts_with("Left") && s.ends_with("Right") && s.len() == 20
        } else {
            false
        }
    });
    assert!(has_columns);
}

#[test]
fn columns_exact_line() {
    let ir = Columns::new("A", "B").width(5).compile();
    assert_eq!(ir.ops[2], Op::Text("A   B".into()));
    let ir = Columns::new("Long left", "right").width(5).compile();
    assert_eq!(ir.ops[2], Op::Text("Long leftright".into()));
}

#[test]
fn layout_test_columns_bold() {
    let cols = Columns::new("ITEM", "PRICE").bold();
    let ir = cols.compile();
    assert!(ir.ops.contains(&Op::SetBold(true)));
    assert!(ir.ops.contains(&Op::SetBold(false)));

    let doc_cols = estrella::document::Columns {
        left: "ITEM".into(),
        right: "PRICE".into(),
        bold: true,
        ..Default::default()
    };
    let mut ctx = estrella::document::EmitContext::new(576);
    doc_cols.emit(&mut ctx);
    assert!(ctx.ops.contains(&Op::SetBold(true)));
    assert!(ctx.ops.contains(&Op::SetBold(false)));
}

#[test]
fn test_columns_underline() {
    let cols = Columns::new("A", "B").underline();
    let ir = cols.compile();
    assert!(ir.ops.contains(&Op::SetUnderline(true)));
    assert!(ir.ops.contains(&Op::SetUnderline(false)));
}

#[test]
fn test_columns_invert() {
    let cols = Columns::new("A", "B").invert();
    let ir = cols.compile();
    assert!(ir.ops.contains(&Op::SetInvert(true)));
    assert!(ir.ops.contains(&Op::SetInvert(false)));
}

#[test]
fn layout_test_blank_line() {
    let blank = BlankLine::new();
    let ir = blank.compile();
    assert!(ir.ops.iter().any(|op| *op == Op::Newline));

    let doc_blank = estrella::document::BlankLine {};
    let mut ctx = estrella::document::EmitContext::new(576);
    doc_blank.emit(&mut ctx);
    assert!(ctx.ops.iter().any(|op| *op == Op::Newline));
}

#[test]
fn spacer_lines_and_units() {
    assert_eq!(Spacer::lines(2).compile().ops[1], Op::Feed { units: 24 });
    assert_eq!(Spacer::lines(30).compile().ops[1], Op::Feed { units: 255 });
    assert_eq!(Spacer::units(0).compile().ops.len(), 1);
}

#[test]
fn raw_ops_pass_through() {
    let ir = Raw::ops(vec![Op::Init, Op::SetBold(true)]).compile();
    assert_eq!(ir.ops, vec![Op::Init, Op::Init, Op::SetBold(true)]);
    let ir = Raw::bytes(vec![0x1B, 0x40]).compile();
    assert_eq!(ir.ops[1], Op::Raw(vec![0x1B, 0x40]));
}

#[test]
fn text_test_simple_text() {
    let text = Text::new("Hello");
    let ir = text.compile();
    assert!(ir.ops.iter().any(|op| *op == Op::Text("Hello".into())));
    assert!(ir.ops.iter().any(|op| *op == Op::Newline));

    let doc_text = estrella::document::Text::new("Hello");
    let mut ops = Vec::new();
    doc_text.emit(&mut ops);
    assert!(ops.iter().any(|op| *op == Op::Text("Hello".into())));
    assert!(ops.iter().any(|op| *op == Op::Newline));
}

#[test]
fn text_test_inline_text() {
    let text = Text::inline("Hello");
    let ir = text.compile();
    assert!(ir.ops.iter().any(|op| *op == Op::Text("Hello".into())));
    assert!(!ir.ops.iter().any(|op| *op == Op::Newline));

    let doc_text = estrella::document::Text {
        content: "Hello".into(),
        inline: true,
        ..Default::default()
    };
    let mut ops = Vec::new();
    doc_text.emit(&mut ops);
    assert!(ops.iter().any(|op| *op == Op::Text("Hello".into())));
    assert!(!ops.iter().any(|op| *op == Op::Newline));
}

#[test]
fn text_test_bold_text() {
    let text = Text::new("Bold").bold();
    let ir = text.compile();
    let ops: Vec<_> = ir.ops.iter().collect();
    let bold_on_pos = ops.iter().position(|op| **op == Op::SetBold(true));
    let text_pos = ops.iter().position(|op| **op == Op::Text("Bold".into()));
    let bold_off_pos = ops.iter().position(|op| **op == Op::SetBold(false));
    assert!(bold_on_pos.is_some());
    assert!(text_pos.is_some());
    assert!(bold_off_pos.is_some());
    assert!(bold_on_pos.unwrap() < text_pos.unwrap());
    assert!(text_pos.unwrap() < bold_off_pos.unwrap());

    let doc_text = estrella::document::Text {
        content: "Bold".into(),
        bold: true,
        ..Default::default()
    };
    let mut ops = Vec::new();
    doc_text.emit(&mut ops);
    let bold_on = ops.iter().position(|op| *op == Op::SetBold(true));
    let text_pos = ops.iter().position(|op| *op == Op::Text("Bold".into()));
    let bold_off = ops.iter().position(|op| *op == Op::SetBold(false));
    assert!(bold_on.unwrap() < text_pos.unwrap());
    assert!(text_pos.unwrap() < bold_off.unwrap());
}

#[test]
fn text_test_centered_text() {
    let text = Text::new("Centered").center();
    let ir = text.compile();
    assert!(ir.ops.iter().any(|op| *op == Op::SetAlign(Alignment::Center)));

    let doc_text = estrella::document::Text {
        content: "C".into(),
        center: true,
        ..Default::default()
    };
    let mut ops = Vec::new();
    doc_text.emit(&mut ops);
    assert!(ops.iter().any(|op| *op == Op::SetAlign(Alignment::Center)));
}

#[test]
fn test_header() {
    let header = Header::new("STORE");
    let ir = header.compile();
    assert!(ir.ops.iter().any(|op| *op == Op::SetAlign(Alignment::Center)));
    assert!(ir.ops.iter().any(|op| *op == Op::SetBold(true)));
    assert!(ir.ops.iter().any(|op| *op == Op::SetSize { height: 1, width: 1 }));
}

#[test]
fn text_styles_reset_in_reverse_order() {
    let ir = Text::new("x").bold().underline().size(9, 2).font_b().compile();
    assert_eq!(
        ir.ops,
        vec![
            Op::Init,
            Op::SetFont(Font::B),
            Op::SetBold(true),
            Op::SetUnderline(true),
            Op::SetSize { height: 7, width: 2 },
            Op::Text("x".into()),
            Op::Newline,
            Op::SetSize { height: 0, width: 0 },
            Op::SetUnderline(false),
            Op::SetBold(false),
        ]
    );
}

#[test]
fn line_item_and_total_lines() {
    let ir = LineItem::priced("Coffee", "4.50").width(12).compile();
    assert_eq!(ir.ops[2], Op::Text("Coffee  4.50".into()));
    let ir = LineItem::priced("A very long name", "4.50").width(12).compile();
    assert_eq!(ir.ops[2], Op::Text("A very  4.50".into()));
    let ir = Total::with_amount("19.99").compile();
    assert_eq!(
        ir.ops,
        vec![
            Op::Init,
            Op::SetAlign(Alignment::Right),
            Op::SetBold(true),
            Op::Text("TOTAL:  19.99".into()),
            Op::Newline,
            Op::SetBold(false),
        ]
    );
}

#[test]
fn markdown_test_basic_bold() {
    let ops = compile_markdown("**bold text**");
    assert!(ops.contains(&Op::SetBold(true)));
    assert!(ops.contains(&Op::Text("bold text".into())));
    assert!(ops.contains(&Op::SetBold(false)));

    let ops = doc_markdown("**bold text**");
    assert!(ops.contains(&Op::SetBold(true)));
    assert!(ops.contains(&Op::Text("bold text".into())));
    assert!(ops.contains(&Op::SetBold(false)));
}

fn doc_markdown(text: &str) -> Vec<Op> {
    let md = estrella::document::Markdown::new(text);
    let mut ctx = estrella::document::EmitContext::new(576);
    md.emit(&mut ctx);
    ctx.ops
}

#[test]
fn markdown_test_basic_italic() {
    let ops = compile_markdown("*italic text*");
    assert!(ops.contains(&Op::SetUnderline(true)));
    assert!(ops.contains(&Op::Text("italic text".into())));
    assert!(ops.contains(&Op::SetUnderline(false)));

    let ops = doc_markdown("*italic text*");
    assert!(ops.contains(&Op::SetUnderline(true)));
    assert!(ops.contains(&Op::Text("italic text".into())));
    assert!(ops.contains(&Op::SetUnderline(false)));
}

#[test]
fn markdown_test_heading_h1() {
    let ops = compile_markdown("# Title");
    assert!(ops.contains(&Op::SetAlign(Alignment::Center)));
    assert!(ops.contains(&Op::SetSize { height: 3, width: 3 }));
    assert!(ops.contains(&Op::Text("Title".into())));
    assert!(ops.contains(&Op::SetBold(true)));
    assert!(ops.contains(&Op::SetSmoothing(true)));

    let ops = doc_markdown("# Title");
    assert!(ops.contains(&Op::SetAlign(Alignment::Center)));
    assert!(ops.contains(&Op::SetSize { height: 3, width: 3 }));
    assert!(ops.contains(&Op::Text("Title".into())));
}

#[test]
fn test_heading_h2() {
    let ops = compile_markdown("## Subtitle");
    assert!(ops.contains(&Op::SetAlign(Alignment::Center)));
    assert!(ops.contains(&Op::SetSize { height: 2, width: 2 }));
    assert!(ops.contains(&Op::Text("Subtitle".into())));
}

#[test]
fn test_heading_h3() {
    let ops = compile_markdown("### Section");
    assert!(ops.contains(&Op::SetBold(true)));
    assert!(ops.contains(&Op::Text("Section".into())));
    assert!(ops.contains(&Op::SetBold(false)));
    assert!(!ops.contains(&Op::SetAlign(Alignment::Center)));
}

#[test]
fn markdown_test_unordered_list() {
    let ops = compile_markdown("- Item 1\n- Item 2");
    assert!(text_ops(&ops).iter().any(|s| s.contains("* ")));

    let ops = doc_markdown("- Item 1\n- Item 2");
    assert!(text_ops(&ops).iter().any(|s| s.contains("* ")));
}

#[test]
fn test_ordered_list() {
    let ops = compile_markdown("1. First\n2. Second");
    let texts = text_ops(&ops);
    assert!(texts.iter().any(|s| s.starts_with("1. ")));
    assert!(texts.iter().any(|s| s.starts_with("2. ")));
}

#[test]
fn ordered_list_counts_from_its_start() {
    let ops = compile_markdown("7. a\n8. b\n9. c\n10. d");
    let texts = text_ops(&ops);
    assert_eq!(texts, vec!["7. a", "8. b", "9. c", "10. d"]);
}

#[test]
fn test_inline_code() {
    let ops = compile_markdown("`code`");
    assert!(ops.contains(&Op::SetInvert(true)));
    assert!(ops.contains(&Op::Text("code".into())));
    assert!(ops.contains(&Op::SetInvert(false)));
}

#[test]
fn test_link_underline() {
    let ops = compile_markdown("[click here](https://example.com)");
    assert!(ops.contains(&Op::SetUnderline(true)));
    assert!(ops.contains(&Op::Text("click here".into())));
    assert!(ops.contains(&Op::SetUnderline(false)));
    assert!(!text_ops(&ops).iter().any(|s| s.contains("https://")));
}

#[test]
fn test_link_with_url_shown() {
    let md = Markdown::new("[click here](https://example.com)").show_urls();
    let mut ops = Vec::new();
    estrella::components::Component::emit(&md, &mut ops);
    assert!(text_ops(&ops).iter().any(|s| s.contains("https://example.com")));
}

#[test]
fn test_nested_formatting() {
    let ops = compile_markdown("**bold and *italic* text**");
    assert!(ops.contains(&Op::SetBold(true)));
    assert!(ops.contains(&Op::SetUnderline(true)));
    assert!(ops.contains(&Op::SetUnderline(false)));
    assert!(ops.contains(&Op::SetBold(false)));
}

#[test]
fn test_paragraph_spacing() {
    let ops = compile_markdown("First paragraph.\n\nSecond paragraph.");
    let newline_count = ops.iter().filter(|op| matches!(op, Op::Newline)).count();
    assert!(newline_count >= 4);
}

#[test]
fn markdown_test_horizontal_rule() {
    let ops = compile_markdown("---");
    assert!(text_ops(&ops).iter().any(|s| s.contains("─")));

    let ops = doc_markdown("---");
    assert!(text_ops(&ops).iter().any(|s| s.contains("\u{2500}")));
}

#[test]
fn test_code_block() {
    let ops = compile_markdown("```\ncode block\n```");
    assert!(ops.contains(&Op::SetInvert(true)));
    assert!(ops.contains(&Op::SetFont(Font::B)));
    assert!(text_ops(&ops).iter().any(|s| s.contains("code block")));
    assert!(ops.contains(&Op::SetInvert(false)));
    assert!(ops.contains(&Op::SetFont(Font::A)));
}

#[test]
fn test_nested_list() {
    let ops = compile_markdown("- Item 1\n  - Nested");
    assert!(ops.iter().any(|op| matches!(op, Op::SetAbsolutePosition(_))));
}

#[test]
fn markdown_test_empty_markdown() {
    let ops = compile_markdown("");
    assert!(ops.is_empty());

    let ops = doc_markdown("");
    assert!(ops.is_empty());
}

#[test]
fn blank_markdown_emits_nothing() {
    assert!(compile_markdown(" \n\t\u{3000} ").is_empty());
}

#[test]
fn test_complex_receipt() {
    let md = r#"
# Coffee Shop Receipt

**Date**: 2024-01-15
**Order #**: 1234

## Items Ordered

- Espresso ($3.50)
- Croissant ($4.00)

---

**Total**: $8.00

Thank you!
        "#;
    let ops = compile_markdown(md);
    assert!(ops.contains(&Op::SetSize { height: 3, width: 3 }));
    assert!(ops.contains(&Op::SetSize { height: 2, width: 2 }));
    let texts = text_ops(&ops);
    assert!(texts.contains(&"Coffee Shop Receipt".to_string()));
    assert!(texts.contains(&"Items Ordered".to_string()));
    assert!(texts.iter().any(|s| s.contains("$8.00")));
    assert!(texts.iter().any(|s| s.contains("* ")));
}

#[test]
fn test_image_raster_mode() {
    let data = vec![0xFF; 72 * 10];
    let img = Image::from_raster(576, 10, data.clone());
    let ir = img.compile();
    assert!(ir.ops.iter().any(|op| matches!(op, Op::Raster { width: 576, height: 10, .. })));
}

#[test]
fn test_image_band_mode() {
    let data = vec![0xFF; 72 * 24];
    let img = Image::from_raster(576, 24, data.clone()).band_mode();
    let ir = img.compile();
    assert!(ir.ops.iter().any(|op| matches!(op, Op::Band { width_bytes: 72, .. })));
}

#[test]
fn layout_test_spacer_lines() {
    let spacer = Spacer::lines(2);
    let ir = spacer.compile();
    assert!(ir.ops.iter().any(|op| *op == Op::Feed { units: 24 }));
    let doc_spacer = estrella::document::Spacer::lines(2);
    let mut ctx = estrella::document::EmitContext::new(576);
    doc_spacer.emit(&mut ctx);
    assert!(ctx.ops.iter().any(|op| *op == Op::Feed { units: 24 }));
}
