use estrella::document::{Canvas, CanvasElement, Chart, Position};
use estrella::document::canvas::{content_bounds, layout_from_measurements, ElementMeasurement, RawRaster};
use estrella::document::component::{component_types, default_component, Component};
use estrella::document::graphics::{parse_dither_algorithm, DitheringAlgorithm};
use estrella::document::table::compute_col_widths;
use estrella::document::{
    builtin_variables, find_shorthand, merge_variables, Banner, Barcode, BorderStyle, ColumnAlign, Columns, Document, EmitContext, Header,
    Image, LineItem, QrCode, Table, Text, Total,
};
use estrella::ir::{Alignment, BarcodeKind, Font, Op, QrErrorLevel};

fn ctx() -> EmitContext {
    EmitContext::new(576)
}

fn texts(ops: &[Op]) -> Vec<String> {
    ops.iter()
        .filter_map(|op| match op {
            Op::Text(s) => Some(s.clone()),
            _ => None,
        })
        .collect()
}

fn text_emit(text: &Text) -> Vec<Op> {
    let mut ops = Vec::new();
    text.emit(&mut ops);
    ops
}

fn cells(row: &[&str]) -> Vec<String> {
    row.iter().map(|s| s.to_string()).collect()
}

// ---------------------------------------------------------------- text

#[test]
fn test_align_field_overrides_center() {
    let text = Text { content: "R".into(), align: Some("right".into()), center: true, ..Default::default() };
    let ops = text_emit(&text);
    assert!(ops.iter().any(|op| *op == Op::SetAlign(Alignment::Right)));
    assert!(!ops.iter().any(|op| *op == Op::SetAlign(Alignment::Center)));
}

#[test]
fn text_test_header_normal() {
    let header = Header::new("STORE");
    let mut ops = Vec::new();
    header.emit(&mut ops);
    assert!(ops.iter().any(|op| *op == Op::SetAlign(Alignment::Center)));
    assert!(ops.iter().any(|op| *op == Op::SetBold(true)));
    assert!(ops.iter().any(|op| *op == Op::SetSize { height: 1, width: 1 }));
}

#[test]
fn test_header_small() {
    let header = Header { content: "small".into(), variant: Some("small".into()) };
    let mut ops = Vec::new();
    header.emit(&mut ops);
    assert!(ops.iter().any(|op| *op == Op::SetBold(true)));
    assert!(!ops.iter().any(|op| matches!(op, Op::SetSize { .. })));
}

#[test]
fn text_test_line_item() {
    let item = LineItem::priced("Coffee", "4.50");
    let mut ops = Vec::new();
    item.emit(&mut ops);
    assert!(texts(&ops).iter().any(|s| s.contains("Coffee") && s.contains("4.50")));
    let component = estrella::components::LineItem::priced("Coffee", "4.50");
    let ir = estrella::components::ComponentExt::compile(&component);
    assert!(texts(&ir.ops).iter().any(|s| s.contains("Coffee") && s.contains("4.50")));
}

#[test]
fn line_item_fills_the_line() {
    let item = LineItem { name: "Coffee".into(), price: "4.50".into(), width: Some(20) };
    let mut ops = Vec::new();
    item.emit(&mut ops);
    assert_eq!(texts(&ops), vec!["Coffee          4.50".to_string()]);
}

#[test]
fn test_total() {
    let total = estrella::components::Total::with_amount("19.99");
    let ir = estrella::components::ComponentExt::compile(&total);
    assert!(texts(&ir.ops).iter().any(|s| s.contains("TOTAL:") && s.contains("19.99")));
    assert!(ir.ops.iter().any(|op| *op == Op::SetBold(true)));
    assert!(ir.ops.iter().any(|op| *op == Op::SetAlign(Alignment::Right)));
}

#[test]
fn test_total_default() {
    let total = Total::with_amount("19.99");
    let mut ops = Vec::new();
    total.emit(&mut ops);
    assert!(ops.iter().any(|op| *op == Op::SetBold(true)));
    assert!(ops.iter().any(|op| *op == Op::SetAlign(Alignment::Right)));
    assert!(texts(&ops).iter().any(|s| s.contains("TOTAL:") && s.contains("19.99")));
}

#[test]
fn test_total_labeled_not_bold() {
    let total = Total { amount: "0.99".into(), label: Some("TAX:".into()), bold: Some(false), ..Default::default() };
    let mut ops = Vec::new();
    total.emit(&mut ops);
    assert!(!ops.iter().any(|op| *op == Op::SetBold(true)));
    assert_eq!(texts(&ops), vec!["TAX:  0.99".to_string()]);
}

#[test]
fn test_auto_smoothing_with_scale() {
    let ops = text_emit(&Text { content: "BIG".into(), scale: Some([1, 1]), ..Default::default() });
    assert!(ops.contains(&Op::SetSmoothing(true)));
    assert!(ops.contains(&Op::SetSmoothing(false)));
}

#[test]
fn test_auto_smoothing_with_size() {
    let ops = text_emit(&Text { content: "BIG".into(), size: [2, 2], ..Default::default() });
    assert!(ops.contains(&Op::SetSmoothing(true)));
    assert!(ops.contains(&Op::SetSmoothing(false)));
}

#[test]
fn test_no_auto_smoothing_normal_text() {
    let ops = text_emit(&Text::new("normal"));
    assert!(!ops.iter().any(|op| matches!(op, Op::SetSmoothing(_))));
}

#[test]
fn test_explicit_smoothing_not_reset() {
    let ops = text_emit(&Text { content: "smooth".into(), smoothing: Some(true), ..Default::default() });
    assert!(ops.contains(&Op::SetSmoothing(true)));
    assert!(!ops.contains(&Op::SetSmoothing(false)));
}

#[test]
fn test_size_0_uses_font_b() {
    let ops = text_emit(&Text { content: "small".into(), size: [0, 0], ..Default::default() });
    assert!(ops.contains(&Op::SetFont(Font::B)));
    assert!(!ops.iter().any(|op| matches!(op, Op::SetSize { .. })));
}

#[test]
fn test_size_1_uses_font_a_no_expansion() {
    let ops = text_emit(&Text::new("normal"));
    assert!(ops.contains(&Op::SetFont(Font::A)));
    assert!(!ops.iter().any(|op| matches!(op, Op::SetSize { .. })));
}

#[test]
fn test_size_3_triple_expansion() {
    let ops = text_emit(&Text { content: "huge".into(), size: [3, 3], ..Default::default() });
    assert!(ops.contains(&Op::SetFont(Font::A)));
    assert!(ops.contains(&Op::SetSize { height: 2, width: 2 }));
}

#[test]
fn test_size_asymmetric() {
    let ops = text_emit(&Text { content: "tall".into(), size: [3, 1], ..Default::default() });
    assert!(ops.contains(&Op::SetFont(Font::A)));
    assert!(ops.contains(&Op::SetSize { height: 2, width: 0 }));
}

#[test]
fn test_text_without_emoji_emits_text() {
    let ops = text_emit(&Text::new("Hello World"));
    assert!(ops.iter().any(|op| matches!(op, Op::Text(_))));
    assert!(!ops.iter().any(|op| matches!(op, Op::Raster { .. })));
}

#[test]
fn bold_scaled_text_resets_every_style() {
    let text = Text { content: "x".into(), bold: true, underline: true, size: [2, 3], ..Default::default() };
    let ops = text_emit(&text);
    assert_eq!(
        ops,
        vec![
            Op::SetAlign(Alignment::Left),
            Op::SetFont(Font::A),
            Op::SetSmoothing(true),
            Op::SetBold(true),
            Op::SetUnderline(true),
            Op::SetSize { height: 1, width: 2 },
            Op::Text("x".into()),
            Op::Newline,
            Op::SetSize { height: 0, width: 0 },
            Op::SetUnderline(false),
            Op::SetBold(false),
            Op::SetSmoothing(false),
        ]
    );
}

// ---------------------------------------------------------------- barcodes and images

#[test]
fn test_qr_code_default() {
    let qr = QrCode::new("https://example.com");
    let mut ctx = ctx();
    qr.emit(&mut ctx);
    assert!(ctx.ops.iter().any(|op| matches!(op, Op::QrCode { cell_size: 4, error_level: QrErrorLevel::M, .. })));
    assert!(ctx.ops.iter().any(|op| matches!(op, Op::SetAlign(Alignment::Center))));
}

#[test]
fn test_qr_code_options() {
    let qr = QrCode { data: "test".into(), cell_size: Some(6), error_level: Some("H".into()), align: Some("left".into()) };
    let mut ctx = ctx();
    qr.emit(&mut ctx);
    assert!(ctx.ops.iter().any(|op| matches!(op, Op::QrCode { cell_size: 6, error_level: QrErrorLevel::H, .. })));
    assert!(ctx.ops.iter().any(|op| matches!(op, Op::SetAlign(Alignment::Left))));
}

#[test]
fn qr_error_level_ignores_case() {
    let qr = QrCode { data: "q".into(), error_level: Some("q".into()), ..Default::default() };
    let mut ctx = ctx();
    qr.emit(&mut ctx);
    assert!(ctx.ops.iter().any(|op| matches!(op, Op::QrCode { error_level: QrErrorLevel::Q, .. })));
    assert_eq!(estrella::document::barcode::qr_level_from_name("L"), QrErrorLevel::L);
    assert_eq!(estrella::document::barcode::qr_level_from_name("x"), QrErrorLevel::M);
}

#[test]
fn test_barcode_invalid_format() {
    let barcode = Barcode { format: "invalid".into(), data: "123".into(), height: None };
    let mut ctx = ctx();
    barcode.emit(&mut ctx);
    assert!(!ctx.ops.iter().any(|op| matches!(op, Op::Barcode1D { .. })));
}

#[test]
fn barcode_format_ignores_case() {
    let barcode = Barcode { format: "EAN13".into(), data: "4006381333931".into(), height: None };
    let mut ctx = ctx();
    barcode.emit(&mut ctx);
    assert!(ctx.ops.iter().any(|op| matches!(op, Op::Barcode1D { kind: BarcodeKind::Ean13, .. })));
    assert_eq!(estrella::document::barcode::kind_from_name("upca"), Some(BarcodeKind::UpcA));
    assert_eq!(estrella::document::barcode::kind_from_name("UPCA"), None);
}

#[test]
fn test_image_unresolved() {
    let img = Image { url: "https://example.com/img.png".into(), ..Default::default() };
    let mut ctx = ctx();
    img.emit(&mut ctx);
    assert!(ctx.ops.is_empty());
}

// ---------------------------------------------------------------- banners

#[test]
fn test_banner_fit_short_text() {
    let (size, total) = Banner::fit(5, 3, BorderStyle::Single, 576);
    assert_eq!(size, [3, 3]);
    assert_eq!(total, 16);
}

#[test]
fn test_banner_fit_medium_text() {
    let (size, total) = Banner::fit(15, 3, BorderStyle::Single, 576);
    assert_eq!(size, [3, 2]);
    assert_eq!(total, 24);
}

#[test]
fn test_banner_fit_long_text() {
    let (size, total) = Banner::fit(47, 3, BorderStyle::Single, 576);
    assert_eq!(size, [0, 0]);
    assert_eq!(total, 64);
}

#[test]
fn test_banner_fit_size_0() {
    let (size, total) = Banner::fit(5, 0, BorderStyle::Single, 576);
    assert_eq!(size, [0, 0]);
    assert_eq!(total, 64);
}

#[test]
fn banner_fit_takes_the_widest_width_that_fits() {
    // 14 usable at width 3, 22 at width 2, 46 at width 1.
    assert_eq!(Banner::fit(14, 3, BorderStyle::Single, 576), ([3, 3], 16));
    assert_eq!(Banner::fit(22, 3, BorderStyle::Single, 576), ([3, 2], 24));
    assert_eq!(Banner::fit(46, 3, BorderStyle::Single, 576), ([3, 1], 48));
}

#[test]
fn test_banner_emit_basic() {
    let banner = Banner::new("TEST");
    let mut ctx = ctx();
    banner.emit(&mut ctx);
    assert!(ctx.ops.contains(&Op::SetFont(Font::A)));
    assert!(ctx.ops.contains(&Op::SetAlign(Alignment::Left)));
    assert!(ctx.ops.contains(&Op::SetBold(true)));
    assert!(ctx.ops.contains(&Op::SetBold(false)));
    assert!(texts(&ctx.ops).iter().any(|s| s.contains("TEST")));
    assert!(texts(&ctx.ops).iter().any(|s| s.starts_with('\u{250C}') && s.ends_with('\u{2510}')));
}

#[test]
fn banner_box_rows_exactly() {
    let banner = Banner { content: "HI".into(), size: 3, ..Default::default() };
    let mut ctx = ctx();
    banner.emit(&mut ctx);
    let top = format!("\u{250C}{}\u{2510}", "\u{2500}".repeat(14));
    let row = format!("\u{2502}{}HI{}\u{2502}", " ".repeat(6), " ".repeat(6));
    let bottom = format!("\u{2514}{}\u{2518}", "\u{2500}".repeat(14));
    assert_eq!(
        ctx.ops,
        vec![
            Op::SetFont(Font::A),
            Op::SetAlign(Alignment::Left),
            Op::SetSize { height: 2, width: 2 },
            Op::Text(top),
            Op::Newline,
            Op::SetBold(true),
            Op::Text(row),
            Op::Newline,
            Op::SetBold(false),
            Op::Text(bottom),
            Op::Newline,
            Op::SetSize { height: 0, width: 0 },
        ]
    );
}

#[test]
fn test_banner_double_border() {
    let banner = Banner { content: "HI".into(), border: BorderStyle::Double, ..Default::default() };
    let mut ctx = ctx();
    banner.emit(&mut ctx);
    assert!(texts(&ctx.ops).iter().any(|s| s.starts_with('\u{2554}') && s.ends_with('\u{2557}')));
}

#[test]
fn test_banner_font_b_fallback() {
    let banner = Banner { content: "A".repeat(50), size: 3, ..Default::default() };
    let mut ctx = ctx();
    banner.emit(&mut ctx);
    assert!(ctx.ops.contains(&Op::SetFont(Font::B)));
    assert!(!ctx.ops.iter().any(|op| matches!(op, Op::SetSize { .. })));
}

#[test]
fn test_banner_heavy_border() {
    let banner = Banner { content: "HI".into(), border: BorderStyle::Heavy, ..Default::default() };
    let mut ctx = ctx();
    banner.emit(&mut ctx);
    let first = texts(&ctx.ops)[0].clone();
    assert!(first.chars().all(|c| c == '\u{2588}'));
}

#[test]
fn test_banner_shade_border() {
    let banner = Banner { content: "HI".into(), border: BorderStyle::Shade, ..Default::default() };
    let mut ctx = ctx();
    banner.emit(&mut ctx);
    let first = texts(&ctx.ops)[0].clone();
    assert!(first.chars().all(|c| c == '\u{2592}'));
}

#[test]
fn test_banner_shadow_border() {
    let banner = Banner { content: "HI".into(), border: BorderStyle::Shadow, ..Default::default() };
    let mut ctx = ctx();
    banner.emit(&mut ctx);
    let all = texts(&ctx.ops);
    assert!(all[0].starts_with('\u{250C}'));
    assert!(all[0].ends_with('\u{2510}'));
    let content = all.iter().find(|s| s.contains("HI")).unwrap();
    assert!(content.ends_with('\u{2593}'));
    let last = all.last().unwrap();
    assert!(last.starts_with(' '));
    assert!(last.chars().skip(1).all(|c| c == '\u{2593}'));
}

#[test]
fn test_banner_fit_shadow_overhead() {
    let (size, total) = Banner::fit(14, 3, BorderStyle::Shadow, 576);
    assert_eq!(size, [3, 2]);
    assert_eq!(total, 24);
    let (size, total) = Banner::fit(13, 3, BorderStyle::Shadow, 576);
    assert_eq!(size, [3, 3]);
    assert_eq!(total, 16);
}

#[test]
fn test_banner_mixed_border() {
    let banner = Banner { content: "HI".into(), border: BorderStyle::Mixed, ..Default::default() };
    let mut ctx = ctx();
    banner.emit(&mut ctx);
    assert!(texts(&ctx.ops).iter().any(|s| s.starts_with('\u{250C}') && s.ends_with('\u{2510}')));
}

#[test]
fn test_banner_rule() {
    let banner = Banner { content: "WEATHER".into(), border: BorderStyle::Rule, size: 2, ..Default::default() };
    let mut ctx = ctx();
    banner.emit(&mut ctx);
    let all = texts(&ctx.ops);
    assert_eq!(all.len(), 1);
    assert!(all[0].contains("WEATHER"));
    assert!(all[0].contains('\u{2500}'));
    assert!(all[0].contains(" WEATHER "));
}

#[test]
fn test_banner_heading() {
    let banner = Banner { content: "FORECAST".into(), border: BorderStyle::Heading, size: 2, ..Default::default() };
    let mut ctx = ctx();
    banner.emit(&mut ctx);
    let all = texts(&ctx.ops);
    assert_eq!(all.len(), 2);
    assert_eq!(all[0], "FORECAST");
    assert!(all[1].chars().all(|c| c == '\u{2500}'));
    assert!(ctx.ops.contains(&Op::SetAlign(Alignment::Center)));
    assert!(ctx.ops.iter().filter(|op| matches!(op, Op::SetAlign(Alignment::Left))).count() >= 1);
}

#[test]
fn test_banner_tag() {
    let banner = Banner { content: "GROCERIES".into(), border: BorderStyle::Tag, size: 2, ..Default::default() };
    let mut ctx = ctx();
    banner.emit(&mut ctx);
    let all = texts(&ctx.ops);
    assert_eq!(all.len(), 1);
    assert_eq!(all[0], "\u{25A0} GROCERIES");
}

#[test]
fn test_banner_fit_rule() {
    let (size, total) = Banner::fit(5, 3, BorderStyle::Rule, 576);
    assert_eq!(size, [3, 3]);
    assert_eq!(total, 16);
    let usable = total;
    assert!(5 <= usable);
}

#[test]
fn test_banner_fit_tag() {
    let (size, total) = Banner::fit(5, 3, BorderStyle::Tag, 576);
    assert_eq!(size, [3, 3]);
    assert_eq!(total, 16);
}

#[test]
fn banner_with_custom_font_is_not_ready() {
    let banner = Banner { content: "HI".into(), font: Some("ibm".into()), ..Default::default() };
    assert!(!banner.is_ready(576));
    assert!(Banner::new("HI").is_ready(576));
}

// ---------------------------------------------------------------- tables

#[test]
fn test_table_basic() {
    let table = Table { rows: vec![cells(&["A", "B"]), cells(&["C", "D"])], width: Some(20), ..Default::default() };
    let mut ctx = ctx();
    table.emit(&mut ctx);
    assert!(ctx.ops.contains(&Op::SetFont(Font::A)));
    assert!(ctx.ops.contains(&Op::SetAlign(Alignment::Left)));
    let all = texts(&ctx.ops);
    assert!(all[0].starts_with('\u{250C}'));
    assert!(all[0].ends_with('\u{2510}'));
    assert!(all[0].contains('\u{252C}'));
    assert!(all[1].contains("A"));
    assert!(all[1].contains("B"));
    assert!(all[2].contains("C"));
    assert!(all[2].contains("D"));
    let last = all.last().unwrap();
    assert!(last.starts_with('\u{2514}'));
    assert!(last.ends_with('\u{2518}'));
    assert!(last.contains('\u{2534}'));
}

#[test]
fn test_table_with_headers() {
    let table = Table {
        headers: Some(cells(&["Name", "Price"])),
        rows: vec![cells(&["Coffee", "$4.50"])],
        width: Some(30),
        ..Default::default()
    };
    let mut ctx = ctx();
    table.emit(&mut ctx);
    assert!(ctx.ops.contains(&Op::SetBold(true)));
    assert!(ctx.ops.contains(&Op::SetBold(false)));
    assert!(texts(&ctx.ops).iter().any(|s| s.starts_with('\u{251C}') && s.contains('\u{253C}') && s.ends_with('\u{2524}')));
}

#[test]
fn test_table_column_widths() {
    let widths = compute_col_widths(2, &[10, 1], 20);
    assert!(widths[0] > widths[1]);
    assert_eq!(widths.iter().sum::<usize>(), 20 - 3 - 4);
}

#[test]
fn column_widths_exact_values() {
    assert_eq!(compute_col_widths(2, &[10, 1], 20), vec![12, 1]);
    assert_eq!(compute_col_widths(3, &[0, 0, 0], 20), vec![4, 3, 3]);
    assert_eq!(compute_col_widths(2, &[5, 5], 5), vec![0, 0]);
    assert_eq!(compute_col_widths(0, &[], 20), Vec::<usize>::new());
    // Ties go to the earlier column: 13 * 3 / 9 = 4 each, one left over.
    assert_eq!(compute_col_widths(3, &[3, 3, 3], 23), vec![5, 4, 4]);
    // A column with content never gets 0 while space remains.
    assert_eq!(compute_col_widths(2, &[100, 1], 30), vec![22, 1]);
}

#[test]
fn test_table_alignment() {
    let table = Table {
        rows: vec![cells(&["L", "C", "R"])],
        align: vec![ColumnAlign::Left, ColumnAlign::Center, ColumnAlign::Right],
        width: Some(30),
        ..Default::default()
    };
    let mut ctx = ctx();
    table.emit(&mut ctx);
    let row = texts(&ctx.ops).into_iter().find(|s| s.contains("L") && s.contains("C") && s.contains("R")).unwrap();
    let parts: Vec<&str> = row.split('\u{2502}').collect();
    assert!(parts[1].starts_with(" L"));
    assert!(parts[3].ends_with("R "));
}

#[test]
fn test_table_double_border() {
    let table = Table { rows: vec![cells(&["X"])], border: BorderStyle::Double, width: Some(20), ..Default::default() };
    let mut ctx = ctx();
    table.emit(&mut ctx);
    let all = texts(&ctx.ops);
    assert!(all[0].starts_with('\u{2554}'));
    assert!(all[0].ends_with('\u{2557}'));
    assert!(all[0].contains('\u{2550}'));
}

#[test]
fn test_table_mixed_border() {
    let table = Table {
        headers: Some(cells(&["H1", "H2"])),
        rows: vec![cells(&["A", "B"])],
        border: BorderStyle::Mixed,
        width: Some(20),
        ..Default::default()
    };
    let mut ctx = ctx();
    table.emit(&mut ctx);
    let all = texts(&ctx.ops);
    assert!(all[0].starts_with('\u{250C}'));
    assert!(all.iter().any(|s| s.starts_with('\u{255E}') && s.contains('\u{256A}') && s.ends_with('\u{2561}')));
}

#[test]
fn test_table_row_separator() {
    let table = Table {
        rows: vec![cells(&["A"]), cells(&["B"]), cells(&["C"])],
        row_separator: true,
        width: Some(20),
        ..Default::default()
    };
    let mut ctx = ctx();
    table.emit(&mut ctx);
    let count = texts(&ctx.ops).iter().filter(|s| s.starts_with('\u{251C}') && s.ends_with('\u{2524}')).count();
    assert_eq!(count, 2);
}

#[test]
fn test_table_uneven_rows() {
    let table = Table {
        headers: Some(cells(&["A", "B", "C"])),
        rows: vec![cells(&["1"]), cells(&["1", "2", "3"])],
        width: Some(30),
        ..Default::default()
    };
    let mut ctx = ctx();
    table.emit(&mut ctx);
    let first = texts(&ctx.ops).into_iter().find(|s| s.contains("1") && !s.contains("2") && s.starts_with('\u{2502}'));
    assert!(first.is_some());
}

#[test]
fn test_table_empty_rows() {
    let table = Table { rows: vec![], width: Some(20), ..Default::default() };
    let mut ctx = ctx();
    table.emit(&mut ctx);
    assert!(ctx.ops.is_empty());
}

#[test]
fn table_lines_exactly() {
    let table = Table { rows: vec![cells(&["ab", "c"])], width: Some(13), ..Default::default() };
    let mut ctx = ctx();
    table.emit(&mut ctx);
    // 13 wide, 2 columns: 6 for content, split 4 / 2.
    assert_eq!(
        texts(&ctx.ops),
        vec![
            "\u{250C}\u{2500}\u{2500}\u{2500}\u{2500}\u{2500}\u{2500}\u{252C}\u{2500}\u{2500}\u{2500}\u{2500}\u{2510}".to_string(),
            "\u{2502} ab   \u{2502} c  \u{2502}".to_string(),
            "\u{2514}\u{2500}\u{2500}\u{2500}\u{2500}\u{2500}\u{2500}\u{2534}\u{2500}\u{2500}\u{2500}\u{2500}\u{2518}".to_string(),
        ]
    );
}

#[test]
fn table_cell_cut_inside_a_character_is_not_ready() {
    // Both columns get 1 byte; "é" takes 2.
    let table = Table { rows: vec![cells(&["\u{e9}", "a"])], width: Some(9), ..Default::default() };
    assert!(!table.is_ready(576));
    let plain = Table { rows: vec![cells(&["e", "a"])], width: Some(9), ..Default::default() };
    assert!(plain.is_ready(576));
}

// ---------------------------------------------------------------- canvas

fn make_raster(width: usize, height: usize, black_pixels: &[(usize, usize)]) -> RawRaster {
    let width_bytes = width.div_ceil(8);
    let mut data = vec![0u8; width_bytes * height];
    for &(x, y) in black_pixels {
        if x < width && y < height {
            let byte_idx = y * width_bytes + x / 8;
            let bit_idx = 7 - (x % 8);
            data[byte_idx] |= 1 << bit_idx;
        }
    }
    RawRaster { width, height, data }
}

#[test]
fn content_bounds_empty_raster() {
    let raster = make_raster(16, 8, &[]);
    assert_eq!(content_bounds(&raster), None);
}

#[test]
fn content_bounds_zero_dimensions() {
    let raster = RawRaster { width: 0, height: 0, data: vec![] };
    assert_eq!(content_bounds(&raster), None);
}

#[test]
fn content_bounds_single_pixel() {
    let raster = make_raster(16, 8, &[(5, 3)]);
    assert_eq!(content_bounds(&raster), Some((5, 3, 5, 3)));
}

#[test]
fn content_bounds_full_row() {
    let pixels: Vec<_> = (0..16).map(|x| (x, 2)).collect();
    let raster = make_raster(16, 4, &pixels);
    assert_eq!(content_bounds(&raster).unwrap(), (0, 2, 15, 2));
}

#[test]
fn content_bounds_tight_box() {
    let mut pixels = Vec::new();
    for y in 5..=15 {
        for x in 10..=20 {
            pixels.push((x, y));
        }
    }
    let raster = make_raster(576, 100, &pixels);
    assert_eq!(content_bounds(&raster).unwrap(), (10, 5, 20, 15));
}

#[test]
fn content_bounds_corners_only() {
    let raster = make_raster(576, 200, &[(0, 0), (575, 199)]);
    assert_eq!(content_bounds(&raster).unwrap(), (0, 0, 575, 199));
}

#[test]
fn content_bounds_non_byte_aligned_width() {
    let raster = make_raster(10, 4, &[(9, 1), (0, 2)]);
    assert_eq!(content_bounds(&raster).unwrap(), (0, 1, 9, 2));
}

#[test]
fn content_bounds_single_byte_boundaries() {
    let raster = make_raster(8, 1, &[(0, 0), (7, 0)]);
    assert_eq!(content_bounds(&raster).unwrap(), (0, 0, 7, 0));
}

#[test]
fn content_bounds_short_data_reads_white() {
    let raster = RawRaster { width: 16, height: 4, data: vec![0, 0, 0x01] };
    assert_eq!(content_bounds(&raster), Some((7, 1, 7, 1)));
}

// ---------------------------------------------------------------- documents

#[test]
fn document_compile_frames_components() {
    let mut doc = Document::new();
    doc.push(Component::BlankLine(estrella::document::BlankLine {}));
    let program = doc.compile().unwrap();
    assert_eq!(program.ops, vec![Op::Init, Op::SetCodepage(1), Op::Newline, Op::Cut { partial: true }]);
}

#[test]
fn document_without_cut_has_no_cut() {
    let mut doc = Document::new();
    doc.cut = false;
    doc.push(Component::Text(Text::new("hi")));
    let program = doc.compile().unwrap();
    assert!(!program.ops.iter().any(|op| matches!(op, Op::Cut { .. })));
    assert_eq!(program.ops[0], Op::Init);
}

#[test]
fn variables_are_interpolated() {
    let mut doc = Document::new();
    doc.variables = vec![("name".into(), "Jojo".into()), ("temp".into(), "6\u{b0}C".into())];
    doc.push(Component::Text(Text::new("Hi {{name}}, it is {{temp}}")));
    let program = doc.compile_with(&vec![]).unwrap();
    assert!(texts(&program.ops).contains(&"Hi Jojo, it is 6\u{b0}C".to_string()));
}

#[test]
fn interpolation_disabled_keeps_placeholders() {
    let mut doc = Document::new();
    doc.interpolate = false;
    doc.variables = vec![("name".into(), "Jojo".into())];
    doc.push(Component::Text(Text::new("Hi {{name}}")));
    let program = doc.compile_with(&vec![]).unwrap();
    assert!(texts(&program.ops).contains(&"Hi {{name}}".to_string()));
}

#[test]
fn user_variable_overrides_builtin() {
    let builtins = vec![("year".to_string(), "2026".to_string()), ("day".to_string(), "Monday".to_string())];
    let user = vec![("year".to_string(), "CUSTOM".to_string())];
    let merged = merge_variables(&builtins, &user);
    assert_eq!(merged, vec![("day".to_string(), "Monday".to_string()), ("year".to_string(), "CUSTOM".to_string())]);
    let mut doc = Document::new();
    doc.variables = user;
    doc.push(Component::Text(Text::new("{{year}} {{day}}")));
    let program = doc.compile_with(&builtins).unwrap();
    assert!(texts(&program.ops).contains(&"CUSTOM Monday".to_string()));
}

#[test]
fn builtin_variables_are_named() {
    let vars = builtin_variables();
    let names: Vec<&str> = vars.iter().map(|(k, _)| k.as_str()).collect();
    assert_eq!(names, vec!["date", "date_short", "day", "time", "time_12h", "datetime", "year", "iso_date"]);
    let year = &vars[6].1;
    assert_eq!(year.len(), 4);
    let mut doc = Document::new();
    doc.push(Component::Text(Text::new("{{year}}")));
    let program = doc.compile().unwrap();
    assert!(texts(&program.ops).iter().any(|s| s.len() == 4 && s.chars().all(|c| c.is_ascii_digit())));
}

#[test]
fn table_cells_are_interpolated() {
    let mut doc = Document::new();
    doc.variables = vec![("item".into(), "Latte".into())];
    doc.push(Component::Table(Table {
        headers: Some(cells(&["Item"])),
        rows: vec![cells(&["{{item}}"])],
        width: Some(20),
        ..Default::default()
    }));
    let program = doc.compile_with(&vec![]).unwrap();
    assert!(texts(&program.ops).iter().any(|s| s.contains("Latte")));
}

#[test]
fn unready_component_fails_compilation() {
    let mut doc = Document::new();
    doc.push(Component::Text(Text { content: "x".into(), font: Some("ibm".into()), ..Default::default() }));
    assert!(doc.compile_with(&vec![]).is_none());
}

#[test]
fn component_metadata() {
    let types = component_types();
    assert_eq!(types.len(), 19);
    assert_eq!(types[3].type_tag, "line_item");
    assert_eq!(types[3].label, "Line Item");
    for meta in &types {
        let c = default_component(&meta.type_tag).unwrap();
        assert_eq!(c.type_tag(), meta.type_tag);
        assert_eq!(c.label(), meta.label);
    }
    assert!(default_component("nope").is_none());
}

#[test]
fn interpolation_leaves_other_text_alone() {
    let vars = vec![("a".to_string(), "1".to_string())];
    let mut s = "no placeholders {a} {{ b }}".to_string();
    estrella::document::component::interpolate_string(&mut s, &vars);
    assert_eq!(s, "no placeholders {a} {{ b }}");
    let mut t = "{{a}}{{a}}".to_string();
    estrella::document::component::interpolate_string(&mut t, &vars);
    assert_eq!(t, "11");
}

#[test]
fn error_messages() {
    let e = estrella::EstrellaError::Image("bad".into());
    assert_eq!(e.message(), "Image error: bad");
    assert_eq!(estrella::EstrellaError::Io("disk".into()).message(), "I/O error: disk");
}

#[test]
fn dither_names() {
    assert_eq!(parse_dither_algorithm("FS"), Some(DitheringAlgorithm::FloydSteinberg));
    assert_eq!(parse_dither_algorithm("Threshold"), Some(DitheringAlgorithm::Threshold));
    assert_eq!(parse_dither_algorithm("jjn"), Some(DitheringAlgorithm::Jarvis));
    assert_eq!(parse_dither_algorithm("sierra"), None);
}

#[test]
fn shorthand_keys_in_order() {
    let keys = vec!["bold".to_string(), "banner".to_string(), "text".to_string()];
    let s = find_shorthand(&keys).unwrap();
    assert_eq!((s.key, s.type_tag, s.field), ("text", "text", "content"));
    let keys = vec!["spacer_mm".to_string()];
    let s = find_shorthand(&keys).unwrap();
    assert_eq!((s.type_tag, s.field), ("spacer", "mm"));
    assert!(find_shorthand(&vec!["bold".to_string()]).is_none());
}

#[test]
fn test_builtin_variables() {
    let vars = builtin_variables();
    let has = |k: &str| vars.iter().any(|(name, _)| name == k);
    assert!(has("date"));
    assert!(has("day"));
    assert!(has("time"));
    assert!(has("year"));
    assert!(has("iso_date"));
    assert!(has("datetime"));
    assert!(has("date_short"));
    assert!(has("time_12h"));
}

#[test]
fn test_rust_api_construction() {
    let doc = Document {
        document: vec![
            Component::Header(Header::new("CHURRA MART")),
            Component::Divider(estrella::document::Divider::default()),
            Component::LineItem(LineItem::priced("Espresso", "4.50")),
            Component::Total(Total::with_amount("4.50")),
            Component::QrCode(QrCode::new("https://example.com")),
        ],
        cut: true,
        ..Default::default()
    };
    let program = doc.compile().unwrap();
    assert!(!program.ops.is_empty());
    assert_eq!(*program.ops.last().unwrap(), Op::Cut { partial: true });
}

/// Bold, underline, invert, the size and the expanded height a program
/// leaves switched on.
fn final_style(ops: &[Op]) -> (bool, bool, bool, u8, u8, u8) {
    let mut st = (false, false, false, 0u8, 0u8, 0u8);
    for op in ops {
        match op {
            Op::Init => st = (false, false, false, 0, 0, 0),
            Op::SetExpandedHeight(h) => st.5 = *h,
            Op::SetBold(b) => st.0 = *b,
            Op::SetUnderline(b) => st.1 = *b,
            Op::SetInvert(b) => st.2 = *b,
            Op::SetExpandedWidth(w) => st.4 = *w,
            Op::SetSize { height, width } => {
                st.3 = *height;
                st.4 = *width;
            }
            _ => {}
        }
    }
    st
}

#[test]
fn styled_document_ends_in_plain_style() {
    let mut doc = Document::new();
    doc.push(Component::Banner(Banner { content: "SALE".into(), size: 3, bold: true, ..Default::default() }));
    doc.push(Component::Text(Text { content: "big".into(), bold: true, underline: true, size: [2, 2], ..Default::default() }));
    doc.push(Component::Columns(Columns {
        left: "Item".into(),
        right: "9.99".into(),
        bold: true,
        underline: true,
        invert: true,
        ..Default::default()
    }));
    doc.push(Component::Table(Table {
        headers: Some(cells(&["A", "B"])),
        rows: vec![cells(&["1", "2"])],
        ..Default::default()
    }));
    doc.push(Component::Total(Total { amount: "12.00".into(), double_width: true, ..Default::default() }));
    let program = doc.compile_with(&vec![]).unwrap();
    assert!(program.ops.contains(&Op::SetBold(true)));
    assert!(program.ops.contains(&Op::SetInvert(true)));
    assert_eq!(final_style(&program.ops), (false, false, false, 0, 0, 0));
}

fn measured(position: Option<(i32, i32)>, w: usize, h: usize, bounds: Option<(usize, usize, usize, usize)>) -> Option<ElementMeasurement> {
    Some(ElementMeasurement { position, full_width: w, full_height: h, content_bounds: bounds })
}

#[test]
fn canvas_layout_flows_and_crops() {
    let ms = vec![
        measured(None, 576, 24, Some((250, 2, 325, 21))),
        measured(None, 576, 30, None),
        None,
        measured(Some((100, 50)), 576, 24, Some((10, 3, 19, 20))),
    ];
    let layout = layout_from_measurements(None, None, 576, &ms);
    assert_eq!(layout.width, 576);
    assert_eq!(layout.elements.len(), 4);
    let first = &layout.elements[0];
    assert_eq!((first.x, first.y, first.width, first.height), (250, 2, 76, 20));
    assert_eq!((first.content_offset_x, first.content_offset_y), (250, 2));
    assert_eq!((first.full_width, first.full_height), (576, 24));
    let second = &layout.elements[1];
    assert_eq!((second.x, second.y, second.width, second.height), (0, 24, 576, 30));
    assert_eq!((second.content_offset_x, second.content_offset_y), (0, 0));
    let none = &layout.elements[2];
    assert_eq!((none.x, none.y, none.width, none.height, none.full_width, none.full_height), (0, 0, 0, 0, 0, 0));
    let placed = &layout.elements[3];
    assert_eq!((placed.x, placed.y), (110, 53));
    assert_eq!((placed.x - placed.content_offset_x, placed.y - placed.content_offset_y), (100, 50));
    // The positioned element reaches 74, below the flow's 54.
    assert_eq!(layout.height, 74);
}

#[test]
fn canvas_layout_size_defaults() {
    let empty = layout_from_measurements(None, None, 384, &vec![]);
    assert_eq!((empty.width, empty.height), (384, 1));
    assert!(empty.elements.is_empty());
    let fixed = layout_from_measurements(Some(200), Some(80), 576, &vec![measured(None, 200, 300, None)]);
    assert_eq!((fixed.width, fixed.height), (200, 80));
    let above = layout_from_measurements(None, None, 576, &vec![measured(Some((0, -40)), 576, 10, None)]);
    assert_eq!(above.height, 0);
}

#[test]
fn markdown_document_ends_in_plain_style() {
    let mut doc = Document::new();
    doc.push(Component::Markdown(estrella::document::Markdown {
        content: "# Title\n\n#### Small\n\n**bold** *em* `code` [link](https://x.org)\n\n```\nblock\n```\n".into(),
        show_urls: true,
    }));
    let program = doc.compile_with(&vec![]).unwrap();
    assert!(program.ops.contains(&Op::SetSize { height: 3, width: 3 }));
    assert!(program.ops.contains(&Op::SetExpandedHeight(1)));
    assert!(program.ops.contains(&Op::SetUnderline(true)));
    assert!(program.ops.contains(&Op::SetInvert(true)));
    assert_eq!(final_style(&program.ops), (false, false, false, 0, 0, 0));
}

#[test]
fn all_nineteen_component_kinds() {
    let types = component_types();
    assert_eq!(types.len(), 19);
    assert_eq!((types[0].type_tag.as_str(), types[0].label.as_str()), ("text", "Text"));
    assert_eq!((types[12].type_tag.as_str(), types[12].label.as_str()), ("pdf417", "PDF417"));
    let tags: Vec<&str> = types[15..].iter().map(|t| t.type_tag.as_str()).collect();
    assert_eq!(tags, vec!["pattern", "nv_logo", "chart", "canvas"]);
    match default_component("pattern").unwrap() {
        Component::Pattern(p) => {
            assert_eq!(p.name, "estrella");
            assert_eq!(p.height, Some(80));
        }
        _ => panic!("not a pattern"),
    }
    match default_component("chart").unwrap() {
        Component::Chart(c) => {
            assert_eq!(c.style, estrella::document::ChartStyle::Bar);
            assert_eq!(c.labels, vec!["A".to_string(), "B".to_string(), "C".to_string()]);
            let values: Vec<f64> = c.values.iter().map(|b| f64::from_bits(*b)).collect();
            assert_eq!(values, vec![1.0, 2.0, 3.0]);
            assert_eq!(c.height, Some(100));
        }
        _ => panic!("not a chart"),
    }
    match default_component("canvas").unwrap() {
        Component::Canvas(c) => {
            assert_eq!(c.height, Some(100));
            assert!(c.elements.is_empty());
        }
        _ => panic!("not a canvas"),
    }
}

#[test]
fn rasterized_kinds_are_not_compiled() {
    for c in [default_component("pattern"), default_component("chart"), default_component("canvas")] {
        let c = c.unwrap();
        assert!(!c.is_ready(576));
        let mut doc = Document::new();
        doc.push(c);
        assert!(doc.compile_with(&vec![]).is_none());
    }
}

#[test]
fn canvas_elements_are_interpolated() {
    let inner = Component::Text(Text::new("Hi {{name}}"));
    let canvas = Canvas {
        elements: vec![CanvasElement {
            component: inner,
            position: Some(Position { x: 3, y: 4 }),
            blend_mode: Some("multiply".into()),
            opacity: 0.5f32.to_bits(),
        }],
        ..Default::default()
    };
    let vars = vec![("name".to_string(), "Jojo".to_string())];
    match Component::Canvas(canvas).interpolated(&vars) {
        Component::Canvas(c) => {
            assert_eq!(c.elements.len(), 1);
            let e = &c.elements[0];
            assert_eq!(e.position, Some(Position { x: 3, y: 4 }));
            assert_eq!(e.blend_mode.as_deref(), Some("multiply"));
            assert_eq!(f32::from_bits(e.opacity), 0.5);
            match &e.component {
                Component::Text(t) => assert_eq!(t.content, "Hi Jojo"),
                _ => panic!("not text"),
            }
        }
        _ => panic!("not a canvas"),
    }
    let chart = Chart { title: Some("{{name}}".into()), labels: vec!["{{name}}!".into()], ..Default::default() };
    match Component::Chart(chart).interpolated(&vars) {
        Component::Chart(c) => {
            assert_eq!(c.title.as_deref(), Some("Jojo"));
            assert_eq!(c.labels, vec!["Jojo!".to_string()]);
        }
        _ => panic!("not a chart"),
    }
}
