use estrella::document::component::{component_types, default_component, Component};
use estrella::document::{
    Banner, Barcode, BlankLine, BorderStyle, ColumnAlign, Columns, Divider, DividerStyle, Document, Header, LineItem, Markdown,
    NvLogo, Pdf417, QrCode, Spacer, Table, Text, Total,
};
use estrella::ir::{Alignment, Font, Op};

fn doc_of(components: Vec<Component>) -> Document {
    let mut doc = Document::new();
    for c in components {
        doc.push(c);
    }
    doc
}

fn has_text(ops: &[Op], pred: impl Fn(&str) -> bool) -> bool {
    ops.iter().any(|op| matches!(op, Op::Text(s) if pred(s)))
}

fn strings(cells: &[&str]) -> Vec<String> {
    cells.iter().map(|s| s.to_string()).collect()
}

fn sized_text(content: &str, size: [u8; 2]) -> Component {
    Component::Text(Text { content: content.into(), size, ..Default::default() })
}

#[test]
fn test_cut_false() {
    let mut doc = doc_of(vec![Component::Text(Text::new("hi"))]);
    doc.cut = false;
    assert!(!doc.cut);
    let ir = doc.compile().unwrap();
    assert!(!ir.ops.iter().any(|op| matches!(op, Op::Cut { .. })));
}

#[test]
fn test_text_bold_center() {
    let doc = doc_of(vec![Component::Text(Text { content: "Hello".into(), bold: true, center: true, ..Default::default() })]);
    let ir = doc.compile().unwrap();
    assert!(ir.ops.iter().any(|op| matches!(op, Op::SetBold(true))));
    assert!(ir.ops.iter().any(|op| matches!(op, Op::SetAlign(Alignment::Center))));
    assert!(has_text(&ir.ops, |s| s == "Hello"));
}

#[test]
fn test_text_size_uniform() {
    let ir = doc_of(vec![sized_text("x", [2, 2])]).compile().unwrap();
    assert!(ir.ops.iter().any(|op| matches!(op, Op::SetSize { height: 1, width: 1 })));
}

#[test]
fn test_text_size_array() {
    let ir = doc_of(vec![sized_text("x", [2, 3])]).compile().unwrap();
    assert!(ir.ops.iter().any(|op| matches!(op, Op::SetSize { height: 1, width: 2 })));
}

#[test]
fn test_text_size_0_font_b() {
    let ir = doc_of(vec![sized_text("x", [0, 0])]).compile().unwrap();
    assert!(ir.ops.iter().any(|op| matches!(op, Op::SetFont(Font::B))));
    assert!(!ir.ops.iter().any(|op| matches!(op, Op::SetSize { .. })));
}

#[test]
fn test_text_default_size_font_a() {
    let ir = doc_of(vec![Component::Text(Text::new("x"))]).compile().unwrap();
    assert!(!ir.ops.iter().any(|op| matches!(op, Op::SetSize { .. })));
    assert!(has_text(&ir.ops, |s| s == "x"));
}

#[test]
fn test_text_inline() {
    let doc = doc_of(vec![Component::Text(Text { content: "x".into(), inline: true, ..Default::default() })]);
    let ir = doc.compile().unwrap();
    let text_idx = ir.ops.iter().position(|op| matches!(op, Op::Text(s) if s == "x")).unwrap();
    if text_idx + 1 < ir.ops.len() {
        assert!(!matches!(ir.ops[text_idx + 1], Op::Newline));
    }
}

#[test]
fn mod_test_header_normal() {
    let ir = doc_of(vec![Component::Header(Header::new("STORE"))]).compile().unwrap();
    assert!(ir.ops.iter().any(|op| matches!(op, Op::SetBold(true))));
    assert!(ir.ops.iter().any(|op| matches!(op, Op::SetSize { height: 1, width: 1 })));
}

#[test]
fn test_banner_json() {
    let ir = doc_of(vec![Component::Banner(Banner::new("SALE"))]).compile().unwrap();
    assert!(has_text(&ir.ops, |s| s.contains("SALE")));
    assert!(ir.ops.iter().any(|op| matches!(op, Op::SetBold(true))));
    assert!(has_text(&ir.ops, |s| s.starts_with('\u{250C}')));
}

#[test]
fn test_divider_default() {
    let ir = doc_of(vec![Component::Divider(Divider::default())]).compile().unwrap();
    assert!(has_text(&ir.ops, |s| s.starts_with("---")));
}

#[test]
fn mod_test_spacer_mm() {
    // 5 mm is 20 feed units of 1/4 mm.
    let spacer = Spacer { mm_units: Some(20), ..Default::default() };
    let ir = doc_of(vec![Component::Spacer(spacer)]).compile().unwrap();
    assert!(ir.ops.iter().any(|op| matches!(op, Op::Feed { units: 20 })));
}

#[test]
fn mod_test_qr_code() {
    let ir = doc_of(vec![Component::QrCode(QrCode::new("https://example.com"))]).compile().unwrap();
    assert!(ir.ops.iter().any(|op| matches!(op, Op::QrCode { .. })));
}

#[test]
fn test_all_component_types() {
    let banner = |content: &str, border: BorderStyle| Component::Banner(Banner { border, ..Banner::new(content) });
    let doc = doc_of(vec![
        Component::Text(Text::new("hello")),
        Component::Header(Header::new("TITLE")),
        Component::Header(Header { content: "small".into(), variant: Some("small".into()) }),
        Component::Banner(Banner::new("FRAMED")),
        Component::Banner(Banner { border: BorderStyle::Double, size: 2, ..Banner::new("DOUBLE") }),
        banner("HEAVY", BorderStyle::Heavy),
        banner("SHADE", BorderStyle::Shade),
        banner("SHADOW", BorderStyle::Shadow),
        Component::LineItem(LineItem { name: "item".into(), price: "1.00".into(), ..Default::default() }),
        Component::Total(Total { amount: "1.00".into(), ..Default::default() }),
        Component::Total(Total { amount: "0.10".into(), label: Some("TAX:".into()), bold: Some(false), ..Default::default() }),
        Component::Divider(Divider::default()),
        Component::Divider(Divider { style: DividerStyle::Solid, ..Default::default() }),
        Component::Spacer(Spacer { mm_units: Some(8), ..Default::default() }),
        Component::Spacer(Spacer::lines(1)),
        Component::Spacer(Spacer { units: Some(10), ..Default::default() }),
        Component::BlankLine(BlankLine {}),
        Component::Columns(Columns::new("L", "R")),
        Component::Table(Table::new(vec![strings(&["A", "B"]), strings(&["C", "D"])])),
        Component::Markdown(Markdown::new("**bold**")),
        Component::QrCode(QrCode::new("test")),
        Component::Pdf417(Pdf417::new("test")),
        Component::Barcode(Barcode { format: "code128".into(), data: "TEST".into(), ..Default::default() }),
        Component::NvLogo(NvLogo { key: "A1".into(), ..Default::default() }),
    ]);
    let ir = doc.compile().unwrap();
    assert!(ir.len() > 10);
}

#[test]
fn test_table_json() {
    let table = Table {
        headers: Some(strings(&["Item", "Qty", "Price"])),
        rows: vec![strings(&["Espresso", "2", "$6.00"]), strings(&["Croissant", "1", "$3.50"])],
        border: BorderStyle::Mixed,
        align: vec![ColumnAlign::Left, ColumnAlign::Right, ColumnAlign::Right],
        row_separator: false,
        ..Default::default()
    };
    let ir = doc_of(vec![Component::Table(table)]).compile().unwrap();
    assert!(has_text(&ir.ops, |s| s.contains("Item")));
    assert!(has_text(&ir.ops, |s| s.contains("Espresso")));
    assert!(ir.ops.iter().any(|op| matches!(op, Op::SetBold(true))));
    assert!(has_text(&ir.ops, |s| s.contains('\u{255E}')));
}

#[test]
fn test_table_variable_interpolation() {
    let table = Table { headers: Some(strings(&["Item"])), rows: vec![strings(&["{{item}}"])], ..Default::default() };
    let mut doc = doc_of(vec![Component::Table(table)]);
    doc.variables = vec![("item".into(), "Latte".into())];
    let ir = doc.compile().unwrap();
    assert!(has_text(&ir.ops, |s| s.contains("Latte")));
    assert!(!has_text(&ir.ops, |s| s.contains("{{item}}")));
}

#[test]
fn test_variable_interpolation() {
    let mut doc = doc_of(vec![
        Component::Text(Text::new("Hello {{name}}!")),
        Component::Columns(Columns::new("Now", "{{temp}}")),
    ]);
    doc.variables = vec![("name".into(), "Jojo".into()), ("temp".into(), "6\u{b0}C".into())];
    let ir = doc.compile().unwrap();
    assert!(has_text(&ir.ops, |s| s.contains("Jojo")));
    assert!(has_text(&ir.ops, |s| s.contains("6\u{b0}C")));
}

#[test]
fn test_interpolation_disabled() {
    let mut doc = doc_of(vec![Component::Text(Text::new("Hello {{name}}!"))]);
    doc.variables = vec![("name".into(), "Jojo".into())];
    doc.interpolate = false;
    let ir = doc.compile().unwrap();
    assert!(has_text(&ir.ops, |s| s.contains("{{name}}")));
}

#[test]
fn test_builtin_date_interpolation() {
    let ir = doc_of(vec![Component::Text(Text::new("Year: {{year}}"))]).compile().unwrap();
    assert!(has_text(&ir.ops, |s| s.starts_with("Year: 20")));
    assert!(!has_text(&ir.ops, |s| s.contains("{{year}}")));
}

#[test]
fn test_user_variable_overrides_builtin() {
    let mut doc = doc_of(vec![Component::Text(Text::new("Year: {{year}}"))]);
    doc.variables = vec![("year".into(), "CUSTOM".into())];
    let ir = doc.compile().unwrap();
    assert!(has_text(&ir.ops, |s| s.contains("CUSTOM")));
}

#[test]
fn test_editor_defaults_complete() {
    let types = component_types();
    let defaults = Component::all_editor_defaults();
    assert_eq!(types.len(), defaults.len());
    let mut seen = std::collections::HashSet::new();
    for meta in &types {
        assert!(seen.insert(&meta.type_tag), "Duplicate type: {}", meta.type_tag);
    }
    for meta in &types {
        let comp = default_component(&meta.type_tag);
        assert!(comp.is_some(), "No default for type: {}", meta.type_tag);
        assert_eq!(comp.unwrap().type_tag(), meta.type_tag);
    }
}
