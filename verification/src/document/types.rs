//! Component types of the document model: plain data with public fields.

use crate::components::TextModel;
use crate::document::component::Component;
use crate::ir::Alignment;
use crate::markdown::opt_view;
use vstd::prelude::*;

verus! {

/// The label and editor default that every component type provides.
pub trait ComponentMeta: Sized {
    /// Human-readable display label (e.g. "QR Code").
    fn label() -> &'static str;

    /// Whether `v` is the editor's starter value of this type.
    spec fn is_editor_default(v: Self) -> bool;

    /// A starter value with example content, for the editor.
    fn editor_default() -> (r: Self)
        ensures
            Self::is_editor_default(r),
    ;
}

/// Text with full styling.
///
/// `size`: `[0, 0]` is Font B; `[1, 1]` (the default) is Font A; `[h, w]`
/// is Font A expanded by `h - 1` and `w - 1`.
#[derive(Debug, Clone)]
pub struct Text {
    pub content: String,
    pub bold: bool,
    pub underline: bool,
    pub upperline: bool,
    pub invert: bool,
    pub upside_down: bool,
    pub reduced: bool,
    /// Explicit smoothing; `None` enables it for scaled text.
    pub smoothing: Option<bool>,
    /// "left", "center" or "right"; overrides `center` and `right`.
    pub align: Option<String>,
    pub center: bool,
    pub right: bool,
    pub size: [u8; 2],
    /// ESC W / ESC h scale as `[h, w]`.
    pub scale: Option<[u8; 2]>,
    pub double_width: bool,
    pub double_height: bool,
    /// No trailing newline.
    pub inline: bool,
    /// A custom font name; such text is rendered as an image, which this
    /// library does not do.
    pub font: Option<String>,
}

impl Default for Text {
    fn default() -> (t: Text)
        ensures
            t.content@ == Seq::<char>::empty(),
            !t.bold && !t.underline && !t.upperline && !t.invert && !t.upside_down && !t.reduced,
            t.smoothing is None && t.align is None && t.scale is None && t.font is None,
            !t.center && !t.right && !t.double_width && !t.double_height && !t.inline,
            t.size@ == seq![1u8, 1u8],
    {
        Text {
            content: String::new(),
            bold: false,
            underline: false,
            upperline: false,
            invert: false,
            upside_down: false,
            reduced: false,
            smoothing: None,
            align: None,
            center: false,
            right: false,
            size: [1, 1],
            scale: None,
            double_width: false,
            double_height: false,
            inline: false,
            font: None,
        }
    }
}

impl Text {
    /// Plain text with the given content.
    pub fn new(content: &str) -> (t: Text)
        ensures
            t.content@ == content@,
            !t.bold && !t.underline && !t.upperline && !t.invert && !t.upside_down && !t.reduced,
            t.smoothing is None && t.align is None && t.scale is None && t.font is None,
            !t.center && !t.right && !t.double_width && !t.double_height && !t.inline,
            t.size@ == seq![1u8, 1u8],
    {
        let mut t = Text::default();
        t.content = content.to_owned();
        t
    }
}

impl ComponentMeta for Text {
    fn label() -> (l: &'static str)
        ensures
            l@ == "Text"@,
    {
        "Text"
    }

    open spec fn is_editor_default(t: Text) -> bool {
        &&& t.content@ == "Hello World"@
        &&& !t.bold && !t.underline && !t.upperline && !t.invert && !t.upside_down && !t.reduced
        &&& t.smoothing is None && t.align is None && t.scale is None && t.font is None
        &&& !t.center && !t.right && !t.double_width && !t.double_height && !t.inline
        &&& t.size@ == seq![1u8, 1u8]
    }

    fn editor_default() -> (t: Text)
        ensures
            t.content@ == "Hello World"@,
            !t.bold && !t.underline && !t.upperline && !t.invert && !t.upside_down && !t.reduced,
            t.smoothing is None && t.align is None && t.scale is None && t.font is None,
            !t.center && !t.right && !t.double_width && !t.double_height && !t.inline,
            t.size@ == seq![1u8, 1u8],
    {
        Text::new("Hello World")
    }
}

/// The alignment a text asks for: `align` if given ("left", "center",
/// "right"; anything else means none), else `center`, else `right`, else left.
pub open spec fn text_alignment(t: Text) -> Option<Alignment> {
    match t.align {
        Some(a) => if a@ == "center"@ {
            Some(Alignment::Center)
        } else if a@ == "right"@ {
            Some(Alignment::Right)
        } else if a@ == "left"@ {
            Some(Alignment::Left)
        } else {
            None
        },
        None => if t.center {
            Some(Alignment::Center)
        } else if t.right {
            Some(Alignment::Right)
        } else {
            Some(Alignment::Left)
        },
    }
}

/// `v - 1`, or 0 for 0.
pub open spec fn dec(v: u8) -> u8 {
    if v > 0 { (v - 1) as u8 } else { 0 }
}

/// The ESC W / ESC h scale of a text: `(width, height)`.
pub open spec fn text_scaled(t: Text) -> (u8, u8) {
    match t.scale {
        Some(s) => (s@[1], s@[0]),
        None => (if t.double_width { 1u8 } else { 0u8 }, if t.double_height { 1u8 } else { 0u8 }),
    }
}

/// Whether the text is enlarged in any way.
pub open spec fn text_is_scaled(t: Text) -> bool {
    text_scaled(t).0 > 0 || text_scaled(t).1 > 0 || dec(t.size@[0]) > 0 || dec(t.size@[1]) > 0
}

/// The smoothing a text sets: its own, else on for enlarged text.
pub open spec fn text_smoothing(t: Text) -> Option<bool> {
    match t.smoothing {
        Some(e) => Some(e),
        None => if text_is_scaled(t) { Some(true) } else { None },
    }
}

/// The component text that a document text prints as.
pub open spec fn doc_text_model(t: Text) -> TextModel {
    TextModel {
        content: t.content@,
        newline: !t.inline,
        bold: t.bold,
        underline: t.underline,
        upperline: t.upperline,
        invert: t.invert,
        smoothing: text_smoothing(t),
        upside_down: t.upside_down,
        reduced: t.reduced,
        scaled_width: text_scaled(t).0,
        scaled_height: text_scaled(t).1,
        font: Some(if t.size@[0] == 0 && t.size@[1] == 0 { crate::ir::Font::B } else { crate::ir::Font::A }),
        alignment: text_alignment(t),
        height_mult: dec(t.size@[0]),
        width_mult: dec(t.size@[1]),
    }
}

/// Header: centered, bold, large text; `variant` "small" keeps normal size.
#[derive(Debug, Clone)]
pub struct Header {
    pub content: String,
    pub variant: Option<String>,
}

impl Default for Header {
    fn default() -> (h: Header)
        ensures
            h.content@ == Seq::<char>::empty(),
            h.variant is None,
    {
        Header { content: String::new(), variant: None }
    }
}

impl Header {
    /// A normal-size header.
    pub fn new(content: &str) -> (h: Header)
        ensures
            h.content@ == content@,
            h.variant is None,
    {
        Header { content: content.to_owned(), variant: None }
    }
}

impl ComponentMeta for Header {
    fn label() -> (l: &'static str)
        ensures
            l@ == "Header"@,
    {
        "Header"
    }

    open spec fn is_editor_default(h: Header) -> bool {
        &&& h.content@ == "HEADER"@
        &&& h.variant is None
    }

    fn editor_default() -> (h: Header)
        ensures
            h.content@ == "HEADER"@,
            h.variant is None,
    {
        Header::new("HEADER")
    }
}

/// Border style for banners and tables.
#[derive(Debug, Clone, Copy, PartialEq, Eq, Structural)]
pub enum BorderStyle {
    Single,
    Double,
    Heavy,
    Shade,
    Shadow,
    /// Single borders with a double header separator (tables; banners draw single).
    Mixed,
    /// Inline rule: `──── TEXT ────`.
    Rule,
    /// Bold text with a full-width rule below.
    Heading,
    /// Tagged label: `■ TEXT`.
    Tag,
}

impl Default for BorderStyle {
    fn default() -> (b: BorderStyle)
        ensures
            b == BorderStyle::Single,
    {
        BorderStyle::Single
    }
}

/// A framed banner that picks the widest character size that fits.
#[derive(Debug, Clone)]
pub struct Banner {
    pub content: String,
    /// Largest size (the height multiplier); the width cascades down from it.
    pub size: u8,
    pub border: BorderStyle,
    pub bold: bool,
    /// Blank lines inside the frame above and below the content.
    pub padding: u8,
    /// A custom font name; such banners are rendered as images, which this
    /// library does not do.
    pub font: Option<String>,
}

impl Default for Banner {
    fn default() -> (b: Banner)
        ensures
            b.content@ == Seq::<char>::empty(),
            b.size == 3 && b.border == BorderStyle::Single && b.bold && b.padding == 0 && b.font is None,
    {
        Banner { content: String::new(), size: 3, border: BorderStyle::Single, bold: true, padding: 0, font: None }
    }
}

impl Banner {
    /// A size-3, single-bordered, bold banner.
    pub fn new(content: &str) -> (b: Banner)
        ensures
            b.content@ == content@,
            b.size == 3 && b.border == BorderStyle::Single && b.bold && b.padding == 0 && b.font is None,
    {
        let mut b = Banner::default();
        b.content = content.to_owned();
        b
    }
}

impl ComponentMeta for Banner {
    fn label() -> (l: &'static str)
        ensures
            l@ == "Banner"@,
    {
        "Banner"
    }

    open spec fn is_editor_default(b: Banner) -> bool {
        &&& b.content@ == "BANNER"@
        &&& b.size == 2 && b.border == BorderStyle::Single && b.bold && b.padding == 0 && b.font is None
    }

    fn editor_default() -> (b: Banner)
        ensures
            b.content@ == "BANNER"@,
            b.size == 2 && b.border == BorderStyle::Single && b.bold && b.padding == 0 && b.font is None,
    {
        let mut b = Banner::new("BANNER");
        b.size = 2;
        b
    }
}

/// Line item: name on the left, price on the right.
#[derive(Debug, Clone)]
pub struct LineItem {
    pub name: String,
    /// The price formatted with two decimals.
    pub price: String,
    pub width: Option<usize>,
}

impl Default for LineItem {
    fn default() -> (l: LineItem)
        ensures
            l.name@ == Seq::<char>::empty(),
            l.price@ == "0.00"@,
            l.width is None,
    {
        LineItem { name: String::new(), price: "0.00".to_owned(), width: None }
    }
}

impl LineItem {
    /// A line item; `price` is already formatted with two decimals.
    pub fn priced(name: &str, price: &str) -> (l: LineItem)
        ensures
            l.name@ == name@,
            l.price@ == price@,
            l.width is None,
    {
        LineItem { name: name.to_owned(), price: price.to_owned(), width: None }
    }
}

impl ComponentMeta for LineItem {
    fn label() -> (l: &'static str)
        ensures
            l@ == "Line Item"@,
    {
        "Line Item"
    }

    open spec fn is_editor_default(l: LineItem) -> bool {
        &&& l.name@ == "Item"@
        &&& l.price@ == "0.00"@
        &&& l.width is None
    }

    fn editor_default() -> (l: LineItem)
        ensures
            l.name@ == "Item"@,
            l.price@ == "0.00"@,
            l.width is None,
    {
        LineItem { name: "Item".to_owned(), price: "0.00".to_owned(), width: None }
    }
}

/// Total: label and amount, right-aligned by default.
#[derive(Debug, Clone)]
pub struct Total {
    /// The amount formatted with two decimals.
    pub amount: String,
    pub label: Option<String>,
    pub bold: Option<bool>,
    pub double_width: bool,
    /// "right" (default) or "left".
    pub align: Option<String>,
}

impl Default for Total {
    fn default() -> (t: Total)
        ensures
            t.amount@ == "0.00"@,
            t.label is None && t.bold is None && !t.double_width && t.align is None,
    {
        Total { amount: "0.00".to_owned(), label: None, bold: None, double_width: false, align: None }
    }
}

impl Total {
    /// A bold total labeled `TOTAL:`; `amount` is already formatted.
    pub fn with_amount(amount: &str) -> (t: Total)
        ensures
            t.amount@ == amount@,
            t.label is None && t.bold == Some(true) && !t.double_width && t.align is None,
    {
        Total { amount: amount.to_owned(), label: None, bold: Some(true), double_width: false, align: None }
    }

    /// A total with a custom label; `amount` is already formatted.
    pub fn labeled_amount(label: &str, amount: &str) -> (t: Total)
        ensures
            t.amount@ == amount@,
            opt_view(t.label) == Some(label@),
            t.bold is None && !t.double_width && t.align is None,
    {
        Total { amount: amount.to_owned(), label: Some(label.to_owned()), bold: None, double_width: false, align: None }
    }
}

impl ComponentMeta for Total {
    fn label() -> (l: &'static str)
        ensures
            l@ == "Total"@,
    {
        "Total"
    }

    open spec fn is_editor_default(t: Total) -> bool {
        &&& t.amount@ == "0.00"@
        &&& t.label is None && t.bold is None && !t.double_width && t.align is None
    }

    fn editor_default() -> (t: Total)
        ensures
            t.amount@ == "0.00"@,
            t.label is None && t.bold is None && !t.double_width && t.align is None,
    {
        Total::default()
    }
}

/// Divider style options.
#[derive(Debug, Clone, Copy, PartialEq, Eq, Structural)]
pub enum DividerStyle {
    Dashed,
    Solid,
    Double,
    Equals,
}

impl Default for DividerStyle {
    fn default() -> (s: DividerStyle)
        ensures
            s == DividerStyle::Dashed,
    {
        DividerStyle::Dashed
    }
}

/// Horizontal divider; the width defaults to the characters per line.
#[derive(Debug, Clone)]
pub struct Divider {
    pub style: DividerStyle,
    pub width: Option<usize>,
}

impl Default for Divider {
    fn default() -> (d: Divider)
        ensures
            d.style == DividerStyle::Dashed,
            d.width is None,
    {
        Divider { style: DividerStyle::Dashed, width: None }
    }
}

impl ComponentMeta for Divider {
    fn label() -> (l: &'static str)
        ensures
            l@ == "Divider"@,
    {
        "Divider"
    }

    open spec fn is_editor_default(d: Divider) -> bool {
        &&& d.style == DividerStyle::Dashed
        &&& d.width is None
    }

    fn editor_default() -> (d: Divider)
        ensures
            d.style == DividerStyle::Dashed,
            d.width is None,
    {
        Divider::default()
    }
}

/// Vertical spacer: the first of `mm`, `lines` and `units` that is given decides.
#[derive(Debug, Clone)]
pub struct Spacer {
    /// A height given in millimeters, converted to 1/4 mm units (rounded, at most 255).
    pub mm_units: Option<u8>,
    /// Lines of about 3 mm each.
    pub lines: Option<u8>,
    /// Raw 1/4 mm units.
    pub units: Option<u8>,
}

impl Default for Spacer {
    fn default() -> (s: Spacer)
        ensures
            s.mm_units is None && s.lines is None && s.units is None,
    {
        Spacer { mm_units: None, lines: None, units: None }
    }
}

impl Spacer {
    /// About `lines` lines of space.
    pub fn lines(lines: u8) -> (s: Spacer)
        ensures
            s.mm_units is None && s.lines == Some(lines) && s.units is None,
    {
        Spacer { mm_units: None, lines: Some(lines), units: None }
    }
}

impl ComponentMeta for Spacer {
    fn label() -> (l: &'static str)
        ensures
            l@ == "Spacer"@,
    {
        "Spacer"
    }

    open spec fn is_editor_default(s: Spacer) -> bool {
        &&& s.mm_units == Some(8u8) && s.lines is None && s.units is None
    }

    fn editor_default() -> (s: Spacer)
        ensures
            s.mm_units == Some(8u8) && s.lines is None && s.units is None,
    {
        Spacer { mm_units: Some(8), lines: None, units: None }
    }
}

/// Empty line.
#[derive(Debug, Clone)]
pub struct BlankLine {}

impl Default for BlankLine {
    fn default() -> BlankLine {
        BlankLine {  }
    }
}

impl ComponentMeta for BlankLine {
    fn label() -> (l: &'static str)
        ensures
            l@ == "Blank Line"@,
    {
        "Blank Line"
    }

    open spec fn is_editor_default(b: BlankLine) -> bool {
        true
    }

    fn editor_default() -> BlankLine {
        BlankLine {  }
    }
}

/// Two-column row.
#[derive(Debug, Clone)]
pub struct Columns {
    pub left: String,
    pub right: String,
    pub width: Option<usize>,
    pub bold: bool,
    pub underline: bool,
    pub invert: bool,
}

impl Default for Columns {
    fn default() -> (c: Columns)
        ensures
            c.left@ == Seq::<char>::empty() && c.right@ == Seq::<char>::empty(),
            c.width is None && !c.bold && !c.underline && !c.invert,
    {
        Columns { left: String::new(), right: String::new(), width: None, bold: false, underline: false, invert: false }
    }
}

impl Columns {
    /// A plain two-column row.
    pub fn new(left: &str, right: &str) -> (c: Columns)
        ensures
            c.left@ == left@ && c.right@ == right@,
            c.width is None && !c.bold && !c.underline && !c.invert,
    {
        Columns { left: left.to_owned(), right: right.to_owned(), width: None, bold: false, underline: false, invert: false }
    }
}

impl ComponentMeta for Columns {
    fn label() -> (l: &'static str)
        ensures
            l@ == "Columns"@,
    {
        "Columns"
    }

    open spec fn is_editor_default(c: Columns) -> bool {
        &&& c.left@ == "Left"@ && c.right@ == "Right"@
        &&& c.width is None && !c.bold && !c.underline && !c.invert
    }

    fn editor_default() -> (c: Columns)
        ensures
            c.left@ == "Left"@ && c.right@ == "Right"@,
            c.width is None && !c.bold && !c.underline && !c.invert,
    {
        Columns::new("Left", "Right")
    }
}

/// Column alignment for table cells.
#[derive(Debug, Clone, Copy, PartialEq, Eq, Structural)]
pub enum ColumnAlign {
    Left,
    Center,
    Right,
}

impl Default for ColumnAlign {
    fn default() -> (a: ColumnAlign)
        ensures
            a == ColumnAlign::Left,
    {
        ColumnAlign::Left
    }
}

/// Table with box-drawing borders, optional headers and per-column alignment.
#[derive(Debug, Clone)]
pub struct Table {
    pub headers: Option<Vec<String>>,
    pub rows: Vec<Vec<String>>,
    pub border: BorderStyle,
    /// Per-column alignment; further columns are left-aligned.
    pub align: Vec<ColumnAlign>,
    /// Separator lines between data rows.
    pub row_separator: bool,
    /// Total width in characters (default: the characters per line).
    pub width: Option<usize>,
}

impl Default for Table {
    fn default() -> (t: Table)
        ensures
            t.headers is None && t.rows@.len() == 0 && t.border == BorderStyle::Single,
            t.align@.len() == 0 && !t.row_separator && t.width is None,
    {
        Table { headers: None, rows: Vec::new(), border: BorderStyle::Single, align: Vec::new(), row_separator: false, width: None }
    }
}

impl Table {
    /// A single-bordered table of the given rows.
    pub fn new(rows: Vec<Vec<String>>) -> (t: Table)
        ensures
            t.rows == rows,
            t.headers is None && t.border == BorderStyle::Single,
            t.align@.len() == 0 && !t.row_separator && t.width is None,
    {
        Table { headers: None, rows, border: BorderStyle::Single, align: Vec::new(), row_separator: false, width: None }
    }
}

impl ComponentMeta for Table {
    fn label() -> (l: &'static str)
        ensures
            l@ == "Table"@,
    {
        "Table"
    }

    open spec fn is_editor_default(t: Table) -> bool {
        &&& t.headers is Some && t.headers->0@.len() == 2
        &&& t.headers->0@[0]@ == "Col 1"@ && t.headers->0@[1]@ == "Col 2"@
        &&& t.rows@.len() == 1 && t.rows@[0]@.len() == 2 && t.rows@[0]@[0]@ == "A"@ && t.rows@[0]@[1]@ == "B"@
        &&& t.border == BorderStyle::Single && t.align@.len() == 0 && !t.row_separator && t.width is None
    }

    fn editor_default() -> (t: Table)
        ensures
            t.headers is Some && t.headers->0@.len() == 2,
            t.headers->0@[0]@ == "Col 1"@ && t.headers->0@[1]@ == "Col 2"@,
            t.rows@.len() == 1 && t.rows@[0]@.len() == 2 && t.rows@[0]@[0]@ == "A"@ && t.rows@[0]@[1]@ == "B"@,
            t.border == BorderStyle::Single && t.align@.len() == 0 && !t.row_separator && t.width is None,
    {
        let headers = vec!["Col 1".to_owned(), "Col 2".to_owned()];
        let rows = vec![vec!["A".to_owned(), "B".to_owned()]];
        Table { headers: Some(headers), rows, border: BorderStyle::Single, align: Vec::new(), row_separator: false, width: None }
    }
}

/// Markdown content.
#[derive(Debug, Clone)]
pub struct Markdown {
    pub content: String,
    pub show_urls: bool,
}

impl Default for Markdown {
    fn default() -> (m: Markdown)
        ensures
            m.content@ == Seq::<char>::empty() && !m.show_urls,
    {
        Markdown { content: String::new(), show_urls: false }
    }
}

impl Markdown {
    /// Markdown without link destinations.
    pub fn new(content: &str) -> (m: Markdown)
        ensures
            m.content@ == content@ && !m.show_urls,
    {
        Markdown { content: content.to_owned(), show_urls: false }
    }
}

impl ComponentMeta for Markdown {
    fn label() -> (l: &'static str)
        ensures
            l@ == "Markdown"@,
    {
        "Markdown"
    }

    open spec fn is_editor_default(m: Markdown) -> bool {
        &&& m.content@ == "## Heading\n\nParagraph text."@ && !m.show_urls
    }

    fn editor_default() -> (m: Markdown)
        ensures
            m.content@ == "## Heading\n\nParagraph text."@ && !m.show_urls,
    {
        Markdown::new("## Heading\n\nParagraph text.")
    }
}

/// QR code.
#[derive(Debug, Clone)]
pub struct QrCode {
    pub data: String,
    pub cell_size: Option<u8>,
    /// "L", "M" (default), "Q", "H", in any case.
    pub error_level: Option<String>,
    /// "left", "center" (default), "right".
    pub align: Option<String>,
}

impl Default for QrCode {
    fn default() -> (q: QrCode)
        ensures
            q.data@ == Seq::<char>::empty(),
            q.cell_size is None && q.error_level is None && q.align is None,
    {
        QrCode { data: String::new(), cell_size: None, error_level: None, align: None }
    }
}

impl QrCode {
    /// A QR code with default settings.
    pub fn new(data: &str) -> (q: QrCode)
        ensures
            q.data@ == data@,
            q.cell_size is None && q.error_level is None && q.align is None,
    {
        QrCode { data: data.to_owned(), cell_size: None, error_level: None, align: None }
    }
}

impl ComponentMeta for QrCode {
    fn label() -> (l: &'static str)
        ensures
            l@ == "QR Code"@,
    {
        "QR Code"
    }

    open spec fn is_editor_default(q: QrCode) -> bool {
        &&& q.data@ == "https://example.com"@
        &&& q.cell_size is None && q.error_level is None && q.align is None
    }

    fn editor_default() -> (q: QrCode)
        ensures
            q.data@ == "https://example.com"@,
            q.cell_size is None && q.error_level is None && q.align is None,
    {
        QrCode::new("https://example.com")
    }
}

/// PDF417 2D barcode.
#[derive(Debug, Clone)]
pub struct Pdf417 {
    pub data: String,
    pub module_width: Option<u8>,
    pub ecc_level: Option<u8>,
    /// "left", "center" (default), "right".
    pub align: Option<String>,
}

impl Default for Pdf417 {
    fn default() -> (p: Pdf417)
        ensures
            p.data@ == Seq::<char>::empty(),
            p.module_width is None && p.ecc_level is None && p.align is None,
    {
        Pdf417 { data: String::new(), module_width: None, ecc_level: None, align: None }
    }
}

impl Pdf417 {
    /// A PDF417 barcode with default settings.
    pub fn new(data: &str) -> (p: Pdf417)
        ensures
            p.data@ == data@,
            p.module_width is None && p.ecc_level is None && p.align is None,
    {
        Pdf417 { data: data.to_owned(), module_width: None, ecc_level: None, align: None }
    }
}

impl ComponentMeta for Pdf417 {
    fn label() -> (l: &'static str)
        ensures
            l@ == "PDF417"@,
    {
        "PDF417"
    }

    open spec fn is_editor_default(p: Pdf417) -> bool {
        &&& p.data@ == "PDF417-DATA"@
        &&& p.module_width is None && p.ecc_level is None && p.align is None
    }

    fn editor_default() -> (p: Pdf417)
        ensures
            p.data@ == "PDF417-DATA"@,
            p.module_width is None && p.ecc_level is None && p.align is None,
    {
        Pdf417::new("PDF417-DATA")
    }
}

/// 1D barcode.
#[derive(Debug, Clone)]
pub struct Barcode {
    /// "code39", "code128", "ean13", "upca" or "itf", in any case.
    pub format: String,
    pub data: String,
    pub height: Option<u8>,
}

impl Default for Barcode {
    fn default() -> (b: Barcode)
        ensures
            b.format@ == Seq::<char>::empty() && b.data@ == Seq::<char>::empty() && b.height is None,
    {
        Barcode { format: String::new(), data: String::new(), height: None }
    }
}

impl ComponentMeta for Barcode {
    fn label() -> (l: &'static str)
        ensures
            l@ == "Barcode"@,
    {
        "Barcode"
    }

    open spec fn is_editor_default(b: Barcode) -> bool {
        &&& b.format@ == "code128"@ && b.data@ == "ABC-123"@ && b.height == Some(60u8)
    }

    fn editor_default() -> (b: Barcode)
        ensures
            b.format@ == "code128"@ && b.data@ == "ABC-123"@ && b.height == Some(60u8),
    {
        Barcode { format: "code128".to_owned(), data: "ABC-123".to_owned(), height: Some(60) }
    }
}

/// Image data ready to print.
#[derive(Debug, Clone)]
pub struct ResolvedImage {
    pub raster_data: Vec<u8>,
    pub width: u16,
    pub height: u16,
}

/// An image from a URL; it prints once `resolved_data` has been filled in.
#[derive(Debug, Clone)]
pub struct Image {
    pub url: String,
    /// "bayer", "floyd-steinberg", "atkinson", "jarvis".
    pub dither: Option<String>,
    /// Target width in dots.
    pub width: Option<usize>,
    pub height: Option<usize>,
    /// "left", "center" (default), "right".
    pub align: Option<String>,
    pub resolved_data: Option<ResolvedImage>,
}

impl Default for Image {
    fn default() -> (i: Image)
        ensures
            i.url@ == Seq::<char>::empty(),
            i.dither is None && i.width is None && i.height is None && i.align is None && i.resolved_data is None,
    {
        Image { url: String::new(), dither: None, width: None, height: None, align: None, resolved_data: None }
    }
}

impl ComponentMeta for Image {
    fn label() -> (l: &'static str)
        ensures
            l@ == "Image"@,
    {
        "Image"
    }

    open spec fn is_editor_default(i: Image) -> bool {
        &&& i.url@ == Seq::<char>::empty()
        &&& i.dither is None && i.width is None && i.height is None && i.align is None && i.resolved_data is None
    }

    fn editor_default() -> (i: Image)
        ensures
            i.url@ == Seq::<char>::empty(),
            i.dither is None && i.width is None && i.height is None && i.align is None && i.resolved_data is None,
    {
        Image::default()
    }
}

/// A logo stored in the printer's non-volatile memory.
#[derive(Debug, Clone)]
pub struct NvLogo {
    /// The 2-character key of the stored logo.
    pub key: String,
    pub center: bool,
    /// Uniform scale (1 or 2), overridden by `scale_x` / `scale_y`.
    pub scale: Option<u8>,
    pub scale_x: Option<u8>,
    pub scale_y: Option<u8>,
}

impl Default for NvLogo {
    fn default() -> (l: NvLogo)
        ensures
            l.key@ == Seq::<char>::empty(),
            !l.center && l.scale is None && l.scale_x is None && l.scale_y is None,
    {
        NvLogo { key: String::new(), center: false, scale: None, scale_x: None, scale_y: None }
    }
}

impl ComponentMeta for NvLogo {
    fn label() -> (l: &'static str)
        ensures
            l@ == "NV Logo"@,
    {
        "NV Logo"
    }

    open spec fn is_editor_default(l: NvLogo) -> bool {
        &&& l.key@ == "A1"@
        &&& l.center && l.scale is None && l.scale_x is None && l.scale_y is None
    }

    fn editor_default() -> (l: NvLogo)
        ensures
            l.key@ == "A1"@,
            l.center && l.scale is None && l.scale_x is None && l.scale_y is None,
    {
        NvLogo { key: "A1".to_owned(), center: true, scale: None, scale_x: None, scale_y: None }
    }
}

/// Position for absolute placement on a canvas.
#[derive(Debug, Clone, Copy, PartialEq, Eq, Structural)]
pub struct Position {
    pub x: i32,
    pub y: i32,
}

impl Default for Position {
    fn default() -> (p: Position)
        ensures
            p.x == 0 && p.y == 0,
    {
        Position { x: 0, y: 0 }
    }
}

/// Chart visual style.
#[derive(Debug, Clone, Copy, PartialEq, Eq, Structural)]
pub enum ChartStyle {
    /// Thick connected lines with filled markers.
    Line,
    /// Filled region below the data line.
    Area,
    /// Vertical bars.
    Bar,
    /// Scatter plot of filled circles.
    Dot,
}

impl Default for ChartStyle {
    fn default() -> (c: ChartStyle)
        ensures
            c == ChartStyle::Line,
    {
        ChartStyle::Line
    }
}

/// A generative pattern printed as a raster of the full line width.
#[derive(Debug, Clone)]
pub struct Pattern {
    /// The pattern's name (`"ripple"`, `"estrella"`, ...).
    pub name: String,
    /// Height in dots.
    pub height: Option<usize>,
    /// Pattern-specific parameters as `(name, value)` pairs, names distinct.
    pub params: Vec<(String, String)>,
    /// Dithering algorithm by name.
    pub dither: Option<String>,
}

impl Default for Pattern {
    fn default() -> (p: Pattern)
        ensures
            p.name@ == Seq::<char>::empty() && p.height is None && p.params@.len() == 0 && p.dither is None,
    {
        Pattern { name: String::new(), height: None, params: Vec::new(), dither: None }
    }
}

impl ComponentMeta for Pattern {
    fn label() -> (l: &'static str)
        ensures
            l@ == "Pattern"@,
    {
        "Pattern"
    }

    open spec fn is_editor_default(p: Pattern) -> bool {
        &&& p.name@ == "estrella"@ && p.height == Some(80usize) && p.params@.len() == 0 && p.dither is None
    }

    fn editor_default() -> (p: Pattern)
        ensures
            p.name@ == "estrella"@ && p.height == Some(80usize) && p.params@.len() == 0 && p.dither is None,
    {
        proof {
            reveal_strlit("estrella");
        }
        Pattern { name: "estrella".to_owned(), height: Some(80), params: Vec::new(), dither: None }
    }
}

/// A chart of data values, printed as a raster.
#[derive(Debug, Clone)]
pub struct Chart {
    pub style: ChartStyle,
    /// X-axis labels, one per data point.
    pub labels: Vec<String>,
    /// The data values, one per point, each held as the bits of its IEEE-754
    /// double (the library carries them and never computes with them).
    pub values: Vec<u64>,
    /// Height in dots (200 when absent).
    pub height: Option<usize>,
    /// Suffix of the Y-axis tick labels.
    pub y_suffix: Option<String>,
    /// Prefix of the Y-axis tick labels.
    pub y_prefix: Option<String>,
    /// Title above the chart.
    pub title: Option<String>,
    /// Dithering algorithm by name.
    pub dither: Option<String>,
}

impl Default for Chart {
    fn default() -> (c: Chart)
        ensures
            c.style == ChartStyle::Line && c.labels@.len() == 0 && c.values@.len() == 0 && c.height is None
                && c.y_suffix is None && c.y_prefix is None && c.title is None && c.dither is None,
    {
        Chart {
            style: ChartStyle::Line,
            labels: Vec::new(),
            values: Vec::new(),
            height: None,
            y_suffix: None,
            y_prefix: None,
            title: None,
            dither: None,
        }
    }
}

impl ComponentMeta for Chart {
    fn label() -> (l: &'static str)
        ensures
            l@ == "Chart"@,
    {
        "Chart"
    }

    /// A bar chart of the values 1, 2 and 3 labelled A, B and C, 100 dots tall.
    open spec fn is_editor_default(c: Chart) -> bool {
        &&& c.style == ChartStyle::Bar
        &&& c.labels@.len() == 3 && c.labels@[0]@ == "A"@ && c.labels@[1]@ == "B"@ && c.labels@[2]@ == "C"@
        &&& c.values@ == seq![0x3FF0_0000_0000_0000u64, 0x4000_0000_0000_0000u64, 0x4008_0000_0000_0000u64]
        &&& c.height == Some(100usize)
        &&& c.y_suffix is None && c.y_prefix is None && c.title is None && c.dither is None
    }

    fn editor_default() -> (c: Chart)
        ensures
            c.style == ChartStyle::Bar,
            c.labels@.len() == 3 && c.labels@[0]@ == "A"@ && c.labels@[1]@ == "B"@ && c.labels@[2]@ == "C"@,
            c.values@ == seq![0x3FF0_0000_0000_0000u64, 0x4000_0000_0000_0000u64, 0x4008_0000_0000_0000u64],
            c.height == Some(100usize),
            c.y_suffix is None && c.y_prefix is None && c.title is None && c.dither is None,
    {
        let labels = vec!["A".to_owned(), "B".to_owned(), "C".to_owned()];
        let values = vec![0x3FF0_0000_0000_0000u64, 0x4000_0000_0000_0000u64, 0x4008_0000_0000_0000u64];
        Chart {
            style: ChartStyle::Bar,
            labels,
            values,
            height: Some(100),
            y_suffix: None,
            y_prefix: None,
            title: None,
            dither: None,
        }
    }
}

/// A component placed on a canvas.
#[derive(Debug)]
pub struct CanvasElement {
    pub component: Component,
    /// Absolute position; elements without one flow from the top.
    pub position: Option<Position>,
    /// Blend mode by name (`None`: the default mode).
    pub blend_mode: Option<String>,
    /// Opacity from 0 to 1, held as the bits of its IEEE-754 single.
    pub opacity: u32,
}

/// A raster surface on which components are composited.
#[derive(Debug)]
pub struct Canvas {
    /// Width in dots (the line width when absent).
    pub width: Option<usize>,
    /// Height in dots (from the elements when absent).
    pub height: Option<usize>,
    /// Dithering by name (`"auto"` when absent).
    pub dither: Option<String>,
    pub elements: Vec<CanvasElement>,
}

impl Default for Canvas {
    fn default() -> (c: Canvas)
        ensures
            c.width is None && c.height is None && c.dither is None && c.elements@.len() == 0,
    {
        Canvas { width: None, height: None, dither: None, elements: Vec::new() }
    }
}

impl ComponentMeta for Canvas {
    fn label() -> (l: &'static str)
        ensures
            l@ == "Canvas"@,
    {
        "Canvas"
    }

    open spec fn is_editor_default(c: Canvas) -> bool {
        &&& c.width is None && c.height == Some(100usize) && c.dither is None && c.elements@.len() == 0
    }

    fn editor_default() -> (c: Canvas)
        ensures
            c.width is None && c.height == Some(100usize) && c.dither is None && c.elements@.len() == 0,
    {
        Canvas { width: None, height: Some(100), dither: None, elements: Vec::new() }
    }
}

} // verus!
