//! The component enum: dispatch of emission, `{{variable}}` interpolation
//! and editor metadata over every component type.

use crate::document::types::{
    ColumnAlign, ResolvedImage, Banner, Barcode, BlankLine, Canvas, CanvasElement, Chart, Columns, ComponentMeta, Divider, Header,
    Image, LineItem, Markdown, NvLogo, Pattern, Pdf417, QrCode, Spacer, Table, Text, Total,
};
use crate::components::layout::{columns_line, styled_line_ops};
use crate::document::banner::banner_ops;
use crate::document::barcode::{barcode_alignment, barcode_kind, qr_error_level};
use crate::document::graphics::image_ops;
use crate::document::layout::doc_divider_char;
use crate::document::markdown::document_md_style;
use crate::document::table::table_ops;
use crate::document::text::{doc_text_ops, header_ops, total_ops};
use crate::document::EmitContext;
use crate::components::text::{line_item_line, total_line};
use crate::ir::{copy_bytes, op_if, ops_view, Alignment, Font, OpV};
use crate::components::markdown::markdown_ops;
use crate::text::{lemma_replace_absent, occurs_in, owned, push_str, rep, replace, replace_all, str_eq};
use vstd::prelude::*;

verus! {

/// The `{{key}}` placeholder for a variable name.
pub open spec fn placeholder(key: Seq<char>) -> Seq<char> {
    seq!['{', '{'] + key + seq!['}', '}']
}

/// `s` with the variables substituted in list order: every `{{key}}` of
/// the first pair replaced by its value, then the second pair's, and so on.
pub open spec fn interpolated(s: Seq<char>, vars: Seq<(String, String)>) -> Seq<char>
    decreases vars.len(),
{
    if vars.len() == 0 {
        s
    } else {
        let (k, v) = vars.last();
        replace_all(interpolated(s, vars.drop_last()), placeholder(k@), v@)
    }
}

/// Each string of `after` is the interpolated string of `before` at the same place.
pub open spec fn all_interpolated(before: Seq<String>, after: Seq<String>, vars: Seq<(String, String)>) -> bool {
    &&& after.len() == before.len()
    &&& forall|i: int| 0 <= i < before.len() ==> #[trigger] after[i]@ == interpolated(before[i]@, vars)
}

/// Text that holds no placeholder of any variable comes out of
/// interpolation unchanged.
pub proof fn lemma_interpolated_absent(s: Seq<char>, vars: Seq<(String, String)>)
    requires
        forall|i: int| 0 <= i < vars.len() ==> !occurs_in(s, placeholder(#[trigger] vars[i].0@)),
    ensures
        interpolated(s, vars) == s,
    decreases vars.len(),
{
    if vars.len() > 0 {
        let rest = vars.drop_last();
        assert forall|i: int| 0 <= i < rest.len() implies !occurs_in(s, placeholder(#[trigger] rest[i].0@)) by {
            assert(rest[i] == vars[i]);
        }
        lemma_interpolated_absent(s, rest);
        let (k, v) = vars.last();
        assert(!occurs_in(s, placeholder(vars[vars.len() - 1].0@)));
        lemma_replace_absent(s, placeholder(k@), v@);
    }
}

fn placeholder_of(key: &String) -> (p: String)
    ensures
        p@ == placeholder(key@),
{
    let mut p = String::new();
    push_str(&mut p, "{{");
    push_str(&mut p, key.as_str());
    push_str(&mut p, "}}");
    proof {
        reveal_strlit("{{");
        reveal_strlit("}}");
    }
    assert(p@ =~= placeholder(key@));
    p
}

/// Substitute every variable into `s`, in list order.
pub fn interpolate_string(s: &mut String, vars: &Vec<(String, String)>)
    ensures
        final(s)@ == interpolated(old(s)@, vars@),
{
    let mut i: usize = 0;
    assert(vars@.take(0) =~= Seq::<(String, String)>::empty());
    while i < vars.len()
        invariant
            i <= vars@.len(),
            s@ == interpolated(old(s)@, vars@.take(i as int)),
        decreases vars@.len() - i,
    {
        let p = placeholder_of(&vars[i].0);
        let r = replace(s.as_str(), p.as_str(), vars[i].1.as_str());
        *s = r;
        i = i + 1;
        assert(vars@.take(i as int).drop_last() =~= vars@.take(i - 1));
    }
    assert(vars@.take(i as int) =~= vars@);
}

fn interpolate_all(cells: &Vec<String>, vars: &Vec<(String, String)>) -> (r: Vec<String>)
    ensures
        all_interpolated(cells@, r@, vars@),
{
    let mut r: Vec<String> = Vec::new();
    let mut i: usize = 0;
    while i < cells.len()
        invariant
            i <= cells@.len(),
            r@.len() == i,
            forall|j: int| 0 <= j < i ==> #[trigger] r@[j]@ == interpolated(cells@[j]@, vars@),
        decreases cells@.len() - i,
    {
        let mut c = cells[i].clone();
        interpolate_string(&mut c, vars);
        r.push(c);
        i = i + 1;
    }
    r
}

fn interpolated_string(s: &String, vars: &Vec<(String, String)>) -> (r: String)
    ensures
        r@ == interpolated(s@, vars@),
{
    let mut r = s.clone();
    interpolate_string(&mut r, vars);
    r
}

fn copy_opt_string(o: &Option<String>) -> (r: Option<String>)
    ensures
        r == *o,
{
    match o {
        Some(s) => Some(s.clone()),
        None => None,
    }
}

fn copy_image(i: &Image) -> (r: Image)
    ensures
        same_image(*i, r),
{
    let resolved_data = match &i.resolved_data {
        Some(d) => Some(ResolvedImage { raster_data: copy_bytes(&d.raster_data), width: d.width, height: d.height }),
        None => None,
    };
    Image {
        url: i.url.clone(),
        dither: copy_opt_string(&i.dither),
        width: i.width,
        height: i.height,
        align: copy_opt_string(&i.align),
        resolved_data,
    }
}

fn copy_pairs(v: &Vec<(String, String)>) -> (r: Vec<(String, String)>)
    ensures
        r@ == v@,
{
    let mut r: Vec<(String, String)> = Vec::new();
    let mut i: usize = 0;
    while i < v.len()
        invariant
            i <= v@.len(),
            r@ == v@.subrange(0, i as int),
        decreases v@.len() - i,
    {
        r.push((v[i].0.clone(), v[i].1.clone()));
        i = i + 1;
        assert(r@ =~= v@.subrange(0, i as int));
    }
    assert(r@ =~= v@);
    r
}

fn copy_words(v: &Vec<u64>) -> (r: Vec<u64>)
    ensures
        r@ == v@,
{
    let mut r: Vec<u64> = Vec::new();
    let mut i: usize = 0;
    while i < v.len()
        invariant
            i <= v@.len(),
            r@ == v@.subrange(0, i as int),
        decreases v@.len() - i,
    {
        r.push(v[i]);
        i = i + 1;
        assert(r@ =~= v@.subrange(0, i as int));
    }
    assert(r@ =~= v@);
    r
}

fn copy_pattern(p: &Pattern) -> (r: Pattern)
    ensures
        same_pattern(*p, r),
{
    Pattern { name: p.name.clone(), height: p.height, params: copy_pairs(&p.params), dither: copy_opt_string(&p.dither) }
}

fn interpolated_opt(o: &Option<String>, vars: &Vec<(String, String)>) -> (r: Option<String>)
    ensures
        opt_interpolated(*o, r, vars@),
{
    match o {
        Some(s) => Some(interpolated_string(s, vars)),
        None => None,
    }
}

fn interpolated_chart(c: &Chart, vars: &Vec<(String, String)>) -> (r: Chart)
    ensures
        chart_interpolated(*c, r, vars@),
{
    Chart {
        style: c.style,
        labels: interpolate_all(&c.labels, vars),
        values: copy_words(&c.values),
        height: c.height,
        y_suffix: interpolated_opt(&c.y_suffix, vars),
        y_prefix: interpolated_opt(&c.y_prefix, vars),
        title: interpolated_opt(&c.title, vars),
        dither: copy_opt_string(&c.dither),
    }
}

fn interpolated_canvas(c: &Canvas, vars: &Vec<(String, String)>) -> (r: Canvas)
    ensures
        canvas_interpolated(*c, r, vars@),
    decreases c,
{
    let mut elements: Vec<CanvasElement> = Vec::new();
    let mut i: usize = 0;
    while i < c.elements.len()
        invariant
            i <= c.elements@.len(),
            elements@.len() == i,
            forall|j: int|
                0 <= j < i ==> {
                    let b = #[trigger] c.elements@[j];
                    let a = elements@[j];
                    &&& a.position == b.position && a.blend_mode == b.blend_mode && a.opacity == b.opacity
                    &&& component_interpolated(b.component, a.component, vars@)
                },
        decreases c.elements@.len() - i,
    {
        let e = &c.elements[i];
        proof {
            assert(decreases_to!(c.elements => c.elements@));
            assert(decreases_to!(c.elements@ => c.elements@[i as int]));
        }
        let component = e.component.interpolated(vars);
        elements.push(
            CanvasElement { component, position: e.position, blend_mode: copy_opt_string(&e.blend_mode), opacity: e.opacity },
        );
        i = i + 1;
    }
    Canvas { width: c.width, height: c.height, dither: copy_opt_string(&c.dither), elements }
}

fn interpolated_table(t: &Table, vars: &Vec<(String, String)>) -> (r: Table)
    ensures
        table_interpolated(*t, r, vars@),
{
    let headers = match &t.headers {
        Some(h) => Some(interpolate_all(h, vars)),
        None => None,
    };
    let mut rows: Vec<Vec<String>> = Vec::new();
    let mut i: usize = 0;
    while i < t.rows.len()
        invariant
            i <= t.rows@.len(),
            rows@.len() == i,
            forall|j: int| 0 <= j < i ==> all_interpolated(#[trigger] t.rows@[j]@, rows@[j]@, vars@),
        decreases t.rows@.len() - i,
    {
        rows.push(interpolate_all(&t.rows[i], vars));
        i = i + 1;
    }
    let mut align: Vec<ColumnAlign> = Vec::new();
    let mut k: usize = 0;
    while k < t.align.len()
        invariant
            k <= t.align@.len(),
            align@ == t.align@.subrange(0, k as int),
        decreases t.align@.len() - k,
    {
        align.push(t.align[k]);
        k = k + 1;
        assert(align@ =~= t.align@.subrange(0, k as int));
    }
    assert(align@ =~= t.align@);
    Table { headers, rows, border: t.border, align, row_separator: t.row_separator, width: t.width }
}

/// A document component.
#[derive(Debug)]
pub enum Component {
    Text(Text),
    Header(Header),
    Banner(Banner),
    LineItem(LineItem),
    Total(Total),
    Divider(Divider),
    Spacer(Spacer),
    BlankLine(BlankLine),
    Columns(Columns),
    Table(Table),
    Markdown(Markdown),
    QrCode(QrCode),
    Pdf417(Pdf417),
    Barcode(Barcode),
    Image(Image),
    Pattern(Pattern),
    NvLogo(NvLogo),
    Chart(Chart),
    Canvas(Canvas),
}

/// Two images with the same fields, byte buffers compared by content.
pub open spec fn same_image(a: Image, b: Image) -> bool {
    &&& a.url == b.url && a.dither == b.dither && a.width == b.width && a.height == b.height && a.align == b.align
    &&& match (a.resolved_data, b.resolved_data) {
        (Some(x), Some(y)) => x.raster_data@ == y.raster_data@ && x.width == y.width && x.height == y.height,
        (None, None) => true,
        _ => false,
    }
}

/// What interpolation makes of a table: every header and cell substituted.
pub open spec fn table_interpolated(before: Table, after: Table, vars: Seq<(String, String)>) -> bool {
    &&& after.border == before.border && after.align@ == before.align@
    &&& after.row_separator == before.row_separator && after.width == before.width
    &&& match (before.headers, after.headers) {
        (Some(b), Some(a)) => all_interpolated(b@, a@, vars),
        (None, None) => true,
        _ => false,
    }
    &&& after.rows@.len() == before.rows@.len()
    &&& forall|i: int| 0 <= i < before.rows@.len() ==> all_interpolated(#[trigger] before.rows@[i]@, after.rows@[i]@, vars)
}

/// Two patterns with the same fields.
pub open spec fn same_pattern(a: Pattern, b: Pattern) -> bool {
    a.name == b.name && a.height == b.height && a.params@ == b.params@ && a.dither == b.dither
}

/// An optional string with the variables substituted.
pub open spec fn opt_interpolated(before: Option<String>, after: Option<String>, vars: Seq<(String, String)>) -> bool {
    match (before, after) {
        (Some(b), Some(a)) => a@ == interpolated(b@, vars),
        (None, None) => true,
        _ => false,
    }
}

/// What interpolation makes of a chart: its labels, title and tick-label
/// affixes substituted, its style, values, height and dithering unchanged.
pub open spec fn chart_interpolated(before: Chart, after: Chart, vars: Seq<(String, String)>) -> bool {
    &&& after.style == before.style && after.values@ == before.values@ && after.height == before.height
    &&& after.dither == before.dither
    &&& all_interpolated(before.labels@, after.labels@, vars)
    &&& opt_interpolated(before.title, after.title, vars)
    &&& opt_interpolated(before.y_suffix, after.y_suffix, vars)
    &&& opt_interpolated(before.y_prefix, after.y_prefix, vars)
}

/// What interpolation makes of a canvas: every element's component
/// interpolated, everything else unchanged.
pub open spec fn canvas_interpolated(before: Canvas, after: Canvas, vars: Seq<(String, String)>) -> bool
    decreases before,
{
    &&& after.width == before.width && after.height == before.height && after.dither == before.dither
    &&& after.elements@.len() == before.elements@.len()
    &&& forall|i: int|
        0 <= i < before.elements@.len() ==> {
            let b = #[trigger] before.elements@[i];
            let a = after.elements@[i];
            &&& a.position == b.position && a.blend_mode == b.blend_mode && a.opacity == b.opacity
            &&& component_interpolated(b.component, a.component, vars)
        }
}

/// What interpolation makes of a component: its text fields substituted
/// (those of a canvas's elements too), everything else unchanged.
pub open spec fn component_interpolated(before: Component, after: Component, vars: Seq<(String, String)>) -> bool
    decreases before,
{
    match (before, after) {
        (Component::Text(b), Component::Text(a)) => Text::interpolation_of(b, a, vars),
        (Component::Header(b), Component::Header(a)) => Header::interpolation_of(b, a, vars),
        (Component::Banner(b), Component::Banner(a)) => Banner::interpolation_of(b, a, vars),
        (Component::LineItem(b), Component::LineItem(a)) => LineItem::interpolation_of(b, a, vars),
        (Component::Total(b), Component::Total(a)) => Total::interpolation_of(b, a, vars),
        (Component::Columns(b), Component::Columns(a)) => Columns::interpolation_of(b, a, vars),
        (Component::Markdown(b), Component::Markdown(a)) => Markdown::interpolation_of(b, a, vars),
        (Component::QrCode(b), Component::QrCode(a)) => QrCode::interpolation_of(b, a, vars),
        (Component::Pdf417(b), Component::Pdf417(a)) => Pdf417::interpolation_of(b, a, vars),
        (Component::Barcode(b), Component::Barcode(a)) => Barcode::interpolation_of(b, a, vars),
        (Component::Table(b), Component::Table(a)) => Table::interpolation_of(b, a, vars),
        (Component::Divider(b), Component::Divider(a)) => Divider::interpolation_of(b, a, vars),
        (Component::Spacer(b), Component::Spacer(a)) => Spacer::interpolation_of(b, a, vars),
        (Component::BlankLine(b), Component::BlankLine(a)) => BlankLine::interpolation_of(b, a, vars),
        (Component::Image(b), Component::Image(a)) => Image::interpolation_of(b, a, vars),
        (Component::NvLogo(b), Component::NvLogo(a)) => NvLogo::interpolation_of(b, a, vars),
        (Component::Pattern(b), Component::Pattern(a)) => same_pattern(b, a),
        (Component::Chart(b), Component::Chart(a)) => chart_interpolated(b, a, vars),
        (Component::Canvas(b), Component::Canvas(a)) => canvas_interpolated(b, a, vars),
        _ => false,
    }
}

/// A component whose text fields take `{{variable}}` substitution.
pub trait Interpolatable: Sized {
    /// `after` is `before` with the variables substituted into its text
    /// fields and every other field unchanged.
    spec fn interpolation_of(before: Self, after: Self, vars: Seq<(String, String)>) -> bool;

    /// Substitute the variables into the text fields, in list order.
    fn interpolate(&mut self, vars: &Vec<(String, String)>)
        ensures
            Self::interpolation_of(*old(self), *final(self), vars@),
    ;
}

impl Interpolatable for Text {
    open spec fn interpolation_of(b: Text, a: Text, vars: Seq<(String, String)>) -> bool {
        a.content@ == interpolated(b.content@, vars) && a == (Text { content: a.content, ..b })
    }

    fn interpolate(&mut self, vars: &Vec<(String, String)>) {
        interpolate_string(&mut self.content, vars);
    }
}

impl Interpolatable for Header {
    open spec fn interpolation_of(b: Header, a: Header, vars: Seq<(String, String)>) -> bool {
        a.content@ == interpolated(b.content@, vars) && a == (Header { content: a.content, ..b })
    }

    fn interpolate(&mut self, vars: &Vec<(String, String)>) {
        interpolate_string(&mut self.content, vars);
    }
}

impl Interpolatable for Banner {
    open spec fn interpolation_of(b: Banner, a: Banner, vars: Seq<(String, String)>) -> bool {
        a.content@ == interpolated(b.content@, vars) && a == (Banner { content: a.content, ..b })
    }

    fn interpolate(&mut self, vars: &Vec<(String, String)>) {
        interpolate_string(&mut self.content, vars);
    }
}

impl Interpolatable for LineItem {
    open spec fn interpolation_of(b: LineItem, a: LineItem, vars: Seq<(String, String)>) -> bool {
        a.name@ == interpolated(b.name@, vars) && a == (LineItem { name: a.name, ..b })
    }

    fn interpolate(&mut self, vars: &Vec<(String, String)>) {
        interpolate_string(&mut self.name, vars);
    }
}

impl Interpolatable for Total {
    open spec fn interpolation_of(b: Total, a: Total, vars: Seq<(String, String)>) -> bool {
        a == (Total { label: a.label, ..b }) && match (b.label, a.label) {
            (Some(bl), Some(al)) => al@ == interpolated(bl@, vars),
            (None, None) => true,
            _ => false,
        }
    }

    fn interpolate(&mut self, vars: &Vec<(String, String)>) {
        match &mut self.label {
            Some(l) => interpolate_string(l, vars),
            None => {},
        }
    }
}

impl Interpolatable for Columns {
    open spec fn interpolation_of(b: Columns, a: Columns, vars: Seq<(String, String)>) -> bool {
        &&& a.left@ == interpolated(b.left@, vars)
        &&& a.right@ == interpolated(b.right@, vars)
        &&& a == (Columns { left: a.left, right: a.right, ..b })
    }

    fn interpolate(&mut self, vars: &Vec<(String, String)>) {
        interpolate_string(&mut self.left, vars);
        interpolate_string(&mut self.right, vars);
    }
}

impl Interpolatable for Markdown {
    open spec fn interpolation_of(b: Markdown, a: Markdown, vars: Seq<(String, String)>) -> bool {
        a.content@ == interpolated(b.content@, vars) && a == (Markdown { content: a.content, ..b })
    }

    fn interpolate(&mut self, vars: &Vec<(String, String)>) {
        interpolate_string(&mut self.content, vars);
    }
}

impl Interpolatable for QrCode {
    open spec fn interpolation_of(b: QrCode, a: QrCode, vars: Seq<(String, String)>) -> bool {
        a.data@ == interpolated(b.data@, vars) && a == (QrCode { data: a.data, ..b })
    }

    fn interpolate(&mut self, vars: &Vec<(String, String)>) {
        interpolate_string(&mut self.data, vars);
    }
}

impl Interpolatable for Pdf417 {
    open spec fn interpolation_of(b: Pdf417, a: Pdf417, vars: Seq<(String, String)>) -> bool {
        a.data@ == interpolated(b.data@, vars) && a == (Pdf417 { data: a.data, ..b })
    }

    fn interpolate(&mut self, vars: &Vec<(String, String)>) {
        interpolate_string(&mut self.data, vars);
    }
}

impl Interpolatable for Barcode {
    open spec fn interpolation_of(b: Barcode, a: Barcode, vars: Seq<(String, String)>) -> bool {
        a.data@ == interpolated(b.data@, vars) && a == (Barcode { data: a.data, ..b })
    }

    fn interpolate(&mut self, vars: &Vec<(String, String)>) {
        interpolate_string(&mut self.data, vars);
    }
}

impl Interpolatable for Table {
    open spec fn interpolation_of(b: Table, a: Table, vars: Seq<(String, String)>) -> bool {
        table_interpolated(b, a, vars)
    }

    fn interpolate(&mut self, vars: &Vec<(String, String)>) {
        let headers = match &self.headers {
            Some(h) => Some(interpolate_all(h, vars)),
            None => None,
        };
        let mut rows: Vec<Vec<String>> = Vec::new();
        let mut i: usize = 0;
        while i < self.rows.len()
            invariant
                i <= self.rows@.len(),
                rows@.len() == i,
                forall|j: int| 0 <= j < i ==> all_interpolated(#[trigger] self.rows@[j]@, rows@[j]@, vars@),
            decreases self.rows@.len() - i,
        {
            rows.push(interpolate_all(&self.rows[i], vars));
            i = i + 1;
        }
        self.headers = headers;
        self.rows = rows;
    }
}

impl Interpolatable for Divider {
    open spec fn interpolation_of(b: Divider, a: Divider, vars: Seq<(String, String)>) -> bool {
        a == b
    }

    fn interpolate(&mut self, vars: &Vec<(String, String)>) {
    }
}

impl Interpolatable for Spacer {
    open spec fn interpolation_of(b: Spacer, a: Spacer, vars: Seq<(String, String)>) -> bool {
        a == b
    }

    fn interpolate(&mut self, vars: &Vec<(String, String)>) {
    }
}

impl Interpolatable for BlankLine {
    open spec fn interpolation_of(b: BlankLine, a: BlankLine, vars: Seq<(String, String)>) -> bool {
        a == b
    }

    fn interpolate(&mut self, vars: &Vec<(String, String)>) {
    }
}

impl Interpolatable for Image {
    open spec fn interpolation_of(b: Image, a: Image, vars: Seq<(String, String)>) -> bool {
        same_image(b, a)
    }

    fn interpolate(&mut self, vars: &Vec<(String, String)>) {
    }
}

impl Interpolatable for NvLogo {
    open spec fn interpolation_of(b: NvLogo, a: NvLogo, vars: Seq<(String, String)>) -> bool {
        a == b
    }

    fn interpolate(&mut self, vars: &Vec<(String, String)>) {
    }
}

impl Interpolatable for Pattern {
    open spec fn interpolation_of(b: Pattern, a: Pattern, vars: Seq<(String, String)>) -> bool {
        same_pattern(b, a)
    }

    fn interpolate(&mut self, vars: &Vec<(String, String)>) {
    }
}

impl Interpolatable for Chart {
    open spec fn interpolation_of(b: Chart, a: Chart, vars: Seq<(String, String)>) -> bool {
        chart_interpolated(b, a, vars)
    }

    fn interpolate(&mut self, vars: &Vec<(String, String)>) {
        let r = interpolated_chart(self, vars);
        *self = r;
    }
}

impl Interpolatable for Canvas {
    open spec fn interpolation_of(b: Canvas, a: Canvas, vars: Seq<(String, String)>) -> bool {
        canvas_interpolated(b, a, vars)
    }

    fn interpolate(&mut self, vars: &Vec<(String, String)>) {
        let r = interpolated_canvas(self, vars);
        *self = r;
    }
}

impl Component {
    /// A copy of this component with `{{variables}}` substituted into its
    /// text fields, those of a canvas's elements included.
    pub fn interpolated(&self, vars: &Vec<(String, String)>) -> (r: Component)
        ensures
            component_interpolated(*self, r, vars@),
        decreases self,
    {
        match self {
            Component::Text(t) => Component::Text(Text {
                content: interpolated_string(&t.content, vars),
                bold: t.bold,
                underline: t.underline,
                upperline: t.upperline,
                invert: t.invert,
                upside_down: t.upside_down,
                reduced: t.reduced,
                smoothing: t.smoothing,
                align: copy_opt_string(&t.align),
                center: t.center,
                right: t.right,
                size: t.size,
                scale: t.scale,
                double_width: t.double_width,
                double_height: t.double_height,
                inline: t.inline,
                font: copy_opt_string(&t.font),
            }),
            Component::Header(h) => Component::Header(Header {
                content: interpolated_string(&h.content, vars),
                variant: copy_opt_string(&h.variant),
            }),
            Component::Banner(b) => Component::Banner(Banner {
                content: interpolated_string(&b.content, vars),
                size: b.size,
                border: b.border,
                bold: b.bold,
                padding: b.padding,
                font: copy_opt_string(&b.font),
            }),
            Component::LineItem(l) => Component::LineItem(LineItem {
                name: interpolated_string(&l.name, vars),
                price: l.price.clone(),
                width: l.width,
            }),
            Component::Total(t) => Component::Total(Total {
                amount: t.amount.clone(),
                label: match &t.label {
                    Some(l) => Some(interpolated_string(l, vars)),
                    None => None,
                },
                bold: t.bold,
                double_width: t.double_width,
                align: copy_opt_string(&t.align),
            }),
            Component::Divider(d) => Component::Divider(Divider { style: d.style, width: d.width }),
            Component::Spacer(s) => Component::Spacer(Spacer { mm_units: s.mm_units, lines: s.lines, units: s.units }),
            Component::BlankLine(_) => Component::BlankLine(BlankLine {  }),
            Component::Columns(c) => Component::Columns(Columns {
                left: interpolated_string(&c.left, vars),
                right: interpolated_string(&c.right, vars),
                width: c.width,
                bold: c.bold,
                underline: c.underline,
                invert: c.invert,
            }),
            Component::Table(t) => Component::Table(interpolated_table(t, vars)),
            Component::Markdown(m) => Component::Markdown(Markdown {
                content: interpolated_string(&m.content, vars),
                show_urls: m.show_urls,
            }),
            Component::QrCode(q) => Component::QrCode(QrCode {
                data: interpolated_string(&q.data, vars),
                cell_size: q.cell_size,
                error_level: copy_opt_string(&q.error_level),
                align: copy_opt_string(&q.align),
            }),
            Component::Pdf417(p) => Component::Pdf417(Pdf417 {
                data: interpolated_string(&p.data, vars),
                module_width: p.module_width,
                ecc_level: p.ecc_level,
                align: copy_opt_string(&p.align),
            }),
            Component::Barcode(b) => Component::Barcode(Barcode {
                format: b.format.clone(),
                data: interpolated_string(&b.data, vars),
                height: b.height,
            }),
            Component::Image(i) => Component::Image(copy_image(i)),
            Component::NvLogo(l) => Component::NvLogo(NvLogo {
                key: l.key.clone(),
                center: l.center,
                scale: l.scale,
                scale_x: l.scale_x,
                scale_y: l.scale_y,
            }),
            Component::Pattern(p) => Component::Pattern(copy_pattern(p)),
            Component::Chart(c) => Component::Chart(interpolated_chart(c, vars)),
            Component::Canvas(c) => Component::Canvas(interpolated_canvas(c, vars)),
        }
    }

    /// Substitute `{{variables}}` into this component's text fields.
    pub fn interpolate(&mut self, vars: &Vec<(String, String)>)
        ensures
            component_interpolated(*old(self), *final(self), vars@),
    {
        match self {
            Component::Text(c) => c.interpolate(vars),
            Component::Header(c) => c.interpolate(vars),
            Component::Banner(c) => c.interpolate(vars),
            Component::LineItem(c) => c.interpolate(vars),
            Component::Total(c) => c.interpolate(vars),
            Component::Columns(c) => c.interpolate(vars),
            Component::Markdown(c) => c.interpolate(vars),
            Component::QrCode(c) => c.interpolate(vars),
            Component::Pdf417(c) => c.interpolate(vars),
            Component::Barcode(c) => c.interpolate(vars),
            Component::Table(c) => c.interpolate(vars),
            Component::Divider(c) => c.interpolate(vars),
            Component::Spacer(c) => c.interpolate(vars),
            Component::BlankLine(c) => c.interpolate(vars),
            Component::Image(c) => c.interpolate(vars),
            Component::NvLogo(c) => c.interpolate(vars),
            Component::Pattern(c) => c.interpolate(vars),
            Component::Chart(c) => c.interpolate(vars),
            Component::Canvas(c) => c.interpolate(vars),
        }
    }
}

/// Everything a component emits on a line `print_width` dots wide. A
/// pattern, chart or canvas prints as a raster that this library does not
/// render: it is never ready, and no ops stand for it.
pub open spec fn component_ops(c: Component, print_width: usize) -> Seq<OpV> {
    match c {
        Component::Text(t) => doc_text_ops(t),
        Component::Header(h) => header_ops(h),
        Component::Banner(b) => banner_ops(b, print_width),
        Component::LineItem(l) => seq![
            OpV::SetFont(Font::A),
            OpV::SetAlign(Alignment::Left),
            OpV::Text(line_item_line(l.name@, l.price@, l.line_width())),
            OpV::Newline,
        ],
        Component::Total(t) => total_ops(t),
        Component::Divider(d) => seq![
            OpV::SetFont(Font::A),
            OpV::SetAlign(Alignment::Left),
            OpV::Text(rep(doc_divider_char(d.style), (match d.width {
                Some(w) => w,
                None => print_width / 12,
            }) as nat)),
            OpV::Newline,
        ],
        Component::Spacer(s) => op_if(s.feed_units() > 0, OpV::Feed { units: s.feed_units() }),
        Component::BlankLine(_) => seq![OpV::Newline],
        Component::Columns(c) => seq![OpV::SetFont(Font::A)] + styled_line_ops(
            columns_line(c.left@, c.right@, c.row_width(print_width)),
            c.bold,
            c.underline,
            c.invert,
        ),
        Component::Table(t) => table_ops(t, print_width),
        Component::Markdown(m) => markdown_ops(document_md_style(print_width), m.content@, m.show_urls),
        Component::QrCode(q) => seq![
            OpV::SetAlign(barcode_alignment(q.align)),
            OpV::QrCode { data: q.data@, cell_size: q.cell(), error_level: qr_error_level(q.error_level) },
        ],
        Component::Pdf417(p) => seq![
            OpV::SetAlign(barcode_alignment(p.align)),
            OpV::Pdf417 { data: p.data@, module_width: p.module(), ecc_level: p.ecc() },
        ],
        Component::Barcode(b) => match barcode_kind(b.format@) {
            Some(kind) => seq![OpV::Barcode1D { kind, data: b.data@, height: b.bar_height() }],
            None => Seq::empty(),
        },
        Component::Image(i) => image_ops(i, print_width),
        Component::NvLogo(l) => seq![OpV::NvPrint { key: l.key@, scale_x: l.x_scale(), scale_y: l.y_scale() }],
        Component::Pattern(_) | Component::Chart(_) | Component::Canvas(_) => Seq::empty(),
    }
}

/// Whether a component can be emitted on a line `print_width` dots wide:
/// text in printer fonts, names and cells that can be cut on character
/// boundaries, and no pattern, chart or canvas (they are rasterized).
pub open spec fn component_ready(c: Component, print_width: usize) -> bool {
    match c {
        Component::Pattern(_) | Component::Chart(_) | Component::Canvas(_) => false,
        Component::Text(t) => t.printable(),
        Component::Banner(b) => b.ready(print_width),
        Component::LineItem(l) => l.fits(),
        Component::Table(t) => t.ready(print_width),
        _ => true,
    }
}

/// The type tag of each component kind, in declaration order.
pub open spec fn type_names() -> Seq<Seq<char>> {
    seq![
        "text"@, "header"@, "banner"@, "line_item"@, "total"@, "divider"@, "spacer"@, "blank_line"@,
        "columns"@, "table"@, "markdown"@, "qr_code"@, "pdf417"@, "barcode"@, "image"@, "pattern"@, "nv_logo"@,
        "chart"@, "canvas"@,
    ]
}

/// No two component kinds share a type tag.
pub proof fn lemma_type_names_distinct()
    ensures
        forall|i: int, j: int| 0 <= i < j < type_names().len() ==> type_names()[i] != type_names()[j],
{
    reveal_strlit("text");
    reveal_strlit("header");
    reveal_strlit("banner");
    reveal_strlit("line_item");
    reveal_strlit("total");
    reveal_strlit("divider");
    reveal_strlit("spacer");
    reveal_strlit("blank_line");
    reveal_strlit("columns");
    reveal_strlit("table");
    reveal_strlit("markdown");
    reveal_strlit("qr_code");
    reveal_strlit("pdf417");
    reveal_strlit("barcode");
    reveal_strlit("image");
    reveal_strlit("pattern");
    reveal_strlit("nv_logo");
    reveal_strlit("chart");
    reveal_strlit("canvas");
    let t = type_names();
    assert forall|i: int, j: int| 0 <= i < j < t.len() implies t[i] != t[j] by {
        assert(t[i][0] != t[j][0] || t[i].len() != t[j].len() || t[i][1] != t[j][1] || t[i][2] != t[j][2] || t[i][4] != t[j][4]);
    }
}

/// The display label of each component kind, in declaration order.
pub open spec fn type_labels() -> Seq<Seq<char>> {
    seq![
        "Text"@, "Header"@, "Banner"@, "Line Item"@, "Total"@, "Divider"@, "Spacer"@, "Blank Line"@,
        "Columns"@, "Table"@, "Markdown"@, "QR Code"@, "PDF417"@, "Barcode"@, "Image"@, "Pattern"@, "NV Logo"@,
        "Chart"@, "Canvas"@,
    ]
}

/// The position of a component's kind in declaration order.
pub open spec fn kind_index(c: Component) -> int {
    match c {
        Component::Text(_) => 0,
        Component::Header(_) => 1,
        Component::Banner(_) => 2,
        Component::LineItem(_) => 3,
        Component::Total(_) => 4,
        Component::Divider(_) => 5,
        Component::Spacer(_) => 6,
        Component::BlankLine(_) => 7,
        Component::Columns(_) => 8,
        Component::Table(_) => 9,
        Component::Markdown(_) => 10,
        Component::QrCode(_) => 11,
        Component::Pdf417(_) => 12,
        Component::Barcode(_) => 13,
        Component::Image(_) => 14,
        Component::Pattern(_) => 15,
        Component::NvLogo(_) => 16,
        Component::Chart(_) => 17,
        Component::Canvas(_) => 18,
    }
}

/// Whether `c` is the editor's starter value of its kind.
pub open spec fn is_default_component(c: Component) -> bool {
    match c {
        Component::Text(x) => Text::is_editor_default(x),
        Component::Header(x) => Header::is_editor_default(x),
        Component::Banner(x) => Banner::is_editor_default(x),
        Component::LineItem(x) => LineItem::is_editor_default(x),
        Component::Total(x) => Total::is_editor_default(x),
        Component::Divider(x) => Divider::is_editor_default(x),
        Component::Spacer(x) => Spacer::is_editor_default(x),
        Component::BlankLine(x) => BlankLine::is_editor_default(x),
        Component::Columns(x) => Columns::is_editor_default(x),
        Component::Table(x) => Table::is_editor_default(x),
        Component::Markdown(x) => Markdown::is_editor_default(x),
        Component::QrCode(x) => QrCode::is_editor_default(x),
        Component::Pdf417(x) => Pdf417::is_editor_default(x),
        Component::Barcode(x) => Barcode::is_editor_default(x),
        Component::Image(x) => Image::is_editor_default(x),
        Component::Pattern(x) => Pattern::is_editor_default(x),
        Component::NvLogo(x) => NvLogo::is_editor_default(x),
        Component::Chart(x) => Chart::is_editor_default(x),
        Component::Canvas(x) => Canvas::is_editor_default(x),
    }
}

/// A component type's tag and display label.
#[derive(Debug, Clone)]
pub struct ComponentTypeMeta {
    pub type_tag: String,
    pub label: String,
}

impl Component {
    /// Whether this component can be emitted on a line `print_width` dots wide.
    pub open spec fn ready(self, print_width: usize) -> bool {
        component_ready(self, print_width)
    }

    /// Whether this component can be emitted on a line `print_width` dots wide.
    pub fn is_ready(&self, print_width: usize) -> (b: bool)
        ensures
            b == self.ready(print_width),
    {
        match self {
            Component::Text(t) => t.font.is_none(),
            Component::Banner(b) => b.is_ready(print_width),
            Component::LineItem(l) => l.name_fits(),
            Component::Table(t) => t.is_ready(print_width),
            Component::Pattern(_) | Component::Chart(_) | Component::Canvas(_) => false,
            _ => true,
        }
    }

    /// Emit this component's ops.
    pub fn emit(&self, ctx: &mut EmitContext)
        requires
            self.ready(old(ctx).print_width),
        ensures
            final(ctx).print_width == old(ctx).print_width,
            ops_view(final(ctx).ops@) == ops_view(old(ctx).ops@) + component_ops(*self, old(ctx).print_width),
    {
        match self {
            Component::Text(c) => c.emit(&mut ctx.ops),
            Component::Header(c) => c.emit(&mut ctx.ops),
            Component::Banner(c) => c.emit(ctx),
            Component::LineItem(c) => c.emit(&mut ctx.ops),
            Component::Total(c) => c.emit(&mut ctx.ops),
            Component::Divider(c) => c.emit(ctx),
            Component::Spacer(c) => c.emit(ctx),
            Component::BlankLine(c) => c.emit(ctx),
            Component::Columns(c) => c.emit(ctx),
            Component::Table(c) => c.emit(ctx),
            Component::Markdown(c) => c.emit(ctx),
            Component::QrCode(c) => c.emit(ctx),
            Component::Pdf417(c) => c.emit(ctx),
            Component::Barcode(c) => c.emit(ctx),
            Component::Image(c) => c.emit(ctx),
            Component::NvLogo(c) => c.emit(ctx),
            Component::Pattern(_) | Component::Chart(_) | Component::Canvas(_) => {},
        }
    }

    /// The component's display label.
    pub fn label(&self) -> (l: &'static str)
        ensures
            l@ == type_labels()[kind_index(*self)],
    {
        match self {
            Component::Text(_) => Text::label(),
            Component::Header(_) => Header::label(),
            Component::Banner(_) => Banner::label(),
            Component::LineItem(_) => LineItem::label(),
            Component::Total(_) => Total::label(),
            Component::Divider(_) => Divider::label(),
            Component::Spacer(_) => Spacer::label(),
            Component::BlankLine(_) => BlankLine::label(),
            Component::Columns(_) => Columns::label(),
            Component::Table(_) => Table::label(),
            Component::Markdown(_) => Markdown::label(),
            Component::QrCode(_) => QrCode::label(),
            Component::Pdf417(_) => Pdf417::label(),
            Component::Barcode(_) => Barcode::label(),
            Component::Image(_) => Image::label(),
            Component::Pattern(_) => Pattern::label(),
            Component::NvLogo(_) => NvLogo::label(),
            Component::Chart(_) => Chart::label(),
            Component::Canvas(_) => Canvas::label(),
        }
    }

    /// The component's type tag, as used in documents (`"text"`, `"line_item"`, ...).
    pub fn type_tag(&self) -> (n: &'static str)
        ensures
            n@ == type_names()[kind_index(*self)],
    {
        match self {
            Component::Text(_) => "text",
            Component::Header(_) => "header",
            Component::Banner(_) => "banner",
            Component::LineItem(_) => "line_item",
            Component::Total(_) => "total",
            Component::Divider(_) => "divider",
            Component::Spacer(_) => "spacer",
            Component::BlankLine(_) => "blank_line",
            Component::Columns(_) => "columns",
            Component::Table(_) => "table",
            Component::Markdown(_) => "markdown",
            Component::QrCode(_) => "qr_code",
            Component::Pdf417(_) => "pdf417",
            Component::Barcode(_) => "barcode",
            Component::Image(_) => "image",
            Component::Pattern(_) => "pattern",
            Component::NvLogo(_) => "nv_logo",
            Component::Chart(_) => "chart",
            Component::Canvas(_) => "canvas",
        }
    }

    /// The editor default of every component kind, in declaration order.
    pub fn all_editor_defaults() -> (v: Vec<Component>)
        ensures
            v@.len() == type_names().len(),
            forall|i: int| 0 <= i < v@.len() ==> kind_index(#[trigger] v@[i]) == i && is_default_component(v@[i]),
    {
        let v = vec![
            Component::Text(Text::editor_default()),
            Component::Header(Header::editor_default()),
            Component::Banner(Banner::editor_default()),
            Component::LineItem(LineItem::editor_default()),
            Component::Total(Total::editor_default()),
            Component::Divider(Divider::editor_default()),
            Component::Spacer(Spacer::editor_default()),
            Component::BlankLine(BlankLine::editor_default()),
            Component::Columns(Columns::editor_default()),
            Component::Table(Table::editor_default()),
            Component::Markdown(Markdown::editor_default()),
            Component::QrCode(QrCode::editor_default()),
            Component::Pdf417(Pdf417::editor_default()),
            Component::Barcode(Barcode::editor_default()),
            Component::Image(Image::editor_default()),
            Component::Pattern(Pattern::editor_default()),
            Component::NvLogo(NvLogo::editor_default()),
            Component::Chart(Chart::editor_default()),
            Component::Canvas(Canvas::editor_default()),
        ];
        v
    }
}

/// The tag and label of every component kind, in declaration order.
pub fn component_types() -> (v: Vec<ComponentTypeMeta>)
    ensures
        v@.len() == type_names().len(),
        forall|i: int| 0 <= i < v@.len() ==> (#[trigger] v@[i]).type_tag@ == type_names()[i] && v@[i].label@ == type_labels()[i],
{
    let defaults = Component::all_editor_defaults();
    let mut v: Vec<ComponentTypeMeta> = Vec::new();
    let mut i: usize = 0;
    while i < defaults.len()
        invariant
            i <= defaults@.len(),
            defaults@.len() == type_names().len(),
            forall|j: int| 0 <= j < defaults@.len() ==> kind_index(#[trigger] defaults@[j]) == j,
            v@.len() == i,
            forall|j: int| 0 <= j < i ==> (#[trigger] v@[j]).type_tag@ == type_names()[j] && v@[j].label@ == type_labels()[j],
        decreases defaults@.len() - i,
    {
        let c = &defaults[i];
        v.push(ComponentTypeMeta { type_tag: owned(c.type_tag()), label: owned(c.label()) });
        i = i + 1;
    }
    v
}

/// The editor default of the component kind with this type tag; `None` for
/// an unknown tag.
pub fn default_component(type_tag: &str) -> (c: Option<Component>)
    ensures
        match c {
            Some(c) => type_names()[kind_index(c)] == type_tag@ && is_default_component(c),
            None => forall|i: int| 0 <= i < type_names().len() ==> type_names()[i] != type_tag@,
        },
{
    let mut defaults = Component::all_editor_defaults();
    let mut i: usize = 0;
    while i < defaults.len()
        invariant
            i <= defaults@.len(),
            defaults@.len() == type_names().len(),
            forall|j: int| 0 <= j < defaults@.len() ==> kind_index(#[trigger] defaults@[j]) == j && is_default_component(defaults@[j]),
            forall|j: int| 0 <= j < i ==> type_names()[j] != type_tag@,
        decreases defaults@.len() - i,
    {
        if str_eq(defaults[i].type_tag(), type_tag) {
            return Some(defaults.remove(i));
        }
        i = i + 1;
    }
    None
}

} // verus!
