//! The document model: a list of components with options, compiled to a program.

pub mod banner;
pub mod canvas;
pub mod component;
pub mod cuts;
pub mod styles;
pub mod barcode;
pub mod graphics;
pub mod layout;
pub mod markdown;
pub mod table;
pub mod text;
pub mod types;

pub use types::{
    Banner, Barcode, BlankLine, BorderStyle, Canvas, CanvasElement, Chart, ChartStyle, ColumnAlign, Columns, ComponentMeta,
    Divider, DividerStyle, Header, Image, LineItem, Markdown, NvLogo, Pattern, Pdf417, Position, QrCode, ResolvedImage,
    Spacer, Table, Text, Total,
};

use crate::document::component::{component_interpolated, component_ops, Component};
use crate::ir::{extend_ops, op_if, ops_view, push_op, Op, OpV, Program};
use crate::text::{ascii_text, str_eq};
use vstd::prelude::*;

verus! {

/// The ops buffer being built and the target print width in dots.
pub struct EmitContext {
    pub ops: Vec<Op>,
    pub print_width: usize,
}

impl EmitContext {
    /// An empty buffer for the given print width.
    pub fn new(print_width: usize) -> (c: EmitContext)
        ensures
            c.ops@.len() == 0,
            c.print_width == print_width,
    {
        EmitContext { ops: Vec::new(), print_width }
    }

    /// Append one op.
    pub fn push(&mut self, op: Op)
        ensures
            ops_view(final(self).ops@) == ops_view(old(self).ops@).push(op@),
            final(self).print_width == old(self).print_width,
    {
        push_op(&mut self.ops, op);
    }

    /// Append copies of several ops.
    pub fn extend(&mut self, ops: &Vec<Op>)
        ensures
            ops_view(final(self).ops@) == ops_view(old(self).ops@) + ops_view(ops@),
            final(self).print_width == old(self).print_width,
    {
        extend_ops(&mut self.ops, ops);
    }

    /// Characters per line in Font A (12 dots per character).
    pub fn chars_per_line(&self) -> (n: usize)
        ensures
            n == self.print_width / 12,
    {
        self.print_width / 12
    }

    /// Characters per line in Font B (9 dots per character).
    pub fn chars_per_line_b(&self) -> (n: usize)
        ensures
            n == self.print_width / 9,
    {
        self.print_width / 9
    }
}

/// Whether some variable of the list has the name `k`.
pub open spec fn has_key(vars: Seq<(String, String)>, k: Seq<char>) -> bool {
    exists|i: int| 0 <= i < vars.len() && (#[trigger] vars[i]).0@ == k
}

/// The first `k` built-in variables, less those the user's variables override.
pub open spec fn kept_builtins(builtins: Seq<(String, String)>, user: Seq<(String, String)>, k: nat) -> Seq<(String, String)>
    decreases k,
{
    if k == 0 {
        Seq::empty()
    } else {
        kept_builtins(builtins, user, (k - 1) as nat) + if has_key(user, builtins[k - 1].0@) {
            Seq::empty()
        } else {
            seq![builtins[k - 1]]
        }
    }
}

/// The variables a document is interpolated with: the built-ins the user
/// does not override, then the user's own.
pub open spec fn merged_variables(builtins: Seq<(String, String)>, user: Seq<(String, String)>) -> Seq<(String, String)> {
    kept_builtins(builtins, user, builtins.len()) + user
}

proof fn lemma_kept_builtins(builtins: Seq<(String, String)>, user: Seq<(String, String)>, k: nat)
    requires
        k <= builtins.len(),
    ensures
        forall|i: int| 0 <= i < kept_builtins(builtins, user, k).len() ==> {
            &&& !has_key(user, (#[trigger] kept_builtins(builtins, user, k)[i]).0@)
            &&& builtins.subrange(0, k as int).contains(kept_builtins(builtins, user, k)[i])
        },
        forall|j: int| 0 <= j < k && !has_key(user, (#[trigger] builtins[j]).0@) ==> kept_builtins(builtins, user, k).contains(
            builtins[j],
        ),
    decreases k,
{
    if k > 0 {
        let p = (k - 1) as nat;
        lemma_kept_builtins(builtins, user, p);
        let prev = kept_builtins(builtins, user, p);
        let cur = kept_builtins(builtins, user, k);
        assert forall|i: int| 0 <= i < cur.len() implies {
            &&& !has_key(user, (#[trigger] cur[i]).0@)
            &&& builtins.subrange(0, k as int).contains(cur[i])
        } by {
            if i < prev.len() {
                assert(cur[i] == prev[i]);
                let w = choose|w: int| 0 <= w < p && builtins.subrange(0, p as int)[w] == prev[i];
                assert(builtins.subrange(0, k as int)[w] == prev[i]);
            } else {
                assert(cur[i] == builtins[p as int]);
                assert(builtins.subrange(0, k as int)[p as int] == builtins[p as int]);
            }
        }
        assert forall|j: int| 0 <= j < k && !has_key(user, (#[trigger] builtins[j]).0@) implies cur.contains(builtins[j]) by {
            if j < p {
                let w = choose|w: int| 0 <= w < prev.len() && prev[w] == builtins[j];
                assert(cur[w] == prev[w]);
            } else {
                assert(cur[prev.len() as int] == builtins[j]);
            }
        }
    }
}

/// No two variables share a name (as in a map from names to values).
pub open spec fn distinct_names(vars: Seq<(String, String)>) -> bool {
    forall|i: int, j: int| 0 <= i < j < vars.len() ==> (#[trigger] vars[i]).0@ != (#[trigger] vars[j]).0@
}

/// A variable of the user's overrides the built-in of the same name, and
/// every other built-in stays: the merged list is the built-ins whose names
/// the user does not use, in their order, then the user's variables.
pub proof fn lemma_user_variables_override(builtins: Seq<(String, String)>, user: Seq<(String, String)>)
    ensures
        ({
            let merged = merged_variables(builtins, user);
            let kept = kept_builtins(builtins, user, builtins.len());
            &&& merged == kept + user
            &&& forall|i: int| 0 <= i < kept.len() ==> !has_key(user, (#[trigger] kept[i]).0@) && builtins.contains(kept[i])
            &&& forall|j: int| 0 <= j < builtins.len() && !has_key(user, (#[trigger] builtins[j]).0@) ==> kept.contains(builtins[j])
        }),
{
    lemma_kept_builtins(builtins, user, builtins.len());
    assert(builtins.subrange(0, builtins.len() as int) =~= builtins);
}

/// The names of the built-in date and time variables, in the order they are made.
pub open spec fn builtin_names() -> Seq<Seq<char>> {
    seq!["date"@, "date_short"@, "day"@, "time"@, "time_12h"@, "datetime"@, "year"@, "iso_date"@]
}

/// The `strftime` patterns of the built-in variables, in the same order.
pub open spec fn builtin_formats() -> Seq<Seq<char>> {
    seq!["%B %-d, %Y"@, "%b %-d"@, "%A"@, "%H:%M"@, "%-I:%M %p"@, "%a, %b %-d %H:%M"@, "%Y"@, "%Y-%m-%d"@]
}

/// The ops of the first `k` components, one after the other.
pub open spec fn components_ops(comps: Seq<Component>, print_width: usize, k: nat) -> Seq<OpV>
    decreases k,
{
    if k == 0 {
        Seq::empty()
    } else {
        components_ops(comps, print_width, (k - 1) as nat) + component_ops(comps[k - 1], print_width)
    }
}

/// Whether every component can be emitted.
pub open spec fn all_ready(comps: Seq<Component>, print_width: usize) -> bool {
    forall|i: int| 0 <= i < comps.len() ==> (#[trigger] comps[i]).ready(print_width)
}

/// `after` is `before` with every component interpolated.
pub open spec fn all_components_interpolated(before: Seq<Component>, after: Seq<Component>, vars: Seq<(String, String)>) -> bool {
    &&& after.len() == before.len()
    &&& forall|i: int| 0 <= i < before.len() ==> component_interpolated(#[trigger] before[i], after[i], vars)
}

/// A document's program for already interpolated components: printer
/// reset, code page 1, the components' ops, and a partial cut when asked for.
pub open spec fn program_ops(comps: Seq<Component>, print_width: usize, cut: bool) -> Seq<OpV> {
    seq![OpV::Init, OpV::SetCodepage(1)] + components_ops(comps, print_width, comps.len()) + op_if(
        cut,
        OpV::Cut { partial: true },
    )
}

/// A document program starts with a printer reset and code page 1 and,
/// when the document cuts, ends with a partial cut; the components' ops come
/// in between, in order.
pub proof fn lemma_program_frame(comps: Seq<Component>, print_width: usize, cut: bool)
    ensures
        ({
            let p = program_ops(comps, print_width, cut);
            let body = components_ops(comps, print_width, comps.len());
            &&& p[0] == OpV::Init && p[1] == OpV::SetCodepage(1)
            &&& p.len() == 2 + body.len() + if cut { 1int } else { 0int }
            &&& p.subrange(2, 2 + body.len() as int) == body
            &&& cut ==> p.last() == OpV::Cut { partial: true }
        }),
{
    let p = program_ops(comps, print_width, cut);
    let body = components_ops(comps, print_width, comps.len());
    assert(p.subrange(2, 2 + body.len() as int) =~= body);
}

/// A printable document: components and options.
pub struct Document {
    /// The components, in print order.
    pub document: Vec<Component>,
    /// Cut the paper after printing.
    pub cut: bool,
    /// Variables for `{{name}}` interpolation, applied in order; no two share
    /// a name (`distinct_names`, which compiling requires).
    pub variables: Vec<(String, String)>,
    /// Interpolate `{{variables}}` in text content.
    pub interpolate: bool,
    /// Print the whole document as one raster image.
    pub raster: bool,
    /// Print width in dots (default 576).
    pub width: Option<usize>,
}

impl Default for Document {
    fn default() -> (d: Document)
        ensures
            d.document@.len() == 0 && d.cut && d.variables@.len() == 0 && d.interpolate && !d.raster && d.width is None,
    {
        Document { document: Vec::new(), cut: true, variables: Vec::new(), interpolate: true, raster: false, width: None }
    }
}

/// The local time formatted with each pattern, the clock read once
/// (`chrono::Local::now`, then `DateTime::format` and `to_string` per
/// pattern). The values depend on the time and the machine's time zone, so
/// only what holds of every outcome is stated: one string per pattern, each
/// ASCII (digits, signs, the English month and day names and AM/PM that
/// chrono writes without locales, and the patterns' own punctuation) and at
/// most 32 characters long.
#[verifier::external_body]
fn local_time_strings(formats: &Vec<&'static str>) -> (r: Vec<String>)
    requires
        formats@.len() == builtin_formats().len(),
        forall|i: int| 0 <= i < formats@.len() ==> #[trigger] formats@[i]@ == builtin_formats()[i],
    ensures
        r@.len() == formats@.len(),
        forall|i: int| 0 <= i < r@.len() ==> ascii_text(#[trigger] r@[i]@) && r@[i]@.len() <= 32,
{
    let now = chrono::Local::now();
    formats.iter().map(|f| now.format(f).to_string()).collect()
}

/// The built-in date and time variables (`date`, `date_short`, `day`,
/// `time`, `time_12h`, `datetime`, `year`, `iso_date`) for the current
/// local time.
pub fn builtin_variables() -> (v: Vec<(String, String)>)
    ensures
        v@.len() == builtin_names().len(),
        forall|i: int| 0 <= i < v@.len() ==> (#[trigger] v@[i]).0@ == builtin_names()[i],
        forall|i: int| 0 <= i < v@.len() ==> ascii_text((#[trigger] v@[i]).1@) && v@[i].1@.len() <= 32,
{
    let formats: Vec<&'static str> = vec!["%B %-d, %Y", "%b %-d", "%A", "%H:%M", "%-I:%M %p", "%a, %b %-d %H:%M", "%Y", "%Y-%m-%d"];
    let names: Vec<&'static str> = vec!["date", "date_short", "day", "time", "time_12h", "datetime", "year", "iso_date"];
    proof {
        reveal_strlit("%B %-d, %Y");
        reveal_strlit("%b %-d");
        reveal_strlit("%A");
        reveal_strlit("%H:%M");
        reveal_strlit("%-I:%M %p");
        reveal_strlit("%a, %b %-d %H:%M");
        reveal_strlit("%Y");
        reveal_strlit("%Y-%m-%d");
        reveal_strlit("date");
        reveal_strlit("date_short");
        reveal_strlit("day");
        reveal_strlit("time");
        reveal_strlit("time_12h");
        reveal_strlit("datetime");
        reveal_strlit("year");
        reveal_strlit("iso_date");
        assert(formats@[0]@ == builtin_formats()[0]);
    }
    let values = local_time_strings(&formats);
    let mut v: Vec<(String, String)> = Vec::new();
    let mut i: usize = 0;
    while i < names.len()
        invariant
            i <= names@.len(),
            names@.len() == builtin_names().len(),
            values@.len() == names@.len(),
            forall|j: int| 0 <= j < names@.len() ==> #[trigger] names@[j]@ == builtin_names()[j],
            forall|j: int| 0 <= j < values@.len() ==> ascii_text(#[trigger] values@[j]@) && values@[j]@.len() <= 32,
            v@.len() == i,
            forall|j: int| 0 <= j < i ==> (#[trigger] v@[j]).0@ == builtin_names()[j],
            forall|j: int| 0 <= j < i ==> ascii_text((#[trigger] v@[j]).1@) && v@[j].1@.len() <= 32,
        decreases names@.len() - i,
    {
        v.push((crate::text::owned(names[i]), values[i].clone()));
        i = i + 1;
    }
    v
}

fn key_present(vars: &Vec<(String, String)>, k: &String) -> (b: bool)
    ensures
        b == has_key(vars@, k@),
{
    let mut i: usize = 0;
    while i < vars.len()
        invariant
            i <= vars@.len(),
            forall|j: int| 0 <= j < i ==> (#[trigger] vars@[j]).0@ != k@,
        decreases vars@.len() - i,
    {
        if str_eq(vars[i].0.as_str(), k.as_str()) {
            return true;
        }
        i = i + 1;
    }
    false
}

/// The built-in variables the user does not override, then the user's.
pub fn merge_variables(builtins: &Vec<(String, String)>, user: &Vec<(String, String)>) -> (v: Vec<(String, String)>)
    ensures
        v@ == merged_variables(builtins@, user@),
{
    let mut v: Vec<(String, String)> = Vec::new();
    let mut i: usize = 0;
    while i < builtins.len()
        invariant
            i <= builtins@.len(),
            v@ == kept_builtins(builtins@, user@, i as nat),
        decreases builtins@.len() - i,
    {
        if !key_present(user, &builtins[i].0) {
            v.push((builtins[i].0.clone(), builtins[i].1.clone()));
        }
        i = i + 1;
        assert(v@ =~= kept_builtins(builtins@, user@, i as nat));
    }
    let mut j: usize = 0;
    while j < user.len()
        invariant
            j <= user@.len(),
            v@ == kept_builtins(builtins@, user@, builtins@.len()) + user@.subrange(0, j as int),
        decreases user@.len() - j,
    {
        v.push((user[j].0.clone(), user[j].1.clone()));
        j = j + 1;
        assert(v@ =~= kept_builtins(builtins@, user@, builtins@.len()) + user@.subrange(0, j as int));
    }
    assert(user@.subrange(0, user@.len() as int) =~= user@);
    v
}

impl Document {
    /// An empty document that cuts and interpolates.
    pub fn new() -> (d: Document)
        ensures
            d.document@.len() == 0 && d.cut && d.variables@.len() == 0 && d.interpolate && !d.raster && d.width is None,
    {
        Document::default()
    }

    /// Append a component.
    pub fn push(&mut self, component: Component)
        ensures
            final(self).document@ == old(self).document@.push(component),
            final(self).cut == old(self).cut && final(self).interpolate == old(self).interpolate,
            final(self).raster == old(self).raster && final(self).width == old(self).width,
            final(self).variables == old(self).variables,
    {
        self.document.push(component);
    }

    /// The print width in dots: the document's, else 576.
    pub open spec fn print_width(self) -> usize {
        match self.width {
            Some(w) => w,
            None => 576,
        }
    }

    /// The variables the document is interpolated with, given the built-ins:
    /// none when interpolation is off.
    pub open spec fn variables_with(self, builtins: Seq<(String, String)>) -> Seq<(String, String)> {
        if self.interpolate {
            merged_variables(builtins, self.variables@)
        } else {
            Seq::empty()
        }
    }

    /// The program of these components, already interpolated and ready.
    pub fn emit_program(comps: &Vec<Component>, print_width: usize, cut: bool) -> (p: Program)
        requires
            all_ready(comps@, print_width),
        ensures
            ops_view(p.ops@) == program_ops(comps@, print_width, cut),
    {
        let mut ctx = EmitContext::new(print_width);
        ctx.push(Op::Init);
        ctx.push(Op::SetCodepage(1));
        let mut i: usize = 0;
        while i < comps.len()
            invariant
                i <= comps@.len(),
                ctx.print_width == print_width,
                all_ready(comps@, print_width),
                ops_view(ctx.ops@) == seq![OpV::Init, OpV::SetCodepage(1)] + components_ops(comps@, print_width, i as nat),
            decreases comps@.len() - i,
        {
            assert(comps@[i as int].ready(print_width));
            comps[i].emit(&mut ctx);
            i = i + 1;
            assert(ops_view(ctx.ops@) =~= seq![OpV::Init, OpV::SetCodepage(1)] + components_ops(comps@, print_width, i as nat));
        }
        if cut {
            ctx.push(Op::Cut { partial: true });
        }
        assert(ops_view(ctx.ops@) =~= program_ops(comps@, print_width, cut));
        Program { ops: ctx.ops }
    }

    /// Compile with the given built-in variables: interpolate (when enabled),
    /// then emit. `None` when an interpolated component cannot be emitted (a
    /// name, cell or banner that cannot be cut on a character boundary; text
    /// in a custom font; a pattern, chart or canvas, which print as rasters
    /// that this library does not render). No optimizer runs: the program is
    /// the components' ops as emitted, and emoji in text print as the text's
    /// characters.
    pub fn compile_with(&self, builtins: &Vec<(String, String)>) -> (r: Option<Program>)
        requires
            distinct_names(self.variables@),
        ensures
            match r {
                Some(p) => exists|cs: Seq<Component>|
                    all_components_interpolated(self.document@, cs, self.variables_with(builtins@))
                        && all_ready(cs, self.print_width())
                        && ops_view(p.ops@) == program_ops(cs, self.print_width(), self.cut),
                None => exists|cs: Seq<Component>|
                    all_components_interpolated(self.document@, cs, self.variables_with(builtins@))
                        && !all_ready(cs, self.print_width()),
            },
    {
        let vars = if self.interpolate { merge_variables(builtins, &self.variables) } else { Vec::new() };
        let print_width = match self.width {
            Some(w) => w,
            None => 576,
        };
        let mut comps: Vec<Component> = Vec::new();
        let mut i: usize = 0;
        while i < self.document.len()
            invariant
                i <= self.document@.len(),
                vars@ == self.variables_with(builtins@),
                comps@.len() == i,
                forall|j: int| 0 <= j < i ==> component_interpolated(#[trigger] self.document@[j], comps@[j], vars@),
            decreases self.document@.len() - i,
        {
            comps.push(self.document[i].interpolated(&vars));
            i = i + 1;
        }
        let mut k: usize = 0;
        while k < comps.len()
            invariant
                k <= comps@.len(),
                print_width == self.print_width(),
                comps@.len() == self.document@.len(),
                vars@ == self.variables_with(builtins@),
                forall|j: int| 0 <= j < comps@.len() ==> component_interpolated(#[trigger] self.document@[j], comps@[j], vars@),
                forall|j: int| 0 <= j < k ==> (#[trigger] comps@[j]).ready(print_width),
            decreases comps@.len() - k,
        {
            if !comps[k].is_ready(print_width) {
                assert(all_components_interpolated(self.document@, comps@, self.variables_with(builtins@)));
                assert(!all_ready(comps@, self.print_width()));
                return None;
            }
            k = k + 1;
        }
        assert(all_components_interpolated(self.document@, comps@, self.variables_with(builtins@)));
        Some(Document::emit_program(&comps, print_width, self.cut))
    }

    /// Compile the document: interpolate the built-in date and time variables
    /// of the current local time and the document's own (when enabled), emit
    /// every component between a printer reset and the optional cut. `None`
    /// when an interpolated component cannot be emitted (see `compile_with`;
    /// no optimizer runs, and emoji print as characters).
    pub fn compile(&self) -> (r: Option<Program>)
        requires
            distinct_names(self.variables@),
        ensures
            match r {
                Some(p) => exists|b: Seq<(String, String)>, cs: Seq<Component>|
                    b.len() == builtin_names().len()
                        && (forall|i: int| 0 <= i < b.len() ==> (#[trigger] b[i]).0@ == builtin_names()[i])
                        && (forall|i: int| 0 <= i < b.len() ==> ascii_text((#[trigger] b[i]).1@) && b[i].1@.len() <= 32)
                        && all_components_interpolated(self.document@, cs, self.variables_with(b))
                        && all_ready(cs, self.print_width())
                        && ops_view(p.ops@) == program_ops(cs, self.print_width(), self.cut),
                None => exists|b: Seq<(String, String)>, cs: Seq<Component>|
                    b.len() == builtin_names().len()
                        && (forall|i: int| 0 <= i < b.len() ==> (#[trigger] b[i]).0@ == builtin_names()[i])
                        && (forall|i: int| 0 <= i < b.len() ==> ascii_text((#[trigger] b[i]).1@) && b[i].1@.len() <= 32)
                        && all_components_interpolated(self.document@, cs, self.variables_with(b))
                        && !all_ready(cs, self.print_width()),
            },
    {
        let builtins = builtin_variables();
        self.compile_with(&builtins)
    }
}

/// The shorthand keys of a component object without a `"type"`, in the
/// order they are tried: the key, the type it stands for, and the field its
/// value moves to.
pub open spec fn shorthand_table() -> Seq<(Seq<char>, Seq<char>, Seq<char>)> {
    seq![
        ("text"@, "text"@, "content"@),
        ("banner"@, "banner"@, "content"@),
        ("line_item"@, "line_item"@, "name"@),
        ("total"@, "total"@, "amount"@),
        ("divider"@, "divider"@, "style"@),
        ("spacer_mm"@, "spacer"@, "mm"@),
        ("image"@, "image"@, "url"@),
        ("qr_code"@, "qr_code"@, "data"@),
        ("markdown"@, "markdown"@, "content"@),
        ("canvas"@, "canvas"@, "elements"@),
    ]
}

/// How a shorthand object is rewritten: `key` is replaced by `"type": type_tag`
/// and `field: value`.
#[derive(Debug, Clone, Copy, PartialEq, Eq)]
pub struct Shorthand {
    pub key: &'static str,
    pub type_tag: &'static str,
    pub field: &'static str,
}

/// Whether `k` is one of the keys.
pub open spec fn key_listed(keys: Seq<String>, k: Seq<char>) -> bool {
    exists|i: int| 0 <= i < keys.len() && (#[trigger] keys[i])@ == k
}

fn listed(keys: &Vec<String>, k: &str) -> (b: bool)
    ensures
        b == key_listed(keys@, k@),
{
    let mut i: usize = 0;
    while i < keys.len()
        invariant
            i <= keys@.len(),
            forall|j: int| 0 <= j < i ==> (#[trigger] keys@[j])@ != k@,
        decreases keys@.len() - i,
    {
        if str_eq(keys[i].as_str(), k) {
            return true;
        }
        i = i + 1;
    }
    false
}

/// The shorthand keys, in the order they are tried.
pub fn shorthand_entries() -> (v: Vec<(&'static str, &'static str, &'static str)>)
    ensures
        v@.len() == shorthand_table().len(),
        forall|i: int| 0 <= i < v@.len() ==> {
            let (k, t, f) = #[trigger] v@[i];
            (k@, t@, f@) == shorthand_table()[i]
        },
{
    proof {
        reveal_strlit("amount");
        reveal_strlit("banner");
        reveal_strlit("canvas");
        reveal_strlit("content");
        reveal_strlit("data");
        reveal_strlit("divider");
        reveal_strlit("elements");
        reveal_strlit("image");
        reveal_strlit("line_item");
        reveal_strlit("markdown");
        reveal_strlit("mm");
        reveal_strlit("name");
        reveal_strlit("qr_code");
        reveal_strlit("spacer");
        reveal_strlit("spacer_mm");
        reveal_strlit("style");
        reveal_strlit("text");
        reveal_strlit("total");
        reveal_strlit("url");
    }
    let v = vec![
        ("text", "text", "content"),
        ("banner", "banner", "content"),
        ("line_item", "line_item", "name"),
        ("total", "total", "amount"),
        ("divider", "divider", "style"),
        ("spacer_mm", "spacer", "mm"),
        ("image", "image", "url"),
        ("qr_code", "qr_code", "data"),
        ("markdown", "markdown", "content"),
        ("canvas", "canvas", "elements"),
    ];
    assert(forall|i: int| 0 <= i < v@.len() ==> {
        let (k, t, f) = #[trigger] v@[i];
        (k@, t@, f@) == shorthand_table()[i]
    });
    v
}

/// The first shorthand, in table order, whose key is among the keys of a
/// component object; `None` when no key is a shorthand.
pub fn find_shorthand(keys: &Vec<String>) -> (r: Option<Shorthand>)
    ensures
        match r {
            Some(s) => exists|i: int|
                0 <= i < shorthand_table().len() && shorthand_table()[i] == (s.key@, s.type_tag@, s.field@)
                    && key_listed(keys@, shorthand_table()[i].0)
                    && forall|j: int| 0 <= j < i ==> !key_listed(keys@, #[trigger] shorthand_table()[j].0),
            None => forall|i: int| 0 <= i < shorthand_table().len() ==> !key_listed(keys@, #[trigger] shorthand_table()[i].0),
        },
{
    let entries = shorthand_entries();
    let mut i: usize = 0;
    while i < entries.len()
        invariant
            i <= entries@.len(),
            entries@.len() == shorthand_table().len(),
            forall|j: int| 0 <= j < entries@.len() ==> {
                let (k, t, f) = #[trigger] entries@[j];
                (k@, t@, f@) == shorthand_table()[j]
            },
            forall|j: int| 0 <= j < i ==> !key_listed(keys@, #[trigger] shorthand_table()[j].0),
        decreases entries@.len() - i,
    {
        let (k, t, f) = entries[i];
        assert((k@, t@, f@) == shorthand_table()[i as int]);
        if listed(keys, k) {
            return Some(Shorthand { key: k, type_tag: t, field: f });
        }
        i = i + 1;
    }
    None
}

} // verus!
