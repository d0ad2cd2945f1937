//! Markdown rendering: the CommonMark parse of the text (by pulldown-cmark),
//! read as a sequence of plain events, and a verified state machine that
//! turns the events into printer operations.

use crate::ir::{op_if, ops_view, push_op, Alignment, Font, Op, OpV};
use crate::text::{push_char, push_str, rep, repeat_char};
use pulldown_cmark::{Event, Parser, Tag, TagEnd};
use vstd::prelude::*;

verus! {

/// The class of a parse event.
#[derive(Debug, Clone, Copy, PartialEq, Eq, Structural)]
pub enum EventKind {
    Start,
    End,
    Text,
    Code,
    SoftBreak,
    HardBreak,
    Rule,
    Other,
}

/// The kind of the tag that a `Start` or `End` event opens or closes.
#[derive(Debug, Clone, Copy, PartialEq, Eq, Structural)]
pub enum TagKind {
    Paragraph,
    Heading,
    Strong,
    Emphasis,
    Link,
    List,
    Item,
    CodeBlock,
    Other,
}

/// A parse event as plain values.
pub enum MdEvent {
    /// A tag opens; for headings the level (1-6), for links the destination,
    /// for lists the number of the first item of an ordered list.
    Start { kind: TagKind, level: u8, url: String, start: Option<u64> },
    End(TagKind),
    Text(String),
    Code(String),
    SoftBreak,
    HardBreak,
    Rule,
    Other,
}

/// The value of an [`MdEvent`].
pub enum MdEventV {
    Start { kind: TagKind, level: u8, url: Seq<char>, start: Option<u64> },
    End(TagKind),
    Text(Seq<char>),
    Code(Seq<char>),
    SoftBreak,
    HardBreak,
    Rule,
    Other,
}

impl View for MdEvent {
    type V = MdEventV;

    open spec fn view(&self) -> MdEventV {
        match self {
            MdEvent::Start { kind, level, url, start } => MdEventV::Start {
                kind: *kind,
                level: *level,
                url: url@,
                start: *start,
            },
            MdEvent::End(k) => MdEventV::End(*k),
            MdEvent::Text(s) => MdEventV::Text(s@),
            MdEvent::Code(s) => MdEventV::Code(s@),
            MdEvent::SoftBreak => MdEventV::SoftBreak,
            MdEvent::HardBreak => MdEventV::HardBreak,
            MdEvent::Rule => MdEventV::Rule,
            MdEvent::Other => MdEventV::Other,
        }
    }
}

/// Number of events in the CommonMark parse of `text`.
pub uninterp spec fn md_event_count(text: Seq<char>) -> nat;

/// Class of the `i`-th event of the parse of `text`.
pub uninterp spec fn md_event_kind(text: Seq<char>, i: int) -> EventKind;

/// Tag kind of the `i`-th event of the parse of `text` (for `Start` and `End`).
pub uninterp spec fn md_tag_kind(text: Seq<char>, i: int) -> TagKind;

/// Heading level (1-6) of the `i`-th event when it opens a heading.
pub uninterp spec fn md_heading_level(text: Seq<char>, i: int) -> u8;

/// Link destination of the `i`-th event when it opens a link.
pub uninterp spec fn md_link_url(text: Seq<char>, i: int) -> Seq<char>;

/// First item number of the `i`-th event when it opens a list.
pub uninterp spec fn md_list_start(text: Seq<char>, i: int) -> Option<u64>;

/// Text of the `i`-th event when it is a text or inline-code event.
pub uninterp spec fn md_event_text(text: Seq<char>, i: int) -> Seq<char>;

/// The `i`-th event of the parse of `text`, as a plain value.
pub open spec fn md_event(text: Seq<char>, i: int) -> MdEventV {
    match md_event_kind(text, i) {
        EventKind::Start => MdEventV::Start {
            kind: md_tag_kind(text, i),
            level: if md_tag_kind(text, i) == TagKind::Heading { md_heading_level(text, i) } else { 0 },
            url: if md_tag_kind(text, i) == TagKind::Link { md_link_url(text, i) } else { Seq::empty() },
            start: if md_tag_kind(text, i) == TagKind::List { md_list_start(text, i) } else { None },
        },
        EventKind::End => MdEventV::End(md_tag_kind(text, i)),
        EventKind::Text => MdEventV::Text(md_event_text(text, i)),
        EventKind::Code => MdEventV::Code(md_event_text(text, i)),
        EventKind::SoftBreak => MdEventV::SoftBreak,
        EventKind::HardBreak => MdEventV::HardBreak,
        EventKind::Rule => MdEventV::Rule,
        EventKind::Other => MdEventV::Other,
    }
}

/// The events of the CommonMark parse of `text`.
pub open spec fn markdown_events(text: Seq<char>) -> Seq<MdEventV> {
    Seq::new(md_event_count(text), |i: int| md_event(text, i))
}

/// Number of events that `pulldown_cmark::Parser::new(text)` yields.
#[verifier::external_body]
fn parse_count(text: &str) -> (n: usize)
    ensures
        n == md_event_count(text@),
{
    Parser::new(text).count()
}

/// Class of the `i`-th event that `pulldown_cmark::Parser::new(text)` yields.
#[verifier::external_body]
fn parse_kind(text: &str, i: usize) -> (k: EventKind)
    ensures
        k == md_event_kind(text@, i as int),
{
    match Parser::new(text).nth(i) {
        Some(Event::Start(_)) => EventKind::Start,
        Some(Event::End(_)) => EventKind::End,
        Some(Event::Text(_)) => EventKind::Text,
        Some(Event::Code(_)) => EventKind::Code,
        Some(Event::SoftBreak) => EventKind::SoftBreak,
        Some(Event::HardBreak) => EventKind::HardBreak,
        Some(Event::Rule) => EventKind::Rule,
        _ => EventKind::Other,
    }
}

/// Tag kind of the `i`-th event of `pulldown_cmark::Parser::new(text)`, via `Tag::to_end`.
#[verifier::external_body]
fn parse_tag_kind(text: &str, i: usize) -> (k: TagKind)
    ensures
        k == md_tag_kind(text@, i as int),
{
    let end = match Parser::new(text).nth(i) {
        Some(Event::Start(t)) => t.to_end(), Some(Event::End(t)) => t, _ => return TagKind::Other,
    };
    match end {
        TagEnd::Paragraph => TagKind::Paragraph,
        TagEnd::Heading(_) => TagKind::Heading,
        TagEnd::Strong => TagKind::Strong,
        TagEnd::Emphasis => TagKind::Emphasis,
        TagEnd::Link => TagKind::Link,
        TagEnd::List(_) => TagKind::List,
        TagEnd::Item => TagKind::Item,
        TagEnd::CodeBlock => TagKind::CodeBlock,
        _ => TagKind::Other,
    }
}

/// Level of the heading that the `i`-th event of `pulldown_cmark::Parser::new(text)` opens.
#[verifier::external_body]
fn parse_heading_level(text: &str, i: usize) -> (l: u8)
    ensures
        l == md_heading_level(text@, i as int),
        1 <= l <= 6,
{
    match Parser::new(text).nth(i) {
        Some(Event::Start(Tag::Heading { level, .. })) => level as u8,
        _ => 1,
    }
}

/// Destination of the link that the `i`-th event of `pulldown_cmark::Parser::new(text)` opens.
#[verifier::external_body]
fn parse_link_url(text: &str, i: usize) -> (u: String)
    ensures
        u@ == md_link_url(text@, i as int),
{
    match Parser::new(text).nth(i) {
        Some(Event::Start(Tag::Link { dest_url, .. })) => dest_url.to_string(),
        _ => String::new(),
    }
}

/// First item number of the list that the `i`-th event of `pulldown_cmark::Parser::new(text)` opens.
#[verifier::external_body]
fn parse_list_start(text: &str, i: usize) -> (s: Option<u64>)
    ensures
        s == md_list_start(text@, i as int),
{
    match Parser::new(text).nth(i) {
        Some(Event::Start(Tag::List(start))) => start,
        _ => None,
    }
}

/// Text of the `i`-th event of `pulldown_cmark::Parser::new(text)` when it is text or code.
#[verifier::external_body]
fn parse_event_text(text: &str, i: usize) -> (s: String)
    ensures
        s@ == md_event_text(text@, i as int),
{
    match Parser::new(text).nth(i) {
        Some(Event::Text(s)) | Some(Event::Code(s)) => s.to_string(),
        _ => String::new(),
    }
}

/// The events of the CommonMark parse of `text`.
pub fn parse_markdown(text: &str) -> (events: Vec<MdEvent>)
    ensures
        events@.map_values(|e: MdEvent| e@) == markdown_events(text@),
{
    let n = parse_count(text);
    let mut events: Vec<MdEvent> = Vec::new();
    let mut i: usize = 0;
    while i < n
        invariant
            i <= n,
            n == md_event_count(text@),
            events@.map_values(|e: MdEvent| e@) == markdown_events(text@).subrange(0, i as int),
        decreases n - i,
    {
        let kind = parse_kind(text, i);
        let ev = match kind {
            EventKind::Start => {
                let tk = parse_tag_kind(text, i);
                let level = if tk == TagKind::Heading { parse_heading_level(text, i) } else { 0 };
                let url = if tk == TagKind::Link { parse_link_url(text, i) } else { String::new() };
                let start = if tk == TagKind::List { parse_list_start(text, i) } else { None };
                MdEvent::Start { kind: tk, level, url, start }
            },
            EventKind::End => MdEvent::End(parse_tag_kind(text, i)),
            EventKind::Text => MdEvent::Text(parse_event_text(text, i)),
            EventKind::Code => MdEvent::Code(parse_event_text(text, i)),
            EventKind::SoftBreak => MdEvent::SoftBreak,
            EventKind::HardBreak => MdEvent::HardBreak,
            EventKind::Rule => MdEvent::Rule,
            EventKind::Other => MdEvent::Other,
        };
        assert(ev@ == md_event(text@, i as int));
        let ghost prev = events@;
        let ghost v = ev@;
        events.push(ev);
        assert(events@ == prev.push(ev));
        assert(events@.map_values(|e: MdEvent| e@) =~= prev.map_values(|e: MdEvent| e@).push(v));
        assert(markdown_events(text@).subrange(0, i + 1) =~= markdown_events(text@).subrange(0, i as int).push(v));
        i = i + 1;
    }
    assert(markdown_events(text@).subrange(0, n as int) =~= markdown_events(text@));
    events
}

/// Which markdown rendering: the component one (`full == false`) or the
/// document one (`full == true`, with sized H3/H4, small-font H6 and spacing
/// after every heading level), and the width of horizontal rules.
pub struct MdStyle {
    pub full: bool,
    pub rule_width: usize,
}

/// The renderer's state between events.
pub struct MdStateV {
    pub show_urls: bool,
    pub list_depth: usize,
    /// Next item number of each open ordered list, innermost last.
    pub counters: Seq<usize>,
    pub pending_url: Option<Seq<char>>,
    pub pending_prefix: Option<Seq<char>>,
    pub heading: Option<u8>,
    pub just_heading: bool,
}

/// The state before the first event.
pub open spec fn md_initial(show_urls: bool) -> MdStateV {
    MdStateV {
        show_urls,
        list_depth: 0,
        counters: Seq::empty(),
        pending_url: None,
        pending_prefix: None,
        heading: None,
        just_heading: false,
    }
}

/// `c + 1`, wrapping to 0 past `usize::MAX`.
pub open spec fn wrap_inc(c: usize) -> usize {
    if c == usize::MAX { 0 } else { (c + 1) as usize }
}

/// The digit character of `d < 10`.
pub open spec fn digit(d: nat) -> char {
    (48 + d) as char
}

/// Decimal notation of `n`.
pub open spec fn decimal(n: nat) -> Seq<char>
    decreases n,
{
    if n < 10 {
        seq![digit(n)]
    } else {
        decimal(n / 10).push(digit(n % 10))
    }
}

/// Ops that open a heading of the given level.
pub open spec fn heading_start_ops(full: bool, level: u8) -> Seq<OpV> {
    if level == 1 {
        seq![OpV::SetAlign(Alignment::Center), OpV::SetBold(true), OpV::SetSize { height: 3, width: 3 }, OpV::SetSmoothing(true)]
    } else if level == 2 {
        seq![OpV::SetAlign(Alignment::Center), OpV::SetBold(true), OpV::SetSize { height: 2, width: 2 }, OpV::SetSmoothing(true)]
    } else if !full {
        seq![OpV::SetBold(true)]
    } else if level == 3 {
        seq![OpV::SetBold(true), OpV::SetSize { height: 1, width: 1 }, OpV::SetSmoothing(true)]
    } else if level == 4 {
        seq![OpV::SetBold(true), OpV::SetExpandedHeight(1), OpV::SetSmoothing(true)]
    } else if level == 5 {
        seq![OpV::SetBold(true)]
    } else {
        seq![OpV::SetFont(Font::B), OpV::SetBold(true)]
    }
}

/// Ops that close the heading opened at the given level.
pub open spec fn heading_end_ops(full: bool, heading: Option<u8>) -> Seq<OpV> {
    if heading == Some(1u8) || heading == Some(2u8) {
        seq![
            OpV::Newline,
            OpV::SetSize { height: 0, width: 0 },
            OpV::SetBold(false),
            OpV::SetSmoothing(false),
            OpV::SetAlign(Alignment::Left),
            OpV::Feed { units: if heading == Some(1u8) { 12 } else { 6 } },
        ]
    } else if !full {
        if heading == Some(3u8) {
            seq![OpV::Newline, OpV::SetBold(false), OpV::Feed { units: 4 }]
        } else {
            seq![OpV::Newline, OpV::SetBold(false)]
        }
    } else if heading == Some(3u8) {
        seq![
            OpV::Newline,
            OpV::SetSize { height: 0, width: 0 },
            OpV::SetBold(false),
            OpV::SetSmoothing(false),
            OpV::Feed { units: 4 },
        ]
    } else if heading == Some(4u8) {
        seq![OpV::Newline, OpV::SetExpandedHeight(0), OpV::SetBold(false), OpV::SetSmoothing(false), OpV::Feed { units: 4 }]
    } else if heading == Some(5u8) {
        seq![OpV::Newline, OpV::SetBold(false), OpV::Feed { units: 2 }]
    } else if heading is Some {
        seq![OpV::Newline, OpV::SetBold(false), OpV::SetFont(Font::A)]
    } else {
        seq![OpV::Newline]
    }
}

/// The indentation of a list item at the given nesting depth: 32 dots per
/// level below the first, as the 16-bit position the printer takes.
pub open spec fn item_indent(depth: usize) -> u16 {
    (((depth - 1) % 2048) * 32) as u16
}

/// One step for an opening tag.
pub open spec fn md_start(st: MdStateV, full: bool, kind: TagKind, level: u8, url: Seq<char>, start: Option<u64>) -> (MdStateV, Seq<OpV>) {
    match kind {
        TagKind::Paragraph => if st.just_heading {
            (MdStateV { just_heading: false, ..st }, seq![OpV::Newline])
        } else {
            (st, Seq::empty())
        },
        TagKind::Heading => (MdStateV { heading: Some(level), ..st }, heading_start_ops(full, level)),
        TagKind::Strong => (st, seq![OpV::SetBold(true)]),
        TagKind::Emphasis => (st, seq![OpV::SetUnderline(true)]),
        TagKind::Link => (
            if st.show_urls { MdStateV { pending_url: Some(url), ..st } } else { st },
            seq![OpV::SetUnderline(true)],
        ),
        TagKind::List => {
            let counters = if start is Some { st.counters.push(start->0 as usize) } else { st.counters };
            let depth = wrap_inc(st.list_depth);
            (MdStateV { counters, list_depth: depth, ..st }, op_if(depth == 1, OpV::Newline))
        },
        TagKind::Item => {
            let ops = op_if(st.list_depth > 1, OpV::SetAbsolutePosition(item_indent(st.list_depth)));
            if st.counters.len() > 0 {
                let c = st.counters.last();
                (
                    MdStateV {
                        pending_prefix: Some(decimal(c as nat) + seq!['.', ' ']),
                        counters: st.counters.drop_last().push(wrap_inc(c)),
                        ..st
                    },
                    ops,
                )
            } else {
                (MdStateV { pending_prefix: Some(seq!['*', ' ']), ..st }, ops)
            }
        },
        TagKind::CodeBlock => (st, seq![OpV::SetInvert(true), OpV::SetFont(Font::B)]),
        TagKind::Other => (st, Seq::empty()),
    }
}

/// One step for a closing tag.
pub open spec fn md_end(st: MdStateV, full: bool, kind: TagKind) -> (MdStateV, Seq<OpV>) {
    match kind {
        TagKind::Paragraph => (st, seq![OpV::Newline, OpV::Newline]),
        TagKind::Heading => (
            MdStateV { heading: None, just_heading: true, ..st },
            heading_end_ops(full, st.heading),
        ),
        TagKind::Strong => (st, seq![OpV::SetBold(false)]),
        TagKind::Emphasis => (st, seq![OpV::SetUnderline(false)]),
        TagKind::Link => match st.pending_url {
            Some(u) => (
                MdStateV { pending_url: None, ..st },
                seq![
                    OpV::SetUnderline(false),
                    OpV::Text(seq![' ', '(']),
                    OpV::SetFont(Font::C),
                    OpV::Text(u),
                    OpV::SetFont(Font::A),
                    OpV::Text(seq![')']),
                ],
            ),
            None => (st, seq![OpV::SetUnderline(false)]),
        },
        TagKind::List => (
            MdStateV {
                counters: if st.counters.len() > 0 { st.counters.drop_last() } else { st.counters },
                list_depth: if st.list_depth > 0 { (st.list_depth - 1) as usize } else { 0 },
                ..st
            },
            seq![OpV::Newline],
        ),
        TagKind::Item => (st, seq![OpV::Newline, OpV::SetAbsolutePosition(0)]),
        TagKind::CodeBlock => (st, seq![OpV::SetInvert(false), OpV::SetFont(Font::A), OpV::Newline]),
        TagKind::Other => (st, Seq::empty()),
    }
}

/// One rendering step.
pub open spec fn md_step(style: MdStyle, st: MdStateV, ev: MdEventV) -> (MdStateV, Seq<OpV>) {
    match ev {
        MdEventV::Start { kind, level, url, start } => md_start(st, style.full, kind, level, url, start),
        MdEventV::End(kind) => md_end(st, style.full, kind),
        MdEventV::Text(t) => match st.pending_prefix {
            Some(p) => (MdStateV { pending_prefix: None, ..st }, seq![OpV::Text(p + t)]),
            None => (st, seq![OpV::Text(t)]),
        },
        MdEventV::Code(c) => (st, seq![OpV::SetInvert(true), OpV::Text(c), OpV::SetInvert(false)]),
        MdEventV::SoftBreak => (st, seq![OpV::Text(seq![' '])]),
        MdEventV::HardBreak => (st, seq![OpV::Newline]),
        MdEventV::Rule => (st, seq![OpV::Text(rep('\u{2500}', style.rule_width as nat)), OpV::Newline]),
        MdEventV::Other => (st, Seq::empty()),
    }
}

/// Render events in order from a state: the final state and all ops.
pub open spec fn md_run(style: MdStyle, st: MdStateV, evs: Seq<MdEventV>) -> (MdStateV, Seq<OpV>)
    decreases evs.len(),
{
    if evs.len() == 0 {
        (st, Seq::empty())
    } else {
        let (s1, o1) = md_run(style, st, evs.drop_last());
        let (s2, o2) = md_step(style, s1, evs.last());
        (s2, o1 + o2)
    }
}

/// The ops of a markdown rendering of events.
pub open spec fn markdown_render(style: MdStyle, show_urls: bool, evs: Seq<MdEventV>) -> Seq<OpV> {
    md_run(style, md_initial(show_urls), evs).1
}

/// The renderer's state between events.
pub struct MdState {
    show_urls: bool,
    list_depth: usize,
    list_counters: Vec<usize>,
    pending_url: Option<String>,
    pending_list_prefix: Option<String>,
    heading_level: Option<u8>,
    just_finished_heading: bool,
}

/// The value of an optional string.
pub open spec fn opt_view(o: Option<String>) -> Option<Seq<char>> {
    match o {
        Some(s) => Some(s@),
        None => None,
    }
}

impl View for MdState {
    type V = MdStateV;

    closed spec fn view(&self) -> MdStateV {
        MdStateV {
            show_urls: self.show_urls,
            list_depth: self.list_depth,
            counters: self.list_counters@,
            pending_url: opt_view(self.pending_url),
            pending_prefix: opt_view(self.pending_list_prefix),
            heading: self.heading_level,
            just_heading: self.just_finished_heading,
        }
    }
}

/// Append the decimal notation of `n`.
pub fn push_decimal(s: &mut String, n: usize)
    ensures
        final(s)@ == old(s)@ + decimal(n as nat),
    decreases n,
{
    if n >= 10 {
        push_decimal(s, n / 10);
    }
    let d = (n % 10) as u8;
    let c = (48u8 + d) as char;
    push_char(s, c);
    proof {
        if n >= 10 {
            assert(decimal(n as nat) == decimal((n / 10) as nat).push(digit((n % 10) as nat)));
        }
    }
    assert(s@ =~= old(s)@ + decimal(n as nat));
}

fn inc_wrap(c: usize) -> (r: usize)
    ensures
        r == wrap_inc(c),
{
    if c == usize::MAX { 0 } else { c + 1 }
}

fn push_seq3(ops: &mut Vec<Op>, a: Op, b: Op, c: Op)
    ensures
        ops_view(final(ops)@) == ops_view(old(ops)@) + seq![a@, b@, c@],
{
    let ghost v = seq![a@, b@, c@];
    push_op(ops, a);
    push_op(ops, b);
    push_op(ops, c);
    assert(ops_view(ops@) =~= ops_view(old(ops)@) + v);
}

impl MdState {
    /// The state before the first event.
    pub fn new(show_urls: bool) -> (st: MdState)
        ensures
            st@ == md_initial(show_urls),
    {
        let st = MdState {
            show_urls,
            list_depth: 0,
            list_counters: Vec::new(),
            pending_url: None,
            pending_list_prefix: None,
            heading_level: None,
            just_finished_heading: false,
        };
        assert(st@.counters =~= Seq::<usize>::empty());
        st
    }

    fn heading_start(&mut self, full: bool, level: u8, ops: &mut Vec<Op>)
        ensures
            final(self)@ == (MdStateV { heading: Some(level), ..old(self)@ }),
            ops_view(final(ops)@) == ops_view(old(ops)@) + heading_start_ops(full, level),
    {
        let ghost b = ops_view(ops@);
        self.heading_level = Some(level);
        if level == 1 || level == 2 {
            let n: u8 = if level == 1 { 3 } else { 2 };
            push_op(ops, Op::SetAlign(Alignment::Center));
            push_seq3(ops, Op::SetBold(true), Op::SetSize { height: n, width: n }, Op::SetSmoothing(true));
        } else if !full || level == 5 {
            push_op(ops, Op::SetBold(true));
        } else if level == 3 {
            push_seq3(ops, Op::SetBold(true), Op::SetSize { height: 1, width: 1 }, Op::SetSmoothing(true));
        } else if level == 4 {
            push_seq3(ops, Op::SetBold(true), Op::SetExpandedHeight(1), Op::SetSmoothing(true));
        } else {
            push_op(ops, Op::SetFont(Font::B));
            push_op(ops, Op::SetBold(true));
        }
        assert(ops_view(ops@) =~= b + heading_start_ops(full, level));
    }

    fn heading_end(&mut self, full: bool, ops: &mut Vec<Op>)
        ensures
            final(self)@ == (MdStateV { heading: None, just_heading: true, ..old(self)@ }),
            ops_view(final(ops)@) == ops_view(old(ops)@) + heading_end_ops(full, old(self)@.heading),
    {
        let ghost b = ops_view(ops@);
        let h = self.heading_level;
        let is1 = h == Some(1u8);
        let is2 = h == Some(2u8);
        let is3 = h == Some(3u8);
        let is4 = h == Some(4u8);
        let is5 = h == Some(5u8);
        push_op(ops, Op::Newline);
        if is1 || is2 {
            let units: u8 = if is1 { 12 } else { 6 };
            push_seq3(ops, Op::SetSize { height: 0, width: 0 }, Op::SetBold(false), Op::SetSmoothing(false));
            push_op(ops, Op::SetAlign(Alignment::Left));
            push_op(ops, Op::Feed { units });
        } else if !full {
            push_op(ops, Op::SetBold(false));
            if is3 {
                push_op(ops, Op::Feed { units: 4 });
            }
        } else if is3 {
            push_seq3(ops, Op::SetSize { height: 0, width: 0 }, Op::SetBold(false), Op::SetSmoothing(false));
            push_op(ops, Op::Feed { units: 4 });
        } else if is4 {
            push_seq3(ops, Op::SetExpandedHeight(0), Op::SetBold(false), Op::SetSmoothing(false));
            push_op(ops, Op::Feed { units: 4 });
        } else if is5 {
            push_op(ops, Op::SetBold(false));
            push_op(ops, Op::Feed { units: 2 });
        } else if h.is_some() {
            push_op(ops, Op::SetBold(false));
            push_op(ops, Op::SetFont(Font::A));
        }
        assert(ops_view(ops@) =~= b + heading_end_ops(full, old(self)@.heading));
        self.heading_level = None;
        self.just_finished_heading = true;
    }

    fn item_start(&mut self, ops: &mut Vec<Op>)
        ensures
            (final(self)@, ops_view(final(ops)@)) == ({
                let (s, o) = md_start(old(self)@, true, TagKind::Item, 0, Seq::empty(), None);
                (s, ops_view(old(ops)@) + o)
            }),
    {
        let ghost b = ops_view(ops@);
        let depth = self.list_depth;
        if depth > 1 {
            let d = (depth - 1) % 2048;
            let indent = (d * 32) as u16;
            push_op(ops, Op::SetAbsolutePosition(indent));
        }
        assert(ops_view(ops@) =~= b + op_if(depth > 1, OpV::SetAbsolutePosition(item_indent(depth))));
        let n = self.list_counters.len();
        if n > 0 {
            let c = self.list_counters[n - 1];
            let mut prefix = String::new();
            push_decimal(&mut prefix, c);
            push_str(&mut prefix, ". ");
            proof {
                reveal_strlit(". ");
            }
            let ghost old_counters = self.list_counters@;
            self.list_counters.set(n - 1, inc_wrap(c));
            assert(self.list_counters@ =~= old_counters.drop_last().push(wrap_inc(c)));
            assert(prefix@ =~= decimal(c as nat) + seq!['.', ' ']);
            self.pending_list_prefix = Some(prefix);
        } else {
            let prefix = "* ".to_owned();
            proof {
                reveal_strlit("* ");
            }
            assert(prefix@ =~= seq!['*', ' ']);
            self.pending_list_prefix = Some(prefix);
        }
    }

    fn start_tag(&mut self, full: bool, kind: TagKind, level: u8, url: &String, start: Option<u64>, ops: &mut Vec<Op>)
        ensures
            (final(self)@, ops_view(final(ops)@)) == ({
                let (s, o) = md_start(old(self)@, full, kind, level, url@, start);
                (s, ops_view(old(ops)@) + o)
            }),
    {
        let ghost b = ops_view(ops@);
        match kind {
            TagKind::Paragraph => {
                if self.just_finished_heading {
                    push_op(ops, Op::Newline);
                    self.just_finished_heading = false;
                }
                assert(ops_view(ops@) =~= b + md_start(old(self)@, full, kind, level, url@, start).1);
            },
            TagKind::Heading => {
                self.heading_start(full, level, ops);
            },
            TagKind::Strong => {
                push_op(ops, Op::SetBold(true));
                assert(ops_view(ops@) =~= b + seq![OpV::SetBold(true)]);
            },
            TagKind::Emphasis => {
                push_op(ops, Op::SetUnderline(true));
                assert(ops_view(ops@) =~= b + seq![OpV::SetUnderline(true)]);
            },
            TagKind::Link => {
                push_op(ops, Op::SetUnderline(true));
                assert(ops_view(ops@) =~= b + seq![OpV::SetUnderline(true)]);
                if self.show_urls {
                    self.pending_url = Some(url.clone());
                }
            },
            TagKind::List => {
                match start {
                    Some(n) => {
                        self.list_counters.push(n as usize);
                    },
                    None => {},
                }
                self.list_depth = inc_wrap(self.list_depth);
                if self.list_depth == 1 {
                    push_op(ops, Op::Newline);
                }
                assert(ops_view(ops@) =~= b + op_if(self.list_depth == 1, OpV::Newline));
            },
            TagKind::Item => {
                self.item_start(ops);
            },
            TagKind::CodeBlock => {
                push_op(ops, Op::SetInvert(true));
                push_op(ops, Op::SetFont(Font::B));
                assert(ops_view(ops@) =~= b + seq![OpV::SetInvert(true), OpV::SetFont(Font::B)]);
            },
            TagKind::Other => {
                assert(ops_view(ops@) =~= b + Seq::<OpV>::empty());
            },
        }
    }

    fn link_end(&mut self, ops: &mut Vec<Op>)
        ensures
            (final(self)@, ops_view(final(ops)@)) == ({
                let (s, o) = md_end(old(self)@, true, TagKind::Link);
                (s, ops_view(old(ops)@) + o)
            }),
    {
        let ghost b = ops_view(ops@);
        push_op(ops, Op::SetUnderline(false));
        let url = self.pending_url.take();
        match url {
            Some(u) => {
                let ghost uv = u@;
                let open = " (".to_owned();
                let close = ")".to_owned();
                proof {
                    reveal_strlit(" (");
                    reveal_strlit(")");
                }
                assert(open@ =~= seq![' ', '(']);
                assert(close@ =~= seq![')']);
                push_op(ops, Op::Text(open));
                push_op(ops, Op::SetFont(Font::C));
                push_op(ops, Op::Text(u));
                push_op(ops, Op::SetFont(Font::A));
                push_op(ops, Op::Text(close));
                assert(ops_view(ops@) =~= ops_view(old(ops)@) + md_end(old(self)@, true, TagKind::Link).1);
            },
            None => {
                assert(ops_view(ops@) =~= b + seq![OpV::SetUnderline(false)]);
            },
        }
    }

    fn end_tag(&mut self, full: bool, kind: TagKind, ops: &mut Vec<Op>)
        ensures
            (final(self)@, ops_view(final(ops)@)) == ({
                let (s, o) = md_end(old(self)@, full, kind);
                (s, ops_view(old(ops)@) + o)
            }),
    {
        let ghost b = ops_view(ops@);
        match kind {
            TagKind::Paragraph => {
                push_op(ops, Op::Newline);
                push_op(ops, Op::Newline);
                assert(ops_view(ops@) =~= b + seq![OpV::Newline, OpV::Newline]);
            },
            TagKind::Heading => {
                self.heading_end(full, ops);
            },
            TagKind::Strong => {
                push_op(ops, Op::SetBold(false));
                assert(ops_view(ops@) =~= b + seq![OpV::SetBold(false)]);
            },
            TagKind::Emphasis => {
                push_op(ops, Op::SetUnderline(false));
                assert(ops_view(ops@) =~= b + seq![OpV::SetUnderline(false)]);
            },
            TagKind::Link => {
                self.link_end(ops);
            },
            TagKind::List => {
                if self.list_counters.len() > 0 {
                    self.list_counters.pop();
                }
                self.list_depth = if self.list_depth > 0 { self.list_depth - 1 } else { 0 };
                push_op(ops, Op::Newline);
                assert(self@.counters =~= (if old(self)@.counters.len() > 0 { old(self)@.counters.drop_last() } else { old(self)@.counters }));
                assert(ops_view(ops@) =~= b + seq![OpV::Newline]);
            },
            TagKind::Item => {
                push_op(ops, Op::Newline);
                push_op(ops, Op::SetAbsolutePosition(0));
                assert(ops_view(ops@) =~= b + seq![OpV::Newline, OpV::SetAbsolutePosition(0)]);
            },
            TagKind::CodeBlock => {
                push_seq3(ops, Op::SetInvert(false), Op::SetFont(Font::A), Op::Newline);
            },
            TagKind::Other => {
                assert(ops_view(ops@) =~= b + Seq::<OpV>::empty());
            },
        }
    }

    /// Render one event.
    pub fn step(&mut self, style: &MdStyle, ev: &MdEvent, ops: &mut Vec<Op>)
        ensures
            (final(self)@, ops_view(final(ops)@)) == ({
                let (s, o) = md_step(*style, old(self)@, ev@);
                (s, ops_view(old(ops)@) + o)
            }),
    {
        let ghost b = ops_view(ops@);
        match ev {
            MdEvent::Start { kind, level, url, start } => {
                self.start_tag(style.full, *kind, *level, url, *start, ops);
            },
            MdEvent::End(kind) => {
                self.end_tag(style.full, *kind, ops);
            },
            MdEvent::Text(t) => {
                let p = self.pending_list_prefix.take();
                match p {
                    Some(prefix) => {
                        let mut line = prefix;
                        push_str(&mut line, t.as_str());
                        push_op(ops, Op::Text(line));
                    },
                    None => {
                        push_op(ops, Op::Text(t.clone()));
                    },
                }
                assert(ops_view(ops@) =~= b + md_step(*style, old(self)@, ev@).1);
            },
            MdEvent::Code(c) => {
                push_seq3(ops, Op::SetInvert(true), Op::Text(c.clone()), Op::SetInvert(false));
            },
            MdEvent::SoftBreak => {
                let sp = " ".to_owned();
                proof {
                    reveal_strlit(" ");
                }
                assert(sp@ =~= seq![' ']);
                push_op(ops, Op::Text(sp));
                assert(ops_view(ops@) =~= b + seq![OpV::Text(seq![' '])]);
            },
            MdEvent::HardBreak => {
                push_op(ops, Op::Newline);
                assert(ops_view(ops@) =~= b + seq![OpV::Newline]);
            },
            MdEvent::Rule => {
                let line = repeat_char('\u{2500}', style.rule_width);
                push_op(ops, Op::Text(line));
                push_op(ops, Op::Newline);
                assert(ops_view(ops@) =~= b + md_step(*style, old(self)@, ev@).1);
            },
            MdEvent::Other => {
                assert(ops_view(ops@) =~= b + Seq::<OpV>::empty());
            },
        }
    }
}

/// The values of a sequence of events.
pub open spec fn events_view(evs: Seq<MdEvent>) -> Seq<MdEventV> {
    evs.map_values(|e: MdEvent| e@)
}

/// Render events in order, appending their ops.
pub fn render_events(style: &MdStyle, show_urls: bool, events: &Vec<MdEvent>, ops: &mut Vec<Op>)
    ensures
        ops_view(final(ops)@) == ops_view(old(ops)@) + markdown_render(*style, show_urls, events_view(events@)),
{
    let mut st = MdState::new(show_urls);
    let mut i: usize = 0;
    while i < events.len()
        invariant
            i <= events.len(),
            ({
                let (s, o) = md_run(*style, md_initial(show_urls), events_view(events@.subrange(0, i as int)));
                st@ == s && ops_view(ops@) == ops_view(old(ops)@) + o
            }),
        decreases events.len() - i,
    {
        let ghost before = ops_view(ops@);
        let ghost pre = md_run(*style, md_initial(show_urls), events_view(events@.subrange(0, i as int)));
        st.step(style, &events[i], ops);
        proof {
            let evs = events_view(events@.subrange(0, i + 1));
            assert(evs.drop_last() =~= events_view(events@.subrange(0, i as int)));
            assert(evs.last() == events@[i as int]@);
            assert(ops_view(old(ops)@) + pre.1 + md_step(*style, pre.0, events@[i as int]@).1 =~= ops_view(old(ops)@) + (pre.1 + md_step(*style, pre.0, events@[i as int]@).1));
        }
        i = i + 1;
    }
    assert(events@.subrange(0, events.len() as int) =~= events@);
}

/// A list item starts at 32 dots per level of nesting below the first: an
/// item of a list nested `d > 1` deep is preceded by exactly the position
/// `32 * (d - 1)`, and an item of a top-level list by no position at all.
pub proof fn lemma_item_indent(style: MdStyle, st: MdStateV, level: u8, url: Seq<char>, start: Option<u64>)
    requires
        st.list_depth <= 2048,
    ensures
        ({
            let ops = md_step(style, st, MdEventV::Start { kind: TagKind::Item, level, url, start }).1;
            &&& st.list_depth > 1 ==> 32 * (st.list_depth - 1) <= u16::MAX && ops == seq![
                OpV::SetAbsolutePosition((32 * (st.list_depth - 1)) as u16),
            ]
            &&& st.list_depth <= 1 ==> ops.len() == 0
        }),
{
    if st.list_depth > 1 {
        let d = (st.list_depth - 1) as int;
        assert(d % 2048 == d);
    }
}

/// A list opened inside a list indents its items 32 dots further than the
/// items of the enclosing list: opening a list at nesting depth `d` (one
/// level deeper than the list already open) and then an item of it
/// positions the item at `32 * d`.
pub proof fn lemma_nested_list_indent(
    style: MdStyle,
    st: MdStateV,
    level: u8,
    url: Seq<char>,
    start: Option<u64>,
    item_level: u8,
    item_url: Seq<char>,
    item_start: Option<u64>,
)
    requires
        1 <= st.list_depth < 2048,
    ensures
        ({
            let opened = md_step(style, st, MdEventV::Start { kind: TagKind::List, level, url, start }).0;
            let ops = md_step(
                style,
                opened,
                MdEventV::Start { kind: TagKind::Item, level: item_level, url: item_url, start: item_start },
            ).1;
            &&& opened.list_depth == st.list_depth + 1
            &&& ops == seq![OpV::SetAbsolutePosition((32 * st.list_depth) as u16)]
        }),
{
    let opened = md_step(style, st, MdEventV::Start { kind: TagKind::List, level, url, start }).0;
    assert(opened.list_depth == st.list_depth + 1);
    lemma_item_indent(style, opened, item_level, item_url, item_start);
}

/// The number written by a string of decimal digits.
pub open spec fn digits_value(s: Seq<char>) -> int
    decreases s.len(),
{
    if s.len() == 0 {
        0
    } else {
        digits_value(s.drop_last()) * 10 + (s.last() as int - 48)
    }
}

/// A number is written in decimal: digits only, no leading zero, and the
/// digits read back as the number.
pub proof fn lemma_decimal_digits(n: nat)
    ensures
        decimal(n).len() > 0,
        forall|i: int| 0 <= i < decimal(n).len() ==> '0' <= #[trigger] decimal(n)[i] <= '9',
        decimal(n).len() > 1 ==> decimal(n)[0] != '0',
        digits_value(decimal(n)) == n,
    decreases n,
{
    if n < 10 {
        assert(decimal(n).drop_last() =~= Seq::<char>::empty());
        assert(digit(n) as int == 48 + n);
        let d = decimal(n);
        assert(digits_value(d) == digits_value(d.drop_last()) * 10 + (d.last() as int - 48));
        assert(digits_value(d.drop_last()) == 0);
    } else {
        lemma_decimal_digits(n / 10);
        let d = decimal(n);
        let prev = decimal(n / 10);
        assert(d.drop_last() =~= prev);
        assert(digit(n % 10) as int == 48 + n % 10);
        assert(d.last() == digit(n % 10));
        assert(n == (n / 10) * 10 + n % 10);
        assert(digits_value(d) == digits_value(d.drop_last()) * 10 + (d.last() as int - 48));
        assert(d[0] == prev[0]);
        assert forall|i: int| 0 <= i < d.len() implies '0' <= #[trigger] d[i] <= '9' by {
            if i < prev.len() {
                assert(d[i] == prev[i]);
            }
        }
        if prev.len() == 1 {
            assert(n / 10 >= 1);
            assert(digits_value(prev) == digits_value(prev.drop_last()) * 10 + (prev.last() as int - 48));
            assert(prev.drop_last() =~= Seq::<char>::empty());
        }
    }
}

/// The first text of a list item carries the item's marker: `* ` in a
/// bulleted list, and in a numbered list the current number in decimal and
/// `. `; the next item of a numbered list is numbered one higher.
pub proof fn lemma_list_item_marker(
    style: MdStyle,
    st: MdStateV,
    level: u8,
    url: Seq<char>,
    start: Option<u64>,
    text: Seq<char>,
)
    ensures
        ({
            let (s1, o1) = md_step(style, st, MdEventV::Start { kind: TagKind::Item, level, url, start });
            let (s2, o2) = md_step(style, s1, MdEventV::Text(text));
            &&& st.counters.len() == 0 ==> o2 == seq![OpV::Text(seq!['*', ' '] + text)]
            &&& st.counters.len() > 0 ==> o2 == seq![OpV::Text(decimal(st.counters.last() as nat) + seq!['.', ' '] + text)]
            &&& st.counters.len() > 0 && st.counters.last() < usize::MAX ==> s1.counters.len() == st.counters.len()
                && s1.counters.last() == st.counters.last() + 1
            &&& s2.pending_prefix is None
        }),
{
}

/// A numbered list that starts at `n` marks its first item `n. `.
pub proof fn lemma_numbered_list_start(
    style: MdStyle,
    st: MdStateV,
    level: u8,
    url: Seq<char>,
    n: u64,
    item_level: u8,
    item_url: Seq<char>,
    item_start: Option<u64>,
    text: Seq<char>,
)
    requires
        n <= usize::MAX,
    ensures
        ({
            let s1 = md_step(style, st, MdEventV::Start { kind: TagKind::List, level, url, start: Some(n) }).0;
            let s2 = md_step(
                style,
                s1,
                MdEventV::Start { kind: TagKind::Item, level: item_level, url: item_url, start: item_start },
            ).0;
            md_step(style, s2, MdEventV::Text(text)).1 == seq![OpV::Text(decimal(n as nat) + seq!['.', ' '] + text)]
        }),
{
    let s1 = md_step(style, st, MdEventV::Start { kind: TagKind::List, level, url, start: Some(n) }).0;
    assert(s1.counters.last() == n);
    lemma_list_item_marker(style, s1, item_level, item_url, item_start, text);
}

} // verus!
