//! The markdown component: CommonMark text rendered to printer operations.

use crate::components::Component;
use crate::ir::{ops_view, push_op, Alignment, Op, OpV};
use crate::markdown::{markdown_events, markdown_render, parse_markdown, render_events, MdStyle};
use crate::text::{blank, is_blank};
use vstd::prelude::*;

verus! {

/// The value of a [`Markdown`] component.
pub struct MarkdownModel {
    pub text: Seq<char>,
    pub show_urls: bool,
}

/// Markdown text: bold, italic (underlined), code, headings, lists, links,
/// code blocks and rules.
pub struct Markdown {
    text: String,
    show_urls: bool,
}

impl View for Markdown {
    type V = MarkdownModel;

    closed spec fn view(&self) -> MarkdownModel {
        MarkdownModel { text: self.text@, show_urls: self.show_urls }
    }
}

/// The rendering used by the component: rules 48 characters wide.
pub open spec fn component_md_style() -> MdStyle {
    MdStyle { full: false, rule_width: 48 }
}

/// What markdown text emits: nothing for blank text, else left alignment and
/// the rendering of the text's parse.
pub open spec fn markdown_ops(style: MdStyle, text: Seq<char>, show_urls: bool) -> Seq<OpV> {
    if is_blank(text) {
        Seq::empty()
    } else {
        seq![OpV::SetAlign(Alignment::Left)] + markdown_render(style, show_urls, markdown_events(text))
    }
}

/// Emit markdown text in the given rendering.
pub fn emit_markdown(style: &MdStyle, text: &str, show_urls: bool, ops: &mut Vec<Op>)
    ensures
        ops_view(final(ops)@) == ops_view(old(ops)@) + markdown_ops(*style, text@, show_urls),
{
    if blank(text) {
        assert(ops_view(ops@) =~= ops_view(old(ops)@) + Seq::<OpV>::empty());
        return;
    }
    push_op(ops, Op::SetAlign(Alignment::Left));
    let events = parse_markdown(text);
    let ghost mid = ops_view(ops@);
    render_events(style, show_urls, &events, ops);
    assert(ops_view(ops@) =~= ops_view(old(ops)@) + markdown_ops(*style, text@, show_urls));
}

impl Markdown {
    /// Markdown text, links shown without their destination.
    pub fn new(text: &str) -> (m: Markdown)
        ensures
            m@ == (MarkdownModel { text: text@, show_urls: false }),
    {
        Markdown { text: text.to_owned(), show_urls: false }
    }

    /// Print each link's destination after its text.
    pub fn show_urls(self) -> (m: Markdown)
        ensures
            m@ == (MarkdownModel { show_urls: true, ..self@ }),
    {
        Markdown { text: self.text, show_urls: true }
    }
}

impl Component for Markdown {
    open spec fn ready(&self) -> bool {
        true
    }

    open spec fn emitted(&self) -> Seq<OpV> {
        markdown_ops(component_md_style(), self@.text, self@.show_urls)
    }

    fn emit(&self, ops: &mut Vec<Op>) {
        let style = MdStyle { full: false, rule_width: 48 };
        emit_markdown(&style, self.text.as_str(), self.show_urls, ops);
    }
}

} // verus!
