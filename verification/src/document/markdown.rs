//! Emitting the markdown component of a document.

use crate::components::markdown::{emit_markdown, markdown_ops};
use crate::document::types::Markdown;
use crate::document::EmitContext;
use crate::ir::ops_view;
use crate::markdown::MdStyle;
use vstd::prelude::*;

verus! {

/// The rendering used in documents: detailed headings, rules as wide as the line.
pub open spec fn document_md_style(print_width: usize) -> MdStyle {
    MdStyle { full: true, rule_width: print_width / 12 }
}

impl Markdown {
    /// Emit the markdown content.
    pub fn emit(&self, ctx: &mut EmitContext)
        ensures
            final(ctx).print_width == old(ctx).print_width,
            ops_view(final(ctx).ops@) == ops_view(old(ctx).ops@) + markdown_ops(
                document_md_style(old(ctx).print_width),
                self.content@,
                self.show_urls,
            ),
    {
        let style = MdStyle { full: true, rule_width: ctx.chars_per_line() };
        emit_markdown(&style, self.content.as_str(), self.show_urls, &mut ctx.ops);
    }
}

} // verus!
