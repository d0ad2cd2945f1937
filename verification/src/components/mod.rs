//! Declarative components for building receipts.
//!
//! Each component emits a fixed sequence of printer operations; the sequence
//! is stated by the component's `emitted` specification.

pub mod barcode;
pub mod graphics;
pub mod layout;
pub mod markdown;
pub mod receipt;
pub mod text;

pub use barcode::{Barcode, BarcodeModel, Pdf417, Pdf417Model, QrCode, QrCodeModel};
pub use graphics::{Image, ImageModel, NvLogo, NvLogoModel};
pub use layout::{BlankLine, Columns, ColumnsModel, Divider, DividerModel, DividerStyle, Raw, Spacer};
pub use markdown::{Markdown, MarkdownModel};
pub use receipt::{Receipt, ReceiptModel};
pub use text::{Header, LineItem, Text, TextModel, Total};

use crate::ir::{push_op, Op, OpV, Program, ops_view};
use vstd::prelude::*;

verus! {

/// A declarative component: something that emits printer operations.
pub trait Component {
    /// The operations this component emits.
    spec fn emitted(&self) -> Seq<OpV>;

    /// Whether the component can be emitted (no text would be cut inside a character).
    spec fn ready(&self) -> bool;

    /// Append this component's operations to `ops`.
    fn emit(&self, ops: &mut Vec<Op>)
        requires
            self.ready(),
        ensures
            ops_view(final(ops)@) == ops_view(old(ops)@) + self.emitted(),
    ;
}

/// Compiling a component to a program.
pub trait ComponentExt: Component {
    /// The program `Init` followed by the component's operations.
    fn compile(&self) -> (p: Program)
        requires
            self.ready(),
        ensures
            ops_view(p.ops@) == seq![OpV::Init] + self.emitted(),
    {
        let mut ops: Vec<Op> = Vec::new();
        push_op(&mut ops, Op::Init);
        self.emit(&mut ops);
        Program { ops }
    }
}

impl<T: Component> ComponentExt for T {

}

} // verus!
