//! Barcode components: QR codes, PDF417 and 1D barcodes.

use crate::components::Component;
use crate::ir::{ops_view, push_op, Alignment, BarcodeKind, Op, OpV, QrErrorLevel};
use crate::text::{clamp8, clamp_u8};
use vstd::prelude::*;

verus! {

/// The value of a [`QrCode`].
pub struct QrCodeModel {
    pub data: Seq<char>,
    pub cell_size: u8,
    pub error_level: QrErrorLevel,
    pub alignment: Alignment,
}

/// A QR code component.
pub struct QrCode {
    data: String,
    cell_size: u8,
    error_level: QrErrorLevel,
    alignment: Alignment,
}

impl View for QrCode {
    type V = QrCodeModel;

    closed spec fn view(&self) -> QrCodeModel {
        QrCodeModel {
            data: self.data@,
            cell_size: self.cell_size,
            error_level: self.error_level,
            alignment: self.alignment,
        }
    }
}

impl QrCode {
    /// A centered QR code with cell size 4 and error level M.
    pub fn new(data: &str) -> (q: QrCode)
        ensures
            q@ == (QrCodeModel {
                data: data@,
                cell_size: 4,
                error_level: QrErrorLevel::M,
                alignment: Alignment::Center,
            }),
    {
        QrCode {
            data: data.to_owned(),
            cell_size: 4,
            error_level: QrErrorLevel::M,
            alignment: Alignment::Center,
        }
    }

    /// Set the cell (module) size in dots, clamped into 1..=8.
    pub fn cell_size(self, size: u8) -> (q: QrCode)
        ensures
            q@ == (QrCodeModel { cell_size: clamp_u8(size, 1, 8), ..self@ }),
    {
        let mut q = self;
        q.cell_size = clamp8(size, 1, 8);
        q
    }

    /// Error correction level L (~7% recovery).
    pub fn error_level_low(self) -> (q: QrCode)
        ensures
            q@ == (QrCodeModel { error_level: QrErrorLevel::L, ..self@ }),
    {
        let mut q = self;
        q.error_level = QrErrorLevel::L;
        q
    }

    /// Error correction level M (~15% recovery), the default.
    pub fn error_level_medium(self) -> (q: QrCode)
        ensures
            q@ == (QrCodeModel { error_level: QrErrorLevel::M, ..self@ }),
    {
        let mut q = self;
        q.error_level = QrErrorLevel::M;
        q
    }

    /// Error correction level Q (~25% recovery).
    pub fn error_level_quartile(self) -> (q: QrCode)
        ensures
            q@ == (QrCodeModel { error_level: QrErrorLevel::Q, ..self@ }),
    {
        let mut q = self;
        q.error_level = QrErrorLevel::Q;
        q
    }

    /// Error correction level H (~30% recovery).
    pub fn error_level_high(self) -> (q: QrCode)
        ensures
            q@ == (QrCodeModel { error_level: QrErrorLevel::H, ..self@ }),
    {
        let mut q = self;
        q.error_level = QrErrorLevel::H;
        q
    }

    /// Center the QR code (the default).
    pub fn center(self) -> (q: QrCode)
        ensures
            q@ == (QrCodeModel { alignment: Alignment::Center, ..self@ }),
    {
        let mut q = self;
        q.alignment = Alignment::Center;
        q
    }

    /// Left-align the QR code.
    pub fn left(self) -> (q: QrCode)
        ensures
            q@ == (QrCodeModel { alignment: Alignment::Left, ..self@ }),
    {
        let mut q = self;
        q.alignment = Alignment::Left;
        q
    }

    /// Right-align the QR code.
    pub fn right(self) -> (q: QrCode)
        ensures
            q@ == (QrCodeModel { alignment: Alignment::Right, ..self@ }),
    {
        let mut q = self;
        q.alignment = Alignment::Right;
        q
    }
}

impl Component for QrCode {
    open spec fn ready(&self) -> bool {
        true
    }

    open spec fn emitted(&self) -> Seq<OpV> {
        seq![
            OpV::SetAlign(self@.alignment),
            OpV::QrCode {
                data: self@.data,
                cell_size: self@.cell_size,
                error_level: self@.error_level,
            },
        ]
    }

    fn emit(&self, ops: &mut Vec<Op>) {
        let ghost b = ops_view(ops@);
        push_op(ops, Op::SetAlign(self.alignment));
        push_op(
            ops,
            Op::QrCode {
                data: self.data.clone(),
                cell_size: self.cell_size,
                error_level: self.error_level,
            },
        );
        assert(ops_view(ops@) =~= b + self.emitted());
    }
}

/// The value of a [`Pdf417`].
pub struct Pdf417Model {
    pub data: Seq<char>,
    pub module_width: u8,
    pub ecc_level: u8,
    pub alignment: Alignment,
}

/// A PDF417 2D barcode component.
pub struct Pdf417 {
    data: String,
    module_width: u8,
    ecc_level: u8,
    alignment: Alignment,
}

impl View for Pdf417 {
    type V = Pdf417Model;

    closed spec fn view(&self) -> Pdf417Model {
        Pdf417Model {
            data: self.data@,
            module_width: self.module_width,
            ecc_level: self.ecc_level,
            alignment: self.alignment,
        }
    }
}

impl Pdf417 {
    /// A centered PDF417 barcode with module width 3 and error level 2.
    pub fn new(data: &str) -> (p: Pdf417)
        ensures
            p@ == (Pdf417Model {
                data: data@,
                module_width: 3,
                ecc_level: 2,
                alignment: Alignment::Center,
            }),
    {
        Pdf417 { data: data.to_owned(), module_width: 3, ecc_level: 2, alignment: Alignment::Center }
    }

    /// Set the module width in dots, clamped into 1..=15.
    pub fn module_width(self, width: u8) -> (p: Pdf417)
        ensures
            p@ == (Pdf417Model { module_width: clamp_u8(width, 1, 15), ..self@ }),
    {
        let mut p = self;
        p.module_width = clamp8(width, 1, 15);
        p
    }

    /// Set the error correction level, capped at 8.
    pub fn ecc_level(self, level: u8) -> (p: Pdf417)
        ensures
            p@ == (Pdf417Model { ecc_level: clamp_u8(level, 0, 8), ..self@ }),
    {
        let mut p = self;
        p.ecc_level = clamp8(level, 0, 8);
        p
    }

    /// Center the barcode (the default).
    pub fn center(self) -> (p: Pdf417)
        ensures
            p@ == (Pdf417Model { alignment: Alignment::Center, ..self@ }),
    {
        let mut p = self;
        p.alignment = Alignment::Center;
        p
    }

    /// Left-align the barcode.
    pub fn left(self) -> (p: Pdf417)
        ensures
            p@ == (Pdf417Model { alignment: Alignment::Left, ..self@ }),
    {
        let mut p = self;
        p.alignment = Alignment::Left;
        p
    }

    /// Right-align the barcode.
    pub fn right(self) -> (p: Pdf417)
        ensures
            p@ == (Pdf417Model { alignment: Alignment::Right, ..self@ }),
    {
        let mut p = self;
        p.alignment = Alignment::Right;
        p
    }
}

impl Component for Pdf417 {
    open spec fn ready(&self) -> bool {
        true
    }

    open spec fn emitted(&self) -> Seq<OpV> {
        seq![
            OpV::SetAlign(self@.alignment),
            OpV::Pdf417 {
                data: self@.data,
                module_width: self@.module_width,
                ecc_level: self@.ecc_level,
            },
        ]
    }

    fn emit(&self, ops: &mut Vec<Op>) {
        let ghost b = ops_view(ops@);
        push_op(ops, Op::SetAlign(self.alignment));
        push_op(
            ops,
            Op::Pdf417 {
                data: self.data.clone(),
                module_width: self.module_width,
                ecc_level: self.ecc_level,
            },
        );
        assert(ops_view(ops@) =~= b + self.emitted());
    }
}

/// The value of a [`Barcode`].
pub struct BarcodeModel {
    pub data: Seq<char>,
    pub kind: BarcodeKind,
    pub height: u8,
}

/// A 1D barcode component.
pub struct Barcode {
    data: String,
    kind: BarcodeKind,
    height: u8,
}

impl View for Barcode {
    type V = BarcodeModel;

    closed spec fn view(&self) -> BarcodeModel {
        BarcodeModel { data: self.data@, kind: self.kind, height: self.height }
    }
}

impl Barcode {
    fn of_kind(data: &str, kind: BarcodeKind) -> (b: Barcode)
        ensures
            b@ == (BarcodeModel { data: data@, kind, height: 80 }),
    {
        Barcode { data: data.to_owned(), kind, height: 80 }
    }

    /// A Code39 barcode (A-Z, 0-9, space, `- . $ / % +`), 80 dots high.
    pub fn code39(data: &str) -> (b: Barcode)
        ensures
            b@ == (BarcodeModel { data: data@, kind: BarcodeKind::Code39, height: 80 }),
    {
        Self::of_kind(data, BarcodeKind::Code39)
    }

    /// A Code128 barcode (full ASCII), 80 dots high.
    pub fn code128(data: &str) -> (b: Barcode)
        ensures
            b@ == (BarcodeModel { data: data@, kind: BarcodeKind::Code128, height: 80 }),
    {
        Self::of_kind(data, BarcodeKind::Code128)
    }

    /// An EAN-13 barcode (12-13 digits), 80 dots high.
    pub fn ean13(data: &str) -> (b: Barcode)
        ensures
            b@ == (BarcodeModel { data: data@, kind: BarcodeKind::Ean13, height: 80 }),
    {
        Self::of_kind(data, BarcodeKind::Ean13)
    }

    /// A UPC-A barcode (11-12 digits), 80 dots high.
    pub fn upca(data: &str) -> (b: Barcode)
        ensures
            b@ == (BarcodeModel { data: data@, kind: BarcodeKind::UpcA, height: 80 }),
    {
        Self::of_kind(data, BarcodeKind::UpcA)
    }

    /// An ITF (Interleaved 2 of 5) barcode (even number of digits), 80 dots high.
    pub fn itf(data: &str) -> (b: Barcode)
        ensures
            b@ == (BarcodeModel { data: data@, kind: BarcodeKind::Itf, height: 80 }),
    {
        Self::of_kind(data, BarcodeKind::Itf)
    }

    /// Set the height in dots (at least 1).
    pub fn height(self, height: u8) -> (b: Barcode)
        ensures
            b@ == (BarcodeModel { height: if height == 0 { 1 } else { height }, ..self@ }),
    {
        let mut b = self;
        b.height = if height == 0 { 1 } else { height };
        b
    }
}

impl Component for Barcode {
    open spec fn ready(&self) -> bool {
        true
    }

    open spec fn emitted(&self) -> Seq<OpV> {
        seq![OpV::Barcode1D { kind: self@.kind, data: self@.data, height: self@.height }]
    }

    fn emit(&self, ops: &mut Vec<Op>) {
        let ghost b = ops_view(ops@);
        push_op(ops, Op::Barcode1D { kind: self.kind, data: self.data.clone(), height: self.height });
        assert(ops_view(ops@) =~= b + self.emitted());
    }
}

} // verus!
