//! Emitting the barcode components of a document: QrCode, Pdf417, Barcode.

use crate::document::types::{Barcode, Pdf417, QrCode};
use crate::document::EmitContext;
use crate::ir::{ops_view, push_op, Alignment, BarcodeKind, Op, OpV, QrErrorLevel};
use crate::text::{clamp8, clamp_u8, lowercase, str_eq, to_lower, to_upper, uppercase};
use vstd::prelude::*;

verus! {

/// The alignment a barcode asks for: "left" or "right", else centered.
pub open spec fn barcode_alignment(align: Option<String>) -> Alignment {
    match align {
        Some(a) => if a@ == "left"@ {
            Alignment::Left
        } else if a@ == "right"@ {
            Alignment::Right
        } else {
            Alignment::Center
        },
        None => Alignment::Center,
    }
}

fn resolve_barcode_alignment(align: &Option<String>) -> (a: Alignment)
    ensures
        a == barcode_alignment(*align),
{
    match align {
        Some(a) => {
            proof {
                reveal_strlit("left");
                reveal_strlit("right");
            }
            if str_eq(a.as_str(), "left") {
                Alignment::Left
            } else if str_eq(a.as_str(), "right") {
                Alignment::Right
            } else {
                Alignment::Center
            }
        },
        None => Alignment::Center,
    }
}

/// The QR error level an uppercased name stands for: L, Q or H, else M.
pub open spec fn qr_level_named(upper: Seq<char>) -> QrErrorLevel {
    if upper == "L"@ {
        QrErrorLevel::L
    } else if upper == "Q"@ {
        QrErrorLevel::Q
    } else if upper == "H"@ {
        QrErrorLevel::H
    } else {
        QrErrorLevel::M
    }
}

/// The QR error level asked for: named by the uppercase of the text, else M.
pub open spec fn qr_error_level(level: Option<String>) -> QrErrorLevel {
    match level {
        Some(l) => qr_level_named(uppercase(l@)),
        None => QrErrorLevel::M,
    }
}

/// The QR error level an already uppercased name stands for.
pub fn qr_level_from_name(upper: &str) -> (l: QrErrorLevel)
    ensures
        l == qr_level_named(upper@),
{
    proof {
        reveal_strlit("L");
        reveal_strlit("Q");
        reveal_strlit("H");
    }
    if str_eq(upper, "L") {
        QrErrorLevel::L
    } else if str_eq(upper, "Q") {
        QrErrorLevel::Q
    } else if str_eq(upper, "H") {
        QrErrorLevel::H
    } else {
        QrErrorLevel::M
    }
}

impl QrCode {
    /// The cell size: given, else 4; clamped into 1..=8.
    pub open spec fn cell(self) -> u8 {
        clamp_u8(match self.cell_size { Some(c) => c, None => 4 }, 1, 8)
    }

    /// Emit the alignment and the QR code.
    pub fn emit(&self, ctx: &mut EmitContext)
        ensures
            final(ctx).print_width == old(ctx).print_width,
            ops_view(final(ctx).ops@) == ops_view(old(ctx).ops@) + seq![
                OpV::SetAlign(barcode_alignment(self.align)),
                OpV::QrCode { data: self.data@, cell_size: self.cell(), error_level: qr_error_level(self.error_level) },
            ],
    {
        let ghost b = ops_view(ctx.ops@);
        let alignment = resolve_barcode_alignment(&self.align);
        let error_level = match &self.error_level {
            Some(l) => {
                let u = to_upper(l.as_str());
                qr_level_from_name(u.as_str())
            },
            None => QrErrorLevel::M,
        };
        let size = match self.cell_size {
            Some(c) => c,
            None => 4,
        };
        let cell_size = clamp8(size, 1, 8);
        ctx.push(Op::SetAlign(alignment));
        ctx.push(Op::QrCode { data: self.data.clone(), cell_size, error_level });
        assert(ops_view(ctx.ops@) =~= b + seq![
            OpV::SetAlign(barcode_alignment(self.align)),
            OpV::QrCode { data: self.data@, cell_size: self.cell(), error_level: qr_error_level(self.error_level) },
        ]);
    }
}

impl Pdf417 {
    /// The module width: given, else 3; clamped into 1..=15.
    pub open spec fn module(self) -> u8 {
        clamp_u8(match self.module_width { Some(m) => m, None => 3 }, 1, 15)
    }

    /// The error correction level: given, else 2; at most 8.
    pub open spec fn ecc(self) -> u8 {
        clamp_u8(match self.ecc_level { Some(e) => e, None => 2 }, 0, 8)
    }

    /// Emit the alignment and the PDF417 barcode.
    pub fn emit(&self, ctx: &mut EmitContext)
        ensures
            final(ctx).print_width == old(ctx).print_width,
            ops_view(final(ctx).ops@) == ops_view(old(ctx).ops@) + seq![
                OpV::SetAlign(barcode_alignment(self.align)),
                OpV::Pdf417 { data: self.data@, module_width: self.module(), ecc_level: self.ecc() },
            ],
    {
        let ghost b = ops_view(ctx.ops@);
        let alignment = resolve_barcode_alignment(&self.align);
        let mw = match self.module_width {
            Some(m) => m,
            None => 3,
        };
        let ecc = match self.ecc_level {
            Some(e) => e,
            None => 2,
        };
        let module_width = clamp8(mw, 1, 15);
        let ecc_level = clamp8(ecc, 0, 8);
        ctx.push(Op::SetAlign(alignment));
        ctx.push(Op::Pdf417 { data: self.data.clone(), module_width, ecc_level });
        assert(ops_view(ctx.ops@) =~= b + seq![
            OpV::SetAlign(barcode_alignment(self.align)),
            OpV::Pdf417 { data: self.data@, module_width: self.module(), ecc_level: self.ecc() },
        ]);
    }
}

/// The symbology an already lowercased format name stands for, if any.
pub open spec fn kind_named(f: Seq<char>) -> Option<BarcodeKind> {
    if f == "code39"@ {
        Some(BarcodeKind::Code39)
    } else if f == "code128"@ {
        Some(BarcodeKind::Code128)
    } else if f == "ean13"@ {
        Some(BarcodeKind::Ean13)
    } else if f == "upca"@ {
        Some(BarcodeKind::UpcA)
    } else if f == "itf"@ {
        Some(BarcodeKind::Itf)
    } else {
        None
    }
}

/// The symbology a format names by its lowercase, if any.
pub open spec fn barcode_kind(format: Seq<char>) -> Option<BarcodeKind> {
    kind_named(lowercase(format))
}

/// The symbology an already lowercased format name stands for, if any.
pub fn kind_from_name(f: &str) -> (k: Option<BarcodeKind>)
    ensures
        k == kind_named(f@),
{
    proof {
        reveal_strlit("code39");
        reveal_strlit("code128");
        reveal_strlit("ean13");
        reveal_strlit("upca");
        reveal_strlit("itf");
    }
    if str_eq(f, "code39") {
        Some(BarcodeKind::Code39)
    } else if str_eq(f, "code128") {
        Some(BarcodeKind::Code128)
    } else if str_eq(f, "ean13") {
        Some(BarcodeKind::Ean13)
    } else if str_eq(f, "upca") {
        Some(BarcodeKind::UpcA)
    } else if str_eq(f, "itf") {
        Some(BarcodeKind::Itf)
    } else {
        None
    }
}

fn kind_of_format(format: &str) -> (k: Option<BarcodeKind>)
    ensures
        k == barcode_kind(format@),
{
    let f = to_lower(format);
    kind_from_name(f.as_str())
}

impl Barcode {
    /// The height: given, else 80; at least 1.
    pub open spec fn bar_height(self) -> u8 {
        match self.height {
            Some(0) => 1,
            Some(h) => h,
            None => 80,
        }
    }

    /// Emit the barcode, or nothing for an unknown format.
    pub fn emit(&self, ctx: &mut EmitContext)
        ensures
            final(ctx).print_width == old(ctx).print_width,
            ops_view(final(ctx).ops@) == ops_view(old(ctx).ops@) + match barcode_kind(self.format@) {
                Some(kind) => seq![OpV::Barcode1D { kind, data: self.data@, height: self.bar_height() }],
                None => Seq::empty(),
            },
    {
        let ghost b = ops_view(ctx.ops@);
        match kind_of_format(self.format.as_str()) {
            Some(kind) => {
                let height: u8 = match self.height {
                    Some(h) => if h == 0 { 1 } else { h },
                    None => 80,
                };
                ctx.push(Op::Barcode1D { kind, data: self.data.clone(), height });
                assert(ops_view(ctx.ops@) =~= b + seq![OpV::Barcode1D { kind, data: self.data@, height: self.bar_height() }]);
            },
            None => {
                assert(ops_view(ctx.ops@) =~= b + Seq::<OpV>::empty());
            },
        }
    }
}

} // verus!
