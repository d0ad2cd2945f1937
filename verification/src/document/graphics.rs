//! Emitting the graphics components of a document: Image and NvLogo.

use crate::document::types::{Image, NvLogo};
use crate::document::EmitContext;
use crate::ir::{copy_bytes, op_if, ops_view, push_if, push_op, Op, OpV};
use crate::text::{clamp8, clamp_u8, lowercase, str_eq, to_lower};
use vstd::prelude::*;

verus! {

/// How a grayscale image is turned into black and white dots.
#[derive(Debug, Clone, Copy, PartialEq, Eq, Structural)]
pub enum DitheringAlgorithm {
    Bayer,
    FloydSteinberg,
    Atkinson,
    Jarvis,
    /// Plain threshold, no dithering.
    Threshold,
}

/// The algorithm an already lowercased name stands for.
pub open spec fn dither_named(name: Seq<char>) -> Option<DitheringAlgorithm> {
    if name == "bayer"@ {
        Some(DitheringAlgorithm::Bayer)
    } else if name == "floyd-steinberg"@ || name == "floyd_steinberg"@ || name == "fs"@ {
        Some(DitheringAlgorithm::FloydSteinberg)
    } else if name == "atkinson"@ {
        Some(DitheringAlgorithm::Atkinson)
    } else if name == "jarvis"@ || name == "jjn"@ {
        Some(DitheringAlgorithm::Jarvis)
    } else if name == "none"@ || name == "threshold"@ {
        Some(DitheringAlgorithm::Threshold)
    } else {
        None
    }
}

/// The algorithm an already lowercased name stands for.
pub fn dither_from_name(name: &str) -> (d: Option<DitheringAlgorithm>)
    ensures
        d == dither_named(name@),
{
    proof {
        reveal_strlit("bayer");
        reveal_strlit("floyd-steinberg");
        reveal_strlit("floyd_steinberg");
        reveal_strlit("fs");
        reveal_strlit("atkinson");
        reveal_strlit("jarvis");
        reveal_strlit("jjn");
        reveal_strlit("none");
        reveal_strlit("threshold");
    }
    if str_eq(name, "bayer") {
        Some(DitheringAlgorithm::Bayer)
    } else if str_eq(name, "floyd-steinberg") || str_eq(name, "floyd_steinberg") || str_eq(name, "fs") {
        Some(DitheringAlgorithm::FloydSteinberg)
    } else if str_eq(name, "atkinson") {
        Some(DitheringAlgorithm::Atkinson)
    } else if str_eq(name, "jarvis") || str_eq(name, "jjn") {
        Some(DitheringAlgorithm::Jarvis)
    } else if str_eq(name, "none") || str_eq(name, "threshold") {
        Some(DitheringAlgorithm::Threshold)
    } else {
        None
    }
}

/// The dithering algorithm a name stands for, in any case.
pub fn parse_dither_algorithm(s: &str) -> (d: Option<DitheringAlgorithm>)
    ensures
        d == dither_named(lowercase(s@)),
{
    let l = to_lower(s);
    dither_from_name(l.as_str())
}

/// Where an image `w` dots wide starts on a line `pw` dots wide for the
/// asked alignment (center by default).
pub open spec fn image_position(align: Option<String>, pw: u16, w: u16) -> u16 {
    match align {
        Some(a) => if a@ == "left"@ {
            0
        } else if a@ == "right"@ {
            (pw - w) as u16
        } else {
            ((pw - w) / 2) as u16
        },
        None => ((pw - w) / 2) as u16,
    }
}

/// What an image emits: nothing before it is resolved; else, when narrower
/// than the line, a position to start it at (unless that is 0), then the raster.
pub open spec fn image_ops(img: Image, print_width: usize) -> Seq<OpV> {
    match img.resolved_data {
        None => Seq::empty(),
        Some(r) => {
            let pw = print_width as u16;
            let pos = image_position(img.align, pw, r.width);
            op_if(r.width < pw && pos > 0, OpV::SetAbsolutePosition(pos))
                + seq![OpV::Raster { width: r.width, height: r.height, data: r.raster_data@ }]
        },
    }
}

impl Image {
    /// Emit the resolved image, or nothing.
    pub fn emit(&self, ctx: &mut EmitContext)
        ensures
            final(ctx).print_width == old(ctx).print_width,
            ops_view(final(ctx).ops@) == ops_view(old(ctx).ops@) + image_ops(*self, old(ctx).print_width),
    {
        let ghost b = ops_view(ctx.ops@);
        match &self.resolved_data {
            Some(r) => {
                let pw = ctx.print_width as u16;
                let mut pos: u16 = 0;
                if r.width < pw {
                    pos = match &self.align {
                        Some(a) => {
                            proof {
                                reveal_strlit("left");
                                reveal_strlit("right");
                            }
                            if str_eq(a.as_str(), "left") {
                                0
                            } else if str_eq(a.as_str(), "right") {
                                pw - r.width
                            } else {
                                (pw - r.width) / 2
                            }
                        },
                        None => (pw - r.width) / 2,
                    };
                }
                push_if(&mut ctx.ops, r.width < pw && pos > 0, Op::SetAbsolutePosition(pos));
                let data = copy_bytes(&r.raster_data);
                push_op(&mut ctx.ops, Op::Raster { width: r.width, height: r.height, data });
                assert(ops_view(ctx.ops@) =~= b + image_ops(*self, old(ctx).print_width));
            },
            None => {
                assert(ops_view(ctx.ops@) =~= b + Seq::<OpV>::empty());
            },
        }
    }
}

impl NvLogo {
    /// Horizontal scale: `scale_x`, else `scale`, else 1; clamped into 1..=2.
    pub open spec fn x_scale(self) -> u8 {
        clamp_u8(match self.scale_x { Some(s) => s, None => match self.scale { Some(s) => s, None => 1 } }, 1, 2)
    }

    /// Vertical scale: `scale_y`, else `scale`, else 1; clamped into 1..=2.
    pub open spec fn y_scale(self) -> u8 {
        clamp_u8(match self.scale_y { Some(s) => s, None => match self.scale { Some(s) => s, None => 1 } }, 1, 2)
    }

    /// Emit the logo; when centering and the logo's width in dots is known,
    /// first the position that centers it (if it is narrower than the line).
    pub fn emit_with_width(&self, ctx: &mut EmitContext, logo_width: Option<u16>)
        ensures
            final(ctx).print_width == old(ctx).print_width,
            ops_view(final(ctx).ops@) == ops_view(old(ctx).ops@) + (match logo_width {
                Some(w) if self.center && (w as int) * (self.x_scale() as int) < old(ctx).print_width as u32 => seq![
                    OpV::SetAbsolutePosition((((old(ctx).print_width as u32) - (w as int) * (self.x_scale() as int)) / 2) as u16),
                ],
                _ => Seq::<OpV>::empty(),
            }) + seq![OpV::NvPrint { key: self.key@, scale_x: self.x_scale(), scale_y: self.y_scale() }],
    {
        let ghost b = ops_view(ctx.ops@);
        let sx = match self.scale_x {
            Some(s) => s,
            None => match self.scale {
                Some(s) => s,
                None => 1,
            },
        };
        let sy = match self.scale_y {
            Some(s) => s,
            None => match self.scale {
                Some(s) => s,
                None => 1,
            },
        };
        let scale_x = clamp8(sx, 1, 2);
        let scale_y = clamp8(sy, 1, 2);
        assert(scale_x <= 2);
        if self.center {
            match logo_width {
                Some(w) => {
                    let pw = ctx.print_width as u32;
                    assert((w as u32) * (scale_x as u32) <= 131070) by (nonlinear_arith)
                        requires
                            scale_x <= 2,
                            w <= 65535,
                    ;
                    let scaled = (w as u32) * (scale_x as u32);
                    if scaled < pw {
                        let position = (pw - scaled) / 2;
                        ctx.push(Op::SetAbsolutePosition(position as u16));
                    }
                },
                None => {},
            }
        }
        ctx.push(Op::NvPrint { key: self.key.clone(), scale_x, scale_y });
        assert(ops_view(ctx.ops@) =~= b + (match logo_width {
            Some(w) if self.center && (w as int) * (self.x_scale() as int) < old(ctx).print_width as u32 => seq![
                OpV::SetAbsolutePosition((((old(ctx).print_width as u32) - (w as int) * (self.x_scale() as int)) / 2) as u16),
            ],
            _ => Seq::<OpV>::empty(),
        }) + seq![OpV::NvPrint { key: self.key@, scale_x: self.x_scale(), scale_y: self.y_scale() }]);
    }

    /// Emit the logo. The dimensions of stored logos are not known to this
    /// library, so no centering position is emitted.
    pub fn emit(&self, ctx: &mut EmitContext)
        ensures
            final(ctx).print_width == old(ctx).print_width,
            ops_view(final(ctx).ops@) == ops_view(old(ctx).ops@) + seq![
                OpV::NvPrint { key: self.key@, scale_x: self.x_scale(), scale_y: self.y_scale() },
            ],
    {
        self.emit_with_width(ctx, None);
        assert(ops_view(ctx.ops@) =~= ops_view(old(ctx).ops@) + seq![
            OpV::NvPrint { key: self.key@, scale_x: self.x_scale(), scale_y: self.y_scale() },
        ]);
    }
}

} // verus!
