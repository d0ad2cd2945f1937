//! Graphics components: raster images and stored (NV) logos.

use crate::components::Component;
use crate::ir::{copy_bytes, ops_view, push_op, GraphicsMode, Op, OpV};
use crate::text::{clamp8, clamp_u8};
use vstd::prelude::*;

verus! {

/// The value of an [`Image`].
pub struct ImageModel {
    pub width: u16,
    pub height: u16,
    pub data: Seq<u8>,
    pub mode: GraphicsMode,
}

/// A raster image component (packed bits, 1 bit per pixel, MSB first).
pub struct Image {
    width: u16,
    height: u16,
    data: Vec<u8>,
    mode: GraphicsMode,
}

impl View for Image {
    type V = ImageModel;

    closed spec fn view(&self) -> ImageModel {
        ImageModel { width: self.width, height: self.height, data: self.data@, mode: self.mode }
    }
}

/// Bytes per row of a raster `width` dots wide, as the one byte band mode sends.
pub open spec fn band_width_bytes(width: u16) -> u8 {
    ((width as int + 7) / 8) as u8
}

impl Image {
    /// An image from raw raster data, sent in raster mode.
    pub fn from_raster(width: u16, height: u16, data: Vec<u8>) -> (i: Image)
        ensures
            i@ == (ImageModel { width, height, data: data@, mode: GraphicsMode::Raster }),
    {
        Image { width, height, data, mode: GraphicsMode::Raster }
    }

    /// Send in band mode (24-row chunks).
    pub fn band_mode(self) -> (i: Image)
        ensures
            i@ == (ImageModel { mode: GraphicsMode::Band, ..self@ }),
    {
        let mut i = self;
        i.mode = GraphicsMode::Band;
        i
    }

    /// Send in raster mode (the default).
    pub fn raster_mode(self) -> (i: Image)
        ensures
            i@ == (ImageModel { mode: GraphicsMode::Raster, ..self@ }),
    {
        let mut i = self;
        i.mode = GraphicsMode::Raster;
        i
    }

    /// The graphics mode.
    pub fn mode(&self) -> (m: GraphicsMode)
        ensures
            m == self@.mode,
    {
        self.mode
    }
}

impl Component for Image {
    open spec fn ready(&self) -> bool {
        true
    }

    open spec fn emitted(&self) -> Seq<OpV> {
        match self@.mode {
            GraphicsMode::Raster => seq![
                OpV::Raster { width: self@.width, height: self@.height, data: self@.data },
            ],
            GraphicsMode::Band => seq![
                OpV::Band { width_bytes: band_width_bytes(self@.width), data: self@.data },
            ],
        }
    }

    fn emit(&self, ops: &mut Vec<Op>) {
        let ghost b = ops_view(ops@);
        let data = copy_bytes(&self.data);
        match self.mode {
            GraphicsMode::Raster => {
                push_op(ops, Op::Raster { width: self.width, height: self.height, data });
            },
            GraphicsMode::Band => {
                let wide: u32 = (self.width as u32 + 7) / 8;
                let width_bytes = wide as u8;
                push_op(ops, Op::Band { width_bytes, data });
            },
        }
        assert(ops_view(ops@) =~= b + self.emitted());
    }
}

/// The value of an [`NvLogo`].
pub struct NvLogoModel {
    pub key: Seq<char>,
    pub scale_x: u8,
    pub scale_y: u8,
}

/// A logo stored in the printer's non-volatile memory, printed by key.
pub struct NvLogo {
    key: String,
    scale_x: u8,
    scale_y: u8,
}

impl View for NvLogo {
    type V = NvLogoModel;

    closed spec fn view(&self) -> NvLogoModel {
        NvLogoModel { key: self.key@, scale_x: self.scale_x, scale_y: self.scale_y }
    }
}

impl NvLogo {
    /// The logo stored under `key`, at 1x scale.
    pub fn new(key: &str) -> (l: NvLogo)
        ensures
            l@ == (NvLogoModel { key: key@, scale_x: 1, scale_y: 1 }),
    {
        NvLogo { key: key.to_owned(), scale_x: 1, scale_y: 1 }
    }

    /// Horizontal scale, clamped into 1..=2.
    pub fn scale_x(self, scale: u8) -> (l: NvLogo)
        ensures
            l@ == (NvLogoModel { scale_x: clamp_u8(scale, 1, 2), ..self@ }),
    {
        let mut l = self;
        l.scale_x = clamp8(scale, 1, 2);
        l
    }

    /// Vertical scale, clamped into 1..=2.
    pub fn scale_y(self, scale: u8) -> (l: NvLogo)
        ensures
            l@ == (NvLogoModel { scale_y: clamp_u8(scale, 1, 2), ..self@ }),
    {
        let mut l = self;
        l.scale_y = clamp8(scale, 1, 2);
        l
    }

    /// Both scales, clamped into 1..=2.
    pub fn scale(self, scale: u8) -> (l: NvLogo)
        ensures
            l@ == (NvLogoModel {
                scale_x: clamp_u8(scale, 1, 2),
                scale_y: clamp_u8(scale, 1, 2),
                ..self@
            }),
    {
        let mut l = self;
        l.scale_x = clamp8(scale, 1, 2);
        l.scale_y = clamp8(scale, 1, 2);
        l
    }

    /// Double size in both dimensions.
    pub fn double(self) -> (l: NvLogo)
        ensures
            l@ == (NvLogoModel { scale_x: 2, scale_y: 2, ..self@ }),
    {
        self.scale(2)
    }
}

impl Component for NvLogo {
    open spec fn ready(&self) -> bool {
        true
    }

    open spec fn emitted(&self) -> Seq<OpV> {
        seq![OpV::NvPrint { key: self@.key, scale_x: self@.scale_x, scale_y: self@.scale_y }]
    }

    fn emit(&self, ops: &mut Vec<Op>) {
        let ghost b = ops_view(ops@);
        push_op(ops, Op::NvPrint { key: self.key.clone(), scale_x: self.scale_x, scale_y: self.scale_y });
        assert(ops_view(ops@) =~= b + self.emitted());
    }
}

} // verus!
