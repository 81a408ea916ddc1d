//! The drawables that the builder makes and a frame draws.

use vstd::prelude::*;
use crate::atlas::AtlasAllocation;
use crate::geometry::Vertex;

verus! {

/// A colour with straight alpha, eight bits a channel.
#[derive(Clone, Copy, Debug, PartialEq, Eq, Structural)]
pub struct Color {
    pub red: u8,
    pub green: u8,
    pub blue: u8,
    pub alpha: u8,
}

/// How a path is filled.
#[derive(Clone, Copy, Debug, PartialEq, Eq, Structural)]
pub enum FillStyle {
    SolidColor(Color),
}

impl FillStyle {
    /// The colour that the path shader is given.
    pub fn color(&self) -> (c: Color)
        ensures
            c == self.spec_color(),
    {
        match self {
            FillStyle::SolidColor(color) => *color,
        }
    }

    pub open spec fn spec_color(&self) -> Color {
        match self {
            FillStyle::SolidColor(color) => *color,
        }
    }
}

/// A decoded image: rows of RGBA pixels, four bytes each.
pub struct Image {
    width: u32,
    height: u32,
    pixels: Vec<u8>,
}

impl Image {
    pub closed spec fn spec_width(&self) -> u32 {
        self.width
    }

    pub closed spec fn spec_height(&self) -> u32 {
        self.height
    }

    pub closed spec fn spec_pixels(&self) -> Seq<u8> {
        self.pixels@
    }

    /// Makes an image from its pixels. The buffer has to hold at least
    /// `4 * width * height` bytes.
    pub fn from_rgba(width: u32, height: u32, pixels: Vec<u8>) -> (image: Option<Image>)
        ensures
            image.is_some() <==> pixels@.len() >= 4 * width * height,
            image matches Some(i) ==> i.spec_width() == width && i.spec_height() == height
                && i.spec_pixels() == pixels@,
    {
        let row: u64 = 4 * (width as u64);
        assert(row * height <= 0x4_0000_0000 * 0x1_0000_0000) by (nonlinear_arith)
            requires
                0 <= row <= 0x4_0000_0000,
                0 <= height <= 0x1_0000_0000,
        ;
        let area: u128 = (row as u128) * (height as u128);
        assert(area == 4 * width * height) by (nonlinear_arith)
            requires
                area == row * height,
                row == 4 * width,
        ;
        if pixels.len() as u128 >= area {
            Some(Image { width, height, pixels })
        } else {
            None
        }
    }

    pub fn width(&self) -> (w: u32)
        ensures
            w == self.spec_width(),
    {
        self.width
    }

    pub fn height(&self) -> (h: u32)
        ensures
            h == self.spec_height(),
    {
        self.height
    }

    /// The pixel bytes, row by row.
    pub fn pixels(&self) -> (p: &Vec<u8>)
        ensures
            p@ == self.spec_pixels(),
    {
        &self.pixels
    }
}

/// The glyphs of a run that live in one backing texture.
pub struct GlyphRun {
    pub vertices: Vec<Vertex>,
    pub texture_vertices: Vec<Vertex>,
    pub texture: usize,
    pub vertex_count: i32,
}

/// A drawable, by kind.
pub enum GLRenderingPrimitive {
    FillPath { vertices: Vec<Vertex>, indices: Vec<u16>, style: FillStyle },
    Texture { vertices: Vec<Vertex>, texture_vertices: Vec<Vertex>, allocation: AtlasAllocation },
    GlyphRuns { glyph_runs: Vec<GlyphRun>, color: Color },
}

impl GLRenderingPrimitive {
    /// Every count that a draw call takes fits its type and is the length of
    /// the buffer it counts.
    pub open spec fn well_formed(self) -> bool {
        match self {
            GLRenderingPrimitive::FillPath { vertices, indices, style } => indices@.len()
                <= i32::MAX,
            GLRenderingPrimitive::Texture { vertices, texture_vertices, allocation } => {
                vertices@.len() == 6 && texture_vertices@.len() == 6
            },
            GLRenderingPrimitive::GlyphRuns { glyph_runs, color } => Self::counts_match(
                glyph_runs@,
            ),
        }
    }

    /// Each part's count is the length of both its buffers.
    pub open spec fn counts_match(runs: Seq<GlyphRun>) -> bool {
        forall|k: int|
            0 <= k < runs.len() ==> {
                &&& (#[trigger] runs[k]).vertex_count == runs[k].vertices@.len()
                &&& runs[k].texture_vertices@.len() == runs[k].vertices@.len()
            }
    }

    /// The number of vertices in all parts of a glyph run together.
    pub open spec fn vertex_total(runs: Seq<GlyphRun>) -> int
        decreases runs.len(),
    {
        if runs.len() == 0 {
            0
        } else {
            Self::vertex_total(runs.drop_last()) + runs.last().vertex_count
        }
    }
}

/// A drawable as the scene graph holds it: made once by the builder, never changed.
pub struct OpaqueRenderingPrimitive(GLRenderingPrimitive);

impl OpaqueRenderingPrimitive {
    /// The drawable inside.
    pub closed spec fn inner(&self) -> GLRenderingPrimitive {
        self.0
    }

    /// Every drawable that exists is well formed.
    #[verifier::type_invariant]
    pub open spec fn well_formed(&self) -> bool {
        self.inner().well_formed()
    }

    pub(crate) fn wrap(primitive: GLRenderingPrimitive) -> (out: OpaqueRenderingPrimitive)
        requires
            primitive.well_formed(),
        ensures
            out.inner() == primitive,
            out.well_formed(),
    {
        OpaqueRenderingPrimitive(primitive)
    }

    /// Read access to the drawable inside.
    pub fn get(&self) -> (primitive: &GLRenderingPrimitive)
        ensures
            *primitive == self.inner(),
    {
        &self.0
    }
}

} // verus!
