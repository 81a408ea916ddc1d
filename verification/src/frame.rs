//! One render pass: the state that is set when it starts, and the draw calls
//! that each drawable turns into.

use vstd::prelude::*;
use crate::primitive::{Color, GLRenderingPrimitive, GlyphRun, OpaqueRenderingPrimitive};

verus! {

/// The three pipelines.
#[derive(Clone, Copy, Debug, PartialEq, Eq, Structural)]
pub enum ShaderKind {
    Path,
    Image,
    Glyph,
}

/// How the vertices of a draw call form triangles.
#[derive(Clone, Copy, Debug, PartialEq, Eq, Structural)]
pub enum Topology {
    Triangles,
    TriangleStrip,
}

/// A factor of the blend equation.
#[derive(Clone, Copy, Debug, PartialEq, Eq, Structural)]
pub enum BlendFactor {
    One,
    OneMinusSrcAlpha,
}

/// One draw call with everything that is bound for it. Nothing is carried
/// over from one call to the next.
#[derive(Clone, Copy, Debug, PartialEq, Eq, Structural)]
pub struct DrawCall {
    /// The pipeline that is bound.
    pub shader: ShaderKind,
    pub topology: Topology,
    /// Whether the call goes through the index buffer, with 16-bit indices.
    pub indexed: bool,
    /// Number of indices, or of vertices.
    pub count: i32,
    /// The colour uniform, for the pipelines that have one.
    pub color: Option<Color>,
    /// The backing texture that is bound, for the pipelines that sample one.
    pub texture: Option<usize>,
    /// Which part of a glyph run supplies the buffers; 0 for the other kinds.
    pub part: usize,
}

/// The draw call of one part of a glyph run.
pub open spec fn glyph_draw_call(run: GlyphRun, color: Color, part: int) -> DrawCall {
    DrawCall {
        shader: ShaderKind::Glyph,
        topology: Topology::Triangles,
        indexed: false,
        count: run.vertex_count,
        color: Some(color),
        texture: Some(run.texture),
        part: part as usize,
    }
}

/// The draw calls of a drawable, in the order in which they are issued: a
/// filled path is one indexed triangle strip over all its indices, an image is
/// six vertices as triangles, and a glyph run is one call of triangles for
/// each of its parts.
pub open spec fn draw_calls(primitive: GLRenderingPrimitive) -> Seq<DrawCall> {
    match primitive {
        GLRenderingPrimitive::FillPath { vertices, indices, style } => seq![
            DrawCall {
                shader: ShaderKind::Path,
                topology: Topology::TriangleStrip,
                indexed: true,
                count: indices@.len() as i32,
                color: Some(style.spec_color()),
                texture: None,
                part: 0,
            },
        ],
        GLRenderingPrimitive::Texture { vertices, texture_vertices, allocation } => seq![
            DrawCall {
                shader: ShaderKind::Image,
                topology: Topology::Triangles,
                indexed: false,
                count: 6,
                color: None,
                texture: Some(allocation.texture),
                part: 0,
            },
        ],
        GLRenderingPrimitive::GlyphRuns { glyph_runs, color } => glyph_draw_calls(
            glyph_runs@,
            color,
        ),
    }
}

/// The draw calls of a glyph run: one for each part, in order.
pub open spec fn glyph_draw_calls(runs: Seq<GlyphRun>, color: Color) -> Seq<DrawCall> {
    Seq::new(runs.len(), |k: int| glyph_draw_call(runs[k], color, k))
}

/// The state that is set when a render pass starts.
#[derive(Clone, Copy, Debug, PartialEq, Eq, Structural)]
pub struct FrameSetup {
    /// The viewport starts at the origin and has this size.
    pub viewport_width: i32,
    pub viewport_height: i32,
    /// Blending is switched on with these factors for source and destination.
    pub blend_source: BlendFactor,
    pub blend_destination: BlendFactor,
    /// The colour buffer is cleared to this colour.
    pub clear_color: Color,
    /// The planes of the orthographic projection: the origin is the top-left
    /// corner and Y points down.
    pub left: i32,
    pub right: i32,
    pub bottom: i32,
    pub top: i32,
    pub near: i32,
    pub far: i32,
}

/// The setup of a pass over a surface of the given size.
pub open spec fn frame_setup(width: u32, height: u32, clear_color: Color) -> FrameSetup {
    FrameSetup {
        viewport_width: width as i32,
        viewport_height: height as i32,
        blend_source: BlendFactor::One,
        blend_destination: BlendFactor::OneMinusSrcAlpha,
        clear_color,
        left: 0,
        right: width as i32,
        bottom: height as i32,
        top: 0,
        near: -1i32,
        far: 1,
    }
}

/// A render pass. It remembers every draw call it has issued, in order.
pub struct GLFrame {
    setup: FrameSetup,
    issued: Vec<DrawCall>,
}

impl GLFrame {
    /// The state that was set when the pass started.
    pub closed spec fn spec_setup(&self) -> FrameSetup {
        self.setup
    }

    /// The draw calls issued so far, oldest first.
    pub closed spec fn spec_issued(&self) -> Seq<DrawCall> {
        self.issued@
    }

    pub(crate) fn start(width: u32, height: u32, clear_color: Color) -> (frame: GLFrame)
        requires
            width <= i32::MAX,
            height <= i32::MAX,
        ensures
            frame.spec_setup() == frame_setup(width, height, clear_color),
            frame.spec_issued() == Seq::<DrawCall>::empty(),
    {
        let setup = FrameSetup {
            viewport_width: width as i32,
            viewport_height: height as i32,
            blend_source: BlendFactor::One,
            blend_destination: BlendFactor::OneMinusSrcAlpha,
            clear_color,
            left: 0,
            right: width as i32,
            bottom: height as i32,
            top: 0,
            near: -1,
            far: 1,
        };
        GLFrame { setup, issued: Vec::new() }
    }

    /// The state to set before the first draw call.
    pub fn setup(&self) -> (setup: FrameSetup)
        ensures
            setup == self.spec_setup(),
    {
        self.setup
    }

    /// The draw calls issued so far, oldest first.
    pub fn issued(&self) -> (calls: &Vec<DrawCall>)
        ensures
            calls@ == self.spec_issued(),
    {
        &self.issued
    }

    /// Draws one drawable: gives its draw calls, in order, and appends them to
    /// those issued before. The calls depend on the drawable alone.
    pub fn render_primitive(&mut self, primitive: &OpaqueRenderingPrimitive) -> (calls: Vec<
        DrawCall,
    >)
        ensures
            calls@ == draw_calls(primitive.inner()),
            final(self).spec_issued() == old(self).spec_issued() + draw_calls(primitive.inner()),
            final(self).spec_setup() == old(self).spec_setup(),
            forall|k: int| 0 <= k < calls@.len() ==> (#[trigger] calls@[k]).count >= 0,
            primitive.inner() matches GLRenderingPrimitive::FillPath { indices, .. }
                ==> calls@[0].count == indices@.len(),
    {
        proof {
            use_type_invariant(primitive);
        }
        let mut calls: Vec<DrawCall> = Vec::new();
        match primitive.get() {
            GLRenderingPrimitive::FillPath { vertices, indices, style } => {
                let call = DrawCall {
                    shader: ShaderKind::Path,
                    topology: Topology::TriangleStrip,
                    indexed: true,
                    count: indices.len() as i32,
                    color: Some(style.color()),
                    texture: None,
                    part: 0,
                };
                calls.push(call);
                self.issued.push(call);
                assert(calls@ =~= draw_calls(primitive.inner()));
            },
            GLRenderingPrimitive::Texture { vertices, texture_vertices, allocation } => {
                let call = DrawCall {
                    shader: ShaderKind::Image,
                    topology: Topology::Triangles,
                    indexed: false,
                    count: 6,
                    color: None,
                    texture: Some(allocation.texture),
                    part: 0,
                };
                calls.push(call);
                self.issued.push(call);
                assert(calls@ =~= draw_calls(primitive.inner()));
            },
            GLRenderingPrimitive::GlyphRuns { glyph_runs, color } => {
                let n: usize = glyph_runs.len();
                let mut k: usize = 0;
                while k < n
                    invariant
                        0 <= k <= n,
                        n == glyph_runs@.len(),
                        calls@.len() == k,
                        forall|j: int|
                            0 <= j < k ==> calls@[j] == glyph_draw_call(glyph_runs@[j], *color, j),
                        self.issued@ == old(self).issued@ + calls@,
                        self.setup == old(self).setup,
                    decreases n - k,
                {
                    let call = DrawCall {
                        shader: ShaderKind::Glyph,
                        topology: Topology::Triangles,
                        indexed: false,
                        count: glyph_runs[k].vertex_count,
                        color: Some(*color),
                        texture: Some(glyph_runs[k].texture),
                        part: k,
                    };
                    calls.push(call);
                    self.issued.push(call);
                    assert(self.issued@ =~= old(self).issued@ + calls@);
                    k = k + 1;
                }
                assert(calls@ =~= draw_calls(primitive.inner()));
            },
        }
        assert(self.issued@ =~= old(self).issued@ + calls@);
        calls
    }
}

/// The total of the counts of a sequence of draw calls.
pub open spec fn vertices_drawn(calls: Seq<DrawCall>) -> int
    decreases calls.len(),
{
    if calls.len() == 0 {
        0
    } else {
        vertices_drawn(calls.drop_last()) + calls.last().count
    }
}

/// Drawing a glyph run sends each vertex of its parts to the GPU once.
pub proof fn glyph_run_draws_its_vertices(runs: Seq<GlyphRun>, color: Color)
    ensures
        glyph_draw_calls(runs, color).len() == runs.len(),
        vertices_drawn(glyph_draw_calls(runs, color)) == GLRenderingPrimitive::vertex_total(runs),
    decreases runs.len(),
{
    if runs.len() > 0 {
        glyph_run_draws_its_vertices(runs.drop_last(), color);
        assert(glyph_draw_calls(runs, color).drop_last() =~= glyph_draw_calls(
            runs.drop_last(),
            color,
        ));
    }
}

/// Drawing a glyph run without parts issues no draw call.
pub proof fn empty_run_draws_nothing(primitive: GLRenderingPrimitive)
    requires
        primitive matches GLRenderingPrimitive::GlyphRuns { glyph_runs, color }
            && glyph_runs@.len() == 0,
    ensures
        draw_calls(primitive) == Seq::<DrawCall>::empty(),
        vertices_drawn(draw_calls(primitive)) == 0,
{
    assert(draw_calls(primitive) =~= Seq::<DrawCall>::empty());
}

} // verus!
