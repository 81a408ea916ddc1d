//! The renderer: owner of the atlas and the glyph cache, and keeper of the
//! rule that the GPU context has one holder at a time.

use vstd::prelude::*;
use crate::atlas::{atlas_well_formed, TextureAtlas, TextureState};
use crate::builder::GLRenderingPrimitivesBuilder;
use crate::frame::{frame_setup, DrawCall, GLFrame, ShaderKind};
use crate::primitive::Color;
use crate::text::{CachedGlyph, GlyphCache, GlyphKey};

verus! {

/// Who holds the GPU context.
#[derive(Clone, Copy, Debug, PartialEq, Eq, Structural)]
pub enum ContextHolder {
    /// Nobody draws or builds; the context is not current.
    Renderer,
    /// A builder holds it, together with the atlas and the glyph cache.
    Builder,
    /// A frame holds it.
    Frame,
}

/// The renderer of one window.
pub struct GLRenderer {
    holder: ContextHolder,
    texture_atlas: TextureAtlas,
    glyph_cache: GlyphCache,
}

impl GLRenderer {
    /// Who holds the GPU context.
    pub closed spec fn holder(&self) -> ContextHolder {
        self.holder
    }

    /// The atlas, while the renderer has it.
    pub closed spec fn atlas(&self) -> Seq<TextureState> {
        self.texture_atlas@
    }

    /// The glyph cache, while the renderer has it.
    pub closed spec fn glyphs(&self) -> Map<GlyphKey, CachedGlyph> {
        self.glyph_cache@
    }

    pub closed spec fn well_formed(&self) -> bool {
        atlas_well_formed(self.texture_atlas@) && self.glyph_cache.well_formed()
    }

    /// A renderer with an empty atlas and an empty glyph cache; the context
    /// is not current.
    pub fn new() -> (renderer: GLRenderer)
        ensures
            renderer.well_formed(),
            renderer.holder() == ContextHolder::Renderer,
            renderer.atlas() == Seq::<TextureState>::empty(),
            renderer.glyphs() == Map::<GlyphKey, CachedGlyph>::empty(),
    {
        GLRenderer {
            holder: ContextHolder::Renderer,
            texture_atlas: TextureAtlas::new(),
            glyph_cache: GlyphCache::new(),
        }
    }

    /// Who holds the GPU context.
    pub fn context_holder(&self) -> (holder: ContextHolder)
        ensures
            holder == self.holder(),
    {
        self.holder
    }

    /// Read access to the atlas.
    pub fn texture_atlas(&self) -> (atlas: &TextureAtlas)
        ensures
            atlas@ == self.atlas(),
    {
        &self.texture_atlas
    }

    /// Hands the context, the atlas and the glyph cache to a new builder.
    pub fn new_rendering_primitives_builder(&mut self) -> (builder: GLRenderingPrimitivesBuilder)
        requires
            old(self).well_formed(),
            old(self).holder() == ContextHolder::Renderer,
        ensures
            final(self).well_formed(),
            final(self).holder() == ContextHolder::Builder,
            builder.well_formed(),
            builder.atlas() == old(self).atlas(),
            builder.glyphs() == old(self).glyphs(),
    {
        let mut texture_atlas = TextureAtlas::new();
        let mut glyph_cache = GlyphCache::new();
        core::mem::swap(&mut texture_atlas, &mut self.texture_atlas);
        core::mem::swap(&mut glyph_cache, &mut self.glyph_cache);
        self.holder = ContextHolder::Builder;
        GLRenderingPrimitivesBuilder::from_parts(texture_atlas, glyph_cache)
    }

    /// Takes the context, the atlas and the glyph cache back from the builder.
    pub fn finish_primitives(&mut self, builder: GLRenderingPrimitivesBuilder)
        requires
            old(self).holder() == ContextHolder::Builder,
            builder.well_formed(),
        ensures
            final(self).well_formed(),
            final(self).holder() == ContextHolder::Renderer,
            final(self).atlas() == builder.atlas(),
            final(self).glyphs() == builder.glyphs(),
    {
        let (texture_atlas, glyph_cache) = builder.into_parts();
        self.texture_atlas = texture_atlas;
        self.glyph_cache = glyph_cache;
        self.holder = ContextHolder::Renderer;
    }

    /// Starts a render pass over a surface of the given size and hands it the
    /// context. The pass starts with no draw call issued.
    pub fn new_frame(&mut self, width: u32, height: u32, clear_color: &Color) -> (frame: GLFrame)
        requires
            old(self).holder() == ContextHolder::Renderer,
            width <= i32::MAX,
            height <= i32::MAX,
        ensures
            final(self).holder() == ContextHolder::Frame,
            final(self).atlas() == old(self).atlas(),
            final(self).glyphs() == old(self).glyphs(),
            final(self).well_formed() == old(self).well_formed(),
            frame.spec_setup() == frame_setup(width, height, *clear_color),
            frame.spec_setup().viewport_width == width,
            frame.spec_setup().viewport_height == height,
            frame.spec_setup().right == width,
            frame.spec_setup().bottom == height,
            frame.spec_issued() == Seq::<DrawCall>::empty(),
    {
        self.holder = ContextHolder::Frame;
        GLFrame::start(width, height, *clear_color)
    }

    /// Ends a render pass: the buffers are to be swapped, and the context
    /// comes back. Nothing of the pass stays behind in the renderer.
    pub fn present_frame(&mut self, frame: GLFrame)
        requires
            old(self).holder() == ContextHolder::Frame,
        ensures
            final(self).holder() == ContextHolder::Renderer,
            final(self).atlas() == old(self).atlas(),
            final(self).glyphs() == old(self).glyphs(),
            final(self).well_formed() == old(self).well_formed(),
    {
        self.holder = ContextHolder::Renderer;
    }

    /// Ends the renderer's life: gives the pipelines whose GPU programs have
    /// to be released, each once.
    pub fn teardown(self) -> (programs: Vec<ShaderKind>)
        ensures
            programs@ == seq![ShaderKind::Path, ShaderKind::Image, ShaderKind::Glyph],
    {
        let mut programs: Vec<ShaderKind> = Vec::new();
        programs.push(ShaderKind::Path);
        programs.push(ShaderKind::Image);
        programs.push(ShaderKind::Glyph);
        assert(programs@ =~= seq![ShaderKind::Path, ShaderKind::Image, ShaderKind::Glyph]);
        programs
    }
}

} // verus!
