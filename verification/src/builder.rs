//! Building drawables: quads for images, meshes for paths, runs for text.

use vstd::prelude::*;
use crate::atlas::{
    atlas_after, atlas_grant, atlas_well_formed, AtlasAllocation, TextureAtlas, TextureState,
};
use crate::geometry::{points_of, quad_points, quad_vertices, Point, Rect, Vertex};
use crate::primitive::{
    Color, FillStyle, GLRenderingPrimitive, GlyphRun, Image, OpaqueRenderingPrimitive,
};
use crate::text::{
    atlas_after_request, cache_after_request, glyph_request, layout_glyphs, lemma_pen_position_bound,
    pen_position, CachedGlyph, GlyphBitmap, GlyphCache, GlyphKey, PositionedGlyph, MAX_RUN_GLYPHS,
};

verus! {

/// The backing textures that the first `n` glyphs touch, each once, in the
/// order in which the run first reaches them.
pub open spec fn run_textures(glyphs: Seq<CachedGlyph>, n: int) -> Seq<usize>
    decreases n,
{
    if n <= 0 {
        Seq::empty()
    } else {
        let before = run_textures(glyphs, n - 1);
        let texture = glyphs[n - 1].allocation.texture;
        if before.contains(texture) {
            before
        } else {
            before.push(texture)
        }
    }
}

/// The quad of glyph `i` on the base line: from the pen position to the
/// right by the bitmap's width, and down by its height.
pub open spec fn glyph_quad(glyphs: Seq<CachedGlyph>, i: int) -> Seq<Point> {
    let x = pen_position(glyphs, i);
    quad_points(
        x,
        0,
        x + glyphs[i].allocation.rect.width,
        glyphs[i].allocation.rect.height as int,
    )
}

/// The left edge of a glyph's quad is where the advances of the glyphs
/// before it have moved the pen; its top edge is the base line at 0, and its
/// size is that of the glyph's bitmap.
pub proof fn glyph_quad_starts_at_the_pen(glyphs: Seq<CachedGlyph>, i: int)
    requires
        0 <= i < glyphs.len(),
    ensures
        ({
            let q = glyph_quad(glyphs, i);
            &&& q.len() == 6
            &&& q[0] == (Point { x: pen_position(glyphs, i), y: 0 })
            &&& q[2] == (Point {
                x: pen_position(glyphs, i) + glyphs[i].allocation.rect.width,
                y: glyphs[i].allocation.rect.height as int,
            })
            &&& q[3] == q[0] && q[4] == q[2]
            &&& q[1] == (Point { x: q[2].x, y: 0 })
            &&& q[5] == (Point { x: q[0].x, y: q[2].y })
        }),
{
}

/// The position buffer of the part of a run that lives in `texture`: the
/// quads of those of the first `n` glyphs that do, in order.
pub open spec fn run_points(glyphs: Seq<CachedGlyph>, texture: usize, n: int) -> Seq<Point>
    decreases n,
{
    if n <= 0 {
        Seq::empty()
    } else if glyphs[n - 1].allocation.texture == texture {
        run_points(glyphs, texture, n - 1) + glyph_quad(glyphs, n - 1)
    } else {
        run_points(glyphs, texture, n - 1)
    }
}

/// The texture-coordinate buffer that goes with `run_points`.
pub open spec fn run_texels(glyphs: Seq<CachedGlyph>, texture: usize, n: int) -> Seq<Point>
    decreases n,
{
    if n <= 0 {
        Seq::empty()
    } else if glyphs[n - 1].allocation.texture == texture {
        run_texels(glyphs, texture, n - 1) + glyphs[n - 1].allocation.texel_quad()
    } else {
        run_texels(glyphs, texture, n - 1)
    }
}

/// How many of the first `n` glyphs live in `texture`.
pub open spec fn glyphs_in_texture(glyphs: Seq<CachedGlyph>, texture: usize, n: int) -> int
    decreases n,
{
    if n <= 0 {
        0
    } else if glyphs[n - 1].allocation.texture == texture {
        glyphs_in_texture(glyphs, texture, n - 1) + 1
    } else {
        glyphs_in_texture(glyphs, texture, n - 1)
    }
}

/// A part of a run holds six vertices for each of its glyphs.
pub proof fn lemma_run_lengths(glyphs: Seq<CachedGlyph>, texture: usize, n: int)
    requires
        0 <= n <= glyphs.len(),
    ensures
        0 <= glyphs_in_texture(glyphs, texture, n) <= n,
        run_points(glyphs, texture, n).len() == 6 * glyphs_in_texture(glyphs, texture, n),
        run_texels(glyphs, texture, n).len() == 6 * glyphs_in_texture(glyphs, texture, n),
    decreases n,
{
    if n > 0 {
        lemma_run_lengths(glyphs, texture, n - 1);
    }
}

/// The points of two buffers, one after the other.
pub proof fn lemma_points_of_concat(a: Seq<Vertex>, b: Seq<Vertex>)
    ensures
        points_of(a + b) == points_of(a) + points_of(b),
{
    assert(points_of(a + b) =~= points_of(a) + points_of(b));
}

/// Whether `runs` is the glyph run of `glyphs`: one part for each backing
/// texture touched, each with the quads of its glyphs.
pub open spec fn is_glyph_run_of(runs: Seq<GlyphRun>, glyphs: Seq<CachedGlyph>) -> bool {
    let textures = run_textures(glyphs, glyphs.len() as int);
    &&& runs.len() == textures.len()
    &&& forall|k: int|
        0 <= k < runs.len() ==> {
            &&& (#[trigger] runs[k]).texture == textures[k]
            &&& points_of(runs[k].vertices@) == run_points(
                glyphs,
                textures[k],
                glyphs.len() as int,
            )
            &&& points_of(runs[k].texture_vertices@) == run_texels(
                glyphs,
                textures[k],
                glyphs.len() as int,
            )
            &&& runs[k].vertex_count == 6 * glyphs_in_texture(
                glyphs,
                textures[k],
                glyphs.len() as int,
            )
        }
}

/// The textures that a run touches, each once.
fn touched_textures(glyphs: &Vec<CachedGlyph>) -> (textures: Vec<usize>)
    ensures
        textures@ == run_textures(glyphs@, glyphs@.len() as int),
{
    let n: usize = glyphs.len();
    let mut textures: Vec<usize> = Vec::new();
    let mut i: usize = 0;
    while i < n
        invariant
            0 <= i <= n,
            n == glyphs@.len(),
            textures@ == run_textures(glyphs@, i as int),
        decreases n - i,
    {
        let texture: usize = glyphs[i].allocation.texture;
        let m: usize = textures.len();
        let mut k: usize = 0;
        let mut seen = false;
        while k < m
            invariant
                0 <= k <= m,
                m == textures@.len(),
                seen ==> textures@.contains(texture),
                !seen ==> forall|j: int| 0 <= j < k ==> textures@[j] != texture,
            decreases m - k,
        {
            if textures[k] == texture {
                seen = true;
                assert(textures@[k as int] == texture);
            }
            k = k + 1;
        }
        if !seen {
            textures.push(texture);
        }
        i = i + 1;
    }
    textures
}

/// The part of a run that lives in one backing texture.
fn build_run(glyphs: &Vec<CachedGlyph>, placed: &Vec<PositionedGlyph>, texture: usize) -> (run:
    GlyphRun)
    requires
        glyphs@.len() <= MAX_RUN_GLYPHS,
        placed@.len() == glyphs@.len(),
        forall|i: int|
            0 <= i < glyphs@.len() ==> (#[trigger] placed@[i]).glyph == glyphs@[i] && placed@[i].x
                == pen_position(glyphs@, i),
    ensures
        run.texture == texture,
        points_of(run.vertices@) == run_points(glyphs@, texture, glyphs@.len() as int),
        points_of(run.texture_vertices@) == run_texels(glyphs@, texture, glyphs@.len() as int),
        run.vertex_count == 6 * glyphs_in_texture(glyphs@, texture, glyphs@.len() as int),
        run.vertex_count == run.vertices@.len(),
        run.texture_vertices@.len() == run.vertices@.len(),
{
    let n: usize = glyphs.len();
    let mut vertices: Vec<Vertex> = Vec::new();
    let mut texture_vertices: Vec<Vertex> = Vec::new();
    let mut i: usize = 0;
    assert(points_of(vertices@) =~= run_points(glyphs@, texture, 0));
    assert(points_of(texture_vertices@) =~= run_texels(glyphs@, texture, 0));
    while i < n
        invariant
            0 <= i <= n,
            n == glyphs@.len(),
            n <= MAX_RUN_GLYPHS,
            placed@.len() == n,
            forall|j: int|
                0 <= j < n ==> (#[trigger] placed@[j]).glyph == glyphs@[j] && placed@[j].x
                    == pen_position(glyphs@, j),
            points_of(vertices@) == run_points(glyphs@, texture, i as int),
            points_of(texture_vertices@) == run_texels(glyphs@, texture, i as int),
        decreases n - i,
    {
        let glyph = glyphs[i];
        if glyph.allocation.texture == texture {
            let x: i64 = placed[i].x;
            proof {
                lemma_pen_position_bound(glyphs@, i as int);
            }
            let mut quad = quad_vertices(
                x,
                0,
                x + glyph.allocation.rect.width as i64,
                glyph.allocation.rect.height as i64,
            );
            let mut texels = glyph.allocation.texture_vertices();
            proof {
                lemma_points_of_concat(vertices@, quad@);
                lemma_points_of_concat(texture_vertices@, texels@);
            }
            vertices.append(&mut quad);
            texture_vertices.append(&mut texels);
        }
        i = i + 1;
    }
    proof {
        lemma_run_lengths(glyphs@, texture, n as int);
        assert(points_of(vertices@).len() == vertices@.len());
        assert(points_of(texture_vertices@).len() == texture_vertices@.len());
    }
    let vertex_count: i32 = vertices.len() as i32;
    GlyphRun { vertices, texture_vertices, texture, vertex_count }
}

/// Builds the parts of a glyph run: the glyphs are laid out from left to
/// right, and the quads of those that share a backing texture go into one
/// pair of buffers. No glyphs give no parts.
pub fn build_glyph_runs(glyphs: &Vec<CachedGlyph>) -> (runs: Vec<GlyphRun>)
    requires
        glyphs@.len() <= MAX_RUN_GLYPHS,
    ensures
        is_glyph_run_of(runs@, glyphs@),
        GLRenderingPrimitive::counts_match(runs@),
{
    let placed = layout_glyphs(glyphs);
    let textures = touched_textures(glyphs);
    let m: usize = textures.len();
    let mut runs: Vec<GlyphRun> = Vec::new();
    let mut k: usize = 0;
    while k < m
        invariant
            0 <= k <= m,
            m == textures@.len(),
            textures@ == run_textures(glyphs@, glyphs@.len() as int),
            glyphs@.len() <= MAX_RUN_GLYPHS,
            placed@.len() == glyphs@.len(),
            forall|i: int|
                0 <= i < glyphs@.len() ==> (#[trigger] placed@[i]).glyph == glyphs@[i]
                    && placed@[i].x == pen_position(glyphs@, i),
            runs@.len() == k,
            forall|j: int|
                0 <= j < k ==> {
                    &&& (#[trigger] runs@[j]).texture == textures@[j]
                    &&& points_of(runs@[j].vertices@) == run_points(
                        glyphs@,
                        textures@[j],
                        glyphs@.len() as int,
                    )
                    &&& points_of(runs@[j].texture_vertices@) == run_texels(
                        glyphs@,
                        textures@[j],
                        glyphs@.len() as int,
                    )
                    &&& runs@[j].vertex_count == 6 * glyphs_in_texture(
                        glyphs@,
                        textures@[j],
                        glyphs@.len() as int,
                    )
                    &&& runs@[j].vertex_count == runs@[j].vertices@.len()
                    &&& runs@[j].texture_vertices@.len() == runs@[j].vertices@.len()
                },
        decreases m - k,
    {
        let run = build_run(glyphs, &placed, textures[k]);
        runs.push(run);
        k = k + 1;
    }
    runs
}

/// The builder of drawables. It holds the atlas and the glyph cache for as
/// long as the GPU context is current for building.
pub struct GLRenderingPrimitivesBuilder {
    texture_atlas: TextureAtlas,
    glyph_cache: GlyphCache,
}

impl GLRenderingPrimitivesBuilder {
    /// The atlas as it stands.
    pub closed spec fn atlas(&self) -> Seq<TextureState> {
        self.texture_atlas@
    }

    /// The glyph cache as it stands.
    pub closed spec fn glyphs(&self) -> Map<GlyphKey, CachedGlyph> {
        self.glyph_cache@
    }

    pub closed spec fn well_formed(&self) -> bool {
        atlas_well_formed(self.texture_atlas@) && self.glyph_cache.well_formed()
    }

    pub(crate) fn from_parts(texture_atlas: TextureAtlas, glyph_cache: GlyphCache) -> (builder:
        GLRenderingPrimitivesBuilder)
        requires
            atlas_well_formed(texture_atlas@),
            glyph_cache.well_formed(),
        ensures
            builder.well_formed(),
            builder.atlas() == texture_atlas@,
            builder.glyphs() == glyph_cache@,
    {
        GLRenderingPrimitivesBuilder { texture_atlas, glyph_cache }
    }

    pub(crate) fn into_parts(self) -> (parts: (TextureAtlas, GlyphCache))
        requires
            self.well_formed(),
        ensures
            atlas_well_formed(parts.0@),
            parts.1.well_formed(),
            parts.0@ == self.atlas(),
            parts.1@ == self.glyphs(),
    {
        (self.texture_atlas, self.glyph_cache)
    }

    /// Read access to the atlas.
    pub fn texture_atlas(&self) -> (atlas: &TextureAtlas)
        ensures
            atlas@ == self.atlas(),
    {
        &self.texture_atlas
    }

    /// Makes the drawable of a filled path from its triangulated mesh.
    pub fn create_path_fill_primitive(
        &mut self,
        vertices: Vec<Vertex>,
        indices: Vec<u16>,
        style: FillStyle,
    ) -> (primitive: OpaqueRenderingPrimitive)
        requires
            indices@.len() <= i32::MAX,
        ensures
            primitive.inner() == (GLRenderingPrimitive::FillPath { vertices, indices, style }),
            primitive.well_formed(),
            *final(self) == *old(self),
    {
        OpaqueRenderingPrimitive::wrap(GLRenderingPrimitive::FillPath { vertices, indices, style })
    }

    /// Makes the drawable of an image: room for it is reserved in the atlas,
    /// the quad covers `dest_rect`, and the texture coordinates are the
    /// corners of the reserved rectangle.
    pub fn create_image_primitive(&mut self, dest_rect: Rect, image: &Image) -> (primitive:
        OpaqueRenderingPrimitive)
        requires
            old(self).well_formed(),
        ensures
            final(self).well_formed(),
            final(self).atlas() == atlas_after(
                old(self).atlas(),
                image.spec_width(),
                image.spec_height(),
            ),
            final(self).glyphs() == old(self).glyphs(),
            primitive.well_formed(),
            is_image_quad(
                primitive.inner(),
                dest_rect,
                atlas_grant(old(self).atlas(), image.spec_width(), image.spec_height()),
            ),
    {
        let allocation = self.texture_atlas.allocate(image.width(), image.height());
        let vertices = dest_rect.quad();
        let texture_vertices = allocation.texture_vertices();
        assert(points_of(vertices@).len() == vertices@.len());
        assert(points_of(texture_vertices@).len() == texture_vertices@.len());
        OpaqueRenderingPrimitive::wrap(
            GLRenderingPrimitive::Texture { vertices, texture_vertices, allocation },
        )
    }

    /// The cached glyph for `key`, if there is one.
    pub fn cached_glyph(&self, key: GlyphKey) -> (found: Option<CachedGlyph>)
        requires
            self.well_formed(),
        ensures
            found == (if self.glyphs().contains_key(key) {
                Some(self.glyphs()[key])
            } else {
                None
            }),
    {
        self.glyph_cache.lookup(key)
    }

    /// Gives the glyph for `key`, placing `bitmap` in the atlas where the
    /// glyph was not cached; the flag says whether the bitmap has to be
    /// uploaded.
    pub fn glyph(&mut self, key: GlyphKey, bitmap: GlyphBitmap) -> (got: (CachedGlyph, bool))
        requires
            old(self).well_formed(),
        ensures
            final(self).well_formed(),
            got == glyph_request(old(self).glyphs(), old(self).atlas(), key, bitmap),
            final(self).glyphs() == cache_after_request(
                old(self).glyphs(),
                old(self).atlas(),
                key,
                bitmap,
            ),
            final(self).atlas() == atlas_after_request(
                old(self).glyphs(),
                old(self).atlas(),
                key,
                bitmap,
            ),
    {
        self.glyph_cache.request(&mut self.texture_atlas, key, bitmap)
    }

    /// Makes the drawable of a run of glyphs in one colour.
    pub fn create_glyphs(&mut self, glyphs: &Vec<CachedGlyph>, color: Color) -> (primitive:
        OpaqueRenderingPrimitive)
        requires
            glyphs@.len() <= MAX_RUN_GLYPHS,
        ensures
            *final(self) == *old(self),
            primitive.well_formed(),
            is_glyph_primitive(primitive.inner(), glyphs@, color),
    {
        let glyph_runs = build_glyph_runs(glyphs);
        OpaqueRenderingPrimitive::wrap(GLRenderingPrimitive::GlyphRuns { glyph_runs, color })
    }
}

/// Whether `primitive` draws an image into `dest_rect` from `allocation`.
pub open spec fn is_image_quad(
    primitive: GLRenderingPrimitive,
    dest_rect: Rect,
    allocation: AtlasAllocation,
) -> bool {
    match primitive {
        GLRenderingPrimitive::Texture { vertices, texture_vertices, allocation: used } => {
            &&& used == allocation
            &&& points_of(vertices@) == quad_points(
                dest_rect.min_x(),
                dest_rect.min_y(),
                dest_rect.max_x(),
                dest_rect.max_y(),
            )
            &&& points_of(texture_vertices@) == allocation.texel_quad()
        },
        _ => false,
    }
}

/// Whether `primitive` is the run of `glyphs` in `color`.
pub open spec fn is_glyph_primitive(
    primitive: GLRenderingPrimitive,
    glyphs: Seq<CachedGlyph>,
    color: Color,
) -> bool {
    match primitive {
        GLRenderingPrimitive::GlyphRuns { glyph_runs, color: used } => {
            used == color && is_glyph_run_of(glyph_runs@, glyphs)
        },
        _ => false,
    }
}

/// A run without glyphs has no parts: nothing is drawn for an empty text.
pub proof fn empty_run_has_no_parts(runs: Seq<GlyphRun>)
    requires
        is_glyph_run_of(runs, Seq::<CachedGlyph>::empty()),
    ensures
        runs.len() == 0,
        GLRenderingPrimitive::vertex_total(runs) == 0,
{
}

/// How many glyphs among the first `n` live in one of `textures`, a texture
/// that stands there twice counted twice.
pub open spec fn glyphs_in_textures(glyphs: Seq<CachedGlyph>, textures: Seq<usize>, n: int) -> int
    decreases textures.len(),
{
    if textures.len() == 0 {
        0
    } else {
        glyphs_in_textures(glyphs, textures.drop_last(), n) + glyphs_in_texture(
            glyphs,
            textures.last(),
            n,
        )
    }
}

/// How often `texture` stands in `textures`.
pub open spec fn occurrences(textures: Seq<usize>, texture: usize) -> int
    decreases textures.len(),
{
    if textures.len() == 0 {
        0
    } else {
        occurrences(textures.drop_last(), texture) + if textures.last() == texture {
            1int
        } else {
            0int
        }
    }
}

/// The textures of a run stand there once each, and a texture that does not
/// stand there holds none of the run's glyphs.
pub proof fn lemma_run_textures_are_distinct(glyphs: Seq<CachedGlyph>, n: int, texture: usize)
    requires
        0 <= n <= glyphs.len(),
    ensures
        run_textures(glyphs, n).contains(texture) ==> occurrences(run_textures(glyphs, n), texture)
            == 1,
        !run_textures(glyphs, n).contains(texture) ==> occurrences(
            run_textures(glyphs, n),
            texture,
        ) == 0 && glyphs_in_texture(glyphs, texture, n) == 0,
    decreases n,
{
    if n > 0 {
        let before = run_textures(glyphs, n - 1);
        let added = glyphs[n - 1].allocation.texture;
        lemma_run_textures_are_distinct(glyphs, n - 1, texture);
        lemma_run_textures_are_distinct(glyphs, n - 1, added);
        if !before.contains(added) {
            let after = before.push(added);
            assert(after.drop_last() =~= before);
            assert(after.last() == added);
            assert(after[before.len() as int] == added);
            if before.contains(texture) {
                let i = choose|i: int| 0 <= i < before.len() && before[i] == texture;
                assert(after[i] == texture);
            }
            if after.contains(texture) && texture != added {
                let i = choose|i: int| 0 <= i < after.len() && after[i] == texture;
                assert(before[i] == texture);
            }
        }
    }
}

/// One more glyph adds one to the sum for each time its texture stands in `textures`.
pub proof fn lemma_glyphs_in_textures_step(glyphs: Seq<CachedGlyph>, textures: Seq<usize>, n: int)
    requires
        0 < n <= glyphs.len(),
    ensures
        glyphs_in_textures(glyphs, textures, n) == glyphs_in_textures(glyphs, textures, n - 1)
            + occurrences(textures, glyphs[n - 1].allocation.texture),
    decreases textures.len(),
{
    if textures.len() > 0 {
        lemma_glyphs_in_textures_step(glyphs, textures.drop_last(), n);
    }
}

/// Every glyph is counted once over the textures of its run.
pub proof fn lemma_run_textures_count_every_glyph(glyphs: Seq<CachedGlyph>, n: int)
    requires
        0 <= n <= glyphs.len(),
    ensures
        glyphs_in_textures(glyphs, run_textures(glyphs, n), n) == n,
    decreases n,
{
    if n > 0 {
        let before = run_textures(glyphs, n - 1);
        let added = glyphs[n - 1].allocation.texture;
        lemma_run_textures_count_every_glyph(glyphs, n - 1);
        lemma_run_textures_are_distinct(glyphs, n - 1, added);
        lemma_glyphs_in_textures_step(glyphs, before, n);
        if !before.contains(added) {
            let after = before.push(added);
            assert(after.drop_last() =~= before);
            assert(after.last() == added);
        }
    }
}

/// Parts whose counts are six times the glyphs in their textures hold six
/// vertices for each glyph counted over those textures.
pub proof fn lemma_vertex_total(
    runs: Seq<GlyphRun>,
    glyphs: Seq<CachedGlyph>,
    textures: Seq<usize>,
)
    requires
        runs.len() == textures.len(),
        forall|k: int|
            0 <= k < runs.len() ==> (#[trigger] runs[k]).vertex_count == 6 * glyphs_in_texture(
                glyphs,
                textures[k],
                glyphs.len() as int,
            ),
    ensures
        GLRenderingPrimitive::vertex_total(runs) == 6 * glyphs_in_textures(
            glyphs,
            textures,
            glyphs.len() as int,
        ),
    decreases runs.len(),
{
    if runs.len() > 0 {
        let shorter = runs.drop_last();
        assert forall|k: int| 0 <= k < shorter.len() implies (#[trigger] shorter[k]).vertex_count
            == 6 * glyphs_in_texture(glyphs, textures.drop_last()[k], glyphs.len() as int) by {
            assert(shorter[k] == runs[k]);
        }
        lemma_vertex_total(shorter, glyphs, textures.drop_last());
        assert(runs.last() == runs[runs.len() - 1]);
    }
}

/// A glyph run drops no glyph: its parts together hold six vertices for
/// each glyph of the text, in however many backing textures the glyphs live.
pub proof fn glyph_run_holds_every_glyph(runs: Seq<GlyphRun>, glyphs: Seq<CachedGlyph>)
    requires
        is_glyph_run_of(runs, glyphs),
    ensures
        GLRenderingPrimitive::vertex_total(runs) == 6 * glyphs.len(),
{
    let n = glyphs.len() as int;
    lemma_vertex_total(runs, glyphs, run_textures(glyphs, n));
    lemma_run_textures_count_every_glyph(glyphs, n);
}

} // verus!
