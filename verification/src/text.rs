//! The glyph cache and the layout of a run of glyphs.

use vstd::prelude::*;
use crate::atlas::{
    atlas_after, atlas_grant, atlas_well_formed, AtlasAllocation, TextureAtlas,
};

verus! {

/// What identifies a rasterized glyph: the font, the glyph in it, the pixel size.
#[derive(Clone, Copy, Debug, PartialEq, Eq, Structural)]
pub struct GlyphKey {
    pub font: u32,
    pub glyph: u32,
    pub size: u32,
}

/// What rasterizing a glyph gives: the size of its bitmap and its advance.
#[derive(Clone, Copy, Debug, PartialEq, Eq, Structural)]
pub struct GlyphBitmap {
    pub width: u32,
    pub height: u32,
    pub advance: i32,
}

/// A glyph that lives in the atlas.
#[derive(Clone, Copy, Debug, PartialEq, Eq, Structural)]
pub struct CachedGlyph {
    pub allocation: AtlasAllocation,
    pub advance: i32,
}

/// The glyphs that were rasterized so far. An entry never changes.
pub struct GlyphCache {
    entries: Vec<(GlyphKey, CachedGlyph)>,
    model: Ghost<Map<GlyphKey, CachedGlyph>>,
}

impl View for GlyphCache {
    type V = Map<GlyphKey, CachedGlyph>;

    closed spec fn view(&self) -> Map<GlyphKey, CachedGlyph> {
        self.model@
    }
}

impl GlyphCache {
    /// The entries and the map say the same.
    pub closed spec fn well_formed(&self) -> bool {
        &&& forall|i: int|
            0 <= i < self.entries@.len() ==> self.model@.contains_key(
                (#[trigger] self.entries@[i]).0,
            ) && self.model@[self.entries@[i].0] == self.entries@[i].1
        &&& forall|k: GlyphKey| #[trigger]
            self.model@.contains_key(k) ==> exists|i: int|
                0 <= i < self.entries@.len() && (#[trigger] self.entries@[i]).0 == k
    }

    /// A cache without entries.
    pub fn new() -> (cache: GlyphCache)
        ensures
            cache.well_formed(),
            cache@ == Map::<GlyphKey, CachedGlyph>::empty(),
    {
        GlyphCache { entries: Vec::new(), model: Ghost(Map::empty()) }
    }

    /// Number of cached glyphs.
    pub fn len(&self) -> (n: usize)
        ensures
            n == self.spec_len(),
    {
        self.entries.len()
    }

    /// Number of entries that the cache stores.
    pub closed spec fn spec_len(&self) -> nat {
        self.entries@.len()
    }

    /// The cached glyph for `key`, if it was rasterized before.
    pub fn lookup(&self, key: GlyphKey) -> (found: Option<CachedGlyph>)
        requires
            self.well_formed(),
        ensures
            found == (if self@.contains_key(key) {
                Some(self@[key])
            } else {
                None
            }),
    {
        let n: usize = self.entries.len();
        let mut i: usize = 0;
        while i < n
            invariant
                0 <= i <= n,
                n == self.entries@.len(),
                self.well_formed(),
                forall|j: int| 0 <= j < i ==> (#[trigger] self.entries@[j]).0 != key,
            decreases n - i,
        {
            let entry = self.entries[i];
            if entry.0 == key {
                return Some(entry.1);
            }
            i = i + 1;
        }
        None
    }

    /// Gives the cached glyph for `key`. Where there is none yet, room for
    /// `bitmap` is reserved in the atlas, the new glyph is remembered, and the
    /// flag tells the caller to upload the bitmap.
    pub fn request(&mut self, atlas: &mut TextureAtlas, key: GlyphKey, bitmap: GlyphBitmap) -> (got:
        (CachedGlyph, bool))
        requires
            old(self).well_formed(),
            atlas_well_formed(old(atlas)@),
        ensures
            final(self).well_formed(),
            atlas_well_formed(final(atlas)@),
            got == glyph_request(old(self)@, old(atlas)@, key, bitmap),
            final(self)@ == cache_after_request(old(self)@, old(atlas)@, key, bitmap),
            final(atlas)@ == atlas_after_request(old(self)@, old(atlas)@, key, bitmap),
            old(self)@.contains_key(key) ==> final(self).spec_len() == old(self).spec_len(),
            !old(self)@.contains_key(key) ==> final(self).spec_len() == old(self).spec_len() + 1,
    {
        match self.lookup(key) {
            Some(glyph) => (glyph, false),
            None => {
                let allocation = atlas.allocate(bitmap.width, bitmap.height);
                let glyph = CachedGlyph { allocation, advance: bitmap.advance };
                self.entries.push((key, glyph));
                self.model = Ghost(self.model@.insert(key, glyph));
                proof {
                    let ghost before = old(self).entries@;
                    assert forall|k: GlyphKey| #[trigger]
                        self.model@.contains_key(k) implies exists|i: int|
                        0 <= i < self.entries@.len() && (#[trigger] self.entries@[i]).0 == k by {
                        if k == key {
                            assert(self.entries@[before.len() as int].0 == k);
                        } else {
                            assert(old(self).model@.contains_key(k));
                            let i = choose|i: int|
                                0 <= i < before.len() && (#[trigger] before[i]).0 == k;
                            assert(self.entries@[i].0 == k);
                        }
                    }
                    assert forall|i: int| 0 <= i < self.entries@.len() implies self.model@.contains_key(
                        (#[trigger] self.entries@[i]).0,
                    ) && self.model@[self.entries@[i].0] == self.entries@[i].1 by {
                        if i < before.len() {
                            assert(before[i].0 != key);
                        }
                    }
                }
                (glyph, true)
            },
        }
    }
}

/// What a request returns: the cached glyph and `false`, or the newly placed
/// glyph and `true`.
pub open spec fn glyph_request(
    cache: Map<GlyphKey, CachedGlyph>,
    atlas: Seq<crate::atlas::TextureState>,
    key: GlyphKey,
    bitmap: GlyphBitmap,
) -> (CachedGlyph, bool) {
    if cache.contains_key(key) {
        (cache[key], false)
    } else {
        (
            CachedGlyph {
                allocation: atlas_grant(atlas, bitmap.width, bitmap.height),
                advance: bitmap.advance,
            },
            true,
        )
    }
}

/// The cache after a request.
pub open spec fn cache_after_request(
    cache: Map<GlyphKey, CachedGlyph>,
    atlas: Seq<crate::atlas::TextureState>,
    key: GlyphKey,
    bitmap: GlyphBitmap,
) -> Map<GlyphKey, CachedGlyph> {
    cache.insert(key, glyph_request(cache, atlas, key, bitmap).0)
}

/// The atlas after a request: untouched where the glyph was cached.
pub open spec fn atlas_after_request(
    cache: Map<GlyphKey, CachedGlyph>,
    atlas: Seq<crate::atlas::TextureState>,
    key: GlyphKey,
    bitmap: GlyphBitmap,
) -> Seq<crate::atlas::TextureState> {
    if cache.contains_key(key) {
        atlas
    } else {
        atlas_after(atlas, bitmap.width, bitmap.height)
    }
}

/// Asking twice for one glyph gives the same cached glyph both times; the
/// second request uploads nothing and leaves cache and atlas as they were,
/// whatever bitmap comes with it.
pub proof fn glyph_request_is_idempotent(
    cache: Map<GlyphKey, CachedGlyph>,
    atlas: Seq<crate::atlas::TextureState>,
    key: GlyphKey,
    first: GlyphBitmap,
    second: GlyphBitmap,
)
    ensures
        ({
            let cache1 = cache_after_request(cache, atlas, key, first);
            let atlas1 = atlas_after_request(cache, atlas, key, first);
            &&& glyph_request(cache1, atlas1, key, second) == (
                glyph_request(cache, atlas, key, first).0,
                false,
            )
            &&& cache_after_request(cache1, atlas1, key, second) == cache1
            &&& atlas_after_request(cache1, atlas1, key, second) == atlas1
        }),
{
    let cache1 = cache_after_request(cache, atlas, key, first);
    let atlas1 = atlas_after_request(cache, atlas, key, first);
    assert(cache_after_request(cache1, atlas1, key, second) =~= cache1);
}

/// A request never changes the entry of another glyph, nor of one that was
/// cached before.
pub proof fn cached_glyphs_are_immutable(
    cache: Map<GlyphKey, CachedGlyph>,
    atlas: Seq<crate::atlas::TextureState>,
    key: GlyphKey,
    bitmap: GlyphBitmap,
    other: GlyphKey,
)
    requires
        cache.contains_key(other),
    ensures
        cache_after_request(cache, atlas, key, bitmap).contains_key(other),
        cache_after_request(cache, atlas, key, bitmap)[other] == cache[other],
{
}

/// Where the pen stands before glyph `i`: the sum of the advances of the
/// glyphs before it.
pub open spec fn pen_position(glyphs: Seq<CachedGlyph>, i: int) -> int
    decreases i,
{
    if i <= 0 {
        0
    } else {
        pen_position(glyphs, i - 1) + glyphs[i - 1].advance
    }
}

/// Where no advance is negative, the pen never moves back.
pub proof fn pen_position_is_monotonic(glyphs: Seq<CachedGlyph>, i: int, j: int)
    requires
        0 <= i <= j <= glyphs.len(),
        forall|k: int| 0 <= k < glyphs.len() ==> (#[trigger] glyphs[k]).advance >= 0,
    ensures
        pen_position(glyphs, i) <= pen_position(glyphs, j),
    decreases j - i,
{
    if i < j {
        pen_position_is_monotonic(glyphs, i, j - 1);
        assert(glyphs[j - 1].advance >= 0);
    }
}

/// A glyph with the place of its left edge.
#[derive(Clone, Copy, Debug, PartialEq, Eq, Structural)]
pub struct PositionedGlyph {
    pub glyph: CachedGlyph,
    pub x: i64,
}

/// The most glyphs that one run can hold: six vertices each, counted in an `i32`.
pub const MAX_RUN_GLYPHS: usize = 357913941;

/// The pen never leaves the range that the advances allow.
pub proof fn lemma_pen_position_bound(glyphs: Seq<CachedGlyph>, i: int)
    requires
        0 <= i <= glyphs.len(),
    ensures
        -i * 0x8000_0000 <= pen_position(glyphs, i) <= i * 0x8000_0000,
    decreases i,
{
    if i > 0 {
        lemma_pen_position_bound(glyphs, i - 1);
    }
}

/// Lays the glyphs out from left to right, starting at 0: each glyph stands
/// where the advances of the glyphs before it have moved the pen.
pub fn layout_glyphs(glyphs: &Vec<CachedGlyph>) -> (placed: Vec<PositionedGlyph>)
    requires
        glyphs@.len() <= MAX_RUN_GLYPHS,
    ensures
        placed@.len() == glyphs@.len(),
        forall|i: int|
            0 <= i < glyphs@.len() ==> (#[trigger] placed@[i]).glyph == glyphs@[i] && placed@[i].x
                == pen_position(glyphs@, i),
{
    let n: usize = glyphs.len();
    let mut placed: Vec<PositionedGlyph> = Vec::new();
    let mut x: i64 = 0;
    let mut i: usize = 0;
    while i < n
        invariant
            0 <= i <= n,
            n == glyphs@.len(),
            n <= MAX_RUN_GLYPHS,
            placed@.len() == i,
            x == pen_position(glyphs@, i as int),
            forall|j: int|
                0 <= j < i ==> (#[trigger] placed@[j]).glyph == glyphs@[j] && placed@[j].x
                    == pen_position(glyphs@, j),
        decreases n - i,
    {
        let glyph = glyphs[i];
        placed.push(PositionedGlyph { glyph, x });
        proof {
            lemma_pen_position_bound(glyphs@, i as int);
            lemma_pen_position_bound(glyphs@, i as int + 1);
        }
        x = x + glyph.advance as i64;
        i = i + 1;
    }
    placed
}

} // verus!
