//! The texture atlas: backing textures cut into rectangles that never overlap.
//!
//! Each backing texture is filled shelf by shelf. A shelf is a horizontal band;
//! rectangles are placed in it from left to right, and a new shelf is opened
//! below it when the next rectangle does not fit.

use vstd::prelude::*;
use crate::geometry::{quad_points, quad_vertices, points_of, Vertex};

verus! {

/// Side length of a backing texture, unless a larger image forces a larger one.
pub const ATLAS_SIZE: u32 = 2048;

/// A rectangle of texels inside one backing texture.
#[derive(Clone, Copy, Debug, PartialEq, Eq, Structural)]
pub struct TexelRect {
    pub x: u32,
    pub y: u32,
    pub width: u32,
    pub height: u32,
}

impl TexelRect {
    pub open spec fn right(self) -> int {
        self.x + self.width
    }

    pub open spec fn bottom(self) -> int {
        self.y + self.height
    }

    /// Whether the texel in column `tx` and row `ty` belongs to the rectangle.
    pub open spec fn covers(self, tx: int, ty: int) -> bool {
        self.x <= tx < self.right() && self.y <= ty < self.bottom()
    }

    /// Whether a vertical or horizontal line separates the two rectangles.
    pub open spec fn apart_from(self, other: TexelRect) -> bool {
        self.right() <= other.x || other.right() <= self.x || self.bottom() <= other.y
            || other.bottom() <= self.y
    }

    /// Whether the rectangle lies inside a texture of the given size.
    pub open spec fn within(self, width: int, height: int) -> bool {
        self.right() <= width && self.bottom() <= height
    }
}

/// Size and fill state of one backing texture.
#[derive(Clone, Copy, Debug, PartialEq, Eq, Structural)]
pub struct Shelf {
    /// Size of the texture.
    pub width: u32,
    pub height: u32,
    /// Top of the shelf that is being filled.
    pub top: u32,
    /// Height of the tallest rectangle in that shelf.
    pub tall: u32,
    /// First free column of that shelf.
    pub cursor: u32,
}

impl Shelf {
    pub open spec fn well_formed(self) -> bool {
        self.cursor <= self.width && self.top + self.tall <= self.height
    }

    /// Whether a rectangle of this size goes into the shelf that is being filled.
    pub open spec fn fits_in_row(self, width: u32, height: u32) -> bool {
        self.cursor + width <= self.width && self.top + height <= self.height
    }

    /// Whether a rectangle of this size goes into a new shelf below.
    pub open spec fn fits_below(self, width: u32, height: u32) -> bool {
        width <= self.width && self.top + self.tall + height <= self.height
    }

    pub open spec fn fits(self, width: u32, height: u32) -> bool {
        self.fits_in_row(width, height) || self.fits_below(width, height)
    }

    /// Where a rectangle that fits is placed.
    pub open spec fn place(self, width: u32, height: u32) -> TexelRect {
        if self.fits_in_row(width, height) {
            TexelRect { x: self.cursor, y: self.top, width, height }
        } else {
            TexelRect { x: 0, y: (self.top + self.tall) as u32, width, height }
        }
    }

    /// The fill state after a rectangle that fits was placed.
    pub open spec fn advance(self, width: u32, height: u32) -> Shelf {
        if self.fits_in_row(width, height) {
            Shelf {
                cursor: (self.cursor + width) as u32,
                tall: if height > self.tall { height } else { self.tall },
                ..self
            }
        } else {
            Shelf { top: (self.top + self.tall) as u32, tall: height, cursor: width, ..self }
        }
    }

    /// The state of a new texture made for a first rectangle of this size.
    pub open spec fn fresh(width: u32, height: u32) -> Shelf {
        Shelf {
            width: if width > ATLAS_SIZE { width } else { ATLAS_SIZE },
            height: if height > ATLAS_SIZE { height } else { ATLAS_SIZE },
            top: 0,
            tall: 0,
            cursor: 0,
        }
    }

    /// Whether a rectangle of this size fits.
    pub fn can_fit(&self, width: u32, height: u32) -> (yes: bool)
        ensures
            yes == self.fits(width, height),
    {
        let w: u64 = width as u64;
        let h: u64 = height as u64;
        (self.cursor as u64 + w <= self.width as u64 && self.top as u64 + h <= self.height as u64)
            || (width <= self.width && self.top as u64 + self.tall as u64 + h
            <= self.height as u64)
    }

    /// Reserves a rectangle if it fits, and says where.
    pub fn reserve(&mut self, width: u32, height: u32) -> (placed: Option<TexelRect>)
        requires
            old(self).well_formed(),
        ensures
            final(self).well_formed(),
            old(self).fits(width, height) ==> placed == Some(old(self).place(width, height))
                && *final(self) == old(self).advance(width, height),
            !old(self).fits(width, height) ==> placed.is_none() && *final(self) == *old(self),
    {
        let w: u64 = width as u64;
        let h: u64 = height as u64;
        if self.cursor as u64 + w <= self.width as u64 && self.top as u64 + h
            <= self.height as u64 {
            let rect = TexelRect { x: self.cursor, y: self.top, width, height };
            self.cursor = self.cursor + width;
            if height > self.tall {
                self.tall = height;
            }
            Some(rect)
        } else if width <= self.width && self.top as u64 + self.tall as u64 + h
            <= self.height as u64 {
            let y: u32 = self.top + self.tall;
            self.top = y;
            self.tall = height;
            self.cursor = width;
            Some(TexelRect { x: 0, y, width, height })
        } else {
            None
        }
    }
}

/// What a backing texture is, to a contract.
pub struct TextureState {
    pub shelf: Shelf,
    pub allocations: Seq<TexelRect>,
}

impl TextureState {
    /// Every rectangle lies inside the texture, above the open shelf or in its
    /// filled part, and no two of them share a texel.
    pub open spec fn well_formed(self) -> bool {
        &&& self.shelf.well_formed()
        &&& forall|i: int|
            0 <= i < self.allocations.len() ==> self.settled(#[trigger] self.allocations[i])
        &&& forall|i: int, j: int|
            0 <= i < j < self.allocations.len() ==> (#[trigger] self.allocations[i]).apart_from(
                #[trigger] self.allocations[j],
            )
    }

    /// Whether `r` lies inside the texture and outside the room that is
    /// still free: above the open shelf, or in the part of it that is filled.
    pub open spec fn settled(self, r: TexelRect) -> bool {
        &&& r.within(self.shelf.width as int, self.shelf.height as int)
        &&& (r.bottom() <= self.shelf.top || (r.y == self.shelf.top && r.bottom()
            <= self.shelf.top + self.shelf.tall && r.right() <= self.shelf.cursor))
    }

    /// The texture after a rectangle that fits was placed.
    pub open spec fn allocate(self, width: u32, height: u32) -> TextureState {
        TextureState {
            shelf: self.shelf.advance(width, height),
            allocations: self.allocations.push(self.shelf.place(width, height)),
        }
    }

    /// A new texture that holds one first rectangle of this size.
    pub open spec fn fresh(width: u32, height: u32) -> TextureState {
        TextureState { shelf: Shelf::fresh(width, height), allocations: Seq::empty() }.allocate(
            width,
            height,
        )
    }
}

/// One backing texture of the atlas.
pub struct AtlasTexture {
    shelf: Shelf,
    allocations: Vec<TexelRect>,
}

impl View for AtlasTexture {
    type V = TextureState;

    closed spec fn view(&self) -> TextureState {
        TextureState { shelf: self.shelf, allocations: self.allocations@ }
    }
}

impl AtlasTexture {
    /// Width of the texture in texels.
    pub fn width(&self) -> (w: u32)
        ensures
            w == self@.shelf.width,
    {
        self.shelf.width
    }

    /// Height of the texture in texels.
    pub fn height(&self) -> (h: u32)
        ensures
            h == self@.shelf.height,
    {
        self.shelf.height
    }

    /// The rectangles handed out so far, oldest first.
    pub fn allocations(&self) -> (all: &Vec<TexelRect>)
        ensures
            all@ == self@.allocations,
    {
        &self.allocations
    }

    fn reserve(&mut self, width: u32, height: u32) -> (placed: Option<TexelRect>)
        requires
            old(self)@.well_formed(),
        ensures
            final(self)@.well_formed(),
            old(self)@.shelf.fits(width, height) ==> placed == Some(
                old(self)@.shelf.place(width, height),
            ) && final(self)@ == old(self)@.allocate(width, height),
            !old(self)@.shelf.fits(width, height) ==> placed.is_none() && *final(self) == *old(
                self,
            ),
    {
        let ghost before = self@;
        match self.shelf.reserve(width, height) {
            Some(rect) => {
                self.allocations.push(rect);
                proof {
                    lemma_allocate_keeps_well_formed(before, width, height);
                }
                Some(rect)
            },
            None => None,
        }
    }
}

/// Placing a rectangle that fits keeps a texture well formed: the new
/// rectangle shares no texel with an earlier one.
pub proof fn lemma_allocate_keeps_well_formed(t: TextureState, width: u32, height: u32)
    requires
        t.well_formed(),
        t.shelf.fits(width, height),
    ensures
        t.allocate(width, height).well_formed(),
{
    let after = t.allocate(width, height);
    let rect = t.shelf.place(width, height);
    assert forall|i: int| 0 <= i < after.allocations.len() implies after.settled(
        #[trigger] after.allocations[i],
    ) by {
        if i < t.allocations.len() {
            assert(t.settled(t.allocations[i]));
        }
    }
    assert forall|i: int, j: int| 0 <= i < j < after.allocations.len() implies (
    #[trigger] after.allocations[i]).apart_from(#[trigger] after.allocations[j]) by {
        assert(t.settled(t.allocations[i]));
        if j < t.allocations.len() {
            assert(t.allocations[i].apart_from(t.allocations[j]));
        }
    }
}

/// A rectangle handed out by the atlas.
#[derive(Clone, Copy, Debug, PartialEq, Eq, Structural)]
pub struct AtlasAllocation {
    /// Index of the backing texture.
    pub texture: usize,
    /// The reserved texels.
    pub rect: TexelRect,
    /// Size of the backing texture; texture coordinates are texel
    /// coordinates divided by it.
    pub atlas_width: u32,
    pub atlas_height: u32,
}

impl AtlasAllocation {
    /// The corners of the reserved rectangle in texels, in the order of a
    /// quad's six vertices.
    pub open spec fn texel_quad(self) -> Seq<crate::geometry::Point> {
        quad_points(
            self.rect.x as int,
            self.rect.y as int,
            self.rect.right(),
            self.rect.bottom(),
        )
    }

    /// The texture-coordinate buffer of a quad drawn with this allocation.
    pub fn texture_vertices(&self) -> (out: Vec<Vertex>)
        ensures
            points_of(out@) == self.texel_quad(),
    {
        let x0: i64 = self.rect.x as i64;
        let y0: i64 = self.rect.y as i64;
        quad_vertices(x0, y0, x0 + self.rect.width as i64, y0 + self.rect.height as i64)
    }
}

/// Why an allocation was refused.
#[derive(Clone, Copy, Debug, PartialEq, Eq, Structural)]
pub enum AtlasError {
    /// No backing texture has room, and the atlas may not grow.
    CapacityExceeded,
}

/// The atlas: all backing textures, in the order in which they were made.
pub struct TextureAtlas {
    textures: Vec<AtlasTexture>,
}

impl View for TextureAtlas {
    type V = Seq<TextureState>;

    closed spec fn view(&self) -> Seq<TextureState> {
        Seq::new(self.textures@.len(), |i: int| self.textures@[i]@)
    }
}

/// Whether every texture of an atlas is well formed.
pub open spec fn atlas_well_formed(atlas: Seq<TextureState>) -> bool {
    forall|i: int| 0 <= i < atlas.len() ==> (#[trigger] atlas[i]).well_formed()
}

/// Index of the first texture from `from` on that has room, or the number
/// of textures where none has.
pub open spec fn first_fit_from(atlas: Seq<TextureState>, width: u32, height: u32, from: int) -> int
    decreases atlas.len() - from,
{
    if from >= atlas.len() {
        atlas.len() as int
    } else if atlas[from].shelf.fits(width, height) {
        from
    } else {
        first_fit_from(atlas, width, height, from + 1)
    }
}

/// Index of the texture that serves a request of this size: the oldest one
/// with room, or a new one behind the others.
pub open spec fn first_fit(atlas: Seq<TextureState>, width: u32, height: u32) -> int {
    first_fit_from(atlas, width, height, 0)
}

/// The atlas after a rectangle of this size was allocated.
pub open spec fn atlas_after(atlas: Seq<TextureState>, width: u32, height: u32) -> Seq<
    TextureState,
> {
    let t = first_fit(atlas, width, height);
    if t < atlas.len() {
        atlas.update(t, atlas[t].allocate(width, height))
    } else {
        atlas.push(TextureState::fresh(width, height))
    }
}

/// The allocation that a request of this size gets.
pub open spec fn atlas_grant(atlas: Seq<TextureState>, width: u32, height: u32) -> AtlasAllocation {
    let t = first_fit(atlas, width, height);
    let after = atlas_after(atlas, width, height);
    AtlasAllocation {
        texture: t as usize,
        rect: after[t].allocations.last(),
        atlas_width: after[t].shelf.width,
        atlas_height: after[t].shelf.height,
    }
}

/// The first fit is the oldest texture with room.
pub proof fn lemma_first_fit(atlas: Seq<TextureState>, width: u32, height: u32, from: int)
    requires
        0 <= from <= atlas.len(),
    ensures
        from <= first_fit_from(atlas, width, height, from) <= atlas.len(),
        first_fit_from(atlas, width, height, from) < atlas.len() ==> atlas[first_fit_from(
            atlas,
            width,
            height,
            from,
        )].shelf.fits(width, height),
        forall|j: int|
            from <= j < first_fit_from(atlas, width, height, from) ==> !(
            #[trigger] atlas[j]).shelf.fits(width, height),
    decreases atlas.len() - from,
{
    if from < atlas.len() && !atlas[from].shelf.fits(width, height) {
        lemma_first_fit(atlas, width, height, from + 1);
    }
}

/// An allocation keeps the atlas well formed.
pub proof fn lemma_atlas_after_well_formed(atlas: Seq<TextureState>, width: u32, height: u32)
    requires
        atlas_well_formed(atlas),
    ensures
        atlas_well_formed(atlas_after(atlas, width, height)),
{
    let t = first_fit(atlas, width, height);
    let after = atlas_after(atlas, width, height);
    lemma_first_fit(atlas, width, height, 0);
    if t < atlas.len() {
        lemma_allocate_keeps_well_formed(atlas[t], width, height);
    } else {
        let empty = TextureState { shelf: Shelf::fresh(width, height), allocations: Seq::empty() };
        lemma_allocate_keeps_well_formed(empty, width, height);
    }
    assert forall|i: int| 0 <= i < after.len() implies (#[trigger] after[i]).well_formed() by {
        if i != t {
            assert(atlas[i].well_formed());
        }
    }
}

/// What is granted has the size asked for, lies inside its backing texture,
/// is the newest rectangle of that texture, and is apart from every
/// rectangle that the texture held before.
pub proof fn granted_rectangle_is_fresh(atlas: Seq<TextureState>, width: u32, height: u32)
    requires
        atlas_well_formed(atlas),
        atlas.len() <= usize::MAX,
    ensures
        ({
            let granted = atlas_grant(atlas, width, height);
            let after = atlas_after(atlas, width, height);
            &&& granted.rect.width == width
            &&& granted.rect.height == height
            &&& granted.texture == first_fit(atlas, width, height)
            &&& granted.texture < after.len()
            &&& after.len() == if granted.texture < atlas.len() {
                atlas.len()
            } else {
                atlas.len() + 1
            }
            &&& granted.atlas_width == after[granted.texture as int].shelf.width
            &&& granted.atlas_height == after[granted.texture as int].shelf.height
            &&& granted.rect.within(granted.atlas_width as int, granted.atlas_height as int)
            &&& after[granted.texture as int].allocations.last() == granted.rect
            &&& forall|i: int|
                0 <= i < after[granted.texture as int].allocations.len() - 1 ==> (
                #[trigger] after[granted.texture as int].allocations[i]).apart_from(granted.rect)
            &&& forall|t: int|
                0 <= t < atlas.len() && t != granted.texture ==> after[t] == atlas[t]
        }),
{
    let t = first_fit(atlas, width, height);
    let after = atlas_after(atlas, width, height);
    lemma_first_fit(atlas, width, height, 0);
    lemma_atlas_after_well_formed(atlas, width, height);
    assert(after[t].well_formed());
    let all = after[t].allocations;
    assert(after[t].settled(all[all.len() - 1]));
    assert forall|i: int| 0 <= i < all.len() - 1 implies (#[trigger] all[i]).apart_from(
        all.last(),
    ) by {
        assert(all[i].apart_from(all[all.len() - 1]));
    }
}

/// No two rectangles handed out from one backing texture share a texel.
pub proof fn allocations_never_overlap(
    atlas: Seq<TextureState>,
    texture: int,
    a: int,
    b: int,
    tx: int,
    ty: int,
)
    requires
        atlas_well_formed(atlas),
        0 <= texture < atlas.len(),
        0 <= a < atlas[texture].allocations.len(),
        0 <= b < atlas[texture].allocations.len(),
        a != b,
    ensures
        atlas[texture].allocations[a].apart_from(atlas[texture].allocations[b]),
        !(atlas[texture].allocations[a].covers(tx, ty) && atlas[texture].allocations[b].covers(
            tx,
            ty,
        )),
{
    let t = atlas[texture];
    assert(t.well_formed());
    if a < b {
        assert(t.allocations[a].apart_from(t.allocations[b]));
    } else {
        assert(t.allocations[b].apart_from(t.allocations[a]));
    }
}

impl TextureAtlas {
    /// An atlas without any backing texture.
    pub fn new() -> (atlas: TextureAtlas)
        ensures
            atlas@ == Seq::<TextureState>::empty(),
            atlas_well_formed(atlas@),
    {
        let atlas = TextureAtlas { textures: Vec::new() };
        assert(atlas@ =~= Seq::<TextureState>::empty());
        atlas
    }

    /// Number of backing textures.
    pub fn texture_count(&self) -> (n: usize)
        ensures
            n == self@.len(),
    {
        self.textures.len()
    }

    /// The backing texture with this index.
    pub fn texture(&self, index: usize) -> (t: &AtlasTexture)
        requires
            index < self@.len(),
        ensures
            t@ == self@[index as int],
    {
        &self.textures[index]
    }

    /// Whether one of the backing textures has room for a rectangle of this size.
    pub fn has_room(&self, width: u32, height: u32) -> (yes: bool)
        ensures
            yes == (first_fit(self@, width, height) < self@.len()),
    {
        proof {
            lemma_first_fit(self@, width, height, 0);
        }
        let n: usize = self.textures.len();
        let mut i: usize = 0;
        while i < n
            invariant
                0 <= i <= n,
                n == self.textures@.len(),
                n == self@.len(),
                first_fit(self@, width, height) == first_fit_from(self@, width, height, i as int),
            decreases n - i,
        {
            proof {
                lemma_first_fit(self@, width, height, i as int);
            }
            if self.textures[i].shelf.can_fit(width, height) {
                return true;
            }
            i = i + 1;
        }
        false
    }

    /// Reserves a rectangle as `allocate` does, in an atlas that may hold no
    /// more than `max_textures` backing textures: where a new texture would
    /// be needed and the atlas is full, nothing changes and the request fails.
    pub fn try_allocate(&mut self, width: u32, height: u32, max_textures: usize) -> (granted:
        Result<AtlasAllocation, AtlasError>)
        requires
            atlas_well_formed(old(self)@),
        ensures
            atlas_well_formed(final(self)@),
            granted.is_ok() <==> (first_fit(old(self)@, width, height) < old(self)@.len()
                || old(self)@.len() < max_textures),
            granted matches Ok(allocation) ==> allocation == atlas_grant(
                old(self)@,
                width,
                height,
            ) && final(self)@ == atlas_after(old(self)@, width, height),
            granted matches Err(e) ==> e == AtlasError::CapacityExceeded && final(self)@ == old(
                self,
            )@,
    {
        if self.textures.len() < max_textures || self.has_room(width, height) {
            Ok(self.allocate(width, height))
        } else {
            Err(AtlasError::CapacityExceeded)
        }
    }

    /// Reserves a rectangle of the given size: in the oldest backing texture
    /// that has room for it, else in a new texture made large enough.
    pub fn allocate(&mut self, width: u32, height: u32) -> (granted: AtlasAllocation)
        requires
            atlas_well_formed(old(self)@),
        ensures
            atlas_well_formed(final(self)@),
            final(self)@ == atlas_after(old(self)@, width, height),
            granted == atlas_grant(old(self)@, width, height),
    {
        let ghost before = self@;
        proof {
            lemma_atlas_after_well_formed(before, width, height);
            lemma_first_fit(before, width, height, 0);
        }
        let n: usize = self.textures.len();
        let mut i: usize = 0;
        while i < n
            invariant
                0 <= i <= n,
                n == self.textures@.len(),
                self@ == before,
                before == old(self)@,
                atlas_well_formed(before),
                first_fit(before, width, height) == first_fit_from(before, width, height, i as int),
            decreases n - i,
        {
            assert(before[i as int].well_formed());
            let ghost fits = before[i as int].shelf.fits(width, height);
            let placed = self.textures[i].reserve(width, height);
            match placed {
                Some(rect) => {
                    assert(fits);
                    assert(first_fit(before, width, height) == i);
                    assert(self.textures@[i as int]@ == before[i as int].allocate(width, height));
                    assert(self@.len() == before.len());
                    let granted = AtlasAllocation {
                        texture: i,
                        rect,
                        atlas_width: self.textures[i].shelf.width,
                        atlas_height: self.textures[i].shelf.height,
                    };
                    assert(self@ =~= atlas_after(before, width, height));
                    return granted;
                },
                None => {
                    assert(!fits);
                    assert(self@ =~= before);
                },
            }
            i = i + 1;
        }
        let mut texture = AtlasTexture {
            shelf: Shelf {
                width: if width > ATLAS_SIZE { width } else { ATLAS_SIZE },
                height: if height > ATLAS_SIZE { height } else { ATLAS_SIZE },
                top: 0,
                tall: 0,
                cursor: 0,
            },
            allocations: Vec::new(),
        };
        assert(texture@.well_formed());
        let placed = texture.reserve(width, height);
        let rect = placed.unwrap();
        let granted = AtlasAllocation {
            texture: n,
            rect,
            atlas_width: texture.shelf.width,
            atlas_height: texture.shelf.height,
        };
        self.textures.push(texture);
        assert(self@ =~= atlas_after(before, width, height));
        granted
    }
}

} // verus!
