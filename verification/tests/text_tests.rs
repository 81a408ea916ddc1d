use gl_renderer::atlas::{AtlasAllocation, TexelRect, TextureAtlas};
use gl_renderer::builder::build_glyph_runs;
use gl_renderer::geometry::Vertex;
use gl_renderer::text::{
    layout_glyphs, CachedGlyph, GlyphBitmap, GlyphCache, GlyphKey, MAX_RUN_GLYPHS,
};

fn v(x: i64, y: i64) -> Vertex {
    Vertex { x, y }
}

fn key(glyph: u32) -> GlyphKey {
    GlyphKey { font: 1, glyph, size: 12 }
}

fn glyph_in(texture: usize, x: u32, width: u32, height: u32, advance: i32) -> CachedGlyph {
    CachedGlyph {
        allocation: AtlasAllocation {
            texture,
            rect: TexelRect { x, y: 0, width, height },
            atlas_width: 2048,
            atlas_height: 2048,
        },
        advance,
    }
}

#[test]
fn a_new_cache_is_empty() {
    let cache = GlyphCache::new();
    assert_eq!(cache.len(), 0);
    assert_eq!(cache.lookup(key(65)), None);
}

#[test]
fn the_first_request_places_the_glyph_in_the_atlas() {
    let mut cache = GlyphCache::new();
    let mut atlas = TextureAtlas::new();
    let (glyph, upload) =
        cache.request(&mut atlas, key(65), GlyphBitmap { width: 8, height: 12, advance: 9 });
    assert!(upload);
    assert_eq!(glyph.advance, 9);
    assert_eq!(glyph.allocation.texture, 0);
    assert_eq!(glyph.allocation.rect, TexelRect { x: 0, y: 0, width: 8, height: 12 });
    assert_eq!(cache.lookup(key(65)), Some(glyph));
    assert_eq!(cache.len(), 1);
    assert_eq!(atlas.texture(0).allocations().len(), 1);
}

#[test]
fn requesting_a_glyph_twice_gives_the_same_allocation() {
    let mut cache = GlyphCache::new();
    let mut atlas = TextureAtlas::new();
    let bitmap = GlyphBitmap { width: 8, height: 12, advance: 9 };
    let (first, uploaded_first) = cache.request(&mut atlas, key(65), bitmap);
    let (second, uploaded_second) = cache.request(&mut atlas, key(65), bitmap);
    assert!(uploaded_first);
    assert!(!uploaded_second);
    assert_eq!(first, second);
    assert_eq!(cache.len(), 1);
    assert_eq!(atlas.texture_count(), 1);
    assert_eq!(atlas.texture(0).allocations().len(), 1);
}

#[test]
fn a_cached_glyph_ignores_a_different_bitmap() {
    let mut cache = GlyphCache::new();
    let mut atlas = TextureAtlas::new();
    let (first, _) =
        cache.request(&mut atlas, key(65), GlyphBitmap { width: 8, height: 12, advance: 9 });
    let (second, uploaded) =
        cache.request(&mut atlas, key(65), GlyphBitmap { width: 80, height: 2, advance: 1 });
    assert!(!uploaded);
    assert_eq!(first, second);
    assert_eq!(atlas.texture(0).allocations().len(), 1);
}

#[test]
fn glyphs_differ_by_font_glyph_and_size() {
    let mut cache = GlyphCache::new();
    let mut atlas = TextureAtlas::new();
    let bitmap = GlyphBitmap { width: 4, height: 4, advance: 5 };
    let (a, _) = cache.request(&mut atlas, GlyphKey { font: 1, glyph: 65, size: 12 }, bitmap);
    let (b, ub) = cache.request(&mut atlas, GlyphKey { font: 2, glyph: 65, size: 12 }, bitmap);
    let (c, uc) = cache.request(&mut atlas, GlyphKey { font: 1, glyph: 66, size: 12 }, bitmap);
    let (d, ud) = cache.request(&mut atlas, GlyphKey { font: 1, glyph: 65, size: 13 }, bitmap);
    assert!(ub && uc && ud);
    assert_eq!(a.allocation.rect.x, 0);
    assert_eq!(b.allocation.rect.x, 4);
    assert_eq!(c.allocation.rect.x, 8);
    assert_eq!(d.allocation.rect.x, 12);
    assert_eq!(cache.len(), 4);
    assert_eq!(cache.lookup(GlyphKey { font: 1, glyph: 65, size: 12 }), Some(a));
    assert_eq!(cache.lookup(GlyphKey { font: 3, glyph: 65, size: 12 }), None);
}

#[test]
fn layout_places_each_glyph_at_the_sum_of_the_advances_before_it() {
    let glyphs = vec![
        glyph_in(0, 0, 8, 12, 10),
        glyph_in(0, 8, 6, 12, 7),
        glyph_in(0, 14, 9, 12, 11),
        glyph_in(0, 23, 3, 12, 4),
    ];
    let placed = layout_glyphs(&glyphs);
    let xs: Vec<i64> = placed.iter().map(|p| p.x).collect();
    assert_eq!(xs, vec![0, 10, 17, 28]);
    for (p, g) in placed.iter().zip(glyphs.iter()) {
        assert_eq!(p.glyph, *g);
    }
}

#[test]
fn layout_follows_negative_and_extreme_advances() {
    let glyphs = vec![
        glyph_in(0, 0, 1, 1, i32::MAX),
        glyph_in(0, 0, 1, 1, i32::MAX),
        glyph_in(0, 0, 1, 1, i32::MIN),
        glyph_in(0, 0, 1, 1, -3),
        glyph_in(0, 0, 1, 1, 0),
    ];
    let placed = layout_glyphs(&glyphs);
    let xs: Vec<i64> = placed.iter().map(|p| p.x).collect();
    let m = i32::MAX as i64;
    assert_eq!(xs, vec![0, m, 2 * m, 2 * m + i32::MIN as i64, 2 * m + i32::MIN as i64 - 3]);
}

#[test]
fn layout_of_nothing_is_nothing() {
    assert!(layout_glyphs(&Vec::new()).is_empty());
}

#[test]
fn the_glyph_limit_is_what_an_i32_vertex_count_holds() {
    assert_eq!(MAX_RUN_GLYPHS, (i32::MAX / 6) as usize);
}

#[test]
fn a_run_in_one_texture_is_one_part() {
    let glyphs = vec![glyph_in(0, 0, 8, 12, 10), glyph_in(0, 8, 6, 11, 7)];
    let runs = build_glyph_runs(&glyphs);
    assert_eq!(runs.len(), 1);
    assert_eq!(runs[0].texture, 0);
    assert_eq!(runs[0].vertex_count, 12);
    assert_eq!(
        runs[0].vertices,
        vec![
            v(0, 0), v(8, 0), v(8, 12), v(0, 0), v(8, 12), v(0, 12),
            v(10, 0), v(16, 0), v(16, 11), v(10, 0), v(16, 11), v(10, 11),
        ]
    );
    assert_eq!(
        runs[0].texture_vertices,
        vec![
            v(0, 0), v(8, 0), v(8, 12), v(0, 0), v(8, 12), v(0, 12),
            v(8, 0), v(14, 0), v(14, 11), v(8, 0), v(14, 11), v(8, 11),
        ]
    );
}

#[test]
fn a_run_over_two_textures_has_a_part_for_each() {
    let glyphs = vec![
        glyph_in(1, 0, 2, 2, 3),
        glyph_in(0, 0, 4, 4, 5),
        glyph_in(1, 2, 2, 2, 3),
    ];
    let runs = build_glyph_runs(&glyphs);
    assert_eq!(runs.len(), 2);
    assert_eq!(runs[0].texture, 1);
    assert_eq!(runs[1].texture, 0);
    assert_eq!(runs[0].vertex_count, 12);
    assert_eq!(runs[1].vertex_count, 6);
    assert_eq!(
        runs[0].vertices,
        vec![
            v(0, 0), v(2, 0), v(2, 2), v(0, 0), v(2, 2), v(0, 2),
            v(8, 0), v(10, 0), v(10, 2), v(8, 0), v(10, 2), v(8, 2),
        ]
    );
    assert_eq!(
        runs[1].vertices,
        vec![v(3, 0), v(7, 0), v(7, 4), v(3, 0), v(7, 4), v(3, 4)]
    );
    assert_eq!(
        runs[1].texture_vertices,
        vec![v(0, 0), v(4, 0), v(4, 4), v(0, 0), v(4, 4), v(0, 4)]
    );
    let total: i32 = runs.iter().map(|r| r.vertex_count).sum();
    assert_eq!(total, 18);
}

#[test]
fn no_glyphs_give_no_parts() {
    let runs = build_glyph_runs(&Vec::new());
    assert!(runs.is_empty());
}
