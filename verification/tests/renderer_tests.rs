use gl_renderer::atlas::{TexelRect, ATLAS_SIZE};
use gl_renderer::backend::{Backend, RendererKind};
use gl_renderer::frame::{BlendFactor, DrawCall, ShaderKind, Topology};
use gl_renderer::geometry::{Rect, Vertex};
use gl_renderer::primitive::{Color, FillStyle, GLRenderingPrimitive, Image};
use gl_renderer::renderer::{ContextHolder, GLRenderer};
use gl_renderer::text::{GlyphBitmap, GlyphKey};
use gl_renderer::use_modules;

fn v(x: i64, y: i64) -> Vertex {
    Vertex { x, y }
}

const BLACK: Color = Color { red: 0, green: 0, blue: 0, alpha: 255 };
const RED: Color = Color { red: 255, green: 0, blue: 0, alpha: 255 };

fn red_image(width: u32, height: u32) -> Image {
    let mut pixels = Vec::new();
    for _ in 0..(width * height) {
        pixels.extend_from_slice(&[255, 0, 0, 255]);
    }
    Image::from_rgba(width, height, pixels).unwrap()
}

#[test]
fn use_modules_does_nothing() {
    use_modules();
}

#[test]
fn an_image_needs_four_bytes_for_each_pixel() {
    assert!(Image::from_rgba(2, 2, vec![0; 16]).is_some());
    assert!(Image::from_rgba(2, 2, vec![0; 15]).is_none());
    assert!(Image::from_rgba(2, 2, vec![0; 17]).is_some());
    assert!(Image::from_rgba(u32::MAX, u32::MAX, vec![0; 64]).is_none());
    assert!(Image::from_rgba(0, 5, Vec::new()).is_some());
    let image = Image::from_rgba(1, 2, vec![1, 2, 3, 4, 5, 6, 7, 8]).unwrap();
    assert_eq!((image.width(), image.height()), (1, 2));
    assert_eq!(image.pixels(), &vec![1, 2, 3, 4, 5, 6, 7, 8]);
}

#[test]
fn the_context_has_one_holder_at_a_time() {
    let mut renderer = GLRenderer::new();
    assert_eq!(renderer.context_holder(), ContextHolder::Renderer);
    let builder = renderer.new_rendering_primitives_builder();
    assert_eq!(renderer.context_holder(), ContextHolder::Builder);
    renderer.finish_primitives(builder);
    assert_eq!(renderer.context_holder(), ContextHolder::Renderer);
    let frame = renderer.new_frame(800, 600, &BLACK);
    assert_eq!(renderer.context_holder(), ContextHolder::Frame);
    renderer.present_frame(frame);
    assert_eq!(renderer.context_holder(), ContextHolder::Renderer);
}

#[test]
fn the_atlas_comes_back_from_the_builder() {
    let mut renderer = GLRenderer::new();
    let mut builder = renderer.new_rendering_primitives_builder();
    builder.create_image_primitive(Rect { x: 0, y: 0, width: 10, height: 10 }, &red_image(10, 10));
    assert_eq!(builder.texture_atlas().texture_count(), 1);
    renderer.finish_primitives(builder);
    assert_eq!(renderer.texture_atlas().texture_count(), 1);
    let mut builder = renderer.new_rendering_primitives_builder();
    let second = builder
        .create_image_primitive(Rect { x: 0, y: 0, width: 4, height: 4 }, &red_image(4, 4));
    match second.get() {
        GLRenderingPrimitive::Texture { allocation, .. } => {
            assert_eq!(allocation.rect, TexelRect { x: 10, y: 0, width: 4, height: 4 });
        }
        _ => panic!("not an image"),
    }
    renderer.finish_primitives(builder);
    assert_eq!(renderer.texture_atlas().texture(0).allocations().len(), 2);
}

#[test]
fn a_red_square_on_a_black_frame() {
    let mut renderer = GLRenderer::new();
    let mut builder = renderer.new_rendering_primitives_builder();
    let image = red_image(10, 10);
    let primitive =
        builder.create_image_primitive(Rect { x: 0, y: 0, width: 10, height: 10 }, &image);
    renderer.finish_primitives(builder);

    match primitive.get() {
        GLRenderingPrimitive::Texture { vertices, texture_vertices, allocation } => {
            let quad = vec![v(0, 0), v(10, 0), v(10, 10), v(0, 0), v(10, 10), v(0, 10)];
            assert_eq!(vertices, &quad);
            assert_eq!(texture_vertices, &quad);
            assert_eq!(allocation.texture, 0);
            assert_eq!((allocation.atlas_width, allocation.atlas_height), (ATLAS_SIZE, ATLAS_SIZE));
            let inside = |x: i64, y: i64| {
                vertices[0].x <= x && x <= vertices[2].x && vertices[0].y <= y && y <= vertices[2].y
            };
            assert!(inside(5, 5));
            assert!(!inside(795, 595));
        }
        _ => panic!("not an image"),
    }

    let mut frame = renderer.new_frame(800, 600, &BLACK);
    let setup = frame.setup();
    assert_eq!((setup.viewport_width, setup.viewport_height), (800, 600));
    assert_eq!(setup.clear_color, BLACK);
    assert_eq!(setup.blend_source, BlendFactor::One);
    assert_eq!(setup.blend_destination, BlendFactor::OneMinusSrcAlpha);
    assert_eq!((setup.left, setup.right, setup.bottom, setup.top), (0, 800, 600, 0));
    assert_eq!((setup.near, setup.far), (-1, 1));
    let calls = frame.render_primitive(&primitive);
    assert_eq!(
        calls,
        vec![DrawCall {
            shader: ShaderKind::Image,
            topology: Topology::Triangles,
            indexed: false,
            count: 6,
            color: None,
            texture: Some(0),
            part: 0,
        }]
    );
    renderer.present_frame(frame);
}

#[test]
fn a_filled_path_is_drawn_as_an_indexed_strip() {
    let mut renderer = GLRenderer::new();
    let mut builder = renderer.new_rendering_primitives_builder();
    let vertices = vec![v(0, 0), v(10, 0), v(10, 10), v(0, 10)];
    let indices: Vec<u16> = vec![0, 1, 2, 0, 2, 3];
    let primitive = builder.create_path_fill_primitive(
        vertices.clone(),
        indices.clone(),
        FillStyle::SolidColor(RED),
    );
    assert_eq!(builder.texture_atlas().texture_count(), 0);
    renderer.finish_primitives(builder);
    match primitive.get() {
        GLRenderingPrimitive::FillPath { vertices: pv, indices: pi, style } => {
            assert_eq!(pv, &vertices);
            assert_eq!(pi, &indices);
            assert_eq!(style.color(), RED);
        }
        _ => panic!("not a path"),
    }
    let mut frame = renderer.new_frame(100, 100, &BLACK);
    let calls = frame.render_primitive(&primitive);
    assert_eq!(
        calls,
        vec![DrawCall {
            shader: ShaderKind::Path,
            topology: Topology::TriangleStrip,
            indexed: true,
            count: 6,
            color: Some(RED),
            texture: None,
            part: 0,
        }]
    );
    renderer.present_frame(frame);
}

#[test]
fn an_empty_text_draws_nothing() {
    let mut renderer = GLRenderer::new();
    let mut builder = renderer.new_rendering_primitives_builder();
    let primitive = builder.create_glyphs(&Vec::new(), RED);
    renderer.finish_primitives(builder);
    match primitive.get() {
        GLRenderingPrimitive::GlyphRuns { glyph_runs, color } => {
            let total: i32 = glyph_runs.iter().map(|r| r.vertex_count).sum();
            assert_eq!(total, 0);
            assert!(glyph_runs.is_empty());
            assert_eq!(*color, RED);
        }
        _ => panic!("not a glyph run"),
    }
    let mut frame = renderer.new_frame(800, 600, &BLACK);
    assert!(frame.render_primitive(&primitive).is_empty());
    assert!(frame.issued().is_empty());
    renderer.present_frame(frame);
}

#[test]
fn a_text_is_drawn_with_the_glyph_pipeline() {
    let mut renderer = GLRenderer::new();
    let mut builder = renderer.new_rendering_primitives_builder();
    let key = |glyph: u32| GlyphKey { font: 0, glyph, size: 16 };
    assert_eq!(builder.cached_glyph(key(72)), None);
    let (h, up_h) = builder.glyph(key(72), GlyphBitmap { width: 9, height: 12, advance: 11 });
    let (i, up_i) = builder.glyph(key(105), GlyphBitmap { width: 3, height: 12, advance: 4 });
    let (h2, up_h2) = builder.glyph(key(72), GlyphBitmap { width: 9, height: 12, advance: 11 });
    assert!(up_h && up_i && !up_h2);
    assert_eq!(h, h2);
    assert_eq!(builder.cached_glyph(key(72)), Some(h));
    let primitive = builder.create_glyphs(&vec![h, i, h2], RED);
    renderer.finish_primitives(builder);
    match primitive.get() {
        GLRenderingPrimitive::GlyphRuns { glyph_runs, .. } => {
            assert_eq!(glyph_runs.len(), 1);
            assert_eq!(glyph_runs[0].vertex_count, 18);
            assert_eq!(glyph_runs[0].vertices[0], v(0, 0));
            assert_eq!(glyph_runs[0].vertices[6], v(11, 0));
            assert_eq!(glyph_runs[0].vertices[12], v(15, 0));
            assert_eq!(glyph_runs[0].vertices[14], v(24, 12));
            assert_eq!(glyph_runs[0].texture_vertices[6], v(9, 0));
            assert_eq!(glyph_runs[0].texture_vertices[12], v(0, 0));
        }
        _ => panic!("not a glyph run"),
    }
    let mut frame = renderer.new_frame(800, 600, &BLACK);
    assert_eq!(
        frame.render_primitive(&primitive),
        vec![DrawCall {
            shader: ShaderKind::Glyph,
            topology: Topology::Triangles,
            indexed: false,
            count: 18,
            color: Some(RED),
            texture: Some(0),
            part: 0,
        }]
    );
    renderer.present_frame(frame);
}

#[test]
fn draw_calls_keep_the_order_of_submission() {
    let mut renderer = GLRenderer::new();
    let mut builder = renderer.new_rendering_primitives_builder();
    let image =
        builder.create_image_primitive(Rect { x: 1, y: 2, width: 3, height: 4 }, &red_image(3, 4));
    let path = builder.create_path_fill_primitive(
        vec![v(0, 0), v(1, 0), v(0, 1)],
        vec![0, 1, 2],
        FillStyle::SolidColor(BLACK),
    );
    renderer.finish_primitives(builder);
    let mut frame = renderer.new_frame(10, 10, &RED);
    let first = frame.render_primitive(&path);
    let second = frame.render_primitive(&image);
    let third = frame.render_primitive(&path);
    assert_eq!(first, third);
    let mut all = first.clone();
    all.extend(second.iter().copied());
    all.extend(third.iter().copied());
    assert_eq!(frame.issued(), &all);
    assert_eq!(
        frame.issued().iter().map(|c| c.shader).collect::<Vec<_>>(),
        vec![ShaderKind::Path, ShaderKind::Image, ShaderKind::Path]
    );
    renderer.present_frame(frame);
}

#[test]
fn each_frame_starts_cleared_and_empty() {
    let mut renderer = GLRenderer::new();
    let mut builder = renderer.new_rendering_primitives_builder();
    let image =
        builder.create_image_primitive(Rect { x: 0, y: 0, width: 2, height: 2 }, &red_image(2, 2));
    renderer.finish_primitives(builder);

    let mut first = renderer.new_frame(800, 600, &BLACK);
    assert_eq!(first.setup().clear_color, BLACK);
    first.render_primitive(&image);
    assert_eq!(first.issued().len(), 1);
    renderer.present_frame(first);

    let second = renderer.new_frame(800, 600, &BLACK);
    assert_eq!(second.setup().clear_color, BLACK);
    assert_eq!((second.setup().viewport_width, second.setup().viewport_height), (800, 600));
    assert!(second.issued().is_empty());
    renderer.present_frame(second);
    assert_eq!(renderer.context_holder(), ContextHolder::Renderer);
}

#[test]
fn teardown_releases_each_pipeline_once() {
    let renderer = GLRenderer::new();
    assert_eq!(
        renderer.teardown(),
        vec![ShaderKind::Path, ShaderKind::Image, ShaderKind::Glyph]
    );
}

#[test]
fn the_backend_knows_its_renderers_by_name() {
    let b = Backend::new(None);
    assert_eq!((b.renderer(), b.fell_back()), (RendererKind::FemtoVG, false));
    let b = Backend::new(Some("gl"));
    assert_eq!((b.renderer(), b.fell_back()), (RendererKind::FemtoVG, false));
    let b = Backend::new(Some("femtovg"));
    assert_eq!((b.renderer(), b.fell_back()), (RendererKind::FemtoVG, false));
    let b = Backend::new(Some("skia"));
    assert_eq!((b.renderer(), b.fell_back()), (RendererKind::Skia, false));
}

#[test]
fn an_unknown_renderer_name_falls_back_to_the_default() {
    let b = Backend::new(Some("vulkan"));
    assert_eq!((b.renderer(), b.fell_back()), (RendererKind::FemtoVG, true));
    let b = Backend::new(Some("GL"));
    assert_eq!((b.renderer(), b.fell_back()), (RendererKind::FemtoVG, true));
    let b = Backend::new(Some(""));
    assert_eq!((b.renderer(), b.fell_back()), (RendererKind::FemtoVG, true));
}
