use backdrop::batch::SpriteBatch;
use backdrop::blend::BlendMode;
use backdrop::rect::Rect;
use backdrop::renderer::{RenderError, SoftwareRenderer};

fn rect(l: isize, t: isize, r: isize, b: isize) -> Rect {
    Rect { left: l, top: t, right: r, bottom: b }
}

#[test]
fn renderer_reports_its_name() {
    let r = SoftwareRenderer::new(320, 240);
    assert_eq!(r.renderer_name(), "Software");
}

#[test]
fn created_texture_holds_uploaded_pixels() {
    let mut r = SoftwareRenderer::new(16, 16);
    // one pixel, RGBA bytes (1, 2, 3, 4)
    let data = vec![1u8, 2, 3, 4];
    let h = r.create_texture(1, 1, &data);
    assert_eq!(h, 0);
    let expected = 4u32 * 16777216 + 1 * 65536 + 2 * 256 + 3;
    assert_eq!(r.textures[0].get_pixel(0, 0), expected);
}

#[test]
fn stale_texture_handle_is_a_typed_error() {
    let mut r = SoftwareRenderer::new(16, 16);
    assert_eq!(r.set_render_target(Some(0)), Err(RenderError::InvalidTexture));
    let h = r.create_texture_mutable(8, 8);
    assert_eq!(r.set_render_target(Some(h)), Ok(()));
    assert_eq!(r.set_render_target(None), Ok(()));
}

#[test]
fn clear_fills_the_current_target() {
    let mut r = SoftwareRenderer::new(4, 4);
    r.set_blend_mode(BlendMode::Off);
    r.clear((5, 6, 7, 255));
    let expected = 255u32 * 16777216 + 5 * 65536 + 6 * 256 + 7;
    assert_eq!(r.main.get_pixel(0, 0), expected);
    assert_eq!(r.main.get_pixel(3, 3), expected);
}

#[test]
fn draw_rect_targets_a_texture_when_selected() {
    let mut r = SoftwareRenderer::new(4, 4);
    let h = r.create_texture_mutable(4, 4);
    r.set_blend_mode(BlendMode::Off);
    r.set_render_target(Some(h)).unwrap();
    r.draw_rect(&rect(0, 0, 1, 1), (9, 9, 9, 255)).unwrap();
    let expected = 255u32 * 16777216 + 9 * 65536 + 9 * 256 + 9;
    assert_eq!(r.textures[h].get_pixel(0, 0), expected);
    assert_eq!(r.main.get_pixel(0, 0), 0);
}

#[test]
fn draw_batch_blits_texture_onto_main() {
    let mut r = SoftwareRenderer::new(4, 4);
    let data = vec![10u8, 20, 30, 255];
    let h = r.create_texture(1, 1, &data);
    r.set_blend_mode(BlendMode::Off);
    let mut batch = SpriteBatch::new(1, 1);
    batch.add(2, 1);
    r.draw_batch(&mut batch, h).unwrap();
    let expected = 255u32 * 16777216 + 10 * 65536 + 20 * 256 + 30;
    assert_eq!(r.main.get_pixel(2, 1), expected);
    assert_eq!(batch.commands.len(), 0);
}

#[test]
fn draw_batch_rejects_an_aliased_target() {
    let mut r = SoftwareRenderer::new(4, 4);
    let h = r.create_texture_mutable(2, 2);
    r.set_render_target(Some(h)).unwrap();
    let mut batch = SpriteBatch::new(2, 2);
    batch.add(0, 0);
    assert_eq!(r.draw_batch(&mut batch, h), Err(RenderError::TargetIsSource));
    assert_eq!(batch.commands.len(), 1);
}

#[test]
fn draw_batch_rejects_a_foreign_handle() {
    let mut r = SoftwareRenderer::new(4, 4);
    let mut batch = SpriteBatch::new(1, 1);
    batch.add(0, 0);
    assert_eq!(r.draw_batch(&mut batch, 3), Err(RenderError::InvalidTexture));
    assert_eq!(batch.commands.len(), 1);
}

#[test]
fn outline_traces_the_rectangle_edge() {
    let mut r = SoftwareRenderer::new(6, 6);
    r.draw_outline_rect(&rect(1, 1, 4, 3), 1, (1, 2, 3, 255)).unwrap();
    let clr = 255u32 * 16777216 + 1 * 65536 + 2 * 256 + 3;
    // corners and edges take the colour, the interior does not
    assert_eq!(r.main.get_pixel(1, 1), clr);
    assert_eq!(r.main.get_pixel(4, 3), clr);
    assert_eq!(r.main.get_pixel(2, 1), clr);
    assert_eq!(r.main.get_pixel(1, 2), clr);
    assert_eq!(r.main.get_pixel(4, 2), clr);
    assert_eq!(r.main.get_pixel(2, 2), 0);
    assert_eq!(r.main.get_pixel(5, 5), 0);
}

#[test]
fn outline_clips_to_the_canvas() {
    let mut r = SoftwareRenderer::new(4, 4);
    r.draw_outline_rect(&rect(-2, -2, 6, 6), 1, (7, 7, 7, 255)).unwrap();
    // only the parts of the outline inside the canvas are written
    assert_eq!(r.main.get_pixel(0, 0), 0);
    assert_eq!(r.main.get_pixel(3, 3), 0);
}

#[test]
fn clip_rect_is_accepted_and_ignored() {
    let mut r = SoftwareRenderer::new(4, 4);
    assert_eq!(r.set_clip_rect(Some(rect(0, 0, 2, 2))), Ok(()));
    assert_eq!(r.set_clip_rect(None), Ok(()));
}

#[test]
fn suspended_present_touches_nothing_and_errors_not() {
    let mut r = SoftwareRenderer::new(4, 4);
    r.set_blend_mode(BlendMode::Off);
    r.clear((1, 2, 3, 255));
    let before = r.main.get_pixel(0, 0);
    let out = r.present(8, 8, true);
    assert!(out.is_none());
    assert_eq!(r.main.width(), 4); // no resize happened either
    assert_eq!(r.main.get_pixel(0, 0), before);
}

#[test]
fn present_resizes_to_the_window_and_hands_out_bgra() {
    let mut r = SoftwareRenderer::new(4, 4);
    let out = r.present(2, 2, false).unwrap();
    assert_eq!(r.main.width(), 2);
    assert_eq!(r.main.height(), 2);
    assert_eq!(out.len(), 2 * 2 * 4);
    assert!(out.iter().all(|&b| b == 0));
}

#[test]
fn present_keeps_the_canvas_when_sizes_match() {
    let mut r = SoftwareRenderer::new(2, 2);
    r.main.set_pixel(1, 1, 0xAABBCCDD);
    let out = r.present(2, 2, false).unwrap();
    assert_eq!(r.main.get_pixel(1, 1), 0xAABBCCDD);
    assert_eq!(&out[12..16], &[0xDD, 0xCC, 0xBB, 0xAA]);
}
