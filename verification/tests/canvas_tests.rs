use backdrop::blend::BlendMode;
use backdrop::canvas::{
    canvas_to_bgra_bytes, draw_to_canvas_fill, draw_to_canvas_rect, draw_to_canvas_scaled, Canvas,
};
use backdrop::rect::Rect;

const WHITE_MOD: (u8, u8, u8, u8) = (255, 255, 255, 255);

fn rect(l: isize, t: isize, r: isize, b: isize) -> Rect {
    Rect { left: l, top: t, right: r, bottom: b }
}

#[test]
fn new_canvas_is_transparent_black() {
    let c = Canvas::new(4, 3);
    assert_eq!(c.width(), 4);
    assert_eq!(c.height(), 3);
    for y in 0..3 {
        for x in 0..4 {
            assert_eq!(c.get_pixel(x, y), 0);
        }
    }
}

#[test]
fn set_pixel_changes_only_that_pixel() {
    let mut c = Canvas::new(3, 3);
    c.set_pixel(1, 2, 0xFF123456);
    assert_eq!(c.get_pixel(1, 2), 0xFF123456);
    assert_eq!(c.get_pixel(2, 1), 0);
    assert_eq!(c.get_pixel(0, 0), 0);
}

#[test]
fn map_interpolates_linearly() {
    assert_eq!(backdrop::canvas::map(5, 0, 10, 0, 100), 50);
    assert_eq!(backdrop::canvas::map(0, 0, 10, 0, 100), 0);
    assert_eq!(backdrop::canvas::map(10, 0, 10, 0, 100), 100);
    assert_eq!(backdrop::canvas::map(3, 0, 4, 0, 2), 1);
}

#[test]
fn rect_copy_moves_source_pixels() {
    let mut src = Canvas::new(4, 4);
    src.set_pixel(0, 0, 0xFFAA0000);
    src.set_pixel(1, 0, 0xFF00BB00);
    let mut dst = Canvas::new(8, 8);
    draw_to_canvas_rect(&mut dst, &src, &rect(0, 0, 2, 1), 3, 4, BlendMode::Off, WHITE_MOD);
    assert_eq!(dst.get_pixel(3, 4), 0xFFAA0000);
    assert_eq!(dst.get_pixel(4, 4), 0xFF00BB00);
    assert_eq!(dst.get_pixel(5, 4), 0);
}

#[test]
fn rect_copy_clips_destination() {
    let mut src = Canvas::new(4, 4);
    for y in 0..4 {
        for x in 0..4 {
            src.set_pixel(x, y, 0xFF000001);
        }
    }
    let mut dst = Canvas::new(4, 4);
    draw_to_canvas_rect(&mut dst, &src, &rect(0, 0, 4, 4), -2, 0, BlendMode::Off, WHITE_MOD);
    assert_eq!(dst.get_pixel(0, 0), 0xFF000001);
    assert_eq!(dst.get_pixel(1, 0), 0xFF000001);
    assert_eq!(dst.get_pixel(2, 0), 0);
}

#[test]
fn scaled_copy_stretches_source() {
    let mut src = Canvas::new(2, 2);
    src.set_pixel(0, 0, 0xFF111111);
    src.set_pixel(1, 0, 0xFF222222);
    src.set_pixel(0, 1, 0xFF333333);
    src.set_pixel(1, 1, 0xFF444444);
    let mut dst = Canvas::new(4, 4);
    draw_to_canvas_scaled(
        &mut dst,
        &src,
        &rect(0, 0, 4, 4),
        &rect(0, 0, 2, 2),
        BlendMode::Off,
        WHITE_MOD,
    );
    assert_eq!(dst.get_pixel(0, 0), 0xFF111111);
    assert_eq!(dst.get_pixel(1, 1), 0xFF111111);
    assert_eq!(dst.get_pixel(2, 0), 0xFF222222);
    assert_eq!(dst.get_pixel(0, 2), 0xFF333333);
    assert_eq!(dst.get_pixel(3, 3), 0xFF444444);
}

#[test]
fn fill_includes_right_and_bottom_edges() {
    let mut c = Canvas::new(5, 5);
    draw_to_canvas_fill(&mut c, &rect(1, 1, 3, 3), BlendMode::Off, WHITE_MOD, (9, 8, 7, 255));
    let expected = 255u32 * 16777216 + 9 * 65536 + 8 * 256 + 7;
    for y in 0..5usize {
        for x in 0..5usize {
            let inside = (1..=3).contains(&x) && (1..=3).contains(&y);
            assert_eq!(c.get_pixel(x, y), if inside { expected } else { 0 });
        }
    }
}

#[test]
fn bgra_bytes_come_out_in_order() {
    let mut c = Canvas::new(2, 1);
    c.set_pixel(0, 0, 0xAABBCCDD);
    c.set_pixel(1, 0, 0x11223344);
    let bytes = canvas_to_bgra_bytes(&c);
    assert_eq!(bytes, vec![0xDD, 0xCC, 0xBB, 0xAA, 0x44, 0x33, 0x22, 0x11]);
}
