use backdrop::batch::{SpriteBatch, SpriteBatchCommand};
use backdrop::blend::BlendMode;
use backdrop::canvas::Canvas;
use backdrop::rect::Rect;

fn rect(l: isize, t: isize, r: isize, b: isize) -> Rect {
    Rect { left: l, top: t, right: r, bottom: b }
}

#[test]
fn add_queues_a_whole_texture_copy() {
    let mut batch = SpriteBatch::new(16, 8);
    batch.add(3, 4);
    assert_eq!(batch.commands.len(), 1);
    assert_eq!(
        batch.commands[0],
        SpriteBatchCommand::DrawRect(rect(0, 0, 16, 8), rect(3, 4, 19, 12))
    );
}

#[test]
fn add_rect_queues_a_sub_rectangle() {
    let mut batch = SpriteBatch::new(64, 64);
    batch.add_rect(10, 20, &rect(0, 88, 320, 123));
    assert_eq!(
        batch.commands[0],
        SpriteBatchCommand::DrawRect(rect(0, 88, 320, 123), rect(10, 20, 330, 55))
    );
}

#[test]
fn add_rect_scaled_stretches_the_destination() {
    let mut batch = SpriteBatch::new(64, 64);
    batch.add_rect_scaled(5, 6, 1, 40, &rect(0, 0, 320, 1));
    assert_eq!(
        batch.commands[0],
        SpriteBatchCommand::DrawRect(rect(0, 0, 320, 1), rect(5, 6, 325, 46))
    );
}

#[test]
fn clear_drops_all_commands() {
    let mut batch = SpriteBatch::new(4, 4);
    batch.add(0, 0);
    batch.add(1, 1);
    batch.clear();
    assert_eq!(batch.commands.len(), 0);
    assert_eq!(batch.dimensions(), (4, 4));
}

#[test]
fn draw_onto_applies_and_drains_commands() {
    let mut tex = Canvas::new(1, 1);
    tex.set_pixel(0, 0, 0xFF00FF00);
    let mut batch = SpriteBatch::new(1, 1);
    batch.add(0, 0);
    batch.add(2, 2);
    let mut target = Canvas::new(4, 4);
    batch.draw_onto(&tex, &mut target, BlendMode::Off);
    assert_eq!(batch.commands.len(), 0);
    assert_eq!(target.get_pixel(0, 0), 0xFF00FF00);
    assert_eq!(target.get_pixel(2, 2), 0xFF00FF00);
    assert_eq!(target.get_pixel(1, 1), 0);
}

#[test]
fn draw_onto_skips_flipped_commands() {
    let mut tex = Canvas::new(1, 1);
    tex.set_pixel(0, 0, 0xFFFFFFFF);
    let mut batch = SpriteBatch::new(1, 1);
    batch.commands.push(SpriteBatchCommand::DrawRectFlip(
        rect(0, 0, 1, 1),
        rect(0, 0, 1, 1),
        true,
        false,
    ));
    let mut target = Canvas::new(2, 2);
    batch.draw_onto(&tex, &mut target, BlendMode::Off);
    assert_eq!(target.get_pixel(0, 0), 0);
}

#[test]
fn draw_onto_respects_insertion_order() {
    let mut tex = Canvas::new(1, 1);
    tex.set_pixel(0, 0, 0xFF0000FF);
    let mut batch = SpriteBatch::new(1, 1);
    batch.add(0, 0);
    let mut tex2_batch = SpriteBatch::new(1, 1);
    tex2_batch.add(0, 0);
    let mut target = Canvas::new(1, 1);
    batch.draw_onto(&tex, &mut target, BlendMode::Off);
    // a later draw of a different pixel overwrites the earlier one
    let mut tex2 = Canvas::new(1, 1);
    tex2.set_pixel(0, 0, 0xFFABCDEF);
    tex2_batch.draw_onto(&tex2, &mut target, BlendMode::Off);
    assert_eq!(target.get_pixel(0, 0), 0xFFABCDEF);
}
