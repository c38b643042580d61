use backdrop::background::{
    current_version, Background, BackgroundType, BkgConfig, LayerConfig,
};
use backdrop::batch::{SpriteBatch, SpriteBatchCommand};
use backdrop::rect::Rect;

const BG: (u8, u8, u8, u8) = (10, 20, 30, 255);

fn rect(l: isize, t: isize, r: isize, b: isize) -> Rect {
    Rect { left: l, top: t, right: r, bottom: b }
}

fn custom_layer() -> LayerConfig {
    let mut l = LayerConfig::new();
    l.bmp_width = 64;
    l.bmp_height = 64;
    l.draw_repeat_x = 3;
    l.draw_repeat_y = 1;
    l.draw_repeat_gap_x = 16;
    l.animation_style.scroll_speed_x = 1;
    l.animation_style.scroll_flags.autoscroll_x = true;
    l
}

#[test]
fn schema_version_is_one() {
    assert_eq!(current_version(), 1);
}

#[test]
fn default_config_has_one_default_layer() {
    let c = BkgConfig::default();
    assert_eq!(c.version, 1);
    assert_eq!(c.bmp_filename, "");
    assert_eq!(c.lighting_mode, 0);
    assert_eq!(c.layers.len(), 1);
    assert!(c.layers[0].layer_enabled);
    assert_eq!(c.layers[0].bmp_width, 0);
}

#[test]
fn upgrade_stamps_current_version_and_is_stable() {
    let mut c = BkgConfig::default();
    c.version = 7;
    let once = c.upgrade();
    assert_eq!(once.version, 1);
    let twice = once.clone().upgrade();
    assert_eq!(once, twice);
}

#[test]
fn load_bkg_custom_installs_upgraded_config() {
    let mut bg = Background::new();
    let mut c = BkgConfig::default();
    c.version = 3;
    c.bmp_filename = "bkMoon".to_string();
    c.lighting_mode = 2;
    let (name, lighting) = bg.load_bkg_custom(c);
    assert_eq!(name, "bkMoon");
    assert_eq!(lighting, 2);
    assert_eq!(bg.bk_config.version, 1);
    assert_eq!(bg.bk_config.bmp_filename, "bkMoon");
}

#[test]
fn frame_start_stays_below_frame_count() {
    let mut bg = Background::new();
    let mut l = LayerConfig::new();
    l.animation_style.frame_count = 3;
    l.animation_style.animation_speed = 2;
    bg.bk_config.layers = vec![l];
    for _ in 0..100 {
        bg.tick(320, 240);
        let a = &bg.bk_config.layers[0].animation_style;
        assert!(a.frame_start < 3);
    }
}

#[test]
fn animation_advances_every_speed_ticks() {
    let mut bg = Background::new();
    let mut l = LayerConfig::new();
    l.animation_style.frame_count = 4;
    l.animation_style.animation_speed = 2;
    bg.bk_config.layers = vec![l];
    // frames change on every second tick: 0 0 1 1 2 2 3 3 0 ...
    let mut seen = Vec::new();
    for _ in 0..8 {
        bg.tick(320, 240);
        seen.push(bg.bk_config.layers[0].animation_style.frame_start);
    }
    assert_eq!(seen, vec![0, 1, 1, 2, 2, 3, 3, 0]);
}

#[test]
fn autoscroll_drifts_then_wraps() {
    let mut bg = Background::new();
    bg.bk_config.layers = vec![custom_layer()];
    for _ in 0..80 {
        bg.tick(320, 240);
    }
    assert_eq!(bg.bk_config.layers[0].layer_x_value, -80);
    // keeps drifting until the repeat extent leaves the canvas, then the wrap
    // rules move it up by (64 + 16) + 320 and pull it back by one canvas
    for _ in 80..241 {
        bg.tick(320, 240);
    }
    assert_eq!(bg.bk_config.layers[0].layer_x_value, -241 + 400 - 320);
}

#[test]
fn scroll_values_stay_bounded() {
    let mut bg = Background::new();
    let mut l = custom_layer();
    l.animation_style.scroll_speed_x = 3;
    bg.bk_config.layers = vec![l];
    for _ in 0..2000 {
        bg.tick(320, 240);
        let x = bg.bk_config.layers[0].layer_x_value;
        assert!(x.abs() <= 320 + 64 + 16);
    }
}

#[test]
fn jitter_is_reproducible_for_a_seed() {
    let mut l = custom_layer();
    l.animation_style.animation_speed = 4;
    l.animation_style.scroll_flags.random_scroll_speed_y = true;
    let mut a = Background::new();
    a.bk_config.layers = vec![l];
    let mut b = Background::new();
    b.bk_config.layers = vec![l];
    for _ in 0..1000 {
        a.tick(320, 240);
        b.tick(320, 240);
    }
    assert_eq!(a.bk_config.layers[0], b.bk_config.layers[0]);
}

#[test]
fn draw_tick_records_the_tick() {
    let mut bg = Background::new();
    bg.tick(320, 240);
    bg.tick(320, 240);
    assert_eq!(bg.prev_tick, 0);
    bg.draw_tick();
    assert_eq!(bg.prev_tick, 2);
}

#[test]
fn tiled_static_covers_the_canvas() {
    // a 64 by 64 atlas on a 320 by 240 canvas: 6 columns and 5 rows
    let bg = Background::new();
    let mut batch = SpriteBatch::new(64, 64);
    let cleared = bg.draw(&mut batch, BackgroundType::TiledStatic, BG, 320, 240, 0, 0, 0, 1, 0, false);
    assert_eq!(cleared, Some(BG));
    assert_eq!(batch.commands.len(), 6 * 5);
    assert_eq!(
        batch.commands[0],
        SpriteBatchCommand::DrawRect(rect(0, 0, 64, 64), rect(-64, -64, 0, 0))
    );
    assert_eq!(
        batch.commands[1],
        SpriteBatchCommand::DrawRect(rect(0, 0, 64, 64), rect(0, -64, 64, 0))
    );
}

#[test]
fn tiled_shifts_against_the_camera() {
    let bg = Background::new();
    let mut batch = SpriteBatch::new(64, 64);
    bg.draw(&mut batch, BackgroundType::Tiled, BG, 320, 240, 10, 6, 0, 1, 0, false);
    // offsets are the camera modulo the atlas; the first tile sits one atlas
    // before the origin, shifted left and up by the offsets
    match batch.commands[0] {
        SpriteBatchCommand::DrawRect(_, dst) => {
            assert_eq!((dst.left, dst.top), (-74, -70));
        }
        _ => panic!("expected a plain copy"),
    }
}

#[test]
fn scrolling_counts_and_interpolation_at_tick_zero() {
    // atlas 192 by 88, canvas 320 by 240, tick 0, sub-tick time 0
    let bg = Background::new();
    let mut batch = SpriteBatch::new(192, 88);
    bg.draw(&mut batch, BackgroundType::Scrolling, BG, 320, 240, 0, 0, 0, 1, 0, false);
    // count_x = 320/192 + 6 = 7 and count_y = 240/88 + 1 = 3, with the loops
    // starting one tile early on each axis
    assert_eq!(batch.commands.len(), 8 * 4);
    match batch.commands[0] {
        SpriteBatchCommand::DrawRect(_, dst) => {
            assert_eq!((dst.left, dst.top), (-192, -88));
        }
        _ => panic!("expected a plain copy"),
    }
}

#[test]
fn scrolling_sweeps_at_three_times_the_tick() {
    let mut bg = Background::new();
    for _ in 0..32 {
        bg.tick(320, 240);
    }
    let mut batch = SpriteBatch::new(192, 88);
    bg.draw(&mut batch, BackgroundType::Scrolling, BG, 320, 240, 0, 0, 0, 1, 0, false);
    match batch.commands[0] {
        SpriteBatchCommand::DrawRect(_, dst) => {
            assert_eq!(dst.left, -192 - 32 * 3);
        }
        _ => panic!("expected a plain copy"),
    }
}

#[test]
fn water_and_black_only_clear() {
    let bg = Background::new();
    let mut batch = SpriteBatch::new(64, 64);
    assert_eq!(bg.draw(&mut batch, BackgroundType::Water, BG, 320, 240, 0, 0, 0, 1, 0, false), Some(BG));
    assert_eq!(bg.draw(&mut batch, BackgroundType::Black, BG, 320, 240, 0, 0, 0, 1, 0, false), Some(BG));
    assert_eq!(batch.commands.len(), 0);
}

#[test]
fn front_pass_of_non_custom_draws_nothing() {
    let bg = Background::new();
    let mut batch = SpriteBatch::new(64, 64);
    let cleared = bg.draw(&mut batch, BackgroundType::TiledStatic, BG, 320, 240, 0, 0, 0, 1, 0, true);
    assert_eq!(cleared, None);
    assert_eq!(batch.commands.len(), 0);
}

#[test]
fn outside_wind_strip_anchors() {
    // canvas 640 by 240 at tick 100: sun centred at 160, parallax strips
    // starting at -50, 220, -200 and -400
    let mut bg = Background::new();
    for _ in 0..100 {
        bg.tick(640, 240);
    }
    let mut batch = SpriteBatch::new(320, 240);
    let cleared = bg.draw(&mut batch, BackgroundType::OutsideWind, BG, 640, 240, 0, 0, 0, 1, 0, false);
    assert_eq!(cleared, Some((0, 0, 0, 255)));
    let dsts: Vec<(isize, isize)> = batch
        .commands
        .iter()
        .map(|c| match c {
            SpriteBatchCommand::DrawRect(_, d) => (d.left, d.top),
            _ => panic!("expected a plain copy"),
        })
        .collect();
    // side buffers left of the sun, the sun itself, side buffers to its right
    assert_eq!(&dsts[0..5], &[(0, 0), (100, 0), (160, 0), (480, 0), (580, 0)]);
    // the four parallax strips: offset/2, offset modulo 320, offset*2, offset*4
    assert!(dsts.contains(&(-50, 88)));
    assert!(dsts.contains(&(220, 123)));
    assert!(dsts.contains(&(-200, 146)));
    assert!(dsts.contains(&(-400, 176)));
}

#[test]
fn parallax_variants_scroll_at_half_speed() {
    let bg = Background::new();
    let mut batch = SpriteBatch::new(64, 64);
    bg.draw(&mut batch, BackgroundType::TiledParallax, BG, 320, 240, 20, 0, 0, 2, 0, false);
    let first = match batch.commands[0] {
        SpriteBatchCommand::DrawRect(_, dst) => dst.left,
        _ => panic!("expected a plain copy"),
    };
    assert_eq!(first, -64 - 10); // half the camera offset, on the scale grid
    batch.clear();
    bg.draw(&mut batch, BackgroundType::Waterway, BG, 320, 240, 20, 0, 0, 2, 0, false);
    let water_first = match batch.commands[0] {
        SpriteBatchCommand::DrawRect(_, dst) => dst.left,
        _ => panic!("expected a plain copy"),
    };
    assert_eq!(water_first, first); // the waterway keeps the half-speed offset
}

#[test]
fn outside_tall_canvas_stretches_the_edges() {
    // a canvas taller than the artwork gets sky and ground bands stretched to
    // fill the borders
    let bg = Background::new();
    let mut batch = SpriteBatch::new(320, 240);
    bg.draw(&mut batch, BackgroundType::Outside, BG, 640, 480, 0, 0, 0, 1, 0, false);
    let mut sky_bands = 0;
    let mut ground_bands = 0;
    for c in &batch.commands {
        if let SpriteBatchCommand::DrawRect(src, dst) = c {
            if src.top == 0 && src.bottom == 1 && dst.top == 0 {
                assert_eq!(dst.bottom, 120); // stretched to the top border
                sky_bands += 1;
            }
            if src.top == 239 && dst.top == 120 + 240 {
                assert_eq!(dst.bottom - dst.top, 124); // border plus overhang
                ground_bands += 1;
            }
        }
    }
    assert_eq!(sky_bands, 7 + 1); // seven strip copies plus the centred band
    assert_eq!(ground_bands, 2);
}

#[test]
fn custom_layer_repeats_with_gaps() {
    let mut bg = Background::new();
    let mut l = custom_layer();
    l.animation_style.scroll_flags.autoscroll_x = false;
    bg.bk_config.layers = vec![l];
    let mut batch = SpriteBatch::new(128, 128);
    let cleared = bg.draw(&mut batch, BackgroundType::Custom, BG, 320, 240, 0, 0, 0, 1, 0, false);
    assert_eq!(cleared, Some(BG));
    assert_eq!(batch.commands.len(), 3);
    assert_eq!(
        batch.commands[0],
        SpriteBatchCommand::DrawRect(rect(0, 0, 64, 64), rect(0, 0, 64, 64))
    );
    assert_eq!(
        batch.commands[1],
        SpriteBatchCommand::DrawRect(rect(0, 0, 64, 64), rect(80, 0, 144, 64))
    );
    assert_eq!(
        batch.commands[2],
        SpriteBatchCommand::DrawRect(rect(0, 0, 64, 64), rect(160, 0, 224, 64))
    );
}

#[test]
fn custom_layer_front_flag_selects_the_pass() {
    let mut bg = Background::new();
    let mut back = custom_layer();
    back.animation_style.scroll_flags.autoscroll_x = false;
    let mut front = back;
    front.animation_style.scroll_flags.draw_above_foreground = true;
    bg.bk_config.layers = vec![back, front];
    let mut batch = SpriteBatch::new(128, 128);
    bg.draw(&mut batch, BackgroundType::Custom, BG, 320, 240, 0, 0, 0, 1, 0, false);
    assert_eq!(batch.commands.len(), 3); // only the behind-foreground layer
    batch.clear();
    bg.draw(&mut batch, BackgroundType::Custom, BG, 320, 240, 0, 0, 0, 1, 0, true);
    assert_eq!(batch.commands.len(), 3); // only the above-foreground layer
}

#[test]
fn custom_layer_uses_the_animation_frame_row() {
    let mut bg = Background::new();
    let mut l = custom_layer();
    l.animation_style.scroll_flags.autoscroll_x = false;
    l.draw_repeat_x = 1;
    l.animation_style.frame_count = 2;
    l.animation_style.frame_start = 1;
    bg.bk_config.layers = vec![l];
    let mut batch = SpriteBatch::new(128, 128);
    bg.draw(&mut batch, BackgroundType::Custom, BG, 320, 240, 0, 0, 0, 1, 0, false);
    // the source rectangle advances by one frame size on both axes
    assert_eq!(
        batch.commands[0],
        SpriteBatchCommand::DrawRect(rect(64, 64, 128, 128), rect(0, 0, 64, 64))
    );
}

#[test]
fn disabled_layers_do_not_draw_or_tick() {
    let mut bg = Background::new();
    let mut l = custom_layer();
    l.layer_enabled = false;
    bg.bk_config.layers = vec![l];
    bg.tick(320, 240);
    assert_eq!(bg.bk_config.layers[0].layer_x_value, 0);
    let mut batch = SpriteBatch::new(128, 128);
    bg.draw(&mut batch, BackgroundType::Custom, BG, 320, 240, 0, 0, 0, 1, 0, false);
    assert_eq!(batch.commands.len(), 0);
}
