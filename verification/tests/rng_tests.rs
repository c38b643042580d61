use backdrop::blend::BlendMode;
use backdrop::gpu::{blend_equation, BlendFactor, GpuGeneration, OffscreenSurface, OpenGLTexture};
use backdrop::rng::JitterRng;

#[test]
fn same_seed_gives_the_same_stream() {
    let mut a = JitterRng::new(12345);
    let mut b = JitterRng::new(12345);
    for _ in 0..100 {
        assert_eq!(a.next_u16(), b.next_u16());
    }
}

#[test]
fn range_stays_in_bounds() {
    let mut r = JitterRng::new(7);
    for _ in 0..1000 {
        let v = r.range(-8, 8);
        assert!((-8..8).contains(&v));
    }
}

#[test]
fn zero_seed_still_produces_values() {
    let mut r = JitterRng::new(0);
    let first = r.next_u16();
    let second = r.next_u16();
    assert_ne!(r.state, 0);
    assert_ne!(first, second);
}

#[test]
fn blend_equation_matches_the_modes() {
    assert_eq!(blend_equation(BlendMode::Off), None);
    assert_eq!(
        blend_equation(BlendMode::Add),
        Some((BlendFactor::One, BlendFactor::One, BlendFactor::One, BlendFactor::One))
    );
    assert_eq!(
        blend_equation(BlendMode::Alpha),
        Some((
            BlendFactor::SrcAlpha,
            BlendFactor::OneMinusSrcAlpha,
            BlendFactor::SrcAlpha,
            BlendFactor::OneMinusSrcAlpha
        ))
    );
    assert_eq!(
        blend_equation(BlendMode::Multiply),
        Some((BlendFactor::Zero, BlendFactor::SrcColor, BlendFactor::Zero, BlendFactor::SrcAlpha))
    );
}

#[test]
fn offscreen_surface_resizes_only_on_a_new_size() {
    let mut s = OffscreenSurface::new();
    assert_eq!(s.last_size, (320, 240));
    assert!(!s.prepare(320, 240)); // the initial size needs no reallocation
    assert!(s.prepare(640, 480));
    assert!(!s.prepare(640, 480));
    assert!(s.prepare(320, 240));
}

#[test]
fn textures_outlive_only_their_generation() {
    let mut ctx = GpuGeneration::new();
    let tex = OpenGLTexture::new(64, 32, 7, 3, &ctx);
    assert_eq!(tex.dimensions(), (64, 32));
    assert!(tex.is_render_target());
    assert!(tex.live(&ctx));
    ctx.invalidate();
    assert!(!tex.live(&ctx)); // a destructor must now be a no-op
    let plain = OpenGLTexture::new(8, 8, 9, 0, &ctx);
    assert!(!plain.is_render_target());
    assert!(plain.live(&ctx));
}
