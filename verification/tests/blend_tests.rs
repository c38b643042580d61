use backdrop::blend::{blend_pixel, BlendMode};

const WHITE_MOD: (u8, u8, u8, u8) = (255, 255, 255, 255);

#[test]
fn off_mode_returns_source() {
    assert_eq!(blend_pixel(0x12345678, 0xFFFFFFFF, BlendMode::Off, WHITE_MOD), 0x12345678);
    assert_eq!(blend_pixel(0, 0xDEADBEEF, BlendMode::Off, (1, 2, 3, 4)), 0);
}

#[test]
fn alpha_half_red_over_opaque_blue() {
    // src (r,g,b,a) = (255,0,0,128) over dst (0,0,255,255): r ~ 128, b ~ 128, a = 255
    let src = 0x80FF0000u32; // ARGB
    let dst = 0xFF0000FFu32;
    let out = blend_pixel(src, dst, BlendMode::Alpha, WHITE_MOD);
    let a = (out >> 24) & 0xFF;
    let r = (out >> 16) & 0xFF;
    let g = (out >> 8) & 0xFF;
    let b = out & 0xFF;
    assert_eq!(r, 128);
    assert_eq!(g, 0);
    assert_eq!(b, 127);
    assert_eq!(a, 255);
}

#[test]
fn alpha_transparent_source_keeps_destination() {
    let src = 0x00FF8040u32; // alpha 0
    let dst = 0xC0102030u32;
    assert_eq!(blend_pixel(src, dst, BlendMode::Alpha, WHITE_MOD), dst);
}

#[test]
fn alpha_opaque_source_replaces_destination() {
    let src = 0xFF123456u32; // alpha 255
    let dst = 0x87654321u32;
    assert_eq!(blend_pixel(src, dst, BlendMode::Alpha, WHITE_MOD), src);
}

#[test]
fn add_saturates_per_channel() {
    let src = 0x00C0C0C0u32;
    let dst = 0x80808080u32;
    let out = blend_pixel(src, dst, BlendMode::Add, WHITE_MOD);
    // each colour channel saturates at 255; alpha keeps the destination's
    assert_eq!(out, 0x80FFFFFF);
}

#[test]
fn add_without_saturation_is_sum() {
    let src = 0x00101010u32;
    let dst = 0xFF202020u32;
    let out = blend_pixel(src, dst, BlendMode::Add, WHITE_MOD);
    assert_eq!(out, 0xFF303030);
}

#[test]
fn multiply_by_white_is_identity() {
    let src = 0x00FFFFFFu32; // white channels
    let dst = 0x9A315263u32;
    assert_eq!(blend_pixel(src, dst, BlendMode::Multiply, WHITE_MOD), dst);
}

#[test]
fn multiply_by_black_clears_channels() {
    let src = 0xFF000000u32;
    let dst = 0xFFA0B0C0u32;
    let out = blend_pixel(src, dst, BlendMode::Multiply, WHITE_MOD);
    assert_eq!(out, 0xFF000000);
}

#[test]
fn colour_modulation_scales_alpha() {
    // dst alpha 255 with alpha mod 128 gives 128 under Add
    let out = blend_pixel(0, 0xFF000000, BlendMode::Add, (255, 255, 255, 128));
    assert_eq!((out >> 24) & 0xFF, 128);
}

#[test]
fn add_applies_both_modulations_to_the_channels() {
    // sat(200 + 0) * 255 * 128 / 65025 == 100 on the red channel
    let out = blend_pixel(0, 0xFFC80000, BlendMode::Add, (255, 255, 255, 128));
    assert_eq!((out >> 16) & 0xFF, 100);
    assert_eq!(out & 0xFFFF, 0);
}
