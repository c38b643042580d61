//! Per-pixel blend functions for the CPU compositing path.
//!
//! Pixels are packed 32-bit ARGB values. A colour modulation is given as an
//! `(r, g, b, a)` tuple of bytes; the divisor `0xFE01 == 255 * 255` folds the
//! channel modulation and the alpha modulation into one normalisation step.

use vstd::prelude::*;

verus! {

/// How a source pixel is combined with the destination pixel under it.
#[derive(Clone, Copy, PartialEq, Eq, Structural, Debug)]
pub enum BlendMode {
    Off,
    Add,
    Alpha,
    Multiply,
}

/// Blue channel of a packed ARGB pixel.
pub open spec fn chan_b(v: u32) -> int {
    (v as int) % 256
}

/// Green channel of a packed ARGB pixel.
pub open spec fn chan_g(v: u32) -> int {
    ((v as int) / 256) % 256
}

/// Red channel of a packed ARGB pixel.
pub open spec fn chan_r(v: u32) -> int {
    ((v as int) / 65536) % 256
}

/// Alpha channel of a packed ARGB pixel.
pub open spec fn chan_a(v: u32) -> int {
    ((v as int) / 16777216) % 256
}

/// Packs four channel values, each in `[0, 255]`, into one ARGB word.
pub open spec fn pack_argb(a: int, r: int, g: int, b: int) -> int {
    a * 16777216 + r * 65536 + g * 256 + b
}

/// Byte addition clamped to 255.
pub open spec fn sat8(x: int) -> int {
    if x > 255 {
        255
    } else {
        x
    }
}

/// One colour channel of the additive blend.
pub open spec fn add_channel(d: int, s: int, m: int, ma: int) -> int {
    sat8(d + s) * m * ma / 65025
}

/// One colour channel of the alpha blend.
pub open spec fn alpha_channel(d: int, s: int, sa: int, m: int, ma: int) -> int {
    (s * sa / 255 + d * (255 - sa) / 255) * m * ma / 65025
}

/// The alpha channel of the alpha blend.
pub open spec fn alpha_alpha(da: int, sa: int, ma: int) -> int {
    (sa + da * (255 - sa) / 255) * ma / 255
}

/// One colour channel of the multiplicative blend.
pub open spec fn mul_channel(d: int, s: int, m: int, ma: int) -> int {
    (d * s / 255) * m * ma / 65025
}

/// The blended pixel, as an integer in `[0, 2^32)`.
pub open spec fn spec_blend(src: u32, dst: u32, mode: BlendMode, c: (u8, u8, u8, u8)) -> int {
    let cr = c.0 as int;
    let cg = c.1 as int;
    let cb = c.2 as int;
    let ca = c.3 as int;
    match mode {
        BlendMode::Off => src as int,
        BlendMode::Add => pack_argb(
            chan_a(dst) * ca / 255,
            add_channel(chan_r(dst), chan_r(src), cr, ca),
            add_channel(chan_g(dst), chan_g(src), cg, ca),
            add_channel(chan_b(dst), chan_b(src), cb, ca),
        ),
        BlendMode::Alpha => pack_argb(
            alpha_alpha(chan_a(dst), chan_a(src), ca),
            alpha_channel(chan_r(dst), chan_r(src), chan_a(src), cr, ca),
            alpha_channel(chan_g(dst), chan_g(src), chan_a(src), cg, ca),
            alpha_channel(chan_b(dst), chan_b(src), chan_a(src), cb, ca),
        ),
        BlendMode::Multiply => pack_argb(
            chan_a(dst) * ca / 255,
            mul_channel(chan_r(dst), chan_r(src), cr, ca),
            mul_channel(chan_g(dst), chan_g(src), cg, ca),
            mul_channel(chan_b(dst), chan_b(src), cb, ca),
        ),
    }
}

proof fn lemma_sat_mul_div_bound(x: int, m: int, ma: int)
    by (nonlinear_arith)
    requires
        0 <= x <= 255,
        0 <= m <= 255,
        0 <= ma <= 255,
    ensures
        0 <= x * m * ma / 65025 <= 255,
        x * m * ma <= 16581375,
{
}

proof fn lemma_weighted_sum_bound(d: int, s: int, sa: int)
    by (nonlinear_arith)
    requires
        0 <= d <= 255,
        0 <= s <= 255,
        0 <= sa <= 255,
    ensures
        0 <= s * sa / 255 + d * (255 - sa) / 255 <= 255,
        0 <= sa + d * (255 - sa) / 255 <= 255,
        0 <= d * s / 255 <= 255,
{
}

/// Blends `src_val` onto `des_val` under `blend_mode`, modulated by `color`,
/// the canonical `(r, g, b, a)` byte projection of the colour modifier.
pub fn blend_pixel(src_val: u32, des_val: u32, blend_mode: BlendMode, color: (u8, u8, u8, u8)) -> (r:
    u32)
    ensures
        r as int == spec_blend(src_val, des_val, blend_mode, color),
{
    let cr = color.0 as u32;
    let cg = color.1 as u32;
    let cb = color.2 as u32;
    let ca = color.3 as u32;

    let sb = src_val % 256;
    let sg = (src_val / 256) % 256;
    let sr = (src_val / 65536) % 256;
    let sa = (src_val / 16777216) % 256;

    let db = des_val % 256;
    let dg = (des_val / 256) % 256;
    let dr = (des_val / 65536) % 256;
    let da = (des_val / 16777216) % 256;

    match blend_mode {
        BlendMode::Off => src_val,
        BlendMode::Add => {
            assert(da * ca <= 65025) by (nonlinear_arith)
                requires
                    da <= 255,
                    ca <= 255,
            ;
            let a_out = da * ca / 255;
            let r_out = add_channel_exec(dr, sr, cr, ca);
            let g_out = add_channel_exec(dg, sg, cg, ca);
            let b_out = add_channel_exec(db, sb, cb, ca);
            proof {
                lemma_sat_mul_div_bound(da as int, ca as int, 255);
            }
            pack_exec(a_out, r_out, g_out, b_out)
        },
        BlendMode::Alpha => {
            assert(da * (255 - sa) <= 65025) by (nonlinear_arith)
                requires
                    da <= 255,
                    sa <= 255,
            ;
            let a_in = sa + da * (255 - sa) / 255;
            proof {
                lemma_weighted_sum_bound(da as int, sa as int, sa as int);
            }
            assert(a_in * ca <= 65025) by (nonlinear_arith)
                requires
                    a_in <= 255,
                    ca <= 255,
            ;
            let a_out = a_in * ca / 255;
            proof {
                lemma_sat_mul_div_bound(a_in as int, ca as int, 255);
            }
            let r_out = alpha_channel_exec(dr, sr, sa, cr, ca);
            let g_out = alpha_channel_exec(dg, sg, sa, cg, ca);
            let b_out = alpha_channel_exec(db, sb, sa, cb, ca);
            pack_exec(a_out, r_out, g_out, b_out)
        },
        BlendMode::Multiply => {
            assert(da * ca <= 65025) by (nonlinear_arith)
                requires
                    da <= 255,
                    ca <= 255,
            ;
            let a_out = da * ca / 255;
            proof {
                lemma_sat_mul_div_bound(da as int, ca as int, 255);
            }
            let r_out = mul_channel_exec(dr, sr, cr, ca);
            let g_out = mul_channel_exec(dg, sg, cg, ca);
            let b_out = mul_channel_exec(db, sb, cb, ca);
            pack_exec(a_out, r_out, g_out, b_out)
        },
    }
}

/// One additive channel: saturating byte add, then the channel and alpha
/// modulation in one normalisation step.
fn add_channel_exec(d: u32, s: u32, m: u32, ma: u32) -> (r: u32)
    requires
        d <= 255,
        s <= 255,
        m <= 255,
        ma <= 255,
    ensures
        r as int == add_channel(d as int, s as int, m as int, ma as int),
        r <= 255,
{
    let sum = d + s;
    let sum = if sum > 255 {
        255
    } else {
        sum
    };
    assert(sum * m <= 65025) by (nonlinear_arith)
        requires
            sum <= 255,
            m <= 255,
    ;
    let t = sum * m;
    assert(t * ma <= 16581375) by (nonlinear_arith)
        requires
            t <= 65025,
            ma <= 255,
    ;
    proof {
        lemma_sat_mul_div_bound(sum as int, m as int, ma as int);
    }
    t * ma / 65025
}

/// One alpha-blend channel: weighted source/destination mix, then modulation.
fn alpha_channel_exec(d: u32, s: u32, sa: u32, m: u32, ma: u32) -> (r: u32)
    requires
        d <= 255,
        s <= 255,
        sa <= 255,
        m <= 255,
        ma <= 255,
    ensures
        r as int == alpha_channel(d as int, s as int, sa as int, m as int, ma as int),
        r <= 255,
{
    assert(s * sa <= 65025 && d * (255 - sa) <= 65025) by (nonlinear_arith)
        requires
            s <= 255,
            sa <= 255,
            d <= 255,
    ;
    let mix = s * sa / 255 + d * (255 - sa) / 255;
    proof {
        lemma_weighted_sum_bound(d as int, s as int, sa as int);
        lemma_sat_mul_div_bound(mix as int, m as int, ma as int);
    }
    assert(mix * m <= 65025) by (nonlinear_arith)
        requires
            mix <= 255,
            m <= 255,
    ;
    let t = mix * m;
    assert(t * ma <= 16581375) by (nonlinear_arith)
        requires
            t <= 65025,
            ma <= 255,
    ;
    t * ma / 65025
}

/// One multiplicative channel: product of the two channels, then modulation.
fn mul_channel_exec(d: u32, s: u32, m: u32, ma: u32) -> (r: u32)
    requires
        d <= 255,
        s <= 255,
        m <= 255,
        ma <= 255,
    ensures
        r as int == mul_channel(d as int, s as int, m as int, ma as int),
        r <= 255,
{
    assert(d * s <= 65025) by (nonlinear_arith)
        requires
            d <= 255,
            s <= 255,
    ;
    let prod = d * s / 255;
    proof {
        lemma_weighted_sum_bound(d as int, s as int, s as int);
        lemma_sat_mul_div_bound(prod as int, m as int, ma as int);
    }
    assert(prod * m <= 65025) by (nonlinear_arith)
        requires
            prod <= 255,
            m <= 255,
    ;
    let t = prod * m;
    assert(t * ma <= 16581375) by (nonlinear_arith)
        requires
            t <= 65025,
            ma <= 255,
    ;
    t * ma / 65025
}

/// Packs four byte channels into one ARGB word.
fn pack_exec(a: u32, r: u32, g: u32, b: u32) -> (v: u32)
    requires
        a <= 255,
        r <= 255,
        g <= 255,
        b <= 255,
    ensures
        v as int == pack_argb(a as int, r as int, g as int, b as int),
{
    a * 16777216 + r * 65536 + g * 256 + b
}

/// Recovers the four channels of a packed word whose channels are in range.
proof fn lemma_unpack(a: int, r: int, g: int, b: int)
    by (nonlinear_arith)
    requires
        0 <= a <= 255,
        0 <= r <= 255,
        0 <= g <= 255,
        0 <= b <= 255,
    ensures
        pack_argb(a, r, g, b) % 256 == b,
        pack_argb(a, r, g, b) / 256 % 256 == g,
        pack_argb(a, r, g, b) / 65536 % 256 == r,
        pack_argb(a, r, g, b) / 16777216 % 256 == a,
{
}

/// Repacking the four channels of a word gives the word back.
proof fn lemma_repack(v: u32)
    by (nonlinear_arith)
    ensures
        pack_argb(chan_a(v), chan_r(v), chan_g(v), chan_b(v)) == v as int,
{
}

/// Alpha blending a fully transparent source leaves the destination unchanged,
/// provided the colour modulation is the identity.
pub proof fn lemma_alpha_transparent_is_dst(src: u32, dst: u32)
    requires
        chan_a(src) == 0,
    ensures
        spec_blend(src, dst, BlendMode::Alpha, (255u8, 255u8, 255u8, 255u8)) == dst as int,
{
    lemma_zero_alpha_channel(chan_r(dst), chan_r(src));
    lemma_zero_alpha_channel(chan_g(dst), chan_g(src));
    lemma_zero_alpha_channel(chan_b(dst), chan_b(src));
    lemma_exact_identity(chan_a(dst));
    lemma_repack(dst);
}

/// With a transparent source, each alpha-blended channel keeps the
/// destination value under identity modulation.
proof fn lemma_zero_alpha_channel(d: int, s: int)
    by (nonlinear_arith)
    requires
        0 <= d <= 255,
        0 <= s <= 255,
    ensures
        alpha_channel(d, s, 0, 255, 255) == d,
{
}

/// `(d * 255 / 255) * 255 * 255 / 65025 == d` and friends, for a byte `d`.
proof fn lemma_exact_identity(d: int)
    requires
        0 <= d <= 255,
    ensures
        (0 * 0 / 255 + d * 255 / 255) * 255 * 255 / 65025 == d,
        (0 + d * 255 / 255) * 255 / 255 == d,
        (d * 255 / 255 + 0 * 0 / 255) * 255 * 255 / 65025 == d,
        (255 + d * 0 / 255) * 255 / 255 == 255,
        (d * 255 / 255) * 255 * 255 / 65025 == d,
        d * 255 / 255 == d,
        sat8(d + 0) * 255 * 255 / 65025 == d,
{
}

/// Alpha blending a fully opaque source replaces the destination with the
/// source, provided the colour modulation is the identity.
pub proof fn lemma_alpha_opaque_is_src(src: u32, dst: u32)
    by (nonlinear_arith)
    requires
        chan_a(src) == 255,
    ensures
        spec_blend(src, dst, BlendMode::Alpha, (255u8, 255u8, 255u8, 255u8)) == src as int,
{
    lemma_exact_identity(chan_r(src));
    lemma_exact_identity(chan_g(src));
    lemma_exact_identity(chan_b(src));
    lemma_exact_identity(chan_a(dst));
    lemma_repack(src);
}

/// Additive blending clamps each colour channel to the saturated byte sum and
/// keeps the destination alpha, under identity modulation.
pub proof fn lemma_add_saturates(src: u32, dst: u32)
    ensures
        chan_r(spec_blend_u32(src, dst, BlendMode::Add)) == sat8(chan_r(dst) + chan_r(src)),
        chan_g(spec_blend_u32(src, dst, BlendMode::Add)) == sat8(chan_g(dst) + chan_g(src)),
        chan_b(spec_blend_u32(src, dst, BlendMode::Add)) == sat8(chan_b(dst) + chan_b(src)),
        chan_a(spec_blend_u32(src, dst, BlendMode::Add)) == chan_a(dst),
{
    lemma_sat_identity(chan_r(dst) + chan_r(src));
    lemma_sat_identity(chan_g(dst) + chan_g(src));
    lemma_sat_identity(chan_b(dst) + chan_b(src));
    lemma_exact_identity(chan_a(dst));
    lemma_unpack(
        chan_a(dst),
        sat8(chan_r(dst) + chan_r(src)),
        sat8(chan_g(dst) + chan_g(src)),
        sat8(chan_b(dst) + chan_b(src)),
    );
    lemma_pack_in_range(
        chan_a(dst),
        sat8(chan_r(dst) + chan_r(src)),
        sat8(chan_g(dst) + chan_g(src)),
        sat8(chan_b(dst) + chan_b(src)),
    );
}

/// `sat8(x) * 255 * 255 / 65025 == sat8(x)` for a sum of two bytes.
proof fn lemma_sat_identity(x: int)
    requires
        0 <= x <= 510,
    ensures
        sat8(x) * 255 * 255 / 65025 == sat8(x),
{
}

/// A packed word of in-range channels is an in-range `u32`.
proof fn lemma_pack_in_range(a: int, r: int, g: int, b: int)
    by (nonlinear_arith)
    requires
        0 <= a <= 255,
        0 <= r <= 255,
        0 <= g <= 255,
        0 <= b <= 255,
    ensures
        0 <= pack_argb(a, r, g, b) <= u32::MAX,
{
}

/// The blended word, viewed as a `u32`; `spec_blend` always lies in range.
pub open spec fn spec_blend_u32(src: u32, dst: u32, mode: BlendMode) -> u32 {
    spec_blend(src, dst, mode, (255u8, 255u8, 255u8, 255u8)) as u32
}

/// Multiplicative blending with a pure white source is the identity on the
/// destination, under identity modulation.
pub proof fn lemma_multiply_white_is_dst(src: u32, dst: u32)
    by (nonlinear_arith)
    requires
        chan_r(src) == 255,
        chan_g(src) == 255,
        chan_b(src) == 255,
    ensures
        spec_blend(src, dst, BlendMode::Multiply, (255u8, 255u8, 255u8, 255u8)) == dst as int,
{
    lemma_mul_white(chan_r(dst));
    lemma_mul_white(chan_g(dst));
    lemma_mul_white(chan_b(dst));
    lemma_exact_identity(chan_a(dst));
    lemma_repack(dst);
}

/// `(d * 255 / 255) * 255 * 255 / 65025 == d` for a byte `d`.
proof fn lemma_mul_white(d: int)
    requires
        0 <= d <= 255,
    ensures
        (d * 255 / 255) * 255 * 255 / 65025 == d,
{
}

/// Blending with mode `None` returns the source pixel unchanged.
pub proof fn lemma_none_is_src(src: u32, dst: u32, c: (u8, u8, u8, u8))
    ensures
        spec_blend(src, dst, BlendMode::Off, c) == src as int,
{
}

} // verus!
