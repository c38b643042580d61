//! The background configuration file format: a canonical textual encoding of
//! a `BkgConfig` and a parser for it. The parser accepts exactly the
//! canonical form, so that saving a loaded file reproduces it byte for byte,
//! and it accepts the canonical form of every configuration the format can
//! carry; transient fields are never written and come back zeroed.

use vstd::prelude::*;

use vstd::string::StrSliceExecFns;
use vstd::string::StringExecFns;

use crate::background::{AnimationStyle, BkgConfig, LayerConfig, ScrollFlags};

verus! {

/// The decimal digit character of `d`.
pub open spec fn digit_char(d: int) -> char {
    ((48 + d) as u8) as char
}

/// The canonical decimal form of a non-negative number.
pub open spec fn dec_u32(n: int) -> Seq<char>
    decreases n,
{
    if n < 10 {
        seq![digit_char(n)]
    } else {
        dec_u32(n / 10) + seq![digit_char(n % 10)]
    }
}

/// The canonical decimal form of a signed number.
pub open spec fn dec_i32(n: int) -> Seq<char> {
    if n < 0 {
        seq!['-'] + dec_u32(-n)
    } else {
        dec_u32(n)
    }
}

/// The canonical form of a boolean.
pub open spec fn enc_bool(b: bool) -> Seq<char> {
    if b {
        "true"@
    } else {
        "false"@
    }
}

/// The canonical form of the scroll flag set: its two halves in sequence.
pub open spec fn enc_flags(f: ScrollFlags) -> Seq<char> {
    enc_flags_front(f) + enc_flags_back(f)
}

/// The canonical form of an animation style.
pub open spec fn enc_anim(a: AnimationStyle) -> Seq<char> {
    "{\"frame_count\":"@ + dec_u32(a.frame_count as int) + ",\"frame_start\":"@ + dec_u32(
        a.frame_start as int,
    ) + ",\"animation_speed\":"@ + dec_u32(a.animation_speed as int) + ",\"scroll_speed_x\":"@
        + dec_i32(a.scroll_speed_x as int) + ",\"scroll_speed_y\":"@ + dec_i32(
        a.scroll_speed_y as int,
    ) + ",\"scroll_flags\":"@ + enc_flags(a.scroll_flags) + "}"@
}

/// The canonical form of one layer.
pub open spec fn enc_layer(l: LayerConfig) -> Seq<char> {
    "{\"layer_enabled\":"@ + enc_bool(l.layer_enabled) + ",\"bmp_x_offset\":"@ + dec_u32(
        l.bmp_x_offset as int,
    ) + ",\"bmp_y_offset\":"@ + dec_u32(l.bmp_y_offset as int) + ",\"bmp_width\":"@ + dec_u32(
        l.bmp_width as int,
    ) + ",\"bmp_height\":"@ + dec_u32(l.bmp_height as int) + ",\"draw_repeat_x\":"@ + dec_u32(
        l.draw_repeat_x as int,
    ) + ",\"draw_repeat_y\":"@ + dec_u32(l.draw_repeat_y as int) + ",\"draw_repeat_gap_x\":"@
        + dec_u32(l.draw_repeat_gap_x as int) + ",\"draw_repeat_gap_y\":"@ + dec_u32(
        l.draw_repeat_gap_y as int,
    ) + ",\"draw_corner_offset_x\":"@ + dec_i32(l.draw_corner_offset_x as int)
        + ",\"draw_corner_offset_y\":"@ + dec_i32(l.draw_corner_offset_y as int)
        + ",\"animation_style\":"@ + enc_anim(l.animation_style) + "}"@
}

/// The canonical form of the layer list.
pub open spec fn enc_layers(ls: Seq<LayerConfig>) -> Seq<char>
    decreases ls.len(),
{
    if ls.len() == 0 {
        Seq::empty()
    } else if ls.len() == 1 {
        enc_layer(ls[0])
    } else {
        enc_layers(ls.drop_last()) + ","@ + enc_layer(ls.last())
    }
}

/// The canonical form of a whole configuration.
pub open spec fn enc_config(c: BkgConfig) -> Seq<char> {
    "{\"version\":"@ + dec_u32(c.version as int) + ",\"bmp_filename\":\""@ + c.bmp_filename@
        + "\",\"lighting_mode\":"@ + dec_u32(c.lighting_mode as int) + ",\"layers\":["@
        + enc_layers(c.layers@) + "]}"@
}

/// The one-character string for a decimal digit.
fn digit_str(d: u32) -> (r: &'static str)
    requires
        d < 10,
    ensures
        r@ == seq![digit_char(d as int)],
{
    let r: &'static str = match d {
        0 => "0",
        1 => "1",
        2 => "2",
        3 => "3",
        4 => "4",
        5 => "5",
        6 => "6",
        7 => "7",
        8 => "8",
        _ => "9",
    };
    proof {
        reveal_strlit("0");
        reveal_strlit("1");
        reveal_strlit("2");
        reveal_strlit("3");
        reveal_strlit("4");
        reveal_strlit("5");
        reveal_strlit("6");
        reveal_strlit("7");
        reveal_strlit("8");
        reveal_strlit("9");
        assert(r@ =~= seq![digit_char(d as int)]);
    }
    r
}

/// Appends the canonical decimal form of `n`.
fn push_u32(out: &mut String, n: u32)
    ensures
        final(out)@ == old(out)@ + dec_u32(n as int),
    decreases n,
{
    if n < 10 {
        out.append(digit_str(n));
    } else {
        push_u32(out, n / 10);
        out.append(digit_str(n % 10));
        proof {
            vstd::seq_lib::lemma_concat_associative(
                old(out)@,
                dec_u32(n as int / 10),
                seq![digit_char(n as int % 10)],
            );
        }
    }
}

/// Appends the canonical decimal form of `v`.
fn push_i32(out: &mut String, v: i32)
    requires
        v != i32::MIN,
    ensures
        final(out)@ == old(out)@ + dec_i32(v as int),
{
    if v < 0 {
        proof {
            reveal_strlit("-");
            assert("-"@ =~= seq!['-']);
        }
        out.append("-");
        push_u32(out, (-v) as u32);
        proof {
            vstd::seq_lib::lemma_concat_associative(old(out)@, seq!['-'], dec_u32(-(v as int)));
        }
    } else {
        push_u32(out, v as u32);
    }
}

/// Appends the canonical form of `b`.
fn push_bool(out: &mut String, b: bool)
    ensures
        final(out)@ == old(out)@ + enc_bool(b),
{
    if b {
        out.append("true");
    } else {
        out.append("false");
    }
}

/// The front half of the canonical flag set, as a fresh string.
fn flags_front_string(f: &ScrollFlags) -> (out: String)
    ensures
        out@ == enc_flags_front(*f),
{
    let mut out = String::new();
    out.append("{\"follow_pc_x\":");
    proof {
        assert(out@ =~= "{\"follow_pc_x\":"@);
    }
    push_bool(&mut out, f.follow_pc_x);
    out.append(",\"follow_pc_y\":");
    push_bool(&mut out, f.follow_pc_y);
    out.append(",\"autoscroll_x\":");
    push_bool(&mut out, f.autoscroll_x);
    out.append(",\"autoscroll_y\":");
    push_bool(&mut out, f.autoscroll_y);
    out.append(",\"align_with_water_lvl\":");
    push_bool(&mut out, f.align_with_water_lvl);
    out.append(",\"draw_above_foreground\":");
    push_bool(&mut out, f.draw_above_foreground);
    out
}

/// The back half of the canonical flag set, as a fresh string.
fn flags_back_string(f: &ScrollFlags) -> (out: String)
    ensures
        out@ == enc_flags_back(*f),
{
    let mut out = String::new();
    out.append(",\"random_scroll_speed_x\":");
    proof {
        assert(out@ =~= ",\"random_scroll_speed_x\":"@);
    }
    push_bool(&mut out, f.random_scroll_speed_x);
    out.append(",\"random_scroll_speed_y\":");
    push_bool(&mut out, f.random_scroll_speed_y);
    out.append(",\"lock_to_x_axis\":");
    push_bool(&mut out, f.lock_to_x_axis);
    out.append(",\"lock_to_y_axis\":");
    push_bool(&mut out, f.lock_to_y_axis);
    out.append(",\"randomize_all_parameters\":");
    push_bool(&mut out, f.randomize_all_parameters);
    out.append("}");
    out
}

/// The canonical form of the scroll flag set, as a fresh string.
fn flags_string(f: &ScrollFlags) -> (out: String)
    ensures
        out@ == enc_flags(*f),
{
    let front = flags_front_string(f);
    let back = flags_back_string(f);
    front.concat(back.as_str())
}

/// The canonical form of an animation style, as a fresh string.
fn anim_string(a: &AnimationStyle) -> (out: String)
    requires
        a.scroll_speed_x != i32::MIN,
        a.scroll_speed_y != i32::MIN,
    ensures
        out@ == enc_anim(*a),
{
    let mut out = String::new();
    out.append("{\"frame_count\":");
    proof {
        assert(out@ =~= "{\"frame_count\":"@);
    }
    push_u32(&mut out, a.frame_count);
    out.append(",\"frame_start\":");
    push_u32(&mut out, a.frame_start);
    out.append(",\"animation_speed\":");
    push_u32(&mut out, a.animation_speed);
    out.append(",\"scroll_speed_x\":");
    push_i32(&mut out, a.scroll_speed_x);
    out.append(",\"scroll_speed_y\":");
    push_i32(&mut out, a.scroll_speed_y);
    out.append(",\"scroll_flags\":");
    let fl = flags_string(&a.scroll_flags);
    out.append(fl.as_str());
    out.append("}");
    out
}

/// The canonical form of one layer, as a fresh string.
fn layer_string(l: &LayerConfig) -> (out: String)
    requires
        l.draw_corner_offset_x != i32::MIN,
        l.draw_corner_offset_y != i32::MIN,
        l.animation_style.scroll_speed_x != i32::MIN,
        l.animation_style.scroll_speed_y != i32::MIN,
    ensures
        out@ == enc_layer(*l),
{
    let mut out = String::new();
    out.append("{\"layer_enabled\":");
    proof {
        assert(out@ =~= "{\"layer_enabled\":"@);
    }
    push_bool(&mut out, l.layer_enabled);
    out.append(",\"bmp_x_offset\":");
    push_u32(&mut out, l.bmp_x_offset);
    out.append(",\"bmp_y_offset\":");
    push_u32(&mut out, l.bmp_y_offset);
    out.append(",\"bmp_width\":");
    push_u32(&mut out, l.bmp_width);
    out.append(",\"bmp_height\":");
    push_u32(&mut out, l.bmp_height);
    out.append(",\"draw_repeat_x\":");
    push_u32(&mut out, l.draw_repeat_x);
    out.append(",\"draw_repeat_y\":");
    push_u32(&mut out, l.draw_repeat_y);
    out.append(",\"draw_repeat_gap_x\":");
    push_u32(&mut out, l.draw_repeat_gap_x);
    out.append(",\"draw_repeat_gap_y\":");
    push_u32(&mut out, l.draw_repeat_gap_y);
    out.append(",\"draw_corner_offset_x\":");
    push_i32(&mut out, l.draw_corner_offset_x);
    out.append(",\"draw_corner_offset_y\":");
    push_i32(&mut out, l.draw_corner_offset_y);
    out.append(",\"animation_style\":");
    let an = anim_string(&l.animation_style);
    out.append(an.as_str());
    out.append("}");
    out
}

/// Serialises a configuration into its canonical textual form. Transient
/// per-layer state is never written.
pub fn save_config(c: &BkgConfig) -> (out: String)
    requires
        forall|i: int| 0 <= i < c.layers@.len() ==> layer_fields_in_range(#[trigger] c.layers@[i]),
    ensures
        out@ == enc_config(*c),
{
    let mut out = String::new();
    out.append("{\"version\":");
    proof {
        assert(out@ =~= "{\"version\":"@);
    }
    push_u32(&mut out, c.version);
    out.append(",\"bmp_filename\":\"");
    out.append(c.bmp_filename.as_str());
    out.append("\",\"lighting_mode\":");
    push_u32(&mut out, c.lighting_mode as u32);
    out.append(",\"layers\":[");
    let ghost pre = out@;
    let n = c.layers.len();
    let mut i: usize = 0;
    while i < n
        invariant
            i <= n,
            n == c.layers@.len(),
            i == 0 ==> out@ == pre,
            i > 0 ==> out@ == pre + enc_layers(c.layers@.take(i as int)),
            forall|k: int|
                0 <= k < n ==> {
                    &&& (#[trigger] c.layers@[k]).draw_corner_offset_x != i32::MIN
                    &&& c.layers@[k].draw_corner_offset_y != i32::MIN
                    &&& c.layers@[k].animation_style.scroll_speed_x != i32::MIN
                    &&& c.layers@[k].animation_style.scroll_speed_y != i32::MIN
                },
        decreases n - i,
    {
        let ghost before = out@;
        if i > 0 {
            out.append(",");
            proof {
                reveal_strlit(",");
            }
        }
        let l = c.layers[i];
        let lstr = layer_string(&l);
        out.append(lstr.as_str());
        proof {
            assert(c.layers@.take(i + 1).drop_last() =~= c.layers@.take(i as int));
            assert(c.layers@.take(i + 1).last() == c.layers@[i as int]);
            if i == 0 {
                assert(enc_layers(c.layers@.take(1)) == enc_layer(c.layers@[0]));
            } else {
                vstd::seq_lib::lemma_concat_associative(
                    pre,
                    enc_layers(c.layers@.take(i as int)),
                    ","@,
                );
                vstd::seq_lib::lemma_concat_associative(
                    pre,
                    enc_layers(c.layers@.take(i as int)) + ","@,
                    enc_layer(c.layers@[i as int]),
                );
            }
        }
        i += 1;
    }
    proof {
        assert(c.layers@.take(n as int) =~= c.layers@);
        if n == 0 {
            assert(pre + enc_layers(c.layers@) =~= pre);
        }
    }
    let ghost with_layers = pre + enc_layers(c.layers@);
    proof {
        assert(out@ == with_layers);
    }
    out.append("]}");
    out
}

/// Splitting a slice of `s` at an interior point concatenates the halves.
proof fn lemma_subrange_chain(s: Seq<char>, a: int, b: int, c: int)
    requires
        0 <= a <= b <= c <= s.len(),
    ensures
        s.subrange(a, c) == s.subrange(a, b) + s.subrange(b, c),
{
    assert(s.subrange(a, c) =~= s.subrange(a, b) + s.subrange(b, c));
}

/// A concatenation occupying a slice of `t` splits at the join.
proof fn lemma_split_concat(t: Seq<char>, a: int, x: Seq<char>, y: Seq<char>)
    requires
        0 <= a,
        a + x.len() + y.len() <= t.len(),
        t.subrange(a, a + x.len() + y.len()) == x + y,
    ensures
        t.subrange(a, a + x.len()) == x,
        t.subrange(a + x.len(), a + x.len() + y.len()) == y,
{
    assert(t.subrange(a, a + x.len()) =~= x) by {
        assert forall|i: int| 0 <= i < x.len() implies t.subrange(a, a + x.len())[i] == x[i] by {
            assert(t.subrange(a, a + x.len() + y.len())[i] == (x + y)[i]);
        }
    }
    assert(t.subrange(a + x.len(), a + x.len() + y.len()) =~= y) by {
        assert forall|i: int|
            0 <= i < y.len() implies t.subrange(a + x.len(), a + x.len() + y.len())[i] == y[i] by {
            assert(t.subrange(a + x.len(), a + x.len() + y.len())[i] == t[a + x.len() + i]);
            assert(t.subrange(a, a + x.len() + y.len())[x.len() + i] == t[a + x.len() + i]);
            assert((x + y)[x.len() + i] == y[i]);
            assert(t.subrange(a, a + x.len() + y.len())[x.len() + i] == (x + y)[x.len() + i]);
        }
    }
}

/// A decimal digit character.
pub open spec fn is_digit(ch: char) -> bool {
    48 <= ch as int <= 57
}

/// Every character of a canonical number is a digit, and there is at least
/// one.
proof fn lemma_dec_digits(n: int)
    requires
        n >= 0,
    ensures
        dec_u32(n).len() >= 1,
        forall|i: int| 0 <= i < dec_u32(n).len() ==> is_digit(#[trigger] dec_u32(n)[i]),
    decreases n,
{
    if n >= 10 {
        lemma_dec_digits(n / 10);
    }
}

/// A canonical number does not start with a zero digit unless it is zero.
proof fn lemma_dec_leading(n: int)
    requires
        n >= 1,
    ensures
        dec_u32(n)[0] != '0',
    decreases n,
{
    if n >= 10 {
        lemma_dec_leading(n / 10);
        lemma_dec_digits(n / 10);
        assert(dec_u32(n)[0] == dec_u32(n / 10)[0]);
    }
}

/// One digit names a value below ten; more digits name a larger value.
proof fn lemma_dec_len(n: int)
    requires
        n >= 0,
    ensures
        n < 10 ==> dec_u32(n).len() == 1,
        n >= 10 ==> dec_u32(n).len() >= 2,
{
    if n >= 10 {
        lemma_dec_digits(n / 10);
    }
}

/// A canonical number that is a prefix of another names a value no larger.
proof fn lemma_dec_prefix_value(v: int, n: int)
    requires
        0 <= v,
        0 <= n,
        dec_u32(v).len() <= dec_u32(n).len(),
        dec_u32(n).subrange(0, dec_u32(v).len() as int) == dec_u32(v),
    ensures
        v <= n,
    decreases n,
{
    lemma_dec_len(v);
    lemma_dec_len(n);
    lemma_dec_digits(v);
    lemma_dec_digits(n);
    if n < 10 {
        assert(dec_u32(v).len() == 1);
        if v >= 10 {
            assert(false);
        }
        assert(dec_u32(n).subrange(0, 1) =~= dec_u32(n));
        assert(dec_u32(n).subrange(0, 1)[0] == dec_u32(n)[0]);
        assert(dec_u32(v)[0] == digit_char(v));
        assert(dec_u32(n)[0] == digit_char(n));
        assert(digit_char(v) == digit_char(n));
        assert((48 + v) as u8 as char as int == 48 + v);
        assert((48 + n) as u8 as char as int == 48 + n);
    } else {
        if dec_u32(v).len() <= dec_u32(n / 10).len() {
            assert(dec_u32(n / 10).subrange(0, dec_u32(v).len() as int) =~= dec_u32(v)) by {
                assert forall|i: int| 0 <= i < dec_u32(v).len() implies dec_u32(n / 10)[i]
                    == dec_u32(v)[i] by {
                    assert(dec_u32(n)[i] == dec_u32(n / 10)[i]);
                    assert(dec_u32(n).subrange(0, dec_u32(v).len() as int)[i] == dec_u32(n)[i]);
                }
            }
            lemma_dec_prefix_value(v, n / 10);
        } else {
            assert(dec_u32(v).len() == dec_u32(n).len());
            if v < 10 {
                assert(false);
            }
            assert(dec_u32(n).subrange(0, dec_u32(n).len() as int) =~= dec_u32(n));
            assert(dec_u32(v) == dec_u32(n));
            assert(dec_u32(v).drop_last() =~= dec_u32(v / 10));
            assert(dec_u32(n).drop_last() =~= dec_u32(n / 10));
            assert(dec_u32(v / 10) == dec_u32(n / 10));
            assert(dec_u32(n / 10).subrange(0, dec_u32(v / 10).len() as int) =~= dec_u32(v / 10));
            lemma_dec_prefix_value(v / 10, n / 10);
            assert(dec_u32(v).last() == digit_char(v % 10));
            assert(dec_u32(n).last() == digit_char(n % 10));
            assert((48 + v % 10) as u8 as char as int == 48 + v % 10);
            assert((48 + n % 10) as u8 as char as int == 48 + n % 10);
            assert(v % 10 == n % 10);
            assert(v == 10 * (v / 10) + v % 10 && n == 10 * (n / 10) + n % 10) by (nonlinear_arith)
                requires
                    v >= 0,
                    n >= 0,
            ;
            assert(10 * (v / 10) <= 10 * (n / 10)) by (nonlinear_arith)
                requires
                    v / 10 <= n / 10,
            ;
        }
    }
}

/// The character count of the text.
fn text_len(s: &str) -> (n: usize)
    ensures
        n == s@.len(),
{
    s.unicode_len()
}

/// Consumes `lit` at `pos`. On success the consumed slice is exactly `lit`;
/// where the slice is exactly `lit`, the match succeeds.
fn expect_lit(s: &str, pos: usize, lit: &str) -> (r: Option<usize>)
    ensures
        r matches Some(p) ==> pos + lit@.len() == p && p <= s@.len() && s@.subrange(
            pos as int,
            p as int,
        ) == lit@,
        (pos + lit@.len() <= s@.len() && s@.subrange(pos as int, pos + lit@.len()) == lit@)
            ==> (r matches Some(p2) && p2 == pos + lit@.len()),
{
    let slen = text_len(s);
    let n = lit.unicode_len();
    if pos > slen || n > slen - pos {
        return Option::None;
    }
    let mut j: usize = 0;
    while j < n
        invariant
            j <= n,
            n == lit@.len(),
            pos + n <= s@.len(),
            slen == s@.len(),
            forall|k: int| 0 <= k < j ==> s@[pos + k] == lit@[k],
        decreases n - j,
    {
        let a = s.get_char(pos + j);
        let b = lit.get_char(j);
        if a != b {
            proof {
                if s@.subrange(pos as int, pos + lit@.len()) == lit@ {
                    assert(s@.subrange(pos as int, pos + lit@.len())[j as int] == s@[pos + j]);
                }
            }
            return Option::None;
        }
        j += 1;
    }
    proof {
        assert(s@.subrange(pos as int, (pos + n) as int) =~= lit@);
    }
    Option::Some(pos + n)
}

/// Canonical-number occupancy: the text at `pos` reads exactly the canonical
/// form of `n`, followed by the end of the text or a non-digit.
pub open spec fn num_at(t: Seq<char>, pos: int, n: int) -> bool {
    &&& 0 <= pos
    &&& pos + dec_u32(n).len() <= t.len()
    &&& t.subrange(pos, pos + dec_u32(n).len() as int) == dec_u32(n)
    &&& (pos + dec_u32(n).len() == t.len() || !is_digit(t[pos + dec_u32(n).len()]))
}

/// Parses a canonical decimal number; the consumed slice is exactly its
/// canonical form, and where the text reads the canonical form of `expected`
/// the parse succeeds and consumes exactly it.
#[verifier::rlimit(100)]
fn parse_u32(s: &str, pos: usize, expected: Ghost<u32>) -> (r: Option<(u32, usize)>)
    ensures
        r matches Some((v, p)) ==> pos < p <= s@.len() && s@.subrange(pos as int, p as int)
            == dec_u32(v as int),
        num_at(s@, pos as int, expected@ as int) ==> (r matches Some((v, p)) && v <= expected@
            && p == pos + dec_u32(expected@ as int).len()),
{
    let ghost en = expected@ as int;
    let slen = text_len(s);
    if pos >= slen {
        proof {
            if num_at(s@, pos as int, en) {
                lemma_dec_digits(en);
            }
        }
        return Option::None;
    }
    let c0 = s.get_char(pos) as u32;
    if c0 < 48 || c0 > 57 {
        proof {
            if num_at(s@, pos as int, en) {
                lemma_dec_digits(en);
                assert(s@.subrange(pos as int, pos + dec_u32(en).len())[0] == s@[pos as int]);
                assert(is_digit(dec_u32(en)[0]));
            }
        }
        return Option::None;
    }
    proof {
        assert(s@[pos as int] == digit_char(c0 as int - 48)) by {
            assert((c0 as u8) as char as int == c0);
        }
        assert(s@.subrange(pos as int, pos + 1) =~= seq![digit_char(c0 as int - 48)]);
    }
    if c0 == 48 {
        proof {
            if num_at(s@, pos as int, en) {
                assert(s@.subrange(pos as int, pos + dec_u32(en).len())[0] == s@[pos as int]);
                if en >= 1 {
                    lemma_dec_leading(en);
                    assert((48int) as u8 as char as int == 48);
                    assert(false);
                }
                lemma_dec_len(en);
            }
        }
        return Option::Some((0, pos + 1));
    }
    let mut v: u32 = c0 - 48;
    let mut cur: usize = pos + 1;
    proof {
        if num_at(s@, pos as int, en) {
            lemma_dec_digits(en);
            assert(s@.subrange(pos as int, pos + dec_u32(en).len())[0] == s@[pos as int]);
            if en == 0 {
                assert(dec_u32(0)[0] == digit_char(0));
                assert((48int) as u8 as char as int == 48);
                assert(false);
            }
        }
    }
    loop
        invariant
            en == expected@ as int,
            pos < cur <= s@.len(),
            slen == s@.len(),
            1 <= v,
            s@.subrange(pos as int, cur as int) == dec_u32(v as int),
            num_at(s@, pos as int, en) ==> en >= 1 && cur <= pos + dec_u32(en).len(),
        ensures
            pos < cur <= s@.len(),
            s@.subrange(pos as int, cur as int) == dec_u32(v as int),
            num_at(s@, pos as int, en) ==> cur == pos + dec_u32(en).len() && v <= en,
        decreases s@.len() - cur,
    {
        if cur >= slen {
            proof {
                if num_at(s@, pos as int, en) {
                    lemma_exact_stop(s@, pos as int, cur as int, v as int, en);
                }
            }
            break ;
        }
        let ch = s.get_char(cur) as u32;
        if ch < 48 || ch > 57 {
            proof {
                if num_at(s@, pos as int, en) {
                    if cur < pos + dec_u32(en).len() {
                        lemma_dec_digits(en);
                        assert(s@.subrange(pos as int, pos + dec_u32(en).len())[cur - pos]
                            == s@[cur as int]);
                        assert(is_digit(dec_u32(en)[cur - pos]));
                        assert(false);
                    }
                    lemma_exact_stop(s@, pos as int, cur as int, v as int, en);
                }
            }
            break ;
        }
        let d = ch - 48;
        proof {
            assert(s@[cur as int] == digit_char(d as int)) by {
                assert((ch as u8) as char as int == ch);
            }
        }
        let wide = (v as u64) * 10 + (d as u64);
        proof {
            assert(is_digit(s@[cur as int]));
            if num_at(s@, pos as int, en) {
                lemma_next_prefix(s@, pos as int, cur as int, v as int, d as int, en);
            }
        }
        if wide > 0xFFFF_FFFF {
            proof {
                if num_at(s@, pos as int, en) {
                    assert((v as int) * 10 + (d as int) <= en);
                    assert(en <= 0xFFFF_FFFF);
                    assert(wide == (v as int) * 10 + (d as int));
                    assert(false);
                }
            }
            return Option::None;
        }
        let v2 = v * 10 + d;
        proof {
            assert((v2 as int) / 10 == v && (v2 as int) % 10 == d) by (nonlinear_arith)
                requires
                    v2 == (v as int) * 10 + d,
                    0 <= d < 10,
                    v >= 1,
            ;
            lemma_subrange_chain(s@, pos as int, cur as int, cur + 1);
            assert(s@.subrange(cur as int, cur + 1) =~= seq![digit_char(d as int)]);
            assert(s@.subrange(pos as int, cur + 1) == dec_u32(v2 as int));
        }
        v = v2;
        cur += 1;
    }
    Option::Some((v, cur))
}

/// At a stop inside a run that reads the canonical form of `en`, the cursor
/// sits exactly at its end and the accumulated value does not exceed it.
proof fn lemma_exact_stop(t: Seq<char>, pos: int, cur: int, v: int, en: int)
    requires
        0 <= v,
        0 <= en,
        num_at(t, pos, en),
        pos < cur <= t.len(),
        cur <= pos + dec_u32(en).len(),
        t.subrange(pos, cur) == dec_u32(v),
        cur == t.len() || !is_digit(t[cur]),
    ensures
        cur == pos + dec_u32(en).len(),
        v <= en,
{
    lemma_dec_digits(en);
    if cur < pos + dec_u32(en).len() {
        assert(t.subrange(pos, pos + dec_u32(en).len() as int)[cur - pos] == t[cur]);
        assert(is_digit(dec_u32(en)[cur - pos]));
        assert(cur < t.len());
        assert(false);
    }
    assert(dec_u32(v) == t.subrange(pos, pos + dec_u32(en).len() as int));
    assert(dec_u32(v) == dec_u32(en));
    assert(dec_u32(en).subrange(0, dec_u32(v).len() as int) =~= dec_u32(v));
    lemma_dec_prefix_value(v, en);
}

/// One more matched digit keeps the accumulated value a prefix value of
/// `en`, so it cannot overflow.
proof fn lemma_next_prefix(t: Seq<char>, pos: int, cur: int, v: int, d: int, en: int)
    requires
        1 <= v,
        0 <= d < 10,
        0 <= en,
        num_at(t, pos, en),
        pos < cur < t.len(),
        cur <= pos + dec_u32(en).len(),
        t.subrange(pos, cur) == dec_u32(v),
        t[cur] == digit_char(d),
        is_digit(t[cur]),
    ensures
        v * 10 + d <= en,
        cur + 1 <= pos + dec_u32(en).len(),
{
    lemma_dec_digits(en);
    if cur == pos + dec_u32(en).len() {
        assert(!is_digit(t[cur]));
        assert(false);
    }
    let v2 = v * 10 + d;
    assert(v2 / 10 == v && v2 % 10 == d && v2 >= 10) by (nonlinear_arith)
        requires
            v2 == v * 10 + d,
            0 <= d < 10,
            v >= 1,
    ;
    assert(dec_u32(v2) == dec_u32(v) + seq![digit_char(d)]);
    lemma_subrange_chain(t, pos, cur, cur + 1);
    assert(t.subrange(cur, cur + 1) =~= seq![digit_char(d)]);
    assert(t.subrange(pos, cur + 1) == dec_u32(v2));
    assert(dec_u32(en).subrange(0, dec_u32(v2).len() as int) =~= dec_u32(v2)) by {
        assert forall|i: int| 0 <= i < dec_u32(v2).len() implies dec_u32(en)[i] == dec_u32(v2)[i] by {
            assert(t.subrange(pos, pos + dec_u32(en).len() as int)[i] == t[pos + i]);
            assert(t.subrange(pos, cur + 1)[i] == t[pos + i]);
        }
    }
    lemma_dec_prefix_value(v2, en);
}

/// Canonical signed-number occupancy.
pub open spec fn int_at(t: Seq<char>, pos: int, n: int) -> bool {
    if n < 0 {
        &&& 0 <= pos < t.len()
        &&& t[pos] == '-'
        &&& num_at(t, pos + 1, -n)
    } else {
        num_at(t, pos, n)
    }
}

/// Parses a canonical signed decimal number. The value never comes back as
/// the one unrepresentable magnitude; where the text reads the canonical
/// form of `expected` the parse succeeds and consumes exactly it.
fn parse_i32(s: &str, pos: usize, expected: Ghost<i32>) -> (r: Option<(i32, usize)>)
    ensures
        r matches Some((v, p)) ==> pos < p <= s@.len() && s@.subrange(pos as int, p as int)
            == dec_i32(v as int) && v != i32::MIN,
        int_at(s@, pos as int, expected@ as int) && expected@ != i32::MIN ==> (r matches Some(
            (v, p),
        ) && p == pos + dec_i32(expected@ as int).len()),
{
    let ghost en = expected@ as int;
    let slen = text_len(s);
    if pos >= slen {
        proof {
            if int_at(s@, pos as int, en) && en >= 0 {
                lemma_dec_digits(en);
            }
        }
        return Option::None;
    }
    let c0 = s.get_char(pos) as u32;
    if c0 == 45 {
        // a minus sign
        let ghost mag: u32 = if en < 0 {
            (-en) as u32
        } else {
            0
        };
        match parse_u32(s, pos + 1, Ghost(mag)) {
            Option::Some((u, p)) => {
                if u == 0 || u > 0x7FFF_FFFF {
                    proof {
                        if int_at(s@, pos as int, en) && en != i32::MIN {
                            if en >= 0 {
                                lemma_dec_digits(en);
                                assert(s@.subrange(pos as int, pos + dec_u32(en).len())[0]
                                    == s@[pos as int]);
                                assert(is_digit(dec_u32(en)[0]));
                                assert(('-') as int == 45);
                                assert(false);
                            }
                            if u == 0 {
                                lemma_dec_leading(mag as int);
                                assert(s@.subrange((pos + 1) as int, p as int) == dec_u32(0));
                                assert(dec_u32(0) == dec_u32(mag as int));
                                assert(dec_u32(0)[0] == digit_char(0));
                                assert((48int) as u8 as char as int == 48);
                                assert(false);
                            }
                            assert(false);
                        }
                    }
                    Option::None
                } else {
                    let v = -(u as i32);
                    proof {
                        lemma_subrange_chain(s@, pos as int, pos + 1, p as int);
                        assert(s@.subrange(pos as int, pos + 1) =~= seq!['-']);
                        if int_at(s@, pos as int, en) && en != i32::MIN && en >= 0 {
                            lemma_dec_digits(en);
                            assert(s@.subrange(pos as int, pos + dec_u32(en).len())[0]
                                == s@[pos as int]);
                            assert(is_digit(dec_u32(en)[0]));
                            assert(('-') as int == 45);
                            assert(false);
                        }
                    }
                    Option::Some((v, p))
                }
            },
            Option::None => {
                proof {
                    if int_at(s@, pos as int, en) && en != i32::MIN {
                        if en >= 0 {
                            lemma_dec_digits(en);
                            assert(s@.subrange(pos as int, pos + dec_u32(en).len())[0]
                                == s@[pos as int]);
                            assert(is_digit(dec_u32(en)[0]));
                            assert(('-') as int == 45);
                        }
                        assert(false);
                    }
                }
                Option::None
            },
        }
    } else {
        let ghost gp: u32 = if en >= 0 {
            en as u32
        } else {
            0
        };
        match parse_u32(s, pos, Ghost(gp)) {
            Option::Some((u, p)) => {
                if u > 0x7FFF_FFFF {
                    proof {
                        if int_at(s@, pos as int, en) && en != i32::MIN {
                            if en < 0 {
                                assert(('-') as int == 45);
                                assert(false);
                            }
                            assert(false);
                        }
                    }
                    Option::None
                } else {
                    proof {
                        if int_at(s@, pos as int, en) && en != i32::MIN && en < 0 {
                            assert(('-') as int == 45);
                            assert(false);
                        }
                    }
                    Option::Some((u as i32, p))
                }
            },
            Option::None => {
                proof {
                    if int_at(s@, pos as int, en) && en != i32::MIN {
                        if en < 0 {
                            assert(('-') as int == 45);
                        }
                        assert(false);
                    }
                }
                Option::None
            },
        }
    }
}

/// Parses a canonical boolean; where the text reads one, the parse succeeds
/// and returns it.
fn parse_bool(s: &str, pos: usize, expected: Ghost<bool>) -> (r: Option<(bool, usize)>)
    ensures
        r matches Some((b, p)) ==> pos <= p <= s@.len() && s@.subrange(pos as int, p as int)
            == enc_bool(b),
        (pos + enc_bool(expected@).len() <= s@.len() && s@.subrange(
            pos as int,
            pos + enc_bool(expected@).len(),
        ) == enc_bool(expected@)) ==> (r matches Some((b, p)) && b == expected@ && p == pos
            + enc_bool(expected@).len()),
{
    let ghost hyp = pos + enc_bool(expected@).len() <= s@.len() && s@.subrange(
        pos as int,
        pos + enc_bool(expected@).len(),
    ) == enc_bool(expected@);
    match expect_lit(s, pos, "true") {
        Option::Some(p) => {
            proof {
                if hyp && !expected@ {
                    reveal_strlit("true");
                    reveal_strlit("false");
                    assert(s@.subrange(pos as int, p as int)[0] == s@[pos as int]);
                    assert(s@.subrange(pos as int, pos + enc_bool(false).len())[0]
                        == s@[pos as int]);
                    assert(false);
                }
            }
            Option::Some((true, p))
        },
        Option::None => {
            match expect_lit(s, pos, "false") {
                Option::Some(p) => {
                    proof {
                        if hyp && expected@ {
                            assert(false);
                        }
                    }
                    Option::Some((false, p))
                },
                Option::None => {
                    proof {
                        if hyp {
                            assert(false);
                        }
                    }
                    Option::None
                },
            }
        },
    }
}

/// Canonical name occupancy: the text at `pos` reads the name, which holds
/// no double quote, up to a closing double quote.
pub open spec fn name_at(t: Seq<char>, pos: int, nm: Seq<char>) -> bool {
    &&& 0 <= pos
    &&& pos + nm.len() < t.len()
    &&& t.subrange(pos, pos + nm.len() as int) == nm
    &&& t[pos + nm.len()] == '"'
    &&& forall|i: int| 0 <= i < nm.len() ==> #[trigger] nm[i] != '"'
}

/// Reads the bitmap name: everything up to, and not including, the next
/// double quote. Where the text reads a quote-free name, the scan stops
/// exactly at its closing quote.
fn parse_name(s: &str, pos: usize, expected: Ghost<Seq<char>>) -> (r: Option<(String, usize)>)
    ensures
        r matches Some((nm, p)) ==> pos <= p <= s@.len() && s@.subrange(pos as int, p as int)
            == nm@,
        name_at(s@, pos as int, expected@) ==> (r matches Some((nm2, p)) && p == pos
            + expected@.len()),
{
    let ghost exp = expected@;
    let slen = text_len(s);
    if pos > slen {
        return Option::None;
    }
    let mut cur: usize = pos;
    while cur < slen
        invariant
            pos <= cur <= slen,
            slen == s@.len(),
            exp == expected@,
            forall|k: int| pos <= k < cur ==> s@[k] != '"',
            name_at(s@, pos as int, exp) ==> cur <= pos + exp.len(),
        ensures
            pos <= cur <= slen,
            slen == s@.len(),
            cur == slen || s@[cur as int] == '"',
            forall|k: int| pos <= k < cur ==> s@[k] != '"',
            name_at(s@, pos as int, exp) ==> cur == pos + exp.len(),
        decreases slen - cur,
    {
        let ch = s.get_char(cur);
        if ch as u32 == 34 {
            proof {
                assert(('"') as int == 34);
                if name_at(s@, pos as int, exp) && cur < pos + exp.len() {
                    assert(s@.subrange(pos as int, pos + exp.len() as int)[cur - pos]
                        == s@[cur as int]);
                    assert(exp[cur - pos] != '"');
                    assert(false);
                }
            }
            break ;
        }
        proof {
            assert(('"') as int == 34);
            if name_at(s@, pos as int, exp) && cur == pos + exp.len() {
                assert(s@[cur as int] == '"');
                assert(false);
            }
        }
        cur += 1;
    }
    proof {
        if name_at(s@, pos as int, exp) {
            assert(pos + exp.len() < s@.len());
        }
    }
    if cur >= slen {
        return Option::None;
    }
    let piece = s.substring_char(pos, cur);
    let nm = String::from_str(piece);
    Option::Some((nm, cur))
}

/// Consumes a key literal followed by a boolean value.
fn lit_bool(s: &str, pos: usize, lit: &str, expected: Ghost<bool>) -> (r: Option<(bool, usize)>)
    ensures
        r matches Some((b, p)) ==> pos <= p <= s@.len() && s@.subrange(pos as int, p as int) == lit@
            + enc_bool(b),
        (pos + lit@.len() + enc_bool(expected@).len() <= s@.len() && s@.subrange(
            pos as int,
            pos + lit@.len(),
        ) == lit@ && s@.subrange(pos + lit@.len(), pos + lit@.len() + enc_bool(expected@).len())
            == enc_bool(expected@)) ==> (r matches Some((b, p)) && b == expected@ && p == pos
            + lit@.len() + enc_bool(expected@).len()),
{
    let p1 = match expect_lit(s, pos, lit) {
        Option::Some(p) => p,
        Option::None => {
            return Option::None;
        },
    };
    match parse_bool(s, p1, expected) {
        Option::Some((b, p2)) => {
            proof {
                lemma_subrange_chain(s@, pos as int, p1 as int, p2 as int);
            }
            Option::Some((b, p2))
        },
        Option::None => Option::None,
    }
}

/// Consumes a key literal followed by an unsigned number.
fn lit_u32(s: &str, pos: usize, lit: &str, expected: Ghost<u32>) -> (r: Option<(u32, usize)>)
    ensures
        r matches Some((v, p)) ==> pos <= p <= s@.len() && s@.subrange(pos as int, p as int) == lit@
            + dec_u32(v as int),
        (pos + lit@.len() <= s@.len() && s@.subrange(pos as int, pos + lit@.len()) == lit@
            && num_at(s@, pos + lit@.len(), expected@ as int)) ==> (r matches Some((v, p)) && v
            <= expected@ && p == pos + lit@.len() + dec_u32(expected@ as int).len()),
{
    let p1 = match expect_lit(s, pos, lit) {
        Option::Some(p) => p,
        Option::None => {
            return Option::None;
        },
    };
    match parse_u32(s, p1, expected) {
        Option::Some((v, p2)) => {
            proof {
                lemma_subrange_chain(s@, pos as int, p1 as int, p2 as int);
            }
            Option::Some((v, p2))
        },
        Option::None => Option::None,
    }
}

/// Consumes a key literal followed by a signed number.
fn lit_i32(s: &str, pos: usize, lit: &str, expected: Ghost<i32>) -> (r: Option<(i32, usize)>)
    ensures
        r matches Some((v, p)) ==> pos <= p <= s@.len() && s@.subrange(pos as int, p as int) == lit@
            + dec_i32(v as int) && v != i32::MIN,
        (pos + lit@.len() <= s@.len() && s@.subrange(pos as int, pos + lit@.len()) == lit@ && int_at(
            s@,
            pos + lit@.len(),
            expected@ as int,
        ) && expected@ != i32::MIN) ==> (r matches Some((v, p)) && p == pos + lit@.len() + dec_i32(
            expected@ as int,
        ).len()),
{
    let p1 = match expect_lit(s, pos, lit) {
        Option::Some(p) => p,
        Option::None => {
            return Option::None;
        },
    };
    match parse_i32(s, p1, expected) {
        Option::Some((v, p2)) => {
            proof {
                lemma_subrange_chain(s@, pos as int, p1 as int, p2 as int);
            }
            Option::Some((v, p2))
        },
        Option::None => Option::None,
    }
}

/// Canonical occupancy of one flag set.
pub open spec fn flags_at(t: Seq<char>, pos: int, x: ScrollFlags) -> bool {
    &&& 0 <= pos
    &&& pos + enc_flags(x).len() <= t.len()
    &&& t.subrange(pos, pos + enc_flags(x).len() as int) == enc_flags(x)
}

/// The first six fields of the canonical flag set.
pub open spec fn enc_flags_front(f: ScrollFlags) -> Seq<char> {
    "{\"follow_pc_x\":"@ + enc_bool(f.follow_pc_x) + ",\"follow_pc_y\":"@ + enc_bool(f.follow_pc_y) + ",\"autoscroll_x\":"@ + enc_bool(f.autoscroll_x) + ",\"autoscroll_y\":"@ + enc_bool(f.autoscroll_y) + ",\"align_with_water_lvl\":"@ + enc_bool(f.align_with_water_lvl) + ",\"draw_above_foreground\":"@ + enc_bool(f.draw_above_foreground)
}

/// The last five fields of the canonical flag set, and its closing brace.
pub open spec fn enc_flags_back(f: ScrollFlags) -> Seq<char> {
    ",\"random_scroll_speed_x\":"@ + enc_bool(f.random_scroll_speed_x) + ",\"random_scroll_speed_y\":"@ + enc_bool(f.random_scroll_speed_y) + ",\"lock_to_x_axis\":"@ + enc_bool(f.lock_to_x_axis) + ",\"lock_to_y_axis\":"@ + enc_bool(f.lock_to_y_axis) + ",\"randomize_all_parameters\":"@ + enc_bool(f.randomize_all_parameters) + "}"@
}

/// Canonical occupancy of the front half of a flag set.
pub open spec fn flags_front_at(t: Seq<char>, pos: int, x: ScrollFlags) -> bool {
    &&& 0 <= pos
    &&& pos + enc_flags_front(x).len() <= t.len()
    &&& t.subrange(pos, pos + enc_flags_front(x).len() as int) == enc_flags_front(x)
}

/// Canonical occupancy of the back half of a flag set.
pub open spec fn flags_back_at(t: Seq<char>, pos: int, x: ScrollFlags) -> bool {
    &&& 0 <= pos
    &&& pos + enc_flags_back(x).len() <= t.len()
    &&& t.subrange(pos, pos + enc_flags_back(x).len() as int) == enc_flags_back(x)
}

/// A flag set in place splits into its two halves in place.
proof fn lemma_flags_halves(t: Seq<char>, pos: int, ef: ScrollFlags)
    requires
        flags_at(t, pos, ef),
    ensures
        flags_front_at(t, pos, ef),
        flags_back_at(t, pos + enc_flags_front(ef).len(), ef),
{
    lemma_split_concat(t, pos, enc_flags_front(ef), enc_flags_back(ef));
}

/// The pieces of the front half, each in place.
#[verifier::rlimit(100)]
#[verifier::spinoff_prover]
proof fn lemma_flags_front_pieces(t: Seq<char>, pos: int, ef: ScrollFlags)
    requires
        flags_front_at(t, pos, ef),
    ensures
        t.subrange(pos, pos + ("{\"follow_pc_x\":"@).len()) == "{\"follow_pc_x\":"@,
        t.subrange(pos + ("{\"follow_pc_x\":"@).len(), pos + ("{\"follow_pc_x\":"@ + enc_bool(ef.follow_pc_x)).len()) == enc_bool(ef.follow_pc_x),
        t.subrange(pos + ("{\"follow_pc_x\":"@ + enc_bool(ef.follow_pc_x)).len(), pos + ("{\"follow_pc_x\":"@ + enc_bool(ef.follow_pc_x) + ",\"follow_pc_y\":"@).len()) == ",\"follow_pc_y\":"@,
        t.subrange(pos + ("{\"follow_pc_x\":"@ + enc_bool(ef.follow_pc_x) + ",\"follow_pc_y\":"@).len(), pos + ("{\"follow_pc_x\":"@ + enc_bool(ef.follow_pc_x) + ",\"follow_pc_y\":"@ + enc_bool(ef.follow_pc_y)).len()) == enc_bool(ef.follow_pc_y),
        t.subrange(pos + ("{\"follow_pc_x\":"@ + enc_bool(ef.follow_pc_x) + ",\"follow_pc_y\":"@ + enc_bool(ef.follow_pc_y)).len(), pos + ("{\"follow_pc_x\":"@ + enc_bool(ef.follow_pc_x) + ",\"follow_pc_y\":"@ + enc_bool(ef.follow_pc_y) + ",\"autoscroll_x\":"@).len()) == ",\"autoscroll_x\":"@,
        t.subrange(pos + ("{\"follow_pc_x\":"@ + enc_bool(ef.follow_pc_x) + ",\"follow_pc_y\":"@ + enc_bool(ef.follow_pc_y) + ",\"autoscroll_x\":"@).len(), pos + ("{\"follow_pc_x\":"@ + enc_bool(ef.follow_pc_x) + ",\"follow_pc_y\":"@ + enc_bool(ef.follow_pc_y) + ",\"autoscroll_x\":"@ + enc_bool(ef.autoscroll_x)).len()) == enc_bool(ef.autoscroll_x),
        t.subrange(pos + ("{\"follow_pc_x\":"@ + enc_bool(ef.follow_pc_x) + ",\"follow_pc_y\":"@ + enc_bool(ef.follow_pc_y) + ",\"autoscroll_x\":"@ + enc_bool(ef.autoscroll_x)).len(), pos + ("{\"follow_pc_x\":"@ + enc_bool(ef.follow_pc_x) + ",\"follow_pc_y\":"@ + enc_bool(ef.follow_pc_y) + ",\"autoscroll_x\":"@ + enc_bool(ef.autoscroll_x) + ",\"autoscroll_y\":"@).len()) == ",\"autoscroll_y\":"@,
        t.subrange(pos + ("{\"follow_pc_x\":"@ + enc_bool(ef.follow_pc_x) + ",\"follow_pc_y\":"@ + enc_bool(ef.follow_pc_y) + ",\"autoscroll_x\":"@ + enc_bool(ef.autoscroll_x) + ",\"autoscroll_y\":"@).len(), pos + ("{\"follow_pc_x\":"@ + enc_bool(ef.follow_pc_x) + ",\"follow_pc_y\":"@ + enc_bool(ef.follow_pc_y) + ",\"autoscroll_x\":"@ + enc_bool(ef.autoscroll_x) + ",\"autoscroll_y\":"@ + enc_bool(ef.autoscroll_y)).len()) == enc_bool(ef.autoscroll_y),
        t.subrange(pos + ("{\"follow_pc_x\":"@ + enc_bool(ef.follow_pc_x) + ",\"follow_pc_y\":"@ + enc_bool(ef.follow_pc_y) + ",\"autoscroll_x\":"@ + enc_bool(ef.autoscroll_x) + ",\"autoscroll_y\":"@ + enc_bool(ef.autoscroll_y)).len(), pos + ("{\"follow_pc_x\":"@ + enc_bool(ef.follow_pc_x) + ",\"follow_pc_y\":"@ + enc_bool(ef.follow_pc_y) + ",\"autoscroll_x\":"@ + enc_bool(ef.autoscroll_x) + ",\"autoscroll_y\":"@ + enc_bool(ef.autoscroll_y) + ",\"align_with_water_lvl\":"@).len()) == ",\"align_with_water_lvl\":"@,
        t.subrange(pos + ("{\"follow_pc_x\":"@ + enc_bool(ef.follow_pc_x) + ",\"follow_pc_y\":"@ + enc_bool(ef.follow_pc_y) + ",\"autoscroll_x\":"@ + enc_bool(ef.autoscroll_x) + ",\"autoscroll_y\":"@ + enc_bool(ef.autoscroll_y) + ",\"align_with_water_lvl\":"@).len(), pos + ("{\"follow_pc_x\":"@ + enc_bool(ef.follow_pc_x) + ",\"follow_pc_y\":"@ + enc_bool(ef.follow_pc_y) + ",\"autoscroll_x\":"@ + enc_bool(ef.autoscroll_x) + ",\"autoscroll_y\":"@ + enc_bool(ef.autoscroll_y) + ",\"align_with_water_lvl\":"@ + enc_bool(ef.align_with_water_lvl)).len()) == enc_bool(ef.align_with_water_lvl),
        t.subrange(pos + ("{\"follow_pc_x\":"@ + enc_bool(ef.follow_pc_x) + ",\"follow_pc_y\":"@ + enc_bool(ef.follow_pc_y) + ",\"autoscroll_x\":"@ + enc_bool(ef.autoscroll_x) + ",\"autoscroll_y\":"@ + enc_bool(ef.autoscroll_y) + ",\"align_with_water_lvl\":"@ + enc_bool(ef.align_with_water_lvl)).len(), pos + ("{\"follow_pc_x\":"@ + enc_bool(ef.follow_pc_x) + ",\"follow_pc_y\":"@ + enc_bool(ef.follow_pc_y) + ",\"autoscroll_x\":"@ + enc_bool(ef.autoscroll_x) + ",\"autoscroll_y\":"@ + enc_bool(ef.autoscroll_y) + ",\"align_with_water_lvl\":"@ + enc_bool(ef.align_with_water_lvl) + ",\"draw_above_foreground\":"@).len()) == ",\"draw_above_foreground\":"@,
        t.subrange(pos + ("{\"follow_pc_x\":"@ + enc_bool(ef.follow_pc_x) + ",\"follow_pc_y\":"@ + enc_bool(ef.follow_pc_y) + ",\"autoscroll_x\":"@ + enc_bool(ef.autoscroll_x) + ",\"autoscroll_y\":"@ + enc_bool(ef.autoscroll_y) + ",\"align_with_water_lvl\":"@ + enc_bool(ef.align_with_water_lvl) + ",\"draw_above_foreground\":"@).len(), pos + ("{\"follow_pc_x\":"@ + enc_bool(ef.follow_pc_x) + ",\"follow_pc_y\":"@ + enc_bool(ef.follow_pc_y) + ",\"autoscroll_x\":"@ + enc_bool(ef.autoscroll_x) + ",\"autoscroll_y\":"@ + enc_bool(ef.autoscroll_y) + ",\"align_with_water_lvl\":"@ + enc_bool(ef.align_with_water_lvl) + ",\"draw_above_foreground\":"@ + enc_bool(ef.draw_above_foreground)).len()) == enc_bool(ef.draw_above_foreground),
{
    lemma_split_concat(t, pos, "{\"follow_pc_x\":"@ + enc_bool(ef.follow_pc_x) + ",\"follow_pc_y\":"@ + enc_bool(ef.follow_pc_y) + ",\"autoscroll_x\":"@ + enc_bool(ef.autoscroll_x) + ",\"autoscroll_y\":"@ + enc_bool(ef.autoscroll_y) + ",\"align_with_water_lvl\":"@ + enc_bool(ef.align_with_water_lvl) + ",\"draw_above_foreground\":"@, enc_bool(ef.draw_above_foreground));
    lemma_split_concat(t, pos, "{\"follow_pc_x\":"@ + enc_bool(ef.follow_pc_x) + ",\"follow_pc_y\":"@ + enc_bool(ef.follow_pc_y) + ",\"autoscroll_x\":"@ + enc_bool(ef.autoscroll_x) + ",\"autoscroll_y\":"@ + enc_bool(ef.autoscroll_y) + ",\"align_with_water_lvl\":"@ + enc_bool(ef.align_with_water_lvl), ",\"draw_above_foreground\":"@);
    lemma_split_concat(t, pos, "{\"follow_pc_x\":"@ + enc_bool(ef.follow_pc_x) + ",\"follow_pc_y\":"@ + enc_bool(ef.follow_pc_y) + ",\"autoscroll_x\":"@ + enc_bool(ef.autoscroll_x) + ",\"autoscroll_y\":"@ + enc_bool(ef.autoscroll_y) + ",\"align_with_water_lvl\":"@, enc_bool(ef.align_with_water_lvl));
    lemma_split_concat(t, pos, "{\"follow_pc_x\":"@ + enc_bool(ef.follow_pc_x) + ",\"follow_pc_y\":"@ + enc_bool(ef.follow_pc_y) + ",\"autoscroll_x\":"@ + enc_bool(ef.autoscroll_x) + ",\"autoscroll_y\":"@ + enc_bool(ef.autoscroll_y), ",\"align_with_water_lvl\":"@);
    lemma_split_concat(t, pos, "{\"follow_pc_x\":"@ + enc_bool(ef.follow_pc_x) + ",\"follow_pc_y\":"@ + enc_bool(ef.follow_pc_y) + ",\"autoscroll_x\":"@ + enc_bool(ef.autoscroll_x) + ",\"autoscroll_y\":"@, enc_bool(ef.autoscroll_y));
    lemma_split_concat(t, pos, "{\"follow_pc_x\":"@ + enc_bool(ef.follow_pc_x) + ",\"follow_pc_y\":"@ + enc_bool(ef.follow_pc_y) + ",\"autoscroll_x\":"@ + enc_bool(ef.autoscroll_x), ",\"autoscroll_y\":"@);
    lemma_split_concat(t, pos, "{\"follow_pc_x\":"@ + enc_bool(ef.follow_pc_x) + ",\"follow_pc_y\":"@ + enc_bool(ef.follow_pc_y) + ",\"autoscroll_x\":"@, enc_bool(ef.autoscroll_x));
    lemma_split_concat(t, pos, "{\"follow_pc_x\":"@ + enc_bool(ef.follow_pc_x) + ",\"follow_pc_y\":"@ + enc_bool(ef.follow_pc_y), ",\"autoscroll_x\":"@);
    lemma_split_concat(t, pos, "{\"follow_pc_x\":"@ + enc_bool(ef.follow_pc_x) + ",\"follow_pc_y\":"@, enc_bool(ef.follow_pc_y));
    lemma_split_concat(t, pos, "{\"follow_pc_x\":"@ + enc_bool(ef.follow_pc_x), ",\"follow_pc_y\":"@);
    lemma_split_concat(t, pos, "{\"follow_pc_x\":"@, enc_bool(ef.follow_pc_x));
}

/// The pieces of the back half, each in place.
#[verifier::rlimit(100)]
#[verifier::spinoff_prover]
proof fn lemma_flags_back_pieces(t: Seq<char>, pos: int, ef: ScrollFlags)
    requires
        flags_back_at(t, pos, ef),
    ensures
        t.subrange(pos, pos + (",\"random_scroll_speed_x\":"@).len()) == ",\"random_scroll_speed_x\":"@,
        t.subrange(pos + (",\"random_scroll_speed_x\":"@).len(), pos + (",\"random_scroll_speed_x\":"@ + enc_bool(ef.random_scroll_speed_x)).len()) == enc_bool(ef.random_scroll_speed_x),
        t.subrange(pos + (",\"random_scroll_speed_x\":"@ + enc_bool(ef.random_scroll_speed_x)).len(), pos + (",\"random_scroll_speed_x\":"@ + enc_bool(ef.random_scroll_speed_x) + ",\"random_scroll_speed_y\":"@).len()) == ",\"random_scroll_speed_y\":"@,
        t.subrange(pos + (",\"random_scroll_speed_x\":"@ + enc_bool(ef.random_scroll_speed_x) + ",\"random_scroll_speed_y\":"@).len(), pos + (",\"random_scroll_speed_x\":"@ + enc_bool(ef.random_scroll_speed_x) + ",\"random_scroll_speed_y\":"@ + enc_bool(ef.random_scroll_speed_y)).len()) == enc_bool(ef.random_scroll_speed_y),
        t.subrange(pos + (",\"random_scroll_speed_x\":"@ + enc_bool(ef.random_scroll_speed_x) + ",\"random_scroll_speed_y\":"@ + enc_bool(ef.random_scroll_speed_y)).len(), pos + (",\"random_scroll_speed_x\":"@ + enc_bool(ef.random_scroll_speed_x) + ",\"random_scroll_speed_y\":"@ + enc_bool(ef.random_scroll_speed_y) + ",\"lock_to_x_axis\":"@).len()) == ",\"lock_to_x_axis\":"@,
        t.subrange(pos + (",\"random_scroll_speed_x\":"@ + enc_bool(ef.random_scroll_speed_x) + ",\"random_scroll_speed_y\":"@ + enc_bool(ef.random_scroll_speed_y) + ",\"lock_to_x_axis\":"@).len(), pos + (",\"random_scroll_speed_x\":"@ + enc_bool(ef.random_scroll_speed_x) + ",\"random_scroll_speed_y\":"@ + enc_bool(ef.random_scroll_speed_y) + ",\"lock_to_x_axis\":"@ + enc_bool(ef.lock_to_x_axis)).len()) == enc_bool(ef.lock_to_x_axis),
        t.subrange(pos + (",\"random_scroll_speed_x\":"@ + enc_bool(ef.random_scroll_speed_x) + ",\"random_scroll_speed_y\":"@ + enc_bool(ef.random_scroll_speed_y) + ",\"lock_to_x_axis\":"@ + enc_bool(ef.lock_to_x_axis)).len(), pos + (",\"random_scroll_speed_x\":"@ + enc_bool(ef.random_scroll_speed_x) + ",\"random_scroll_speed_y\":"@ + enc_bool(ef.random_scroll_speed_y) + ",\"lock_to_x_axis\":"@ + enc_bool(ef.lock_to_x_axis) + ",\"lock_to_y_axis\":"@).len()) == ",\"lock_to_y_axis\":"@,
        t.subrange(pos + (",\"random_scroll_speed_x\":"@ + enc_bool(ef.random_scroll_speed_x) + ",\"random_scroll_speed_y\":"@ + enc_bool(ef.random_scroll_speed_y) + ",\"lock_to_x_axis\":"@ + enc_bool(ef.lock_to_x_axis) + ",\"lock_to_y_axis\":"@).len(), pos + (",\"random_scroll_speed_x\":"@ + enc_bool(ef.random_scroll_speed_x) + ",\"random_scroll_speed_y\":"@ + enc_bool(ef.random_scroll_speed_y) + ",\"lock_to_x_axis\":"@ + enc_bool(ef.lock_to_x_axis) + ",\"lock_to_y_axis\":"@ + enc_bool(ef.lock_to_y_axis)).len()) == enc_bool(ef.lock_to_y_axis),
        t.subrange(pos + (",\"random_scroll_speed_x\":"@ + enc_bool(ef.random_scroll_speed_x) + ",\"random_scroll_speed_y\":"@ + enc_bool(ef.random_scroll_speed_y) + ",\"lock_to_x_axis\":"@ + enc_bool(ef.lock_to_x_axis) + ",\"lock_to_y_axis\":"@ + enc_bool(ef.lock_to_y_axis)).len(), pos + (",\"random_scroll_speed_x\":"@ + enc_bool(ef.random_scroll_speed_x) + ",\"random_scroll_speed_y\":"@ + enc_bool(ef.random_scroll_speed_y) + ",\"lock_to_x_axis\":"@ + enc_bool(ef.lock_to_x_axis) + ",\"lock_to_y_axis\":"@ + enc_bool(ef.lock_to_y_axis) + ",\"randomize_all_parameters\":"@).len()) == ",\"randomize_all_parameters\":"@,
        t.subrange(pos + (",\"random_scroll_speed_x\":"@ + enc_bool(ef.random_scroll_speed_x) + ",\"random_scroll_speed_y\":"@ + enc_bool(ef.random_scroll_speed_y) + ",\"lock_to_x_axis\":"@ + enc_bool(ef.lock_to_x_axis) + ",\"lock_to_y_axis\":"@ + enc_bool(ef.lock_to_y_axis) + ",\"randomize_all_parameters\":"@).len(), pos + (",\"random_scroll_speed_x\":"@ + enc_bool(ef.random_scroll_speed_x) + ",\"random_scroll_speed_y\":"@ + enc_bool(ef.random_scroll_speed_y) + ",\"lock_to_x_axis\":"@ + enc_bool(ef.lock_to_x_axis) + ",\"lock_to_y_axis\":"@ + enc_bool(ef.lock_to_y_axis) + ",\"randomize_all_parameters\":"@ + enc_bool(ef.randomize_all_parameters)).len()) == enc_bool(ef.randomize_all_parameters),
        t.subrange(pos + (",\"random_scroll_speed_x\":"@ + enc_bool(ef.random_scroll_speed_x) + ",\"random_scroll_speed_y\":"@ + enc_bool(ef.random_scroll_speed_y) + ",\"lock_to_x_axis\":"@ + enc_bool(ef.lock_to_x_axis) + ",\"lock_to_y_axis\":"@ + enc_bool(ef.lock_to_y_axis) + ",\"randomize_all_parameters\":"@ + enc_bool(ef.randomize_all_parameters)).len(), pos + (",\"random_scroll_speed_x\":"@ + enc_bool(ef.random_scroll_speed_x) + ",\"random_scroll_speed_y\":"@ + enc_bool(ef.random_scroll_speed_y) + ",\"lock_to_x_axis\":"@ + enc_bool(ef.lock_to_x_axis) + ",\"lock_to_y_axis\":"@ + enc_bool(ef.lock_to_y_axis) + ",\"randomize_all_parameters\":"@ + enc_bool(ef.randomize_all_parameters) + "}"@).len()) == "}"@,
{
    lemma_split_concat(t, pos, ",\"random_scroll_speed_x\":"@ + enc_bool(ef.random_scroll_speed_x) + ",\"random_scroll_speed_y\":"@ + enc_bool(ef.random_scroll_speed_y) + ",\"lock_to_x_axis\":"@ + enc_bool(ef.lock_to_x_axis) + ",\"lock_to_y_axis\":"@ + enc_bool(ef.lock_to_y_axis) + ",\"randomize_all_parameters\":"@ + enc_bool(ef.randomize_all_parameters), "}"@);
    lemma_split_concat(t, pos, ",\"random_scroll_speed_x\":"@ + enc_bool(ef.random_scroll_speed_x) + ",\"random_scroll_speed_y\":"@ + enc_bool(ef.random_scroll_speed_y) + ",\"lock_to_x_axis\":"@ + enc_bool(ef.lock_to_x_axis) + ",\"lock_to_y_axis\":"@ + enc_bool(ef.lock_to_y_axis) + ",\"randomize_all_parameters\":"@, enc_bool(ef.randomize_all_parameters));
    lemma_split_concat(t, pos, ",\"random_scroll_speed_x\":"@ + enc_bool(ef.random_scroll_speed_x) + ",\"random_scroll_speed_y\":"@ + enc_bool(ef.random_scroll_speed_y) + ",\"lock_to_x_axis\":"@ + enc_bool(ef.lock_to_x_axis) + ",\"lock_to_y_axis\":"@ + enc_bool(ef.lock_to_y_axis), ",\"randomize_all_parameters\":"@);
    lemma_split_concat(t, pos, ",\"random_scroll_speed_x\":"@ + enc_bool(ef.random_scroll_speed_x) + ",\"random_scroll_speed_y\":"@ + enc_bool(ef.random_scroll_speed_y) + ",\"lock_to_x_axis\":"@ + enc_bool(ef.lock_to_x_axis) + ",\"lock_to_y_axis\":"@, enc_bool(ef.lock_to_y_axis));
    lemma_split_concat(t, pos, ",\"random_scroll_speed_x\":"@ + enc_bool(ef.random_scroll_speed_x) + ",\"random_scroll_speed_y\":"@ + enc_bool(ef.random_scroll_speed_y) + ",\"lock_to_x_axis\":"@ + enc_bool(ef.lock_to_x_axis), ",\"lock_to_y_axis\":"@);
    lemma_split_concat(t, pos, ",\"random_scroll_speed_x\":"@ + enc_bool(ef.random_scroll_speed_x) + ",\"random_scroll_speed_y\":"@ + enc_bool(ef.random_scroll_speed_y) + ",\"lock_to_x_axis\":"@, enc_bool(ef.lock_to_x_axis));
    lemma_split_concat(t, pos, ",\"random_scroll_speed_x\":"@ + enc_bool(ef.random_scroll_speed_x) + ",\"random_scroll_speed_y\":"@ + enc_bool(ef.random_scroll_speed_y), ",\"lock_to_x_axis\":"@);
    lemma_split_concat(t, pos, ",\"random_scroll_speed_x\":"@ + enc_bool(ef.random_scroll_speed_x) + ",\"random_scroll_speed_y\":"@, enc_bool(ef.random_scroll_speed_y));
    lemma_split_concat(t, pos, ",\"random_scroll_speed_x\":"@ + enc_bool(ef.random_scroll_speed_x), ",\"random_scroll_speed_y\":"@);
    lemma_split_concat(t, pos, ",\"random_scroll_speed_x\":"@, enc_bool(ef.random_scroll_speed_x));
}

/// Stitches the front-half slices back together.
#[verifier::rlimit(100)]
#[verifier::spinoff_prover]
proof fn lemma_flags_front_assemble(t: Seq<char>, a0: int, a1: int, a2: int, a3: int, a4: int, a5: int, a6: int, f1: bool, f2: bool, f3: bool, f4: bool, f5: bool, f6: bool)
    requires
        0 <= a0,
        a0 <= a1,
        a1 <= a2,
        a2 <= a3,
        a3 <= a4,
        a4 <= a5,
        a5 <= a6,
        a6 <= t.len(),
        t.subrange(a0, a1) == "{\"follow_pc_x\":"@ + enc_bool(f1),
        t.subrange(a1, a2) == ",\"follow_pc_y\":"@ + enc_bool(f2),
        t.subrange(a2, a3) == ",\"autoscroll_x\":"@ + enc_bool(f3),
        t.subrange(a3, a4) == ",\"autoscroll_y\":"@ + enc_bool(f4),
        t.subrange(a4, a5) == ",\"align_with_water_lvl\":"@ + enc_bool(f5),
        t.subrange(a5, a6) == ",\"draw_above_foreground\":"@ + enc_bool(f6),
    ensures
        t.subrange(a0, a6) == "{\"follow_pc_x\":"@ + enc_bool(f1) + ",\"follow_pc_y\":"@ + enc_bool(f2) + ",\"autoscroll_x\":"@ + enc_bool(f3) + ",\"autoscroll_y\":"@ + enc_bool(f4) + ",\"align_with_water_lvl\":"@ + enc_bool(f5) + ",\"draw_above_foreground\":"@ + enc_bool(f6),
{
    lemma_subrange_chain(t, a0, a1, a2);
    vstd::seq_lib::lemma_concat_associative(
        t.subrange(a0, a1),
        ",\"follow_pc_y\":"@,
        enc_bool(f2),
    );
    lemma_subrange_chain(t, a0, a2, a3);
    vstd::seq_lib::lemma_concat_associative(
        t.subrange(a0, a2),
        ",\"autoscroll_x\":"@,
        enc_bool(f3),
    );
    lemma_subrange_chain(t, a0, a3, a4);
    vstd::seq_lib::lemma_concat_associative(
        t.subrange(a0, a3),
        ",\"autoscroll_y\":"@,
        enc_bool(f4),
    );
    lemma_subrange_chain(t, a0, a4, a5);
    vstd::seq_lib::lemma_concat_associative(
        t.subrange(a0, a4),
        ",\"align_with_water_lvl\":"@,
        enc_bool(f5),
    );
    lemma_subrange_chain(t, a0, a5, a6);
    vstd::seq_lib::lemma_concat_associative(
        t.subrange(a0, a5),
        ",\"draw_above_foreground\":"@,
        enc_bool(f6),
    );
}

/// Stitches the back-half slices back together.
#[verifier::rlimit(100)]
#[verifier::spinoff_prover]
proof fn lemma_flags_back_assemble(t: Seq<char>, a0: int, a1: int, a2: int, a3: int, a4: int, a5: int, a6: int, g1: bool, g2: bool, g3: bool, g4: bool, g5: bool)
    requires
        0 <= a0,
        a0 <= a1,
        a1 <= a2,
        a2 <= a3,
        a3 <= a4,
        a4 <= a5,
        a5 <= a6,
        a6 <= t.len(),
        t.subrange(a0, a1) == ",\"random_scroll_speed_x\":"@ + enc_bool(g1),
        t.subrange(a1, a2) == ",\"random_scroll_speed_y\":"@ + enc_bool(g2),
        t.subrange(a2, a3) == ",\"lock_to_x_axis\":"@ + enc_bool(g3),
        t.subrange(a3, a4) == ",\"lock_to_y_axis\":"@ + enc_bool(g4),
        t.subrange(a4, a5) == ",\"randomize_all_parameters\":"@ + enc_bool(g5),
        t.subrange(a5, a6) == "}"@,
    ensures
        t.subrange(a0, a6) == ",\"random_scroll_speed_x\":"@ + enc_bool(g1) + ",\"random_scroll_speed_y\":"@ + enc_bool(g2) + ",\"lock_to_x_axis\":"@ + enc_bool(g3) + ",\"lock_to_y_axis\":"@ + enc_bool(g4) + ",\"randomize_all_parameters\":"@ + enc_bool(g5) + "}"@,
{
    lemma_subrange_chain(t, a0, a1, a2);
    vstd::seq_lib::lemma_concat_associative(
        t.subrange(a0, a1),
        ",\"random_scroll_speed_y\":"@,
        enc_bool(g2),
    );
    lemma_subrange_chain(t, a0, a2, a3);
    vstd::seq_lib::lemma_concat_associative(
        t.subrange(a0, a2),
        ",\"lock_to_x_axis\":"@,
        enc_bool(g3),
    );
    lemma_subrange_chain(t, a0, a3, a4);
    vstd::seq_lib::lemma_concat_associative(
        t.subrange(a0, a3),
        ",\"lock_to_y_axis\":"@,
        enc_bool(g4),
    );
    lemma_subrange_chain(t, a0, a4, a5);
    vstd::seq_lib::lemma_concat_associative(
        t.subrange(a0, a4),
        ",\"randomize_all_parameters\":"@,
        enc_bool(g5),
    );
    lemma_subrange_chain(t, a0, a5, a6);
}

/// Parses the front half of a canonical flag set.
#[verifier::rlimit(100)]
#[verifier::spinoff_prover]
fn parse_flags_front(s: &str, pos: usize, expected: Ghost<ScrollFlags>) -> (r: Option<((bool, bool, bool, bool, bool, bool), usize)>)
    ensures
        r matches Some((vs, p)) ==> pos <= p <= s@.len() && s@.subrange(pos as int, p as int)
            == "{\"follow_pc_x\":"@ + enc_bool(vs.0) + ",\"follow_pc_y\":"@ + enc_bool(vs.1) + ",\"autoscroll_x\":"@ + enc_bool(vs.2) + ",\"autoscroll_y\":"@ + enc_bool(vs.3) + ",\"align_with_water_lvl\":"@ + enc_bool(vs.4) + ",\"draw_above_foreground\":"@ + enc_bool(vs.5),
        flags_front_at(s@, pos as int, expected@) ==> (r matches Some((vs2, p2)) && p2 == pos
            + enc_flags_front(expected@).len()),
{
    let ghost ef = expected@;
    proof {
        if flags_front_at(s@, pos as int, ef) {
            lemma_flags_front_pieces(s@, pos as int, ef);
        }
    }
    let (b1, q1) = match lit_bool(s, pos, "{\"follow_pc_x\":", Ghost(ef.follow_pc_x)) {
        Option::Some(t) => t,
        Option::None => {
            return Option::None;
        },
    };
    proof {
        if flags_front_at(s@, pos as int, ef) {
            assert(q1 == pos + ("{\"follow_pc_x\":"@ + enc_bool(ef.follow_pc_x)).len());
        }
    }
    let (b2, q2) = match lit_bool(s, q1, ",\"follow_pc_y\":", Ghost(ef.follow_pc_y)) {
        Option::Some(t) => t,
        Option::None => {
            return Option::None;
        },
    };
    proof {
        if flags_front_at(s@, pos as int, ef) {
            assert(q2 == pos + ("{\"follow_pc_x\":"@ + enc_bool(ef.follow_pc_x) + ",\"follow_pc_y\":"@ + enc_bool(ef.follow_pc_y)).len());
        }
    }
    let (b3, q3) = match lit_bool(s, q2, ",\"autoscroll_x\":", Ghost(ef.autoscroll_x)) {
        Option::Some(t) => t,
        Option::None => {
            return Option::None;
        },
    };
    proof {
        if flags_front_at(s@, pos as int, ef) {
            assert(q3 == pos + ("{\"follow_pc_x\":"@ + enc_bool(ef.follow_pc_x) + ",\"follow_pc_y\":"@ + enc_bool(ef.follow_pc_y) + ",\"autoscroll_x\":"@ + enc_bool(ef.autoscroll_x)).len());
        }
    }
    let (b4, q4) = match lit_bool(s, q3, ",\"autoscroll_y\":", Ghost(ef.autoscroll_y)) {
        Option::Some(t) => t,
        Option::None => {
            return Option::None;
        },
    };
    proof {
        if flags_front_at(s@, pos as int, ef) {
            assert(q4 == pos + ("{\"follow_pc_x\":"@ + enc_bool(ef.follow_pc_x) + ",\"follow_pc_y\":"@ + enc_bool(ef.follow_pc_y) + ",\"autoscroll_x\":"@ + enc_bool(ef.autoscroll_x) + ",\"autoscroll_y\":"@ + enc_bool(ef.autoscroll_y)).len());
        }
    }
    let (b5, q5) = match lit_bool(s, q4, ",\"align_with_water_lvl\":", Ghost(ef.align_with_water_lvl)) {
        Option::Some(t) => t,
        Option::None => {
            return Option::None;
        },
    };
    proof {
        if flags_front_at(s@, pos as int, ef) {
            assert(q5 == pos + ("{\"follow_pc_x\":"@ + enc_bool(ef.follow_pc_x) + ",\"follow_pc_y\":"@ + enc_bool(ef.follow_pc_y) + ",\"autoscroll_x\":"@ + enc_bool(ef.autoscroll_x) + ",\"autoscroll_y\":"@ + enc_bool(ef.autoscroll_y) + ",\"align_with_water_lvl\":"@ + enc_bool(ef.align_with_water_lvl)).len());
        }
    }
    let (b6, q6) = match lit_bool(s, q5, ",\"draw_above_foreground\":", Ghost(ef.draw_above_foreground)) {
        Option::Some(t) => t,
        Option::None => {
            return Option::None;
        },
    };
    proof {
        if flags_front_at(s@, pos as int, ef) {
            assert(q6 == pos + ("{\"follow_pc_x\":"@ + enc_bool(ef.follow_pc_x) + ",\"follow_pc_y\":"@ + enc_bool(ef.follow_pc_y) + ",\"autoscroll_x\":"@ + enc_bool(ef.autoscroll_x) + ",\"autoscroll_y\":"@ + enc_bool(ef.autoscroll_y) + ",\"align_with_water_lvl\":"@ + enc_bool(ef.align_with_water_lvl) + ",\"draw_above_foreground\":"@ + enc_bool(ef.draw_above_foreground)).len());
        }
    }
    proof {
        lemma_flags_front_assemble(s@, pos as int, q1 as int, q2 as int, q3 as int, q4 as int, q5 as int, q6 as int, b1, b2, b3, b4, b5, b6);
    }
    Option::Some(((b1, b2, b3, b4, b5, b6), q6))
}

/// Parses the back half of a canonical flag set.
#[verifier::rlimit(100)]
#[verifier::spinoff_prover]
fn parse_flags_back(s: &str, pos: usize, expected: Ghost<ScrollFlags>) -> (r: Option<((bool, bool, bool, bool, bool), usize)>)
    ensures
        r matches Some((vs, p)) ==> pos <= p <= s@.len() && s@.subrange(pos as int, p as int)
            == ",\"random_scroll_speed_x\":"@ + enc_bool(vs.0) + ",\"random_scroll_speed_y\":"@ + enc_bool(vs.1) + ",\"lock_to_x_axis\":"@ + enc_bool(vs.2) + ",\"lock_to_y_axis\":"@ + enc_bool(vs.3) + ",\"randomize_all_parameters\":"@ + enc_bool(vs.4) + "}"@,
        flags_back_at(s@, pos as int, expected@) ==> (r matches Some((vs2, p2)) && p2 == pos
            + enc_flags_back(expected@).len()),
{
    let ghost ef = expected@;
    proof {
        if flags_back_at(s@, pos as int, ef) {
            lemma_flags_back_pieces(s@, pos as int, ef);
        }
    }
    let (c1, q1) = match lit_bool(s, pos, ",\"random_scroll_speed_x\":", Ghost(ef.random_scroll_speed_x)) {
        Option::Some(t) => t,
        Option::None => {
            return Option::None;
        },
    };
    let (c2, q2) = match lit_bool(s, q1, ",\"random_scroll_speed_y\":", Ghost(ef.random_scroll_speed_y)) {
        Option::Some(t) => t,
        Option::None => {
            return Option::None;
        },
    };
    let (c3, q3) = match lit_bool(s, q2, ",\"lock_to_x_axis\":", Ghost(ef.lock_to_x_axis)) {
        Option::Some(t) => t,
        Option::None => {
            return Option::None;
        },
    };
    let (c4, q4) = match lit_bool(s, q3, ",\"lock_to_y_axis\":", Ghost(ef.lock_to_y_axis)) {
        Option::Some(t) => t,
        Option::None => {
            return Option::None;
        },
    };
    let (c5, q5) = match lit_bool(s, q4, ",\"randomize_all_parameters\":", Ghost(ef.randomize_all_parameters)) {
        Option::Some(t) => t,
        Option::None => {
            return Option::None;
        },
    };
    let q6 = match expect_lit(s, q5, "}") {
        Option::Some(t) => t,
        Option::None => {
            return Option::None;
        },
    };
    proof {
        lemma_flags_back_assemble(s@, pos as int, q1 as int, q2 as int, q3 as int, q4 as int, q5 as int, q6 as int, c1, c2, c3, c4, c5);
    }
    Option::Some(((c1, c2, c3, c4, c5), q6))
}

/// Parses one canonical flag set; where the text reads the canonical form
/// of `expected`, the parse succeeds and consumes exactly it.
#[verifier::rlimit(100)]
#[verifier::spinoff_prover]
fn parse_flags(s: &str, pos: usize, expected: Ghost<ScrollFlags>) -> (r: Option<(ScrollFlags, usize)>)
    ensures
        r matches Some((x, p)) ==> pos <= p <= s@.len() && s@.subrange(pos as int, p as int)
            == enc_flags(x),
        flags_at(s@, pos as int, expected@) ==> (r matches Some((x2, p2)) && p2 == pos
            + enc_flags(expected@).len()),
{
    let ghost ef = expected@;
    proof {
        if flags_at(s@, pos as int, ef) {
            lemma_flags_halves(s@, pos as int, ef);
        }
    }
    let (front, pa) = match parse_flags_front(s, pos, expected) {
        Option::Some(t) => t,
        Option::None => {
            return Option::None;
        },
    };
    let (back, pb) = match parse_flags_back(s, pa, expected) {
        Option::Some(t) => t,
        Option::None => {
            return Option::None;
        },
    };
    let x = ScrollFlags {
        follow_pc_x: front.0,
        follow_pc_y: front.1,
        autoscroll_x: front.2,
        autoscroll_y: front.3,
        align_with_water_lvl: front.4,
        draw_above_foreground: front.5,
        random_scroll_speed_x: back.0,
        random_scroll_speed_y: back.1,
        lock_to_x_axis: back.2,
        lock_to_y_axis: back.3,
        randomize_all_parameters: back.4,
    };
    proof {
        lemma_subrange_chain(s@, pos as int, pa as int, pb as int);
        assert(s@.subrange(pos as int, pa as int) == enc_flags_front(x));
        assert(s@.subrange(pa as int, pb as int) == enc_flags_back(x));
    }
    Option::Some((x, pb))
}
/// Canonical occupancy of one value of this shape.
pub open spec fn anim_at(t: Seq<char>, pos: int, x: AnimationStyle) -> bool {
    &&& 0 <= pos
    &&& pos + enc_anim(x).len() <= t.len()
    &&& t.subrange(pos, pos + enc_anim(x).len() as int) == enc_anim(x)
    &&& x.scroll_speed_x != i32::MIN
    &&& x.scroll_speed_y != i32::MIN
}

/// The pieces of this canonical shape, each in place.
#[verifier::rlimit(100)]
#[verifier::spinoff_prover]
proof fn lemma_anim_pieces(t: Seq<char>, pos: int, ef: AnimationStyle)
    requires
        anim_at(t, pos, ef),
    ensures
        t.subrange(pos, pos + ("{\"frame_count\":"@).len()) == "{\"frame_count\":"@,
        num_at(t, pos + ("{\"frame_count\":"@).len(), ef.frame_count as int),
        t.subrange(pos + ("{\"frame_count\":"@ + dec_u32(ef.frame_count as int)).len(), pos + ("{\"frame_count\":"@ + dec_u32(ef.frame_count as int) + ",\"frame_start\":"@).len()) == ",\"frame_start\":"@,
        num_at(t, pos + ("{\"frame_count\":"@ + dec_u32(ef.frame_count as int) + ",\"frame_start\":"@).len(), ef.frame_start as int),
        t.subrange(pos + ("{\"frame_count\":"@ + dec_u32(ef.frame_count as int) + ",\"frame_start\":"@ + dec_u32(ef.frame_start as int)).len(), pos + ("{\"frame_count\":"@ + dec_u32(ef.frame_count as int) + ",\"frame_start\":"@ + dec_u32(ef.frame_start as int) + ",\"animation_speed\":"@).len()) == ",\"animation_speed\":"@,
        num_at(t, pos + ("{\"frame_count\":"@ + dec_u32(ef.frame_count as int) + ",\"frame_start\":"@ + dec_u32(ef.frame_start as int) + ",\"animation_speed\":"@).len(), ef.animation_speed as int),
        t.subrange(pos + ("{\"frame_count\":"@ + dec_u32(ef.frame_count as int) + ",\"frame_start\":"@ + dec_u32(ef.frame_start as int) + ",\"animation_speed\":"@ + dec_u32(ef.animation_speed as int)).len(), pos + ("{\"frame_count\":"@ + dec_u32(ef.frame_count as int) + ",\"frame_start\":"@ + dec_u32(ef.frame_start as int) + ",\"animation_speed\":"@ + dec_u32(ef.animation_speed as int) + ",\"scroll_speed_x\":"@).len()) == ",\"scroll_speed_x\":"@,
        int_at(t, pos + ("{\"frame_count\":"@ + dec_u32(ef.frame_count as int) + ",\"frame_start\":"@ + dec_u32(ef.frame_start as int) + ",\"animation_speed\":"@ + dec_u32(ef.animation_speed as int) + ",\"scroll_speed_x\":"@).len(), ef.scroll_speed_x as int),
        t.subrange(pos + ("{\"frame_count\":"@ + dec_u32(ef.frame_count as int) + ",\"frame_start\":"@ + dec_u32(ef.frame_start as int) + ",\"animation_speed\":"@ + dec_u32(ef.animation_speed as int) + ",\"scroll_speed_x\":"@ + dec_i32(ef.scroll_speed_x as int)).len(), pos + ("{\"frame_count\":"@ + dec_u32(ef.frame_count as int) + ",\"frame_start\":"@ + dec_u32(ef.frame_start as int) + ",\"animation_speed\":"@ + dec_u32(ef.animation_speed as int) + ",\"scroll_speed_x\":"@ + dec_i32(ef.scroll_speed_x as int) + ",\"scroll_speed_y\":"@).len()) == ",\"scroll_speed_y\":"@,
        int_at(t, pos + ("{\"frame_count\":"@ + dec_u32(ef.frame_count as int) + ",\"frame_start\":"@ + dec_u32(ef.frame_start as int) + ",\"animation_speed\":"@ + dec_u32(ef.animation_speed as int) + ",\"scroll_speed_x\":"@ + dec_i32(ef.scroll_speed_x as int) + ",\"scroll_speed_y\":"@).len(), ef.scroll_speed_y as int),
        t.subrange(pos + ("{\"frame_count\":"@ + dec_u32(ef.frame_count as int) + ",\"frame_start\":"@ + dec_u32(ef.frame_start as int) + ",\"animation_speed\":"@ + dec_u32(ef.animation_speed as int) + ",\"scroll_speed_x\":"@ + dec_i32(ef.scroll_speed_x as int) + ",\"scroll_speed_y\":"@ + dec_i32(ef.scroll_speed_y as int)).len(), pos + ("{\"frame_count\":"@ + dec_u32(ef.frame_count as int) + ",\"frame_start\":"@ + dec_u32(ef.frame_start as int) + ",\"animation_speed\":"@ + dec_u32(ef.animation_speed as int) + ",\"scroll_speed_x\":"@ + dec_i32(ef.scroll_speed_x as int) + ",\"scroll_speed_y\":"@ + dec_i32(ef.scroll_speed_y as int) + ",\"scroll_flags\":"@).len()) == ",\"scroll_flags\":"@,
        flags_at(t, pos + ("{\"frame_count\":"@ + dec_u32(ef.frame_count as int) + ",\"frame_start\":"@ + dec_u32(ef.frame_start as int) + ",\"animation_speed\":"@ + dec_u32(ef.animation_speed as int) + ",\"scroll_speed_x\":"@ + dec_i32(ef.scroll_speed_x as int) + ",\"scroll_speed_y\":"@ + dec_i32(ef.scroll_speed_y as int) + ",\"scroll_flags\":"@).len(), ef.scroll_flags),
        t.subrange(pos + ("{\"frame_count\":"@ + dec_u32(ef.frame_count as int) + ",\"frame_start\":"@ + dec_u32(ef.frame_start as int) + ",\"animation_speed\":"@ + dec_u32(ef.animation_speed as int) + ",\"scroll_speed_x\":"@ + dec_i32(ef.scroll_speed_x as int) + ",\"scroll_speed_y\":"@ + dec_i32(ef.scroll_speed_y as int) + ",\"scroll_flags\":"@ + enc_flags(ef.scroll_flags)).len(), pos + ("{\"frame_count\":"@ + dec_u32(ef.frame_count as int) + ",\"frame_start\":"@ + dec_u32(ef.frame_start as int) + ",\"animation_speed\":"@ + dec_u32(ef.animation_speed as int) + ",\"scroll_speed_x\":"@ + dec_i32(ef.scroll_speed_x as int) + ",\"scroll_speed_y\":"@ + dec_i32(ef.scroll_speed_y as int) + ",\"scroll_flags\":"@ + enc_flags(ef.scroll_flags) + "}"@).len()) == "}"@,
{
    lemma_split_concat(t, pos, "{\"frame_count\":"@ + dec_u32(ef.frame_count as int) + ",\"frame_start\":"@ + dec_u32(ef.frame_start as int) + ",\"animation_speed\":"@ + dec_u32(ef.animation_speed as int) + ",\"scroll_speed_x\":"@ + dec_i32(ef.scroll_speed_x as int) + ",\"scroll_speed_y\":"@ + dec_i32(ef.scroll_speed_y as int) + ",\"scroll_flags\":"@ + enc_flags(ef.scroll_flags), "}"@);
    lemma_split_concat(t, pos, "{\"frame_count\":"@ + dec_u32(ef.frame_count as int) + ",\"frame_start\":"@ + dec_u32(ef.frame_start as int) + ",\"animation_speed\":"@ + dec_u32(ef.animation_speed as int) + ",\"scroll_speed_x\":"@ + dec_i32(ef.scroll_speed_x as int) + ",\"scroll_speed_y\":"@ + dec_i32(ef.scroll_speed_y as int) + ",\"scroll_flags\":"@, enc_flags(ef.scroll_flags));
    lemma_split_concat(t, pos, "{\"frame_count\":"@ + dec_u32(ef.frame_count as int) + ",\"frame_start\":"@ + dec_u32(ef.frame_start as int) + ",\"animation_speed\":"@ + dec_u32(ef.animation_speed as int) + ",\"scroll_speed_x\":"@ + dec_i32(ef.scroll_speed_x as int) + ",\"scroll_speed_y\":"@ + dec_i32(ef.scroll_speed_y as int), ",\"scroll_flags\":"@);
    lemma_split_concat(t, pos, "{\"frame_count\":"@ + dec_u32(ef.frame_count as int) + ",\"frame_start\":"@ + dec_u32(ef.frame_start as int) + ",\"animation_speed\":"@ + dec_u32(ef.animation_speed as int) + ",\"scroll_speed_x\":"@ + dec_i32(ef.scroll_speed_x as int) + ",\"scroll_speed_y\":"@, dec_i32(ef.scroll_speed_y as int));
    lemma_split_concat(t, pos, "{\"frame_count\":"@ + dec_u32(ef.frame_count as int) + ",\"frame_start\":"@ + dec_u32(ef.frame_start as int) + ",\"animation_speed\":"@ + dec_u32(ef.animation_speed as int) + ",\"scroll_speed_x\":"@ + dec_i32(ef.scroll_speed_x as int), ",\"scroll_speed_y\":"@);
    lemma_split_concat(t, pos, "{\"frame_count\":"@ + dec_u32(ef.frame_count as int) + ",\"frame_start\":"@ + dec_u32(ef.frame_start as int) + ",\"animation_speed\":"@ + dec_u32(ef.animation_speed as int) + ",\"scroll_speed_x\":"@, dec_i32(ef.scroll_speed_x as int));
    lemma_split_concat(t, pos, "{\"frame_count\":"@ + dec_u32(ef.frame_count as int) + ",\"frame_start\":"@ + dec_u32(ef.frame_start as int) + ",\"animation_speed\":"@ + dec_u32(ef.animation_speed as int), ",\"scroll_speed_x\":"@);
    lemma_split_concat(t, pos, "{\"frame_count\":"@ + dec_u32(ef.frame_count as int) + ",\"frame_start\":"@ + dec_u32(ef.frame_start as int) + ",\"animation_speed\":"@, dec_u32(ef.animation_speed as int));
    lemma_split_concat(t, pos, "{\"frame_count\":"@ + dec_u32(ef.frame_count as int) + ",\"frame_start\":"@ + dec_u32(ef.frame_start as int), ",\"animation_speed\":"@);
    lemma_split_concat(t, pos, "{\"frame_count\":"@ + dec_u32(ef.frame_count as int) + ",\"frame_start\":"@, dec_u32(ef.frame_start as int));
    lemma_split_concat(t, pos, "{\"frame_count\":"@ + dec_u32(ef.frame_count as int), ",\"frame_start\":"@);
    lemma_split_concat(t, pos, "{\"frame_count\":"@, dec_u32(ef.frame_count as int));
    assert(t.subrange(pos, pos + ("{\"frame_count\":"@).len()) == "{\"frame_count\":"@);
    reveal_strlit(",\"frame_start\":");
    assert(t.subrange(pos + ("{\"frame_count\":"@ + dec_u32(ef.frame_count as int)).len(), pos + ("{\"frame_count\":"@ + dec_u32(ef.frame_count as int) + ",\"frame_start\":"@).len())[0] == t[pos + ("{\"frame_count\":"@ + dec_u32(ef.frame_count as int)).len()]);
    assert(!is_digit(t[pos + ("{\"frame_count\":"@ + dec_u32(ef.frame_count as int)).len()]));
    assert(num_at(t, pos + ("{\"frame_count\":"@).len(), ef.frame_count as int));
    reveal_strlit(",\"animation_speed\":");
    assert(t.subrange(pos + ("{\"frame_count\":"@ + dec_u32(ef.frame_count as int) + ",\"frame_start\":"@ + dec_u32(ef.frame_start as int)).len(), pos + ("{\"frame_count\":"@ + dec_u32(ef.frame_count as int) + ",\"frame_start\":"@ + dec_u32(ef.frame_start as int) + ",\"animation_speed\":"@).len())[0] == t[pos + ("{\"frame_count\":"@ + dec_u32(ef.frame_count as int) + ",\"frame_start\":"@ + dec_u32(ef.frame_start as int)).len()]);
    assert(!is_digit(t[pos + ("{\"frame_count\":"@ + dec_u32(ef.frame_count as int) + ",\"frame_start\":"@ + dec_u32(ef.frame_start as int)).len()]));
    assert(num_at(t, pos + ("{\"frame_count\":"@ + dec_u32(ef.frame_count as int) + ",\"frame_start\":"@).len(), ef.frame_start as int));
    reveal_strlit(",\"scroll_speed_x\":");
    assert(t.subrange(pos + ("{\"frame_count\":"@ + dec_u32(ef.frame_count as int) + ",\"frame_start\":"@ + dec_u32(ef.frame_start as int) + ",\"animation_speed\":"@ + dec_u32(ef.animation_speed as int)).len(), pos + ("{\"frame_count\":"@ + dec_u32(ef.frame_count as int) + ",\"frame_start\":"@ + dec_u32(ef.frame_start as int) + ",\"animation_speed\":"@ + dec_u32(ef.animation_speed as int) + ",\"scroll_speed_x\":"@).len())[0] == t[pos + ("{\"frame_count\":"@ + dec_u32(ef.frame_count as int) + ",\"frame_start\":"@ + dec_u32(ef.frame_start as int) + ",\"animation_speed\":"@ + dec_u32(ef.animation_speed as int)).len()]);
    assert(!is_digit(t[pos + ("{\"frame_count\":"@ + dec_u32(ef.frame_count as int) + ",\"frame_start\":"@ + dec_u32(ef.frame_start as int) + ",\"animation_speed\":"@ + dec_u32(ef.animation_speed as int)).len()]));
    assert(num_at(t, pos + ("{\"frame_count\":"@ + dec_u32(ef.frame_count as int) + ",\"frame_start\":"@ + dec_u32(ef.frame_start as int) + ",\"animation_speed\":"@).len(), ef.animation_speed as int));
    reveal_strlit(",\"scroll_speed_y\":");
    if ef.scroll_speed_x < 0 {
        lemma_split_concat(t, pos + ("{\"frame_count\":"@ + dec_u32(ef.frame_count as int) + ",\"frame_start\":"@ + dec_u32(ef.frame_start as int) + ",\"animation_speed\":"@ + dec_u32(ef.animation_speed as int) + ",\"scroll_speed_x\":"@).len(), seq!['-'], dec_u32(-(ef.scroll_speed_x as int)));
        assert(t.subrange(pos + ("{\"frame_count\":"@ + dec_u32(ef.frame_count as int) + ",\"frame_start\":"@ + dec_u32(ef.frame_start as int) + ",\"animation_speed\":"@ + dec_u32(ef.animation_speed as int) + ",\"scroll_speed_x\":"@).len(), pos + ("{\"frame_count\":"@ + dec_u32(ef.frame_count as int) + ",\"frame_start\":"@ + dec_u32(ef.frame_start as int) + ",\"animation_speed\":"@ + dec_u32(ef.animation_speed as int) + ",\"scroll_speed_x\":"@).len() + 1)[0] == t[pos + ("{\"frame_count\":"@ + dec_u32(ef.frame_count as int) + ",\"frame_start\":"@ + dec_u32(ef.frame_start as int) + ",\"animation_speed\":"@ + dec_u32(ef.animation_speed as int) + ",\"scroll_speed_x\":"@).len()]);
    }
    assert(t.subrange(pos + ("{\"frame_count\":"@ + dec_u32(ef.frame_count as int) + ",\"frame_start\":"@ + dec_u32(ef.frame_start as int) + ",\"animation_speed\":"@ + dec_u32(ef.animation_speed as int) + ",\"scroll_speed_x\":"@ + dec_i32(ef.scroll_speed_x as int)).len(), pos + ("{\"frame_count\":"@ + dec_u32(ef.frame_count as int) + ",\"frame_start\":"@ + dec_u32(ef.frame_start as int) + ",\"animation_speed\":"@ + dec_u32(ef.animation_speed as int) + ",\"scroll_speed_x\":"@ + dec_i32(ef.scroll_speed_x as int) + ",\"scroll_speed_y\":"@).len())[0] == t[pos + ("{\"frame_count\":"@ + dec_u32(ef.frame_count as int) + ",\"frame_start\":"@ + dec_u32(ef.frame_start as int) + ",\"animation_speed\":"@ + dec_u32(ef.animation_speed as int) + ",\"scroll_speed_x\":"@ + dec_i32(ef.scroll_speed_x as int)).len()]);
    assert(!is_digit(t[pos + ("{\"frame_count\":"@ + dec_u32(ef.frame_count as int) + ",\"frame_start\":"@ + dec_u32(ef.frame_start as int) + ",\"animation_speed\":"@ + dec_u32(ef.animation_speed as int) + ",\"scroll_speed_x\":"@ + dec_i32(ef.scroll_speed_x as int)).len()]));
    assert(int_at(t, pos + ("{\"frame_count\":"@ + dec_u32(ef.frame_count as int) + ",\"frame_start\":"@ + dec_u32(ef.frame_start as int) + ",\"animation_speed\":"@ + dec_u32(ef.animation_speed as int) + ",\"scroll_speed_x\":"@).len(), ef.scroll_speed_x as int));
    reveal_strlit(",\"scroll_flags\":");
    if ef.scroll_speed_y < 0 {
        lemma_split_concat(t, pos + ("{\"frame_count\":"@ + dec_u32(ef.frame_count as int) + ",\"frame_start\":"@ + dec_u32(ef.frame_start as int) + ",\"animation_speed\":"@ + dec_u32(ef.animation_speed as int) + ",\"scroll_speed_x\":"@ + dec_i32(ef.scroll_speed_x as int) + ",\"scroll_speed_y\":"@).len(), seq!['-'], dec_u32(-(ef.scroll_speed_y as int)));
        assert(t.subrange(pos + ("{\"frame_count\":"@ + dec_u32(ef.frame_count as int) + ",\"frame_start\":"@ + dec_u32(ef.frame_start as int) + ",\"animation_speed\":"@ + dec_u32(ef.animation_speed as int) + ",\"scroll_speed_x\":"@ + dec_i32(ef.scroll_speed_x as int) + ",\"scroll_speed_y\":"@).len(), pos + ("{\"frame_count\":"@ + dec_u32(ef.frame_count as int) + ",\"frame_start\":"@ + dec_u32(ef.frame_start as int) + ",\"animation_speed\":"@ + dec_u32(ef.animation_speed as int) + ",\"scroll_speed_x\":"@ + dec_i32(ef.scroll_speed_x as int) + ",\"scroll_speed_y\":"@).len() + 1)[0] == t[pos + ("{\"frame_count\":"@ + dec_u32(ef.frame_count as int) + ",\"frame_start\":"@ + dec_u32(ef.frame_start as int) + ",\"animation_speed\":"@ + dec_u32(ef.animation_speed as int) + ",\"scroll_speed_x\":"@ + dec_i32(ef.scroll_speed_x as int) + ",\"scroll_speed_y\":"@).len()]);
    }
    assert(t.subrange(pos + ("{\"frame_count\":"@ + dec_u32(ef.frame_count as int) + ",\"frame_start\":"@ + dec_u32(ef.frame_start as int) + ",\"animation_speed\":"@ + dec_u32(ef.animation_speed as int) + ",\"scroll_speed_x\":"@ + dec_i32(ef.scroll_speed_x as int) + ",\"scroll_speed_y\":"@ + dec_i32(ef.scroll_speed_y as int)).len(), pos + ("{\"frame_count\":"@ + dec_u32(ef.frame_count as int) + ",\"frame_start\":"@ + dec_u32(ef.frame_start as int) + ",\"animation_speed\":"@ + dec_u32(ef.animation_speed as int) + ",\"scroll_speed_x\":"@ + dec_i32(ef.scroll_speed_x as int) + ",\"scroll_speed_y\":"@ + dec_i32(ef.scroll_speed_y as int) + ",\"scroll_flags\":"@).len())[0] == t[pos + ("{\"frame_count\":"@ + dec_u32(ef.frame_count as int) + ",\"frame_start\":"@ + dec_u32(ef.frame_start as int) + ",\"animation_speed\":"@ + dec_u32(ef.animation_speed as int) + ",\"scroll_speed_x\":"@ + dec_i32(ef.scroll_speed_x as int) + ",\"scroll_speed_y\":"@ + dec_i32(ef.scroll_speed_y as int)).len()]);
    assert(!is_digit(t[pos + ("{\"frame_count\":"@ + dec_u32(ef.frame_count as int) + ",\"frame_start\":"@ + dec_u32(ef.frame_start as int) + ",\"animation_speed\":"@ + dec_u32(ef.animation_speed as int) + ",\"scroll_speed_x\":"@ + dec_i32(ef.scroll_speed_x as int) + ",\"scroll_speed_y\":"@ + dec_i32(ef.scroll_speed_y as int)).len()]));
    assert(int_at(t, pos + ("{\"frame_count\":"@ + dec_u32(ef.frame_count as int) + ",\"frame_start\":"@ + dec_u32(ef.frame_start as int) + ",\"animation_speed\":"@ + dec_u32(ef.animation_speed as int) + ",\"scroll_speed_x\":"@ + dec_i32(ef.scroll_speed_x as int) + ",\"scroll_speed_y\":"@).len(), ef.scroll_speed_y as int));
}

/// Stitches the per-step slices back into the whole canonical form.
#[verifier::rlimit(100)]
#[verifier::spinoff_prover]
proof fn lemma_anim_assemble(t: Seq<char>, a0: int, a1: int, a2: int, a3: int, a4: int, a5: int, a6: int, a7: int, a8: int, x: AnimationStyle)
    requires
        0 <= a0,
        a0 <= a1,
        a1 <= a2,
        a2 <= a3,
        a3 <= a4,
        a4 <= a5,
        a5 <= a6,
        a6 <= a7,
        a7 <= a8,
        a8 <= t.len(),
        t.subrange(a0, a1) == "{\"frame_count\":"@ + dec_u32(x.frame_count as int),
        t.subrange(a1, a2) == ",\"frame_start\":"@ + dec_u32(x.frame_start as int),
        t.subrange(a2, a3) == ",\"animation_speed\":"@ + dec_u32(x.animation_speed as int),
        t.subrange(a3, a4) == ",\"scroll_speed_x\":"@ + dec_i32(x.scroll_speed_x as int),
        t.subrange(a4, a5) == ",\"scroll_speed_y\":"@ + dec_i32(x.scroll_speed_y as int),
        t.subrange(a5, a6) == ",\"scroll_flags\":"@,
        t.subrange(a6, a7) == enc_flags(x.scroll_flags),
        t.subrange(a7, a8) == "}"@,
    ensures
        t.subrange(a0, a8) == enc_anim(x),
{
    lemma_subrange_chain(t, a0, a1, a2);
    vstd::seq_lib::lemma_concat_associative(
        t.subrange(a0, a1),
        ",\"frame_start\":"@,
        dec_u32(x.frame_start as int),
    );
    lemma_subrange_chain(t, a0, a2, a3);
    vstd::seq_lib::lemma_concat_associative(
        t.subrange(a0, a2),
        ",\"animation_speed\":"@,
        dec_u32(x.animation_speed as int),
    );
    lemma_subrange_chain(t, a0, a3, a4);
    vstd::seq_lib::lemma_concat_associative(
        t.subrange(a0, a3),
        ",\"scroll_speed_x\":"@,
        dec_i32(x.scroll_speed_x as int),
    );
    lemma_subrange_chain(t, a0, a4, a5);
    vstd::seq_lib::lemma_concat_associative(
        t.subrange(a0, a4),
        ",\"scroll_speed_y\":"@,
        dec_i32(x.scroll_speed_y as int),
    );
    lemma_subrange_chain(t, a0, a5, a6);
    lemma_subrange_chain(t, a0, a6, a7);
    lemma_subrange_chain(t, a0, a7, a8);
}

/// Parses one canonical value of this shape; where the text reads the
/// canonical form of `expected`, the parse succeeds and consumes exactly
/// it.
#[verifier::rlimit(100)]
#[verifier::spinoff_prover]
fn parse_anim(s: &str, pos: usize, expected: Ghost<AnimationStyle>) -> (r: Option<(AnimationStyle, usize)>)
    ensures
        r matches Some((x, p)) ==> pos <= p <= s@.len() && s@.subrange(pos as int, p as int)
            == enc_anim(x) && x.ani_wait == 0 && x.scroll_speed_x != i32::MIN && x.scroll_speed_y != i32::MIN,
        anim_at(s@, pos as int, expected@) ==> (r matches Some((x2, p2)) && p2 == pos
            + enc_anim(expected@).len()),
{
    let ghost ef = expected@;
    proof {
        if anim_at(s@, pos as int, ef) {
            lemma_anim_pieces(s@, pos as int, ef);
        }
    }
    let (frame_count, p1) = match lit_u32(s, pos, "{\"frame_count\":", Ghost(ef.frame_count)) {
        Option::Some(t) => t,
        Option::None => {
            return Option::None;
        },
    };
    proof {
        if anim_at(s@, pos as int, ef) {
            assert(p1 == pos + ("{\"frame_count\":"@ + dec_u32(ef.frame_count as int)).len());
        }
    }
    let (frame_start, p2) = match lit_u32(s, p1, ",\"frame_start\":", Ghost(ef.frame_start)) {
        Option::Some(t) => t,
        Option::None => {
            return Option::None;
        },
    };
    proof {
        if anim_at(s@, pos as int, ef) {
            assert(p2 == pos + ("{\"frame_count\":"@ + dec_u32(ef.frame_count as int) + ",\"frame_start\":"@ + dec_u32(ef.frame_start as int)).len());
        }
    }
    let (animation_speed, p3) = match lit_u32(s, p2, ",\"animation_speed\":", Ghost(ef.animation_speed)) {
        Option::Some(t) => t,
        Option::None => {
            return Option::None;
        },
    };
    proof {
        if anim_at(s@, pos as int, ef) {
            assert(p3 == pos + ("{\"frame_count\":"@ + dec_u32(ef.frame_count as int) + ",\"frame_start\":"@ + dec_u32(ef.frame_start as int) + ",\"animation_speed\":"@ + dec_u32(ef.animation_speed as int)).len());
        }
    }
    let (scroll_speed_x, p4) = match lit_i32(s, p3, ",\"scroll_speed_x\":", Ghost(ef.scroll_speed_x)) {
        Option::Some(t) => t,
        Option::None => {
            return Option::None;
        },
    };
    proof {
        if anim_at(s@, pos as int, ef) {
            assert(p4 == pos + ("{\"frame_count\":"@ + dec_u32(ef.frame_count as int) + ",\"frame_start\":"@ + dec_u32(ef.frame_start as int) + ",\"animation_speed\":"@ + dec_u32(ef.animation_speed as int) + ",\"scroll_speed_x\":"@ + dec_i32(ef.scroll_speed_x as int)).len());
        }
    }
    let (scroll_speed_y, p5) = match lit_i32(s, p4, ",\"scroll_speed_y\":", Ghost(ef.scroll_speed_y)) {
        Option::Some(t) => t,
        Option::None => {
            return Option::None;
        },
    };
    proof {
        if anim_at(s@, pos as int, ef) {
            assert(p5 == pos + ("{\"frame_count\":"@ + dec_u32(ef.frame_count as int) + ",\"frame_start\":"@ + dec_u32(ef.frame_start as int) + ",\"animation_speed\":"@ + dec_u32(ef.animation_speed as int) + ",\"scroll_speed_x\":"@ + dec_i32(ef.scroll_speed_x as int) + ",\"scroll_speed_y\":"@ + dec_i32(ef.scroll_speed_y as int)).len());
        }
    }
    let p6 = match expect_lit(s, p5, ",\"scroll_flags\":") {
        Option::Some(t) => t,
        Option::None => {
            return Option::None;
        },
    };
    proof {
        if anim_at(s@, pos as int, ef) {
            assert(p6 == pos + ("{\"frame_count\":"@ + dec_u32(ef.frame_count as int) + ",\"frame_start\":"@ + dec_u32(ef.frame_start as int) + ",\"animation_speed\":"@ + dec_u32(ef.animation_speed as int) + ",\"scroll_speed_x\":"@ + dec_i32(ef.scroll_speed_x as int) + ",\"scroll_speed_y\":"@ + dec_i32(ef.scroll_speed_y as int) + ",\"scroll_flags\":"@).len());
        }
    }
    let (scroll_flags, p7) = match parse_flags(s, p6, Ghost(ef.scroll_flags)) {
        Option::Some(t) => t,
        Option::None => {
            return Option::None;
        },
    };
    proof {
        if anim_at(s@, pos as int, ef) {
            assert(p7 == pos + ("{\"frame_count\":"@ + dec_u32(ef.frame_count as int) + ",\"frame_start\":"@ + dec_u32(ef.frame_start as int) + ",\"animation_speed\":"@ + dec_u32(ef.animation_speed as int) + ",\"scroll_speed_x\":"@ + dec_i32(ef.scroll_speed_x as int) + ",\"scroll_speed_y\":"@ + dec_i32(ef.scroll_speed_y as int) + ",\"scroll_flags\":"@ + enc_flags(ef.scroll_flags)).len());
        }
    }
    let p8 = match expect_lit(s, p7, "}") {
        Option::Some(t) => t,
        Option::None => {
            return Option::None;
        },
    };
    proof {
        if anim_at(s@, pos as int, ef) {
            assert(p8 == pos + ("{\"frame_count\":"@ + dec_u32(ef.frame_count as int) + ",\"frame_start\":"@ + dec_u32(ef.frame_start as int) + ",\"animation_speed\":"@ + dec_u32(ef.animation_speed as int) + ",\"scroll_speed_x\":"@ + dec_i32(ef.scroll_speed_x as int) + ",\"scroll_speed_y\":"@ + dec_i32(ef.scroll_speed_y as int) + ",\"scroll_flags\":"@ + enc_flags(ef.scroll_flags) + "}"@).len());
        }
    }
    let x = AnimationStyle {
        frame_count,
        frame_start,
        animation_speed,
        scroll_speed_x,
        scroll_speed_y,
        scroll_flags,
        ani_wait: 0,
    };
    proof {
        lemma_anim_assemble(s@, pos as int, p1 as int, p2 as int, p3 as int, p4 as int, p5 as int, p6 as int, p7 as int, p8 as int, x);
    }
    Option::Some((x, p8))
}

/// Canonical occupancy of one value of this shape.
pub open spec fn layer_at(t: Seq<char>, pos: int, x: LayerConfig) -> bool {
    &&& 0 <= pos
    &&& pos + enc_layer(x).len() <= t.len()
    &&& t.subrange(pos, pos + enc_layer(x).len() as int) == enc_layer(x)
    &&& x.draw_corner_offset_x != i32::MIN
    &&& x.draw_corner_offset_y != i32::MIN
    &&& x.animation_style.scroll_speed_x != i32::MIN
    &&& x.animation_style.scroll_speed_y != i32::MIN
}

/// The later pieces of this canonical shape, and the front block.
#[verifier::rlimit(100)]
#[verifier::spinoff_prover]
proof fn lemma_layer_pieces_hi(t: Seq<char>, pos: int, ef: LayerConfig)
    requires
        layer_at(t, pos, ef),
    ensures
        num_at(t, pos + ("{\"layer_enabled\":"@ + enc_bool(ef.layer_enabled) + ",\"bmp_x_offset\":"@ + dec_u32(ef.bmp_x_offset as int) + ",\"bmp_y_offset\":"@ + dec_u32(ef.bmp_y_offset as int) + ",\"bmp_width\":"@ + dec_u32(ef.bmp_width as int) + ",\"bmp_height\":"@ + dec_u32(ef.bmp_height as int) + ",\"draw_repeat_x\":"@ + dec_u32(ef.draw_repeat_x as int) + ",\"draw_repeat_y\":"@).len(), ef.draw_repeat_y as int),
        t.subrange(pos + ("{\"layer_enabled\":"@ + enc_bool(ef.layer_enabled) + ",\"bmp_x_offset\":"@ + dec_u32(ef.bmp_x_offset as int) + ",\"bmp_y_offset\":"@ + dec_u32(ef.bmp_y_offset as int) + ",\"bmp_width\":"@ + dec_u32(ef.bmp_width as int) + ",\"bmp_height\":"@ + dec_u32(ef.bmp_height as int) + ",\"draw_repeat_x\":"@ + dec_u32(ef.draw_repeat_x as int) + ",\"draw_repeat_y\":"@ + dec_u32(ef.draw_repeat_y as int)).len(), pos + ("{\"layer_enabled\":"@ + enc_bool(ef.layer_enabled) + ",\"bmp_x_offset\":"@ + dec_u32(ef.bmp_x_offset as int) + ",\"bmp_y_offset\":"@ + dec_u32(ef.bmp_y_offset as int) + ",\"bmp_width\":"@ + dec_u32(ef.bmp_width as int) + ",\"bmp_height\":"@ + dec_u32(ef.bmp_height as int) + ",\"draw_repeat_x\":"@ + dec_u32(ef.draw_repeat_x as int) + ",\"draw_repeat_y\":"@ + dec_u32(ef.draw_repeat_y as int) + ",\"draw_repeat_gap_x\":"@).len()) == ",\"draw_repeat_gap_x\":"@,
        num_at(t, pos + ("{\"layer_enabled\":"@ + enc_bool(ef.layer_enabled) + ",\"bmp_x_offset\":"@ + dec_u32(ef.bmp_x_offset as int) + ",\"bmp_y_offset\":"@ + dec_u32(ef.bmp_y_offset as int) + ",\"bmp_width\":"@ + dec_u32(ef.bmp_width as int) + ",\"bmp_height\":"@ + dec_u32(ef.bmp_height as int) + ",\"draw_repeat_x\":"@ + dec_u32(ef.draw_repeat_x as int) + ",\"draw_repeat_y\":"@ + dec_u32(ef.draw_repeat_y as int) + ",\"draw_repeat_gap_x\":"@).len(), ef.draw_repeat_gap_x as int),
        t.subrange(pos + ("{\"layer_enabled\":"@ + enc_bool(ef.layer_enabled) + ",\"bmp_x_offset\":"@ + dec_u32(ef.bmp_x_offset as int) + ",\"bmp_y_offset\":"@ + dec_u32(ef.bmp_y_offset as int) + ",\"bmp_width\":"@ + dec_u32(ef.bmp_width as int) + ",\"bmp_height\":"@ + dec_u32(ef.bmp_height as int) + ",\"draw_repeat_x\":"@ + dec_u32(ef.draw_repeat_x as int) + ",\"draw_repeat_y\":"@ + dec_u32(ef.draw_repeat_y as int) + ",\"draw_repeat_gap_x\":"@ + dec_u32(ef.draw_repeat_gap_x as int)).len(), pos + ("{\"layer_enabled\":"@ + enc_bool(ef.layer_enabled) + ",\"bmp_x_offset\":"@ + dec_u32(ef.bmp_x_offset as int) + ",\"bmp_y_offset\":"@ + dec_u32(ef.bmp_y_offset as int) + ",\"bmp_width\":"@ + dec_u32(ef.bmp_width as int) + ",\"bmp_height\":"@ + dec_u32(ef.bmp_height as int) + ",\"draw_repeat_x\":"@ + dec_u32(ef.draw_repeat_x as int) + ",\"draw_repeat_y\":"@ + dec_u32(ef.draw_repeat_y as int) + ",\"draw_repeat_gap_x\":"@ + dec_u32(ef.draw_repeat_gap_x as int) + ",\"draw_repeat_gap_y\":"@).len()) == ",\"draw_repeat_gap_y\":"@,
        num_at(t, pos + ("{\"layer_enabled\":"@ + enc_bool(ef.layer_enabled) + ",\"bmp_x_offset\":"@ + dec_u32(ef.bmp_x_offset as int) + ",\"bmp_y_offset\":"@ + dec_u32(ef.bmp_y_offset as int) + ",\"bmp_width\":"@ + dec_u32(ef.bmp_width as int) + ",\"bmp_height\":"@ + dec_u32(ef.bmp_height as int) + ",\"draw_repeat_x\":"@ + dec_u32(ef.draw_repeat_x as int) + ",\"draw_repeat_y\":"@ + dec_u32(ef.draw_repeat_y as int) + ",\"draw_repeat_gap_x\":"@ + dec_u32(ef.draw_repeat_gap_x as int) + ",\"draw_repeat_gap_y\":"@).len(), ef.draw_repeat_gap_y as int),
        t.subrange(pos + ("{\"layer_enabled\":"@ + enc_bool(ef.layer_enabled) + ",\"bmp_x_offset\":"@ + dec_u32(ef.bmp_x_offset as int) + ",\"bmp_y_offset\":"@ + dec_u32(ef.bmp_y_offset as int) + ",\"bmp_width\":"@ + dec_u32(ef.bmp_width as int) + ",\"bmp_height\":"@ + dec_u32(ef.bmp_height as int) + ",\"draw_repeat_x\":"@ + dec_u32(ef.draw_repeat_x as int) + ",\"draw_repeat_y\":"@ + dec_u32(ef.draw_repeat_y as int) + ",\"draw_repeat_gap_x\":"@ + dec_u32(ef.draw_repeat_gap_x as int) + ",\"draw_repeat_gap_y\":"@ + dec_u32(ef.draw_repeat_gap_y as int)).len(), pos + ("{\"layer_enabled\":"@ + enc_bool(ef.layer_enabled) + ",\"bmp_x_offset\":"@ + dec_u32(ef.bmp_x_offset as int) + ",\"bmp_y_offset\":"@ + dec_u32(ef.bmp_y_offset as int) + ",\"bmp_width\":"@ + dec_u32(ef.bmp_width as int) + ",\"bmp_height\":"@ + dec_u32(ef.bmp_height as int) + ",\"draw_repeat_x\":"@ + dec_u32(ef.draw_repeat_x as int) + ",\"draw_repeat_y\":"@ + dec_u32(ef.draw_repeat_y as int) + ",\"draw_repeat_gap_x\":"@ + dec_u32(ef.draw_repeat_gap_x as int) + ",\"draw_repeat_gap_y\":"@ + dec_u32(ef.draw_repeat_gap_y as int) + ",\"draw_corner_offset_x\":"@).len()) == ",\"draw_corner_offset_x\":"@,
        int_at(t, pos + ("{\"layer_enabled\":"@ + enc_bool(ef.layer_enabled) + ",\"bmp_x_offset\":"@ + dec_u32(ef.bmp_x_offset as int) + ",\"bmp_y_offset\":"@ + dec_u32(ef.bmp_y_offset as int) + ",\"bmp_width\":"@ + dec_u32(ef.bmp_width as int) + ",\"bmp_height\":"@ + dec_u32(ef.bmp_height as int) + ",\"draw_repeat_x\":"@ + dec_u32(ef.draw_repeat_x as int) + ",\"draw_repeat_y\":"@ + dec_u32(ef.draw_repeat_y as int) + ",\"draw_repeat_gap_x\":"@ + dec_u32(ef.draw_repeat_gap_x as int) + ",\"draw_repeat_gap_y\":"@ + dec_u32(ef.draw_repeat_gap_y as int) + ",\"draw_corner_offset_x\":"@).len(), ef.draw_corner_offset_x as int),
        t.subrange(pos + ("{\"layer_enabled\":"@ + enc_bool(ef.layer_enabled) + ",\"bmp_x_offset\":"@ + dec_u32(ef.bmp_x_offset as int) + ",\"bmp_y_offset\":"@ + dec_u32(ef.bmp_y_offset as int) + ",\"bmp_width\":"@ + dec_u32(ef.bmp_width as int) + ",\"bmp_height\":"@ + dec_u32(ef.bmp_height as int) + ",\"draw_repeat_x\":"@ + dec_u32(ef.draw_repeat_x as int) + ",\"draw_repeat_y\":"@ + dec_u32(ef.draw_repeat_y as int) + ",\"draw_repeat_gap_x\":"@ + dec_u32(ef.draw_repeat_gap_x as int) + ",\"draw_repeat_gap_y\":"@ + dec_u32(ef.draw_repeat_gap_y as int) + ",\"draw_corner_offset_x\":"@ + dec_i32(ef.draw_corner_offset_x as int)).len(), pos + ("{\"layer_enabled\":"@ + enc_bool(ef.layer_enabled) + ",\"bmp_x_offset\":"@ + dec_u32(ef.bmp_x_offset as int) + ",\"bmp_y_offset\":"@ + dec_u32(ef.bmp_y_offset as int) + ",\"bmp_width\":"@ + dec_u32(ef.bmp_width as int) + ",\"bmp_height\":"@ + dec_u32(ef.bmp_height as int) + ",\"draw_repeat_x\":"@ + dec_u32(ef.draw_repeat_x as int) + ",\"draw_repeat_y\":"@ + dec_u32(ef.draw_repeat_y as int) + ",\"draw_repeat_gap_x\":"@ + dec_u32(ef.draw_repeat_gap_x as int) + ",\"draw_repeat_gap_y\":"@ + dec_u32(ef.draw_repeat_gap_y as int) + ",\"draw_corner_offset_x\":"@ + dec_i32(ef.draw_corner_offset_x as int) + ",\"draw_corner_offset_y\":"@).len()) == ",\"draw_corner_offset_y\":"@,
        int_at(t, pos + ("{\"layer_enabled\":"@ + enc_bool(ef.layer_enabled) + ",\"bmp_x_offset\":"@ + dec_u32(ef.bmp_x_offset as int) + ",\"bmp_y_offset\":"@ + dec_u32(ef.bmp_y_offset as int) + ",\"bmp_width\":"@ + dec_u32(ef.bmp_width as int) + ",\"bmp_height\":"@ + dec_u32(ef.bmp_height as int) + ",\"draw_repeat_x\":"@ + dec_u32(ef.draw_repeat_x as int) + ",\"draw_repeat_y\":"@ + dec_u32(ef.draw_repeat_y as int) + ",\"draw_repeat_gap_x\":"@ + dec_u32(ef.draw_repeat_gap_x as int) + ",\"draw_repeat_gap_y\":"@ + dec_u32(ef.draw_repeat_gap_y as int) + ",\"draw_corner_offset_x\":"@ + dec_i32(ef.draw_corner_offset_x as int) + ",\"draw_corner_offset_y\":"@).len(), ef.draw_corner_offset_y as int),
        t.subrange(pos + ("{\"layer_enabled\":"@ + enc_bool(ef.layer_enabled) + ",\"bmp_x_offset\":"@ + dec_u32(ef.bmp_x_offset as int) + ",\"bmp_y_offset\":"@ + dec_u32(ef.bmp_y_offset as int) + ",\"bmp_width\":"@ + dec_u32(ef.bmp_width as int) + ",\"bmp_height\":"@ + dec_u32(ef.bmp_height as int) + ",\"draw_repeat_x\":"@ + dec_u32(ef.draw_repeat_x as int) + ",\"draw_repeat_y\":"@ + dec_u32(ef.draw_repeat_y as int) + ",\"draw_repeat_gap_x\":"@ + dec_u32(ef.draw_repeat_gap_x as int) + ",\"draw_repeat_gap_y\":"@ + dec_u32(ef.draw_repeat_gap_y as int) + ",\"draw_corner_offset_x\":"@ + dec_i32(ef.draw_corner_offset_x as int) + ",\"draw_corner_offset_y\":"@ + dec_i32(ef.draw_corner_offset_y as int)).len(), pos + ("{\"layer_enabled\":"@ + enc_bool(ef.layer_enabled) + ",\"bmp_x_offset\":"@ + dec_u32(ef.bmp_x_offset as int) + ",\"bmp_y_offset\":"@ + dec_u32(ef.bmp_y_offset as int) + ",\"bmp_width\":"@ + dec_u32(ef.bmp_width as int) + ",\"bmp_height\":"@ + dec_u32(ef.bmp_height as int) + ",\"draw_repeat_x\":"@ + dec_u32(ef.draw_repeat_x as int) + ",\"draw_repeat_y\":"@ + dec_u32(ef.draw_repeat_y as int) + ",\"draw_repeat_gap_x\":"@ + dec_u32(ef.draw_repeat_gap_x as int) + ",\"draw_repeat_gap_y\":"@ + dec_u32(ef.draw_repeat_gap_y as int) + ",\"draw_corner_offset_x\":"@ + dec_i32(ef.draw_corner_offset_x as int) + ",\"draw_corner_offset_y\":"@ + dec_i32(ef.draw_corner_offset_y as int) + ",\"animation_style\":"@).len()) == ",\"animation_style\":"@,
        anim_at(t, pos + ("{\"layer_enabled\":"@ + enc_bool(ef.layer_enabled) + ",\"bmp_x_offset\":"@ + dec_u32(ef.bmp_x_offset as int) + ",\"bmp_y_offset\":"@ + dec_u32(ef.bmp_y_offset as int) + ",\"bmp_width\":"@ + dec_u32(ef.bmp_width as int) + ",\"bmp_height\":"@ + dec_u32(ef.bmp_height as int) + ",\"draw_repeat_x\":"@ + dec_u32(ef.draw_repeat_x as int) + ",\"draw_repeat_y\":"@ + dec_u32(ef.draw_repeat_y as int) + ",\"draw_repeat_gap_x\":"@ + dec_u32(ef.draw_repeat_gap_x as int) + ",\"draw_repeat_gap_y\":"@ + dec_u32(ef.draw_repeat_gap_y as int) + ",\"draw_corner_offset_x\":"@ + dec_i32(ef.draw_corner_offset_x as int) + ",\"draw_corner_offset_y\":"@ + dec_i32(ef.draw_corner_offset_y as int) + ",\"animation_style\":"@).len(), ef.animation_style),
        t.subrange(pos + ("{\"layer_enabled\":"@ + enc_bool(ef.layer_enabled) + ",\"bmp_x_offset\":"@ + dec_u32(ef.bmp_x_offset as int) + ",\"bmp_y_offset\":"@ + dec_u32(ef.bmp_y_offset as int) + ",\"bmp_width\":"@ + dec_u32(ef.bmp_width as int) + ",\"bmp_height\":"@ + dec_u32(ef.bmp_height as int) + ",\"draw_repeat_x\":"@ + dec_u32(ef.draw_repeat_x as int) + ",\"draw_repeat_y\":"@ + dec_u32(ef.draw_repeat_y as int) + ",\"draw_repeat_gap_x\":"@ + dec_u32(ef.draw_repeat_gap_x as int) + ",\"draw_repeat_gap_y\":"@ + dec_u32(ef.draw_repeat_gap_y as int) + ",\"draw_corner_offset_x\":"@ + dec_i32(ef.draw_corner_offset_x as int) + ",\"draw_corner_offset_y\":"@ + dec_i32(ef.draw_corner_offset_y as int) + ",\"animation_style\":"@ + enc_anim(ef.animation_style)).len(), pos + ("{\"layer_enabled\":"@ + enc_bool(ef.layer_enabled) + ",\"bmp_x_offset\":"@ + dec_u32(ef.bmp_x_offset as int) + ",\"bmp_y_offset\":"@ + dec_u32(ef.bmp_y_offset as int) + ",\"bmp_width\":"@ + dec_u32(ef.bmp_width as int) + ",\"bmp_height\":"@ + dec_u32(ef.bmp_height as int) + ",\"draw_repeat_x\":"@ + dec_u32(ef.draw_repeat_x as int) + ",\"draw_repeat_y\":"@ + dec_u32(ef.draw_repeat_y as int) + ",\"draw_repeat_gap_x\":"@ + dec_u32(ef.draw_repeat_gap_x as int) + ",\"draw_repeat_gap_y\":"@ + dec_u32(ef.draw_repeat_gap_y as int) + ",\"draw_corner_offset_x\":"@ + dec_i32(ef.draw_corner_offset_x as int) + ",\"draw_corner_offset_y\":"@ + dec_i32(ef.draw_corner_offset_y as int) + ",\"animation_style\":"@ + enc_anim(ef.animation_style) + "}"@).len()) == "}"@,
        t.subrange(pos, pos + ("{\"layer_enabled\":"@ + enc_bool(ef.layer_enabled) + ",\"bmp_x_offset\":"@ + dec_u32(ef.bmp_x_offset as int) + ",\"bmp_y_offset\":"@ + dec_u32(ef.bmp_y_offset as int) + ",\"bmp_width\":"@ + dec_u32(ef.bmp_width as int) + ",\"bmp_height\":"@ + dec_u32(ef.bmp_height as int) + ",\"draw_repeat_x\":"@ + dec_u32(ef.draw_repeat_x as int) + ",\"draw_repeat_y\":"@).len()) == "{\"layer_enabled\":"@ + enc_bool(ef.layer_enabled) + ",\"bmp_x_offset\":"@ + dec_u32(ef.bmp_x_offset as int) + ",\"bmp_y_offset\":"@ + dec_u32(ef.bmp_y_offset as int) + ",\"bmp_width\":"@ + dec_u32(ef.bmp_width as int) + ",\"bmp_height\":"@ + dec_u32(ef.bmp_height as int) + ",\"draw_repeat_x\":"@ + dec_u32(ef.draw_repeat_x as int) + ",\"draw_repeat_y\":"@,
{
    lemma_split_concat(t, pos, "{\"layer_enabled\":"@ + enc_bool(ef.layer_enabled) + ",\"bmp_x_offset\":"@ + dec_u32(ef.bmp_x_offset as int) + ",\"bmp_y_offset\":"@ + dec_u32(ef.bmp_y_offset as int) + ",\"bmp_width\":"@ + dec_u32(ef.bmp_width as int) + ",\"bmp_height\":"@ + dec_u32(ef.bmp_height as int) + ",\"draw_repeat_x\":"@ + dec_u32(ef.draw_repeat_x as int) + ",\"draw_repeat_y\":"@ + dec_u32(ef.draw_repeat_y as int) + ",\"draw_repeat_gap_x\":"@ + dec_u32(ef.draw_repeat_gap_x as int) + ",\"draw_repeat_gap_y\":"@ + dec_u32(ef.draw_repeat_gap_y as int) + ",\"draw_corner_offset_x\":"@ + dec_i32(ef.draw_corner_offset_x as int) + ",\"draw_corner_offset_y\":"@ + dec_i32(ef.draw_corner_offset_y as int) + ",\"animation_style\":"@ + enc_anim(ef.animation_style), "}"@);
    lemma_split_concat(t, pos, "{\"layer_enabled\":"@ + enc_bool(ef.layer_enabled) + ",\"bmp_x_offset\":"@ + dec_u32(ef.bmp_x_offset as int) + ",\"bmp_y_offset\":"@ + dec_u32(ef.bmp_y_offset as int) + ",\"bmp_width\":"@ + dec_u32(ef.bmp_width as int) + ",\"bmp_height\":"@ + dec_u32(ef.bmp_height as int) + ",\"draw_repeat_x\":"@ + dec_u32(ef.draw_repeat_x as int) + ",\"draw_repeat_y\":"@ + dec_u32(ef.draw_repeat_y as int) + ",\"draw_repeat_gap_x\":"@ + dec_u32(ef.draw_repeat_gap_x as int) + ",\"draw_repeat_gap_y\":"@ + dec_u32(ef.draw_repeat_gap_y as int) + ",\"draw_corner_offset_x\":"@ + dec_i32(ef.draw_corner_offset_x as int) + ",\"draw_corner_offset_y\":"@ + dec_i32(ef.draw_corner_offset_y as int) + ",\"animation_style\":"@, enc_anim(ef.animation_style));
    lemma_split_concat(t, pos, "{\"layer_enabled\":"@ + enc_bool(ef.layer_enabled) + ",\"bmp_x_offset\":"@ + dec_u32(ef.bmp_x_offset as int) + ",\"bmp_y_offset\":"@ + dec_u32(ef.bmp_y_offset as int) + ",\"bmp_width\":"@ + dec_u32(ef.bmp_width as int) + ",\"bmp_height\":"@ + dec_u32(ef.bmp_height as int) + ",\"draw_repeat_x\":"@ + dec_u32(ef.draw_repeat_x as int) + ",\"draw_repeat_y\":"@ + dec_u32(ef.draw_repeat_y as int) + ",\"draw_repeat_gap_x\":"@ + dec_u32(ef.draw_repeat_gap_x as int) + ",\"draw_repeat_gap_y\":"@ + dec_u32(ef.draw_repeat_gap_y as int) + ",\"draw_corner_offset_x\":"@ + dec_i32(ef.draw_corner_offset_x as int) + ",\"draw_corner_offset_y\":"@ + dec_i32(ef.draw_corner_offset_y as int), ",\"animation_style\":"@);
    lemma_split_concat(t, pos, "{\"layer_enabled\":"@ + enc_bool(ef.layer_enabled) + ",\"bmp_x_offset\":"@ + dec_u32(ef.bmp_x_offset as int) + ",\"bmp_y_offset\":"@ + dec_u32(ef.bmp_y_offset as int) + ",\"bmp_width\":"@ + dec_u32(ef.bmp_width as int) + ",\"bmp_height\":"@ + dec_u32(ef.bmp_height as int) + ",\"draw_repeat_x\":"@ + dec_u32(ef.draw_repeat_x as int) + ",\"draw_repeat_y\":"@ + dec_u32(ef.draw_repeat_y as int) + ",\"draw_repeat_gap_x\":"@ + dec_u32(ef.draw_repeat_gap_x as int) + ",\"draw_repeat_gap_y\":"@ + dec_u32(ef.draw_repeat_gap_y as int) + ",\"draw_corner_offset_x\":"@ + dec_i32(ef.draw_corner_offset_x as int) + ",\"draw_corner_offset_y\":"@, dec_i32(ef.draw_corner_offset_y as int));
    lemma_split_concat(t, pos, "{\"layer_enabled\":"@ + enc_bool(ef.layer_enabled) + ",\"bmp_x_offset\":"@ + dec_u32(ef.bmp_x_offset as int) + ",\"bmp_y_offset\":"@ + dec_u32(ef.bmp_y_offset as int) + ",\"bmp_width\":"@ + dec_u32(ef.bmp_width as int) + ",\"bmp_height\":"@ + dec_u32(ef.bmp_height as int) + ",\"draw_repeat_x\":"@ + dec_u32(ef.draw_repeat_x as int) + ",\"draw_repeat_y\":"@ + dec_u32(ef.draw_repeat_y as int) + ",\"draw_repeat_gap_x\":"@ + dec_u32(ef.draw_repeat_gap_x as int) + ",\"draw_repeat_gap_y\":"@ + dec_u32(ef.draw_repeat_gap_y as int) + ",\"draw_corner_offset_x\":"@ + dec_i32(ef.draw_corner_offset_x as int), ",\"draw_corner_offset_y\":"@);
    lemma_split_concat(t, pos, "{\"layer_enabled\":"@ + enc_bool(ef.layer_enabled) + ",\"bmp_x_offset\":"@ + dec_u32(ef.bmp_x_offset as int) + ",\"bmp_y_offset\":"@ + dec_u32(ef.bmp_y_offset as int) + ",\"bmp_width\":"@ + dec_u32(ef.bmp_width as int) + ",\"bmp_height\":"@ + dec_u32(ef.bmp_height as int) + ",\"draw_repeat_x\":"@ + dec_u32(ef.draw_repeat_x as int) + ",\"draw_repeat_y\":"@ + dec_u32(ef.draw_repeat_y as int) + ",\"draw_repeat_gap_x\":"@ + dec_u32(ef.draw_repeat_gap_x as int) + ",\"draw_repeat_gap_y\":"@ + dec_u32(ef.draw_repeat_gap_y as int) + ",\"draw_corner_offset_x\":"@, dec_i32(ef.draw_corner_offset_x as int));
    lemma_split_concat(t, pos, "{\"layer_enabled\":"@ + enc_bool(ef.layer_enabled) + ",\"bmp_x_offset\":"@ + dec_u32(ef.bmp_x_offset as int) + ",\"bmp_y_offset\":"@ + dec_u32(ef.bmp_y_offset as int) + ",\"bmp_width\":"@ + dec_u32(ef.bmp_width as int) + ",\"bmp_height\":"@ + dec_u32(ef.bmp_height as int) + ",\"draw_repeat_x\":"@ + dec_u32(ef.draw_repeat_x as int) + ",\"draw_repeat_y\":"@ + dec_u32(ef.draw_repeat_y as int) + ",\"draw_repeat_gap_x\":"@ + dec_u32(ef.draw_repeat_gap_x as int) + ",\"draw_repeat_gap_y\":"@ + dec_u32(ef.draw_repeat_gap_y as int), ",\"draw_corner_offset_x\":"@);
    lemma_split_concat(t, pos, "{\"layer_enabled\":"@ + enc_bool(ef.layer_enabled) + ",\"bmp_x_offset\":"@ + dec_u32(ef.bmp_x_offset as int) + ",\"bmp_y_offset\":"@ + dec_u32(ef.bmp_y_offset as int) + ",\"bmp_width\":"@ + dec_u32(ef.bmp_width as int) + ",\"bmp_height\":"@ + dec_u32(ef.bmp_height as int) + ",\"draw_repeat_x\":"@ + dec_u32(ef.draw_repeat_x as int) + ",\"draw_repeat_y\":"@ + dec_u32(ef.draw_repeat_y as int) + ",\"draw_repeat_gap_x\":"@ + dec_u32(ef.draw_repeat_gap_x as int) + ",\"draw_repeat_gap_y\":"@, dec_u32(ef.draw_repeat_gap_y as int));
    lemma_split_concat(t, pos, "{\"layer_enabled\":"@ + enc_bool(ef.layer_enabled) + ",\"bmp_x_offset\":"@ + dec_u32(ef.bmp_x_offset as int) + ",\"bmp_y_offset\":"@ + dec_u32(ef.bmp_y_offset as int) + ",\"bmp_width\":"@ + dec_u32(ef.bmp_width as int) + ",\"bmp_height\":"@ + dec_u32(ef.bmp_height as int) + ",\"draw_repeat_x\":"@ + dec_u32(ef.draw_repeat_x as int) + ",\"draw_repeat_y\":"@ + dec_u32(ef.draw_repeat_y as int) + ",\"draw_repeat_gap_x\":"@ + dec_u32(ef.draw_repeat_gap_x as int), ",\"draw_repeat_gap_y\":"@);
    lemma_split_concat(t, pos, "{\"layer_enabled\":"@ + enc_bool(ef.layer_enabled) + ",\"bmp_x_offset\":"@ + dec_u32(ef.bmp_x_offset as int) + ",\"bmp_y_offset\":"@ + dec_u32(ef.bmp_y_offset as int) + ",\"bmp_width\":"@ + dec_u32(ef.bmp_width as int) + ",\"bmp_height\":"@ + dec_u32(ef.bmp_height as int) + ",\"draw_repeat_x\":"@ + dec_u32(ef.draw_repeat_x as int) + ",\"draw_repeat_y\":"@ + dec_u32(ef.draw_repeat_y as int) + ",\"draw_repeat_gap_x\":"@, dec_u32(ef.draw_repeat_gap_x as int));
    lemma_split_concat(t, pos, "{\"layer_enabled\":"@ + enc_bool(ef.layer_enabled) + ",\"bmp_x_offset\":"@ + dec_u32(ef.bmp_x_offset as int) + ",\"bmp_y_offset\":"@ + dec_u32(ef.bmp_y_offset as int) + ",\"bmp_width\":"@ + dec_u32(ef.bmp_width as int) + ",\"bmp_height\":"@ + dec_u32(ef.bmp_height as int) + ",\"draw_repeat_x\":"@ + dec_u32(ef.draw_repeat_x as int) + ",\"draw_repeat_y\":"@ + dec_u32(ef.draw_repeat_y as int), ",\"draw_repeat_gap_x\":"@);
    lemma_split_concat(t, pos, "{\"layer_enabled\":"@ + enc_bool(ef.layer_enabled) + ",\"bmp_x_offset\":"@ + dec_u32(ef.bmp_x_offset as int) + ",\"bmp_y_offset\":"@ + dec_u32(ef.bmp_y_offset as int) + ",\"bmp_width\":"@ + dec_u32(ef.bmp_width as int) + ",\"bmp_height\":"@ + dec_u32(ef.bmp_height as int) + ",\"draw_repeat_x\":"@ + dec_u32(ef.draw_repeat_x as int) + ",\"draw_repeat_y\":"@, dec_u32(ef.draw_repeat_y as int));
    reveal_strlit(",\"draw_repeat_gap_x\":");
    assert(t.subrange(pos + ("{\"layer_enabled\":"@ + enc_bool(ef.layer_enabled) + ",\"bmp_x_offset\":"@ + dec_u32(ef.bmp_x_offset as int) + ",\"bmp_y_offset\":"@ + dec_u32(ef.bmp_y_offset as int) + ",\"bmp_width\":"@ + dec_u32(ef.bmp_width as int) + ",\"bmp_height\":"@ + dec_u32(ef.bmp_height as int) + ",\"draw_repeat_x\":"@ + dec_u32(ef.draw_repeat_x as int) + ",\"draw_repeat_y\":"@ + dec_u32(ef.draw_repeat_y as int)).len(), pos + ("{\"layer_enabled\":"@ + enc_bool(ef.layer_enabled) + ",\"bmp_x_offset\":"@ + dec_u32(ef.bmp_x_offset as int) + ",\"bmp_y_offset\":"@ + dec_u32(ef.bmp_y_offset as int) + ",\"bmp_width\":"@ + dec_u32(ef.bmp_width as int) + ",\"bmp_height\":"@ + dec_u32(ef.bmp_height as int) + ",\"draw_repeat_x\":"@ + dec_u32(ef.draw_repeat_x as int) + ",\"draw_repeat_y\":"@ + dec_u32(ef.draw_repeat_y as int) + ",\"draw_repeat_gap_x\":"@).len())[0] == t[pos + ("{\"layer_enabled\":"@ + enc_bool(ef.layer_enabled) + ",\"bmp_x_offset\":"@ + dec_u32(ef.bmp_x_offset as int) + ",\"bmp_y_offset\":"@ + dec_u32(ef.bmp_y_offset as int) + ",\"bmp_width\":"@ + dec_u32(ef.bmp_width as int) + ",\"bmp_height\":"@ + dec_u32(ef.bmp_height as int) + ",\"draw_repeat_x\":"@ + dec_u32(ef.draw_repeat_x as int) + ",\"draw_repeat_y\":"@ + dec_u32(ef.draw_repeat_y as int)).len()]);
    assert(!is_digit(t[pos + ("{\"layer_enabled\":"@ + enc_bool(ef.layer_enabled) + ",\"bmp_x_offset\":"@ + dec_u32(ef.bmp_x_offset as int) + ",\"bmp_y_offset\":"@ + dec_u32(ef.bmp_y_offset as int) + ",\"bmp_width\":"@ + dec_u32(ef.bmp_width as int) + ",\"bmp_height\":"@ + dec_u32(ef.bmp_height as int) + ",\"draw_repeat_x\":"@ + dec_u32(ef.draw_repeat_x as int) + ",\"draw_repeat_y\":"@ + dec_u32(ef.draw_repeat_y as int)).len()]));
    assert(num_at(t, pos + ("{\"layer_enabled\":"@ + enc_bool(ef.layer_enabled) + ",\"bmp_x_offset\":"@ + dec_u32(ef.bmp_x_offset as int) + ",\"bmp_y_offset\":"@ + dec_u32(ef.bmp_y_offset as int) + ",\"bmp_width\":"@ + dec_u32(ef.bmp_width as int) + ",\"bmp_height\":"@ + dec_u32(ef.bmp_height as int) + ",\"draw_repeat_x\":"@ + dec_u32(ef.draw_repeat_x as int) + ",\"draw_repeat_y\":"@).len(), ef.draw_repeat_y as int));
    reveal_strlit(",\"draw_repeat_gap_y\":");
    assert(t.subrange(pos + ("{\"layer_enabled\":"@ + enc_bool(ef.layer_enabled) + ",\"bmp_x_offset\":"@ + dec_u32(ef.bmp_x_offset as int) + ",\"bmp_y_offset\":"@ + dec_u32(ef.bmp_y_offset as int) + ",\"bmp_width\":"@ + dec_u32(ef.bmp_width as int) + ",\"bmp_height\":"@ + dec_u32(ef.bmp_height as int) + ",\"draw_repeat_x\":"@ + dec_u32(ef.draw_repeat_x as int) + ",\"draw_repeat_y\":"@ + dec_u32(ef.draw_repeat_y as int) + ",\"draw_repeat_gap_x\":"@ + dec_u32(ef.draw_repeat_gap_x as int)).len(), pos + ("{\"layer_enabled\":"@ + enc_bool(ef.layer_enabled) + ",\"bmp_x_offset\":"@ + dec_u32(ef.bmp_x_offset as int) + ",\"bmp_y_offset\":"@ + dec_u32(ef.bmp_y_offset as int) + ",\"bmp_width\":"@ + dec_u32(ef.bmp_width as int) + ",\"bmp_height\":"@ + dec_u32(ef.bmp_height as int) + ",\"draw_repeat_x\":"@ + dec_u32(ef.draw_repeat_x as int) + ",\"draw_repeat_y\":"@ + dec_u32(ef.draw_repeat_y as int) + ",\"draw_repeat_gap_x\":"@ + dec_u32(ef.draw_repeat_gap_x as int) + ",\"draw_repeat_gap_y\":"@).len())[0] == t[pos + ("{\"layer_enabled\":"@ + enc_bool(ef.layer_enabled) + ",\"bmp_x_offset\":"@ + dec_u32(ef.bmp_x_offset as int) + ",\"bmp_y_offset\":"@ + dec_u32(ef.bmp_y_offset as int) + ",\"bmp_width\":"@ + dec_u32(ef.bmp_width as int) + ",\"bmp_height\":"@ + dec_u32(ef.bmp_height as int) + ",\"draw_repeat_x\":"@ + dec_u32(ef.draw_repeat_x as int) + ",\"draw_repeat_y\":"@ + dec_u32(ef.draw_repeat_y as int) + ",\"draw_repeat_gap_x\":"@ + dec_u32(ef.draw_repeat_gap_x as int)).len()]);
    assert(!is_digit(t[pos + ("{\"layer_enabled\":"@ + enc_bool(ef.layer_enabled) + ",\"bmp_x_offset\":"@ + dec_u32(ef.bmp_x_offset as int) + ",\"bmp_y_offset\":"@ + dec_u32(ef.bmp_y_offset as int) + ",\"bmp_width\":"@ + dec_u32(ef.bmp_width as int) + ",\"bmp_height\":"@ + dec_u32(ef.bmp_height as int) + ",\"draw_repeat_x\":"@ + dec_u32(ef.draw_repeat_x as int) + ",\"draw_repeat_y\":"@ + dec_u32(ef.draw_repeat_y as int) + ",\"draw_repeat_gap_x\":"@ + dec_u32(ef.draw_repeat_gap_x as int)).len()]));
    assert(num_at(t, pos + ("{\"layer_enabled\":"@ + enc_bool(ef.layer_enabled) + ",\"bmp_x_offset\":"@ + dec_u32(ef.bmp_x_offset as int) + ",\"bmp_y_offset\":"@ + dec_u32(ef.bmp_y_offset as int) + ",\"bmp_width\":"@ + dec_u32(ef.bmp_width as int) + ",\"bmp_height\":"@ + dec_u32(ef.bmp_height as int) + ",\"draw_repeat_x\":"@ + dec_u32(ef.draw_repeat_x as int) + ",\"draw_repeat_y\":"@ + dec_u32(ef.draw_repeat_y as int) + ",\"draw_repeat_gap_x\":"@).len(), ef.draw_repeat_gap_x as int));
    reveal_strlit(",\"draw_corner_offset_x\":");
    assert(t.subrange(pos + ("{\"layer_enabled\":"@ + enc_bool(ef.layer_enabled) + ",\"bmp_x_offset\":"@ + dec_u32(ef.bmp_x_offset as int) + ",\"bmp_y_offset\":"@ + dec_u32(ef.bmp_y_offset as int) + ",\"bmp_width\":"@ + dec_u32(ef.bmp_width as int) + ",\"bmp_height\":"@ + dec_u32(ef.bmp_height as int) + ",\"draw_repeat_x\":"@ + dec_u32(ef.draw_repeat_x as int) + ",\"draw_repeat_y\":"@ + dec_u32(ef.draw_repeat_y as int) + ",\"draw_repeat_gap_x\":"@ + dec_u32(ef.draw_repeat_gap_x as int) + ",\"draw_repeat_gap_y\":"@ + dec_u32(ef.draw_repeat_gap_y as int)).len(), pos + ("{\"layer_enabled\":"@ + enc_bool(ef.layer_enabled) + ",\"bmp_x_offset\":"@ + dec_u32(ef.bmp_x_offset as int) + ",\"bmp_y_offset\":"@ + dec_u32(ef.bmp_y_offset as int) + ",\"bmp_width\":"@ + dec_u32(ef.bmp_width as int) + ",\"bmp_height\":"@ + dec_u32(ef.bmp_height as int) + ",\"draw_repeat_x\":"@ + dec_u32(ef.draw_repeat_x as int) + ",\"draw_repeat_y\":"@ + dec_u32(ef.draw_repeat_y as int) + ",\"draw_repeat_gap_x\":"@ + dec_u32(ef.draw_repeat_gap_x as int) + ",\"draw_repeat_gap_y\":"@ + dec_u32(ef.draw_repeat_gap_y as int) + ",\"draw_corner_offset_x\":"@).len())[0] == t[pos + ("{\"layer_enabled\":"@ + enc_bool(ef.layer_enabled) + ",\"bmp_x_offset\":"@ + dec_u32(ef.bmp_x_offset as int) + ",\"bmp_y_offset\":"@ + dec_u32(ef.bmp_y_offset as int) + ",\"bmp_width\":"@ + dec_u32(ef.bmp_width as int) + ",\"bmp_height\":"@ + dec_u32(ef.bmp_height as int) + ",\"draw_repeat_x\":"@ + dec_u32(ef.draw_repeat_x as int) + ",\"draw_repeat_y\":"@ + dec_u32(ef.draw_repeat_y as int) + ",\"draw_repeat_gap_x\":"@ + dec_u32(ef.draw_repeat_gap_x as int) + ",\"draw_repeat_gap_y\":"@ + dec_u32(ef.draw_repeat_gap_y as int)).len()]);
    assert(!is_digit(t[pos + ("{\"layer_enabled\":"@ + enc_bool(ef.layer_enabled) + ",\"bmp_x_offset\":"@ + dec_u32(ef.bmp_x_offset as int) + ",\"bmp_y_offset\":"@ + dec_u32(ef.bmp_y_offset as int) + ",\"bmp_width\":"@ + dec_u32(ef.bmp_width as int) + ",\"bmp_height\":"@ + dec_u32(ef.bmp_height as int) + ",\"draw_repeat_x\":"@ + dec_u32(ef.draw_repeat_x as int) + ",\"draw_repeat_y\":"@ + dec_u32(ef.draw_repeat_y as int) + ",\"draw_repeat_gap_x\":"@ + dec_u32(ef.draw_repeat_gap_x as int) + ",\"draw_repeat_gap_y\":"@ + dec_u32(ef.draw_repeat_gap_y as int)).len()]));
    assert(num_at(t, pos + ("{\"layer_enabled\":"@ + enc_bool(ef.layer_enabled) + ",\"bmp_x_offset\":"@ + dec_u32(ef.bmp_x_offset as int) + ",\"bmp_y_offset\":"@ + dec_u32(ef.bmp_y_offset as int) + ",\"bmp_width\":"@ + dec_u32(ef.bmp_width as int) + ",\"bmp_height\":"@ + dec_u32(ef.bmp_height as int) + ",\"draw_repeat_x\":"@ + dec_u32(ef.draw_repeat_x as int) + ",\"draw_repeat_y\":"@ + dec_u32(ef.draw_repeat_y as int) + ",\"draw_repeat_gap_x\":"@ + dec_u32(ef.draw_repeat_gap_x as int) + ",\"draw_repeat_gap_y\":"@).len(), ef.draw_repeat_gap_y as int));
    reveal_strlit(",\"draw_corner_offset_y\":");
    if ef.draw_corner_offset_x < 0 {
        lemma_split_concat(t, pos + ("{\"layer_enabled\":"@ + enc_bool(ef.layer_enabled) + ",\"bmp_x_offset\":"@ + dec_u32(ef.bmp_x_offset as int) + ",\"bmp_y_offset\":"@ + dec_u32(ef.bmp_y_offset as int) + ",\"bmp_width\":"@ + dec_u32(ef.bmp_width as int) + ",\"bmp_height\":"@ + dec_u32(ef.bmp_height as int) + ",\"draw_repeat_x\":"@ + dec_u32(ef.draw_repeat_x as int) + ",\"draw_repeat_y\":"@ + dec_u32(ef.draw_repeat_y as int) + ",\"draw_repeat_gap_x\":"@ + dec_u32(ef.draw_repeat_gap_x as int) + ",\"draw_repeat_gap_y\":"@ + dec_u32(ef.draw_repeat_gap_y as int) + ",\"draw_corner_offset_x\":"@).len(), seq!['-'], dec_u32(-(ef.draw_corner_offset_x as int)));
        assert(t.subrange(pos + ("{\"layer_enabled\":"@ + enc_bool(ef.layer_enabled) + ",\"bmp_x_offset\":"@ + dec_u32(ef.bmp_x_offset as int) + ",\"bmp_y_offset\":"@ + dec_u32(ef.bmp_y_offset as int) + ",\"bmp_width\":"@ + dec_u32(ef.bmp_width as int) + ",\"bmp_height\":"@ + dec_u32(ef.bmp_height as int) + ",\"draw_repeat_x\":"@ + dec_u32(ef.draw_repeat_x as int) + ",\"draw_repeat_y\":"@ + dec_u32(ef.draw_repeat_y as int) + ",\"draw_repeat_gap_x\":"@ + dec_u32(ef.draw_repeat_gap_x as int) + ",\"draw_repeat_gap_y\":"@ + dec_u32(ef.draw_repeat_gap_y as int) + ",\"draw_corner_offset_x\":"@).len(), pos + ("{\"layer_enabled\":"@ + enc_bool(ef.layer_enabled) + ",\"bmp_x_offset\":"@ + dec_u32(ef.bmp_x_offset as int) + ",\"bmp_y_offset\":"@ + dec_u32(ef.bmp_y_offset as int) + ",\"bmp_width\":"@ + dec_u32(ef.bmp_width as int) + ",\"bmp_height\":"@ + dec_u32(ef.bmp_height as int) + ",\"draw_repeat_x\":"@ + dec_u32(ef.draw_repeat_x as int) + ",\"draw_repeat_y\":"@ + dec_u32(ef.draw_repeat_y as int) + ",\"draw_repeat_gap_x\":"@ + dec_u32(ef.draw_repeat_gap_x as int) + ",\"draw_repeat_gap_y\":"@ + dec_u32(ef.draw_repeat_gap_y as int) + ",\"draw_corner_offset_x\":"@).len() + 1)[0] == t[pos + ("{\"layer_enabled\":"@ + enc_bool(ef.layer_enabled) + ",\"bmp_x_offset\":"@ + dec_u32(ef.bmp_x_offset as int) + ",\"bmp_y_offset\":"@ + dec_u32(ef.bmp_y_offset as int) + ",\"bmp_width\":"@ + dec_u32(ef.bmp_width as int) + ",\"bmp_height\":"@ + dec_u32(ef.bmp_height as int) + ",\"draw_repeat_x\":"@ + dec_u32(ef.draw_repeat_x as int) + ",\"draw_repeat_y\":"@ + dec_u32(ef.draw_repeat_y as int) + ",\"draw_repeat_gap_x\":"@ + dec_u32(ef.draw_repeat_gap_x as int) + ",\"draw_repeat_gap_y\":"@ + dec_u32(ef.draw_repeat_gap_y as int) + ",\"draw_corner_offset_x\":"@).len()]);
    }
    assert(t.subrange(pos + ("{\"layer_enabled\":"@ + enc_bool(ef.layer_enabled) + ",\"bmp_x_offset\":"@ + dec_u32(ef.bmp_x_offset as int) + ",\"bmp_y_offset\":"@ + dec_u32(ef.bmp_y_offset as int) + ",\"bmp_width\":"@ + dec_u32(ef.bmp_width as int) + ",\"bmp_height\":"@ + dec_u32(ef.bmp_height as int) + ",\"draw_repeat_x\":"@ + dec_u32(ef.draw_repeat_x as int) + ",\"draw_repeat_y\":"@ + dec_u32(ef.draw_repeat_y as int) + ",\"draw_repeat_gap_x\":"@ + dec_u32(ef.draw_repeat_gap_x as int) + ",\"draw_repeat_gap_y\":"@ + dec_u32(ef.draw_repeat_gap_y as int) + ",\"draw_corner_offset_x\":"@ + dec_i32(ef.draw_corner_offset_x as int)).len(), pos + ("{\"layer_enabled\":"@ + enc_bool(ef.layer_enabled) + ",\"bmp_x_offset\":"@ + dec_u32(ef.bmp_x_offset as int) + ",\"bmp_y_offset\":"@ + dec_u32(ef.bmp_y_offset as int) + ",\"bmp_width\":"@ + dec_u32(ef.bmp_width as int) + ",\"bmp_height\":"@ + dec_u32(ef.bmp_height as int) + ",\"draw_repeat_x\":"@ + dec_u32(ef.draw_repeat_x as int) + ",\"draw_repeat_y\":"@ + dec_u32(ef.draw_repeat_y as int) + ",\"draw_repeat_gap_x\":"@ + dec_u32(ef.draw_repeat_gap_x as int) + ",\"draw_repeat_gap_y\":"@ + dec_u32(ef.draw_repeat_gap_y as int) + ",\"draw_corner_offset_x\":"@ + dec_i32(ef.draw_corner_offset_x as int) + ",\"draw_corner_offset_y\":"@).len())[0] == t[pos + ("{\"layer_enabled\":"@ + enc_bool(ef.layer_enabled) + ",\"bmp_x_offset\":"@ + dec_u32(ef.bmp_x_offset as int) + ",\"bmp_y_offset\":"@ + dec_u32(ef.bmp_y_offset as int) + ",\"bmp_width\":"@ + dec_u32(ef.bmp_width as int) + ",\"bmp_height\":"@ + dec_u32(ef.bmp_height as int) + ",\"draw_repeat_x\":"@ + dec_u32(ef.draw_repeat_x as int) + ",\"draw_repeat_y\":"@ + dec_u32(ef.draw_repeat_y as int) + ",\"draw_repeat_gap_x\":"@ + dec_u32(ef.draw_repeat_gap_x as int) + ",\"draw_repeat_gap_y\":"@ + dec_u32(ef.draw_repeat_gap_y as int) + ",\"draw_corner_offset_x\":"@ + dec_i32(ef.draw_corner_offset_x as int)).len()]);
    assert(!is_digit(t[pos + ("{\"layer_enabled\":"@ + enc_bool(ef.layer_enabled) + ",\"bmp_x_offset\":"@ + dec_u32(ef.bmp_x_offset as int) + ",\"bmp_y_offset\":"@ + dec_u32(ef.bmp_y_offset as int) + ",\"bmp_width\":"@ + dec_u32(ef.bmp_width as int) + ",\"bmp_height\":"@ + dec_u32(ef.bmp_height as int) + ",\"draw_repeat_x\":"@ + dec_u32(ef.draw_repeat_x as int) + ",\"draw_repeat_y\":"@ + dec_u32(ef.draw_repeat_y as int) + ",\"draw_repeat_gap_x\":"@ + dec_u32(ef.draw_repeat_gap_x as int) + ",\"draw_repeat_gap_y\":"@ + dec_u32(ef.draw_repeat_gap_y as int) + ",\"draw_corner_offset_x\":"@ + dec_i32(ef.draw_corner_offset_x as int)).len()]));
    assert(int_at(t, pos + ("{\"layer_enabled\":"@ + enc_bool(ef.layer_enabled) + ",\"bmp_x_offset\":"@ + dec_u32(ef.bmp_x_offset as int) + ",\"bmp_y_offset\":"@ + dec_u32(ef.bmp_y_offset as int) + ",\"bmp_width\":"@ + dec_u32(ef.bmp_width as int) + ",\"bmp_height\":"@ + dec_u32(ef.bmp_height as int) + ",\"draw_repeat_x\":"@ + dec_u32(ef.draw_repeat_x as int) + ",\"draw_repeat_y\":"@ + dec_u32(ef.draw_repeat_y as int) + ",\"draw_repeat_gap_x\":"@ + dec_u32(ef.draw_repeat_gap_x as int) + ",\"draw_repeat_gap_y\":"@ + dec_u32(ef.draw_repeat_gap_y as int) + ",\"draw_corner_offset_x\":"@).len(), ef.draw_corner_offset_x as int));
    reveal_strlit(",\"animation_style\":");
    if ef.draw_corner_offset_y < 0 {
        lemma_split_concat(t, pos + ("{\"layer_enabled\":"@ + enc_bool(ef.layer_enabled) + ",\"bmp_x_offset\":"@ + dec_u32(ef.bmp_x_offset as int) + ",\"bmp_y_offset\":"@ + dec_u32(ef.bmp_y_offset as int) + ",\"bmp_width\":"@ + dec_u32(ef.bmp_width as int) + ",\"bmp_height\":"@ + dec_u32(ef.bmp_height as int) + ",\"draw_repeat_x\":"@ + dec_u32(ef.draw_repeat_x as int) + ",\"draw_repeat_y\":"@ + dec_u32(ef.draw_repeat_y as int) + ",\"draw_repeat_gap_x\":"@ + dec_u32(ef.draw_repeat_gap_x as int) + ",\"draw_repeat_gap_y\":"@ + dec_u32(ef.draw_repeat_gap_y as int) + ",\"draw_corner_offset_x\":"@ + dec_i32(ef.draw_corner_offset_x as int) + ",\"draw_corner_offset_y\":"@).len(), seq!['-'], dec_u32(-(ef.draw_corner_offset_y as int)));
        assert(t.subrange(pos + ("{\"layer_enabled\":"@ + enc_bool(ef.layer_enabled) + ",\"bmp_x_offset\":"@ + dec_u32(ef.bmp_x_offset as int) + ",\"bmp_y_offset\":"@ + dec_u32(ef.bmp_y_offset as int) + ",\"bmp_width\":"@ + dec_u32(ef.bmp_width as int) + ",\"bmp_height\":"@ + dec_u32(ef.bmp_height as int) + ",\"draw_repeat_x\":"@ + dec_u32(ef.draw_repeat_x as int) + ",\"draw_repeat_y\":"@ + dec_u32(ef.draw_repeat_y as int) + ",\"draw_repeat_gap_x\":"@ + dec_u32(ef.draw_repeat_gap_x as int) + ",\"draw_repeat_gap_y\":"@ + dec_u32(ef.draw_repeat_gap_y as int) + ",\"draw_corner_offset_x\":"@ + dec_i32(ef.draw_corner_offset_x as int) + ",\"draw_corner_offset_y\":"@).len(), pos + ("{\"layer_enabled\":"@ + enc_bool(ef.layer_enabled) + ",\"bmp_x_offset\":"@ + dec_u32(ef.bmp_x_offset as int) + ",\"bmp_y_offset\":"@ + dec_u32(ef.bmp_y_offset as int) + ",\"bmp_width\":"@ + dec_u32(ef.bmp_width as int) + ",\"bmp_height\":"@ + dec_u32(ef.bmp_height as int) + ",\"draw_repeat_x\":"@ + dec_u32(ef.draw_repeat_x as int) + ",\"draw_repeat_y\":"@ + dec_u32(ef.draw_repeat_y as int) + ",\"draw_repeat_gap_x\":"@ + dec_u32(ef.draw_repeat_gap_x as int) + ",\"draw_repeat_gap_y\":"@ + dec_u32(ef.draw_repeat_gap_y as int) + ",\"draw_corner_offset_x\":"@ + dec_i32(ef.draw_corner_offset_x as int) + ",\"draw_corner_offset_y\":"@).len() + 1)[0] == t[pos + ("{\"layer_enabled\":"@ + enc_bool(ef.layer_enabled) + ",\"bmp_x_offset\":"@ + dec_u32(ef.bmp_x_offset as int) + ",\"bmp_y_offset\":"@ + dec_u32(ef.bmp_y_offset as int) + ",\"bmp_width\":"@ + dec_u32(ef.bmp_width as int) + ",\"bmp_height\":"@ + dec_u32(ef.bmp_height as int) + ",\"draw_repeat_x\":"@ + dec_u32(ef.draw_repeat_x as int) + ",\"draw_repeat_y\":"@ + dec_u32(ef.draw_repeat_y as int) + ",\"draw_repeat_gap_x\":"@ + dec_u32(ef.draw_repeat_gap_x as int) + ",\"draw_repeat_gap_y\":"@ + dec_u32(ef.draw_repeat_gap_y as int) + ",\"draw_corner_offset_x\":"@ + dec_i32(ef.draw_corner_offset_x as int) + ",\"draw_corner_offset_y\":"@).len()]);
    }
    assert(t.subrange(pos + ("{\"layer_enabled\":"@ + enc_bool(ef.layer_enabled) + ",\"bmp_x_offset\":"@ + dec_u32(ef.bmp_x_offset as int) + ",\"bmp_y_offset\":"@ + dec_u32(ef.bmp_y_offset as int) + ",\"bmp_width\":"@ + dec_u32(ef.bmp_width as int) + ",\"bmp_height\":"@ + dec_u32(ef.bmp_height as int) + ",\"draw_repeat_x\":"@ + dec_u32(ef.draw_repeat_x as int) + ",\"draw_repeat_y\":"@ + dec_u32(ef.draw_repeat_y as int) + ",\"draw_repeat_gap_x\":"@ + dec_u32(ef.draw_repeat_gap_x as int) + ",\"draw_repeat_gap_y\":"@ + dec_u32(ef.draw_repeat_gap_y as int) + ",\"draw_corner_offset_x\":"@ + dec_i32(ef.draw_corner_offset_x as int) + ",\"draw_corner_offset_y\":"@ + dec_i32(ef.draw_corner_offset_y as int)).len(), pos + ("{\"layer_enabled\":"@ + enc_bool(ef.layer_enabled) + ",\"bmp_x_offset\":"@ + dec_u32(ef.bmp_x_offset as int) + ",\"bmp_y_offset\":"@ + dec_u32(ef.bmp_y_offset as int) + ",\"bmp_width\":"@ + dec_u32(ef.bmp_width as int) + ",\"bmp_height\":"@ + dec_u32(ef.bmp_height as int) + ",\"draw_repeat_x\":"@ + dec_u32(ef.draw_repeat_x as int) + ",\"draw_repeat_y\":"@ + dec_u32(ef.draw_repeat_y as int) + ",\"draw_repeat_gap_x\":"@ + dec_u32(ef.draw_repeat_gap_x as int) + ",\"draw_repeat_gap_y\":"@ + dec_u32(ef.draw_repeat_gap_y as int) + ",\"draw_corner_offset_x\":"@ + dec_i32(ef.draw_corner_offset_x as int) + ",\"draw_corner_offset_y\":"@ + dec_i32(ef.draw_corner_offset_y as int) + ",\"animation_style\":"@).len())[0] == t[pos + ("{\"layer_enabled\":"@ + enc_bool(ef.layer_enabled) + ",\"bmp_x_offset\":"@ + dec_u32(ef.bmp_x_offset as int) + ",\"bmp_y_offset\":"@ + dec_u32(ef.bmp_y_offset as int) + ",\"bmp_width\":"@ + dec_u32(ef.bmp_width as int) + ",\"bmp_height\":"@ + dec_u32(ef.bmp_height as int) + ",\"draw_repeat_x\":"@ + dec_u32(ef.draw_repeat_x as int) + ",\"draw_repeat_y\":"@ + dec_u32(ef.draw_repeat_y as int) + ",\"draw_repeat_gap_x\":"@ + dec_u32(ef.draw_repeat_gap_x as int) + ",\"draw_repeat_gap_y\":"@ + dec_u32(ef.draw_repeat_gap_y as int) + ",\"draw_corner_offset_x\":"@ + dec_i32(ef.draw_corner_offset_x as int) + ",\"draw_corner_offset_y\":"@ + dec_i32(ef.draw_corner_offset_y as int)).len()]);
    assert(!is_digit(t[pos + ("{\"layer_enabled\":"@ + enc_bool(ef.layer_enabled) + ",\"bmp_x_offset\":"@ + dec_u32(ef.bmp_x_offset as int) + ",\"bmp_y_offset\":"@ + dec_u32(ef.bmp_y_offset as int) + ",\"bmp_width\":"@ + dec_u32(ef.bmp_width as int) + ",\"bmp_height\":"@ + dec_u32(ef.bmp_height as int) + ",\"draw_repeat_x\":"@ + dec_u32(ef.draw_repeat_x as int) + ",\"draw_repeat_y\":"@ + dec_u32(ef.draw_repeat_y as int) + ",\"draw_repeat_gap_x\":"@ + dec_u32(ef.draw_repeat_gap_x as int) + ",\"draw_repeat_gap_y\":"@ + dec_u32(ef.draw_repeat_gap_y as int) + ",\"draw_corner_offset_x\":"@ + dec_i32(ef.draw_corner_offset_x as int) + ",\"draw_corner_offset_y\":"@ + dec_i32(ef.draw_corner_offset_y as int)).len()]));
    assert(int_at(t, pos + ("{\"layer_enabled\":"@ + enc_bool(ef.layer_enabled) + ",\"bmp_x_offset\":"@ + dec_u32(ef.bmp_x_offset as int) + ",\"bmp_y_offset\":"@ + dec_u32(ef.bmp_y_offset as int) + ",\"bmp_width\":"@ + dec_u32(ef.bmp_width as int) + ",\"bmp_height\":"@ + dec_u32(ef.bmp_height as int) + ",\"draw_repeat_x\":"@ + dec_u32(ef.draw_repeat_x as int) + ",\"draw_repeat_y\":"@ + dec_u32(ef.draw_repeat_y as int) + ",\"draw_repeat_gap_x\":"@ + dec_u32(ef.draw_repeat_gap_x as int) + ",\"draw_repeat_gap_y\":"@ + dec_u32(ef.draw_repeat_gap_y as int) + ",\"draw_corner_offset_x\":"@ + dec_i32(ef.draw_corner_offset_x as int) + ",\"draw_corner_offset_y\":"@).len(), ef.draw_corner_offset_y as int));
}

/// The earlier pieces of this canonical shape.
#[verifier::rlimit(100)]
#[verifier::spinoff_prover]
proof fn lemma_layer_pieces_lo(t: Seq<char>, pos: int, ef: LayerConfig)
    requires
        0 <= pos,
        pos + ("{\"layer_enabled\":"@ + enc_bool(ef.layer_enabled) + ",\"bmp_x_offset\":"@ + dec_u32(ef.bmp_x_offset as int) + ",\"bmp_y_offset\":"@ + dec_u32(ef.bmp_y_offset as int) + ",\"bmp_width\":"@ + dec_u32(ef.bmp_width as int) + ",\"bmp_height\":"@ + dec_u32(ef.bmp_height as int) + ",\"draw_repeat_x\":"@ + dec_u32(ef.draw_repeat_x as int) + ",\"draw_repeat_y\":"@).len() <= t.len(),
        t.subrange(pos, pos + ("{\"layer_enabled\":"@ + enc_bool(ef.layer_enabled) + ",\"bmp_x_offset\":"@ + dec_u32(ef.bmp_x_offset as int) + ",\"bmp_y_offset\":"@ + dec_u32(ef.bmp_y_offset as int) + ",\"bmp_width\":"@ + dec_u32(ef.bmp_width as int) + ",\"bmp_height\":"@ + dec_u32(ef.bmp_height as int) + ",\"draw_repeat_x\":"@ + dec_u32(ef.draw_repeat_x as int) + ",\"draw_repeat_y\":"@).len()) == "{\"layer_enabled\":"@ + enc_bool(ef.layer_enabled) + ",\"bmp_x_offset\":"@ + dec_u32(ef.bmp_x_offset as int) + ",\"bmp_y_offset\":"@ + dec_u32(ef.bmp_y_offset as int) + ",\"bmp_width\":"@ + dec_u32(ef.bmp_width as int) + ",\"bmp_height\":"@ + dec_u32(ef.bmp_height as int) + ",\"draw_repeat_x\":"@ + dec_u32(ef.draw_repeat_x as int) + ",\"draw_repeat_y\":"@,
    ensures
        t.subrange(pos, pos + ("{\"layer_enabled\":"@).len()) == "{\"layer_enabled\":"@,
        t.subrange(pos + ("{\"layer_enabled\":"@).len(), pos + ("{\"layer_enabled\":"@ + enc_bool(ef.layer_enabled)).len()) == enc_bool(ef.layer_enabled),
        t.subrange(pos + ("{\"layer_enabled\":"@ + enc_bool(ef.layer_enabled)).len(), pos + ("{\"layer_enabled\":"@ + enc_bool(ef.layer_enabled) + ",\"bmp_x_offset\":"@).len()) == ",\"bmp_x_offset\":"@,
        num_at(t, pos + ("{\"layer_enabled\":"@ + enc_bool(ef.layer_enabled) + ",\"bmp_x_offset\":"@).len(), ef.bmp_x_offset as int),
        t.subrange(pos + ("{\"layer_enabled\":"@ + enc_bool(ef.layer_enabled) + ",\"bmp_x_offset\":"@ + dec_u32(ef.bmp_x_offset as int)).len(), pos + ("{\"layer_enabled\":"@ + enc_bool(ef.layer_enabled) + ",\"bmp_x_offset\":"@ + dec_u32(ef.bmp_x_offset as int) + ",\"bmp_y_offset\":"@).len()) == ",\"bmp_y_offset\":"@,
        num_at(t, pos + ("{\"layer_enabled\":"@ + enc_bool(ef.layer_enabled) + ",\"bmp_x_offset\":"@ + dec_u32(ef.bmp_x_offset as int) + ",\"bmp_y_offset\":"@).len(), ef.bmp_y_offset as int),
        t.subrange(pos + ("{\"layer_enabled\":"@ + enc_bool(ef.layer_enabled) + ",\"bmp_x_offset\":"@ + dec_u32(ef.bmp_x_offset as int) + ",\"bmp_y_offset\":"@ + dec_u32(ef.bmp_y_offset as int)).len(), pos + ("{\"layer_enabled\":"@ + enc_bool(ef.layer_enabled) + ",\"bmp_x_offset\":"@ + dec_u32(ef.bmp_x_offset as int) + ",\"bmp_y_offset\":"@ + dec_u32(ef.bmp_y_offset as int) + ",\"bmp_width\":"@).len()) == ",\"bmp_width\":"@,
        num_at(t, pos + ("{\"layer_enabled\":"@ + enc_bool(ef.layer_enabled) + ",\"bmp_x_offset\":"@ + dec_u32(ef.bmp_x_offset as int) + ",\"bmp_y_offset\":"@ + dec_u32(ef.bmp_y_offset as int) + ",\"bmp_width\":"@).len(), ef.bmp_width as int),
        t.subrange(pos + ("{\"layer_enabled\":"@ + enc_bool(ef.layer_enabled) + ",\"bmp_x_offset\":"@ + dec_u32(ef.bmp_x_offset as int) + ",\"bmp_y_offset\":"@ + dec_u32(ef.bmp_y_offset as int) + ",\"bmp_width\":"@ + dec_u32(ef.bmp_width as int)).len(), pos + ("{\"layer_enabled\":"@ + enc_bool(ef.layer_enabled) + ",\"bmp_x_offset\":"@ + dec_u32(ef.bmp_x_offset as int) + ",\"bmp_y_offset\":"@ + dec_u32(ef.bmp_y_offset as int) + ",\"bmp_width\":"@ + dec_u32(ef.bmp_width as int) + ",\"bmp_height\":"@).len()) == ",\"bmp_height\":"@,
        num_at(t, pos + ("{\"layer_enabled\":"@ + enc_bool(ef.layer_enabled) + ",\"bmp_x_offset\":"@ + dec_u32(ef.bmp_x_offset as int) + ",\"bmp_y_offset\":"@ + dec_u32(ef.bmp_y_offset as int) + ",\"bmp_width\":"@ + dec_u32(ef.bmp_width as int) + ",\"bmp_height\":"@).len(), ef.bmp_height as int),
        t.subrange(pos + ("{\"layer_enabled\":"@ + enc_bool(ef.layer_enabled) + ",\"bmp_x_offset\":"@ + dec_u32(ef.bmp_x_offset as int) + ",\"bmp_y_offset\":"@ + dec_u32(ef.bmp_y_offset as int) + ",\"bmp_width\":"@ + dec_u32(ef.bmp_width as int) + ",\"bmp_height\":"@ + dec_u32(ef.bmp_height as int)).len(), pos + ("{\"layer_enabled\":"@ + enc_bool(ef.layer_enabled) + ",\"bmp_x_offset\":"@ + dec_u32(ef.bmp_x_offset as int) + ",\"bmp_y_offset\":"@ + dec_u32(ef.bmp_y_offset as int) + ",\"bmp_width\":"@ + dec_u32(ef.bmp_width as int) + ",\"bmp_height\":"@ + dec_u32(ef.bmp_height as int) + ",\"draw_repeat_x\":"@).len()) == ",\"draw_repeat_x\":"@,
        num_at(t, pos + ("{\"layer_enabled\":"@ + enc_bool(ef.layer_enabled) + ",\"bmp_x_offset\":"@ + dec_u32(ef.bmp_x_offset as int) + ",\"bmp_y_offset\":"@ + dec_u32(ef.bmp_y_offset as int) + ",\"bmp_width\":"@ + dec_u32(ef.bmp_width as int) + ",\"bmp_height\":"@ + dec_u32(ef.bmp_height as int) + ",\"draw_repeat_x\":"@).len(), ef.draw_repeat_x as int),
        t.subrange(pos + ("{\"layer_enabled\":"@ + enc_bool(ef.layer_enabled) + ",\"bmp_x_offset\":"@ + dec_u32(ef.bmp_x_offset as int) + ",\"bmp_y_offset\":"@ + dec_u32(ef.bmp_y_offset as int) + ",\"bmp_width\":"@ + dec_u32(ef.bmp_width as int) + ",\"bmp_height\":"@ + dec_u32(ef.bmp_height as int) + ",\"draw_repeat_x\":"@ + dec_u32(ef.draw_repeat_x as int)).len(), pos + ("{\"layer_enabled\":"@ + enc_bool(ef.layer_enabled) + ",\"bmp_x_offset\":"@ + dec_u32(ef.bmp_x_offset as int) + ",\"bmp_y_offset\":"@ + dec_u32(ef.bmp_y_offset as int) + ",\"bmp_width\":"@ + dec_u32(ef.bmp_width as int) + ",\"bmp_height\":"@ + dec_u32(ef.bmp_height as int) + ",\"draw_repeat_x\":"@ + dec_u32(ef.draw_repeat_x as int) + ",\"draw_repeat_y\":"@).len()) == ",\"draw_repeat_y\":"@,
{
    lemma_split_concat(t, pos, "{\"layer_enabled\":"@ + enc_bool(ef.layer_enabled) + ",\"bmp_x_offset\":"@ + dec_u32(ef.bmp_x_offset as int) + ",\"bmp_y_offset\":"@ + dec_u32(ef.bmp_y_offset as int) + ",\"bmp_width\":"@ + dec_u32(ef.bmp_width as int) + ",\"bmp_height\":"@ + dec_u32(ef.bmp_height as int) + ",\"draw_repeat_x\":"@ + dec_u32(ef.draw_repeat_x as int), ",\"draw_repeat_y\":"@);
    lemma_split_concat(t, pos, "{\"layer_enabled\":"@ + enc_bool(ef.layer_enabled) + ",\"bmp_x_offset\":"@ + dec_u32(ef.bmp_x_offset as int) + ",\"bmp_y_offset\":"@ + dec_u32(ef.bmp_y_offset as int) + ",\"bmp_width\":"@ + dec_u32(ef.bmp_width as int) + ",\"bmp_height\":"@ + dec_u32(ef.bmp_height as int) + ",\"draw_repeat_x\":"@, dec_u32(ef.draw_repeat_x as int));
    lemma_split_concat(t, pos, "{\"layer_enabled\":"@ + enc_bool(ef.layer_enabled) + ",\"bmp_x_offset\":"@ + dec_u32(ef.bmp_x_offset as int) + ",\"bmp_y_offset\":"@ + dec_u32(ef.bmp_y_offset as int) + ",\"bmp_width\":"@ + dec_u32(ef.bmp_width as int) + ",\"bmp_height\":"@ + dec_u32(ef.bmp_height as int), ",\"draw_repeat_x\":"@);
    lemma_split_concat(t, pos, "{\"layer_enabled\":"@ + enc_bool(ef.layer_enabled) + ",\"bmp_x_offset\":"@ + dec_u32(ef.bmp_x_offset as int) + ",\"bmp_y_offset\":"@ + dec_u32(ef.bmp_y_offset as int) + ",\"bmp_width\":"@ + dec_u32(ef.bmp_width as int) + ",\"bmp_height\":"@, dec_u32(ef.bmp_height as int));
    lemma_split_concat(t, pos, "{\"layer_enabled\":"@ + enc_bool(ef.layer_enabled) + ",\"bmp_x_offset\":"@ + dec_u32(ef.bmp_x_offset as int) + ",\"bmp_y_offset\":"@ + dec_u32(ef.bmp_y_offset as int) + ",\"bmp_width\":"@ + dec_u32(ef.bmp_width as int), ",\"bmp_height\":"@);
    lemma_split_concat(t, pos, "{\"layer_enabled\":"@ + enc_bool(ef.layer_enabled) + ",\"bmp_x_offset\":"@ + dec_u32(ef.bmp_x_offset as int) + ",\"bmp_y_offset\":"@ + dec_u32(ef.bmp_y_offset as int) + ",\"bmp_width\":"@, dec_u32(ef.bmp_width as int));
    lemma_split_concat(t, pos, "{\"layer_enabled\":"@ + enc_bool(ef.layer_enabled) + ",\"bmp_x_offset\":"@ + dec_u32(ef.bmp_x_offset as int) + ",\"bmp_y_offset\":"@ + dec_u32(ef.bmp_y_offset as int), ",\"bmp_width\":"@);
    lemma_split_concat(t, pos, "{\"layer_enabled\":"@ + enc_bool(ef.layer_enabled) + ",\"bmp_x_offset\":"@ + dec_u32(ef.bmp_x_offset as int) + ",\"bmp_y_offset\":"@, dec_u32(ef.bmp_y_offset as int));
    lemma_split_concat(t, pos, "{\"layer_enabled\":"@ + enc_bool(ef.layer_enabled) + ",\"bmp_x_offset\":"@ + dec_u32(ef.bmp_x_offset as int), ",\"bmp_y_offset\":"@);
    lemma_split_concat(t, pos, "{\"layer_enabled\":"@ + enc_bool(ef.layer_enabled) + ",\"bmp_x_offset\":"@, dec_u32(ef.bmp_x_offset as int));
    lemma_split_concat(t, pos, "{\"layer_enabled\":"@ + enc_bool(ef.layer_enabled), ",\"bmp_x_offset\":"@);
    lemma_split_concat(t, pos, "{\"layer_enabled\":"@, enc_bool(ef.layer_enabled));
    assert(t.subrange(pos, pos + ("{\"layer_enabled\":"@).len()) == "{\"layer_enabled\":"@);
    reveal_strlit(",\"bmp_y_offset\":");
    assert(t.subrange(pos + ("{\"layer_enabled\":"@ + enc_bool(ef.layer_enabled) + ",\"bmp_x_offset\":"@ + dec_u32(ef.bmp_x_offset as int)).len(), pos + ("{\"layer_enabled\":"@ + enc_bool(ef.layer_enabled) + ",\"bmp_x_offset\":"@ + dec_u32(ef.bmp_x_offset as int) + ",\"bmp_y_offset\":"@).len())[0] == t[pos + ("{\"layer_enabled\":"@ + enc_bool(ef.layer_enabled) + ",\"bmp_x_offset\":"@ + dec_u32(ef.bmp_x_offset as int)).len()]);
    assert(!is_digit(t[pos + ("{\"layer_enabled\":"@ + enc_bool(ef.layer_enabled) + ",\"bmp_x_offset\":"@ + dec_u32(ef.bmp_x_offset as int)).len()]));
    assert(num_at(t, pos + ("{\"layer_enabled\":"@ + enc_bool(ef.layer_enabled) + ",\"bmp_x_offset\":"@).len(), ef.bmp_x_offset as int));
    reveal_strlit(",\"bmp_width\":");
    assert(t.subrange(pos + ("{\"layer_enabled\":"@ + enc_bool(ef.layer_enabled) + ",\"bmp_x_offset\":"@ + dec_u32(ef.bmp_x_offset as int) + ",\"bmp_y_offset\":"@ + dec_u32(ef.bmp_y_offset as int)).len(), pos + ("{\"layer_enabled\":"@ + enc_bool(ef.layer_enabled) + ",\"bmp_x_offset\":"@ + dec_u32(ef.bmp_x_offset as int) + ",\"bmp_y_offset\":"@ + dec_u32(ef.bmp_y_offset as int) + ",\"bmp_width\":"@).len())[0] == t[pos + ("{\"layer_enabled\":"@ + enc_bool(ef.layer_enabled) + ",\"bmp_x_offset\":"@ + dec_u32(ef.bmp_x_offset as int) + ",\"bmp_y_offset\":"@ + dec_u32(ef.bmp_y_offset as int)).len()]);
    assert(!is_digit(t[pos + ("{\"layer_enabled\":"@ + enc_bool(ef.layer_enabled) + ",\"bmp_x_offset\":"@ + dec_u32(ef.bmp_x_offset as int) + ",\"bmp_y_offset\":"@ + dec_u32(ef.bmp_y_offset as int)).len()]));
    assert(num_at(t, pos + ("{\"layer_enabled\":"@ + enc_bool(ef.layer_enabled) + ",\"bmp_x_offset\":"@ + dec_u32(ef.bmp_x_offset as int) + ",\"bmp_y_offset\":"@).len(), ef.bmp_y_offset as int));
    reveal_strlit(",\"bmp_height\":");
    assert(t.subrange(pos + ("{\"layer_enabled\":"@ + enc_bool(ef.layer_enabled) + ",\"bmp_x_offset\":"@ + dec_u32(ef.bmp_x_offset as int) + ",\"bmp_y_offset\":"@ + dec_u32(ef.bmp_y_offset as int) + ",\"bmp_width\":"@ + dec_u32(ef.bmp_width as int)).len(), pos + ("{\"layer_enabled\":"@ + enc_bool(ef.layer_enabled) + ",\"bmp_x_offset\":"@ + dec_u32(ef.bmp_x_offset as int) + ",\"bmp_y_offset\":"@ + dec_u32(ef.bmp_y_offset as int) + ",\"bmp_width\":"@ + dec_u32(ef.bmp_width as int) + ",\"bmp_height\":"@).len())[0] == t[pos + ("{\"layer_enabled\":"@ + enc_bool(ef.layer_enabled) + ",\"bmp_x_offset\":"@ + dec_u32(ef.bmp_x_offset as int) + ",\"bmp_y_offset\":"@ + dec_u32(ef.bmp_y_offset as int) + ",\"bmp_width\":"@ + dec_u32(ef.bmp_width as int)).len()]);
    assert(!is_digit(t[pos + ("{\"layer_enabled\":"@ + enc_bool(ef.layer_enabled) + ",\"bmp_x_offset\":"@ + dec_u32(ef.bmp_x_offset as int) + ",\"bmp_y_offset\":"@ + dec_u32(ef.bmp_y_offset as int) + ",\"bmp_width\":"@ + dec_u32(ef.bmp_width as int)).len()]));
    assert(num_at(t, pos + ("{\"layer_enabled\":"@ + enc_bool(ef.layer_enabled) + ",\"bmp_x_offset\":"@ + dec_u32(ef.bmp_x_offset as int) + ",\"bmp_y_offset\":"@ + dec_u32(ef.bmp_y_offset as int) + ",\"bmp_width\":"@).len(), ef.bmp_width as int));
    reveal_strlit(",\"draw_repeat_x\":");
    assert(t.subrange(pos + ("{\"layer_enabled\":"@ + enc_bool(ef.layer_enabled) + ",\"bmp_x_offset\":"@ + dec_u32(ef.bmp_x_offset as int) + ",\"bmp_y_offset\":"@ + dec_u32(ef.bmp_y_offset as int) + ",\"bmp_width\":"@ + dec_u32(ef.bmp_width as int) + ",\"bmp_height\":"@ + dec_u32(ef.bmp_height as int)).len(), pos + ("{\"layer_enabled\":"@ + enc_bool(ef.layer_enabled) + ",\"bmp_x_offset\":"@ + dec_u32(ef.bmp_x_offset as int) + ",\"bmp_y_offset\":"@ + dec_u32(ef.bmp_y_offset as int) + ",\"bmp_width\":"@ + dec_u32(ef.bmp_width as int) + ",\"bmp_height\":"@ + dec_u32(ef.bmp_height as int) + ",\"draw_repeat_x\":"@).len())[0] == t[pos + ("{\"layer_enabled\":"@ + enc_bool(ef.layer_enabled) + ",\"bmp_x_offset\":"@ + dec_u32(ef.bmp_x_offset as int) + ",\"bmp_y_offset\":"@ + dec_u32(ef.bmp_y_offset as int) + ",\"bmp_width\":"@ + dec_u32(ef.bmp_width as int) + ",\"bmp_height\":"@ + dec_u32(ef.bmp_height as int)).len()]);
    assert(!is_digit(t[pos + ("{\"layer_enabled\":"@ + enc_bool(ef.layer_enabled) + ",\"bmp_x_offset\":"@ + dec_u32(ef.bmp_x_offset as int) + ",\"bmp_y_offset\":"@ + dec_u32(ef.bmp_y_offset as int) + ",\"bmp_width\":"@ + dec_u32(ef.bmp_width as int) + ",\"bmp_height\":"@ + dec_u32(ef.bmp_height as int)).len()]));
    assert(num_at(t, pos + ("{\"layer_enabled\":"@ + enc_bool(ef.layer_enabled) + ",\"bmp_x_offset\":"@ + dec_u32(ef.bmp_x_offset as int) + ",\"bmp_y_offset\":"@ + dec_u32(ef.bmp_y_offset as int) + ",\"bmp_width\":"@ + dec_u32(ef.bmp_width as int) + ",\"bmp_height\":"@).len(), ef.bmp_height as int));
    reveal_strlit(",\"draw_repeat_y\":");
    assert(t.subrange(pos + ("{\"layer_enabled\":"@ + enc_bool(ef.layer_enabled) + ",\"bmp_x_offset\":"@ + dec_u32(ef.bmp_x_offset as int) + ",\"bmp_y_offset\":"@ + dec_u32(ef.bmp_y_offset as int) + ",\"bmp_width\":"@ + dec_u32(ef.bmp_width as int) + ",\"bmp_height\":"@ + dec_u32(ef.bmp_height as int) + ",\"draw_repeat_x\":"@ + dec_u32(ef.draw_repeat_x as int)).len(), pos + ("{\"layer_enabled\":"@ + enc_bool(ef.layer_enabled) + ",\"bmp_x_offset\":"@ + dec_u32(ef.bmp_x_offset as int) + ",\"bmp_y_offset\":"@ + dec_u32(ef.bmp_y_offset as int) + ",\"bmp_width\":"@ + dec_u32(ef.bmp_width as int) + ",\"bmp_height\":"@ + dec_u32(ef.bmp_height as int) + ",\"draw_repeat_x\":"@ + dec_u32(ef.draw_repeat_x as int) + ",\"draw_repeat_y\":"@).len())[0] == t[pos + ("{\"layer_enabled\":"@ + enc_bool(ef.layer_enabled) + ",\"bmp_x_offset\":"@ + dec_u32(ef.bmp_x_offset as int) + ",\"bmp_y_offset\":"@ + dec_u32(ef.bmp_y_offset as int) + ",\"bmp_width\":"@ + dec_u32(ef.bmp_width as int) + ",\"bmp_height\":"@ + dec_u32(ef.bmp_height as int) + ",\"draw_repeat_x\":"@ + dec_u32(ef.draw_repeat_x as int)).len()]);
    assert(!is_digit(t[pos + ("{\"layer_enabled\":"@ + enc_bool(ef.layer_enabled) + ",\"bmp_x_offset\":"@ + dec_u32(ef.bmp_x_offset as int) + ",\"bmp_y_offset\":"@ + dec_u32(ef.bmp_y_offset as int) + ",\"bmp_width\":"@ + dec_u32(ef.bmp_width as int) + ",\"bmp_height\":"@ + dec_u32(ef.bmp_height as int) + ",\"draw_repeat_x\":"@ + dec_u32(ef.draw_repeat_x as int)).len()]));
    assert(num_at(t, pos + ("{\"layer_enabled\":"@ + enc_bool(ef.layer_enabled) + ",\"bmp_x_offset\":"@ + dec_u32(ef.bmp_x_offset as int) + ",\"bmp_y_offset\":"@ + dec_u32(ef.bmp_y_offset as int) + ",\"bmp_width\":"@ + dec_u32(ef.bmp_width as int) + ",\"bmp_height\":"@ + dec_u32(ef.bmp_height as int) + ",\"draw_repeat_x\":"@).len(), ef.draw_repeat_x as int));
}

/// Stitches the per-step slices back into the whole canonical form.
#[verifier::rlimit(100)]
#[verifier::spinoff_prover]
proof fn lemma_layer_assemble(t: Seq<char>, a0: int, a1: int, a2: int, a3: int, a4: int, a5: int, a6: int, a7: int, a8: int, a9: int, a10: int, a11: int, a12: int, a13: int, a14: int, x: LayerConfig)
    requires
        0 <= a0,
        a0 <= a1,
        a1 <= a2,
        a2 <= a3,
        a3 <= a4,
        a4 <= a5,
        a5 <= a6,
        a6 <= a7,
        a7 <= a8,
        a8 <= a9,
        a9 <= a10,
        a10 <= a11,
        a11 <= a12,
        a12 <= a13,
        a13 <= a14,
        a14 <= t.len(),
        t.subrange(a0, a1) == "{\"layer_enabled\":"@ + enc_bool(x.layer_enabled),
        t.subrange(a1, a2) == ",\"bmp_x_offset\":"@ + dec_u32(x.bmp_x_offset as int),
        t.subrange(a2, a3) == ",\"bmp_y_offset\":"@ + dec_u32(x.bmp_y_offset as int),
        t.subrange(a3, a4) == ",\"bmp_width\":"@ + dec_u32(x.bmp_width as int),
        t.subrange(a4, a5) == ",\"bmp_height\":"@ + dec_u32(x.bmp_height as int),
        t.subrange(a5, a6) == ",\"draw_repeat_x\":"@ + dec_u32(x.draw_repeat_x as int),
        t.subrange(a6, a7) == ",\"draw_repeat_y\":"@ + dec_u32(x.draw_repeat_y as int),
        t.subrange(a7, a8) == ",\"draw_repeat_gap_x\":"@ + dec_u32(x.draw_repeat_gap_x as int),
        t.subrange(a8, a9) == ",\"draw_repeat_gap_y\":"@ + dec_u32(x.draw_repeat_gap_y as int),
        t.subrange(a9, a10) == ",\"draw_corner_offset_x\":"@ + dec_i32(x.draw_corner_offset_x as int),
        t.subrange(a10, a11) == ",\"draw_corner_offset_y\":"@ + dec_i32(x.draw_corner_offset_y as int),
        t.subrange(a11, a12) == ",\"animation_style\":"@,
        t.subrange(a12, a13) == enc_anim(x.animation_style),
        t.subrange(a13, a14) == "}"@,
    ensures
        t.subrange(a0, a14) == enc_layer(x),
{
    lemma_subrange_chain(t, a0, a1, a2);
    vstd::seq_lib::lemma_concat_associative(
        t.subrange(a0, a1),
        ",\"bmp_x_offset\":"@,
        dec_u32(x.bmp_x_offset as int),
    );
    lemma_subrange_chain(t, a0, a2, a3);
    vstd::seq_lib::lemma_concat_associative(
        t.subrange(a0, a2),
        ",\"bmp_y_offset\":"@,
        dec_u32(x.bmp_y_offset as int),
    );
    lemma_subrange_chain(t, a0, a3, a4);
    vstd::seq_lib::lemma_concat_associative(
        t.subrange(a0, a3),
        ",\"bmp_width\":"@,
        dec_u32(x.bmp_width as int),
    );
    lemma_subrange_chain(t, a0, a4, a5);
    vstd::seq_lib::lemma_concat_associative(
        t.subrange(a0, a4),
        ",\"bmp_height\":"@,
        dec_u32(x.bmp_height as int),
    );
    lemma_subrange_chain(t, a0, a5, a6);
    vstd::seq_lib::lemma_concat_associative(
        t.subrange(a0, a5),
        ",\"draw_repeat_x\":"@,
        dec_u32(x.draw_repeat_x as int),
    );
    lemma_subrange_chain(t, a0, a6, a7);
    vstd::seq_lib::lemma_concat_associative(
        t.subrange(a0, a6),
        ",\"draw_repeat_y\":"@,
        dec_u32(x.draw_repeat_y as int),
    );
    lemma_subrange_chain(t, a0, a7, a8);
    vstd::seq_lib::lemma_concat_associative(
        t.subrange(a0, a7),
        ",\"draw_repeat_gap_x\":"@,
        dec_u32(x.draw_repeat_gap_x as int),
    );
    lemma_subrange_chain(t, a0, a8, a9);
    vstd::seq_lib::lemma_concat_associative(
        t.subrange(a0, a8),
        ",\"draw_repeat_gap_y\":"@,
        dec_u32(x.draw_repeat_gap_y as int),
    );
    lemma_subrange_chain(t, a0, a9, a10);
    vstd::seq_lib::lemma_concat_associative(
        t.subrange(a0, a9),
        ",\"draw_corner_offset_x\":"@,
        dec_i32(x.draw_corner_offset_x as int),
    );
    lemma_subrange_chain(t, a0, a10, a11);
    vstd::seq_lib::lemma_concat_associative(
        t.subrange(a0, a10),
        ",\"draw_corner_offset_y\":"@,
        dec_i32(x.draw_corner_offset_y as int),
    );
    lemma_subrange_chain(t, a0, a11, a12);
    lemma_subrange_chain(t, a0, a12, a13);
    lemma_subrange_chain(t, a0, a13, a14);
}

/// Parses one canonical value of this shape; where the text reads the
/// canonical form of `expected`, the parse succeeds and consumes exactly
/// it.
#[verifier::rlimit(100)]
#[verifier::spinoff_prover]
fn parse_layer(s: &str, pos: usize, expected: Ghost<LayerConfig>) -> (r: Option<(LayerConfig, usize)>)
    ensures
        r matches Some((x, p)) ==> pos <= p <= s@.len() && s@.subrange(pos as int, p as int)
            == enc_layer(x) && x.layer_x_value == 0 && x.layer_y_value == 0 && x.animation_style.ani_wait == 0 && x.draw_corner_offset_x != i32::MIN && x.draw_corner_offset_y != i32::MIN && x.animation_style.scroll_speed_x != i32::MIN && x.animation_style.scroll_speed_y != i32::MIN,
        layer_at(s@, pos as int, expected@) ==> (r matches Some((x2, p2)) && p2 == pos
            + enc_layer(expected@).len()),
{
    let ghost ef = expected@;
    proof {
        if layer_at(s@, pos as int, ef) {
            lemma_layer_pieces_hi(s@, pos as int, ef);
            lemma_layer_pieces_lo(s@, pos as int, ef);
        }
    }
    let (layer_enabled, p1) = match lit_bool(s, pos, "{\"layer_enabled\":", Ghost(ef.layer_enabled)) {
        Option::Some(t) => t,
        Option::None => {
            return Option::None;
        },
    };
    proof {
        if layer_at(s@, pos as int, ef) {
            assert(p1 == pos + ("{\"layer_enabled\":"@ + enc_bool(ef.layer_enabled)).len());
        }
    }
    let (bmp_x_offset, p2) = match lit_u32(s, p1, ",\"bmp_x_offset\":", Ghost(ef.bmp_x_offset)) {
        Option::Some(t) => t,
        Option::None => {
            return Option::None;
        },
    };
    proof {
        if layer_at(s@, pos as int, ef) {
            assert(p2 == pos + ("{\"layer_enabled\":"@ + enc_bool(expected@.layer_enabled) + ",\"bmp_x_offset\":"@ + dec_u32(ef.bmp_x_offset as int)).len());
        }
    }
    let (bmp_y_offset, p3) = match lit_u32(s, p2, ",\"bmp_y_offset\":", Ghost(ef.bmp_y_offset)) {
        Option::Some(t) => t,
        Option::None => {
            return Option::None;
        },
    };
    proof {
        if layer_at(s@, pos as int, ef) {
            assert(p3 == pos + ("{\"layer_enabled\":"@ + enc_bool(ef.layer_enabled) + ",\"bmp_x_offset\":"@ + dec_u32(ef.bmp_x_offset as int) + ",\"bmp_y_offset\":"@ + dec_u32(ef.bmp_y_offset as int)).len());
        }
    }
    let (bmp_width, p4) = match lit_u32(s, p3, ",\"bmp_width\":", Ghost(ef.bmp_width)) {
        Option::Some(t) => t,
        Option::None => {
            return Option::None;
        },
    };
    proof {
        if layer_at(s@, pos as int, ef) {
            assert(p4 == pos + ("{\"layer_enabled\":"@ + enc_bool(ef.layer_enabled) + ",\"bmp_x_offset\":"@ + dec_u32(ef.bmp_x_offset as int) + ",\"bmp_y_offset\":"@ + dec_u32(ef.bmp_y_offset as int) + ",\"bmp_width\":"@ + dec_u32(ef.bmp_width as int)).len());
        }
    }
    let (bmp_height, p5) = match lit_u32(s, p4, ",\"bmp_height\":", Ghost(ef.bmp_height)) {
        Option::Some(t) => t,
        Option::None => {
            return Option::None;
        },
    };
    proof {
        if layer_at(s@, pos as int, ef) {
            assert(p5 == pos + ("{\"layer_enabled\":"@ + enc_bool(ef.layer_enabled) + ",\"bmp_x_offset\":"@ + dec_u32(ef.bmp_x_offset as int) + ",\"bmp_y_offset\":"@ + dec_u32(ef.bmp_y_offset as int) + ",\"bmp_width\":"@ + dec_u32(ef.bmp_width as int) + ",\"bmp_height\":"@ + dec_u32(ef.bmp_height as int)).len());
        }
    }
    let (draw_repeat_x, p6) = match lit_u32(s, p5, ",\"draw_repeat_x\":", Ghost(ef.draw_repeat_x)) {
        Option::Some(t) => t,
        Option::None => {
            return Option::None;
        },
    };
    proof {
        if layer_at(s@, pos as int, ef) {
            assert(p6 == pos + ("{\"layer_enabled\":"@ + enc_bool(ef.layer_enabled) + ",\"bmp_x_offset\":"@ + dec_u32(ef.bmp_x_offset as int) + ",\"bmp_y_offset\":"@ + dec_u32(ef.bmp_y_offset as int) + ",\"bmp_width\":"@ + dec_u32(ef.bmp_width as int) + ",\"bmp_height\":"@ + dec_u32(ef.bmp_height as int) + ",\"draw_repeat_x\":"@ + dec_u32(ef.draw_repeat_x as int)).len());
        }
    }
    let (draw_repeat_y, p7) = match lit_u32(s, p6, ",\"draw_repeat_y\":", Ghost(ef.draw_repeat_y)) {
        Option::Some(t) => t,
        Option::None => {
            return Option::None;
        },
    };
    proof {
        if layer_at(s@, pos as int, ef) {
            assert(p7 == pos + ("{\"layer_enabled\":"@ + enc_bool(ef.layer_enabled) + ",\"bmp_x_offset\":"@ + dec_u32(ef.bmp_x_offset as int) + ",\"bmp_y_offset\":"@ + dec_u32(ef.bmp_y_offset as int) + ",\"bmp_width\":"@ + dec_u32(ef.bmp_width as int) + ",\"bmp_height\":"@ + dec_u32(ef.bmp_height as int) + ",\"draw_repeat_x\":"@ + dec_u32(ef.draw_repeat_x as int) + ",\"draw_repeat_y\":"@ + dec_u32(ef.draw_repeat_y as int)).len());
        }
    }
    let (draw_repeat_gap_x, p8) = match lit_u32(s, p7, ",\"draw_repeat_gap_x\":", Ghost(ef.draw_repeat_gap_x)) {
        Option::Some(t) => t,
        Option::None => {
            return Option::None;
        },
    };
    proof {
        if layer_at(s@, pos as int, ef) {
            assert(p8 == pos + ("{\"layer_enabled\":"@ + enc_bool(ef.layer_enabled) + ",\"bmp_x_offset\":"@ + dec_u32(ef.bmp_x_offset as int) + ",\"bmp_y_offset\":"@ + dec_u32(ef.bmp_y_offset as int) + ",\"bmp_width\":"@ + dec_u32(ef.bmp_width as int) + ",\"bmp_height\":"@ + dec_u32(ef.bmp_height as int) + ",\"draw_repeat_x\":"@ + dec_u32(ef.draw_repeat_x as int) + ",\"draw_repeat_y\":"@ + dec_u32(ef.draw_repeat_y as int) + ",\"draw_repeat_gap_x\":"@ + dec_u32(ef.draw_repeat_gap_x as int)).len());
        }
    }
    let (draw_repeat_gap_y, p9) = match lit_u32(s, p8, ",\"draw_repeat_gap_y\":", Ghost(ef.draw_repeat_gap_y)) {
        Option::Some(t) => t,
        Option::None => {
            return Option::None;
        },
    };
    proof {
        if layer_at(s@, pos as int, ef) {
            assert(p9 == pos + ("{\"layer_enabled\":"@ + enc_bool(ef.layer_enabled) + ",\"bmp_x_offset\":"@ + dec_u32(ef.bmp_x_offset as int) + ",\"bmp_y_offset\":"@ + dec_u32(ef.bmp_y_offset as int) + ",\"bmp_width\":"@ + dec_u32(ef.bmp_width as int) + ",\"bmp_height\":"@ + dec_u32(ef.bmp_height as int) + ",\"draw_repeat_x\":"@ + dec_u32(ef.draw_repeat_x as int) + ",\"draw_repeat_y\":"@ + dec_u32(ef.draw_repeat_y as int) + ",\"draw_repeat_gap_x\":"@ + dec_u32(ef.draw_repeat_gap_x as int) + ",\"draw_repeat_gap_y\":"@ + dec_u32(ef.draw_repeat_gap_y as int)).len());
        }
    }
    let (draw_corner_offset_x, p10) = match lit_i32(s, p9, ",\"draw_corner_offset_x\":", Ghost(ef.draw_corner_offset_x)) {
        Option::Some(t) => t,
        Option::None => {
            return Option::None;
        },
    };
    proof {
        if layer_at(s@, pos as int, ef) {
            assert(p10 == pos + ("{\"layer_enabled\":"@ + enc_bool(ef.layer_enabled) + ",\"bmp_x_offset\":"@ + dec_u32(ef.bmp_x_offset as int) + ",\"bmp_y_offset\":"@ + dec_u32(ef.bmp_y_offset as int) + ",\"bmp_width\":"@ + dec_u32(ef.bmp_width as int) + ",\"bmp_height\":"@ + dec_u32(ef.bmp_height as int) + ",\"draw_repeat_x\":"@ + dec_u32(ef.draw_repeat_x as int) + ",\"draw_repeat_y\":"@ + dec_u32(ef.draw_repeat_y as int) + ",\"draw_repeat_gap_x\":"@ + dec_u32(ef.draw_repeat_gap_x as int) + ",\"draw_repeat_gap_y\":"@ + dec_u32(ef.draw_repeat_gap_y as int) + ",\"draw_corner_offset_x\":"@ + dec_i32(ef.draw_corner_offset_x as int)).len());
        }
    }
    let (draw_corner_offset_y, p11) = match lit_i32(s, p10, ",\"draw_corner_offset_y\":", Ghost(ef.draw_corner_offset_y)) {
        Option::Some(t) => t,
        Option::None => {
            return Option::None;
        },
    };
    proof {
        if layer_at(s@, pos as int, ef) {
            assert(p11 == pos + ("{\"layer_enabled\":"@ + enc_bool(ef.layer_enabled) + ",\"bmp_x_offset\":"@ + dec_u32(ef.bmp_x_offset as int) + ",\"bmp_y_offset\":"@ + dec_u32(ef.bmp_y_offset as int) + ",\"bmp_width\":"@ + dec_u32(ef.bmp_width as int) + ",\"bmp_height\":"@ + dec_u32(ef.bmp_height as int) + ",\"draw_repeat_x\":"@ + dec_u32(ef.draw_repeat_x as int) + ",\"draw_repeat_y\":"@ + dec_u32(ef.draw_repeat_y as int) + ",\"draw_repeat_gap_x\":"@ + dec_u32(ef.draw_repeat_gap_x as int) + ",\"draw_repeat_gap_y\":"@ + dec_u32(ef.draw_repeat_gap_y as int) + ",\"draw_corner_offset_x\":"@ + dec_i32(ef.draw_corner_offset_x as int) + ",\"draw_corner_offset_y\":"@ + dec_i32(ef.draw_corner_offset_y as int)).len());
        }
    }
    let p12 = match expect_lit(s, p11, ",\"animation_style\":") {
        Option::Some(t) => t,
        Option::None => {
            return Option::None;
        },
    };
    proof {
        if layer_at(s@, pos as int, ef) {
            assert(p12 == pos + ("{\"layer_enabled\":"@ + enc_bool(ef.layer_enabled) + ",\"bmp_x_offset\":"@ + dec_u32(ef.bmp_x_offset as int) + ",\"bmp_y_offset\":"@ + dec_u32(ef.bmp_y_offset as int) + ",\"bmp_width\":"@ + dec_u32(ef.bmp_width as int) + ",\"bmp_height\":"@ + dec_u32(ef.bmp_height as int) + ",\"draw_repeat_x\":"@ + dec_u32(ef.draw_repeat_x as int) + ",\"draw_repeat_y\":"@ + dec_u32(ef.draw_repeat_y as int) + ",\"draw_repeat_gap_x\":"@ + dec_u32(ef.draw_repeat_gap_x as int) + ",\"draw_repeat_gap_y\":"@ + dec_u32(ef.draw_repeat_gap_y as int) + ",\"draw_corner_offset_x\":"@ + dec_i32(ef.draw_corner_offset_x as int) + ",\"draw_corner_offset_y\":"@ + dec_i32(ef.draw_corner_offset_y as int) + ",\"animation_style\":"@).len());
        }
    }
    let (animation_style, p13) = match parse_anim(s, p12, Ghost(ef.animation_style)) {
        Option::Some(t) => t,
        Option::None => {
            return Option::None;
        },
    };
    proof {
        if layer_at(s@, pos as int, ef) {
            assert(p13 == pos + ("{\"layer_enabled\":"@ + enc_bool(ef.layer_enabled) + ",\"bmp_x_offset\":"@ + dec_u32(ef.bmp_x_offset as int) + ",\"bmp_y_offset\":"@ + dec_u32(ef.bmp_y_offset as int) + ",\"bmp_width\":"@ + dec_u32(ef.bmp_width as int) + ",\"bmp_height\":"@ + dec_u32(ef.bmp_height as int) + ",\"draw_repeat_x\":"@ + dec_u32(ef.draw_repeat_x as int) + ",\"draw_repeat_y\":"@ + dec_u32(ef.draw_repeat_y as int) + ",\"draw_repeat_gap_x\":"@ + dec_u32(ef.draw_repeat_gap_x as int) + ",\"draw_repeat_gap_y\":"@ + dec_u32(ef.draw_repeat_gap_y as int) + ",\"draw_corner_offset_x\":"@ + dec_i32(ef.draw_corner_offset_x as int) + ",\"draw_corner_offset_y\":"@ + dec_i32(ef.draw_corner_offset_y as int) + ",\"animation_style\":"@ + enc_anim(ef.animation_style)).len());
        }
    }
    let p14 = match expect_lit(s, p13, "}") {
        Option::Some(t) => t,
        Option::None => {
            return Option::None;
        },
    };
    proof {
        if layer_at(s@, pos as int, ef) {
            assert(p14 == pos + ("{\"layer_enabled\":"@ + enc_bool(ef.layer_enabled) + ",\"bmp_x_offset\":"@ + dec_u32(ef.bmp_x_offset as int) + ",\"bmp_y_offset\":"@ + dec_u32(ef.bmp_y_offset as int) + ",\"bmp_width\":"@ + dec_u32(ef.bmp_width as int) + ",\"bmp_height\":"@ + dec_u32(ef.bmp_height as int) + ",\"draw_repeat_x\":"@ + dec_u32(ef.draw_repeat_x as int) + ",\"draw_repeat_y\":"@ + dec_u32(ef.draw_repeat_y as int) + ",\"draw_repeat_gap_x\":"@ + dec_u32(ef.draw_repeat_gap_x as int) + ",\"draw_repeat_gap_y\":"@ + dec_u32(ef.draw_repeat_gap_y as int) + ",\"draw_corner_offset_x\":"@ + dec_i32(ef.draw_corner_offset_x as int) + ",\"draw_corner_offset_y\":"@ + dec_i32(ef.draw_corner_offset_y as int) + ",\"animation_style\":"@ + enc_anim(ef.animation_style) + "}"@).len());
        }
    }
    let x = LayerConfig {
        layer_enabled,
        bmp_x_offset,
        bmp_y_offset,
        bmp_width,
        bmp_height,
        draw_repeat_x,
        draw_repeat_y,
        draw_repeat_gap_x,
        draw_repeat_gap_y,
        draw_corner_offset_x,
        draw_corner_offset_y,
        animation_style,
        layer_x_value: 0,
        layer_y_value: 0,
    };
    proof {
        lemma_layer_assemble(s@, pos as int, p1 as int, p2 as int, p3 as int, p4 as int, p5 as int, p6 as int, p7 as int, p8 as int, p9 as int, p10 as int, p11 as int, p12 as int, p13 as int, p14 as int, x);
    }
    Option::Some((x, p14))
}

/// A layer every canonical-format value can carry: the signed fields avoid
/// the one unrepresentable magnitude.
pub open spec fn layer_fields_in_range(l: LayerConfig) -> bool {
    &&& l.draw_corner_offset_x != i32::MIN
    &&& l.draw_corner_offset_y != i32::MIN
    &&& l.animation_style.scroll_speed_x != i32::MIN
    &&& l.animation_style.scroll_speed_y != i32::MIN
}

/// A configuration the canonical text can carry faithfully: a bitmap name
/// free of double quotes, and the signed fields in range.
pub open spec fn parseable(c: BkgConfig) -> bool {
    &&& forall|i: int| 0 <= i < c.bmp_filename@.len() ==> #[trigger] c.bmp_filename@[i] != '"'
    &&& forall|i: int| 0 <= i < c.layers@.len() ==> layer_fields_in_range(#[trigger] c.layers@[i])
}

/// The text of the layers not yet consumed: a separating comma where layers
/// came before, then each remaining layer in order.
pub open spec fn rest_text(r: Seq<LayerConfig>, sep: bool) -> Seq<char>
    decreases r.len(),
{
    if r.len() == 0 {
        Seq::empty()
    } else if sep {
        ","@ + enc_layer(r[0]) + rest_text(r.skip(1), true)
    } else {
        enc_layer(r[0]) + rest_text(r.skip(1), true)
    }
}

/// Peeling the last layer off the remaining text.
proof fn lemma_rest_snoc(r: Seq<LayerConfig>, sep: bool)
    requires
        r.len() >= 1,
    ensures
        r.len() == 1 && !sep ==> rest_text(r, sep) == enc_layer(r.last()),
        r.len() == 1 && sep ==> rest_text(r, sep) == ","@ + enc_layer(r.last()),
        r.len() >= 2 ==> rest_text(r, sep) == rest_text(r.drop_last(), sep) + ","@ + enc_layer(
            r.last(),
        ),
    decreases r.len(),
{
    if r.len() == 1 {
        assert(r.skip(1) =~= Seq::<LayerConfig>::empty());
        assert(rest_text(Seq::<LayerConfig>::empty(), true) == Seq::<char>::empty());
        if !sep {
            assert(enc_layer(r[0]) + Seq::<char>::empty() =~= enc_layer(r[0]));
        } else {
            assert((","@ + enc_layer(r[0])) + Seq::<char>::empty() =~= ","@ + enc_layer(r[0]));
        }
    } else {
        lemma_rest_snoc(r.skip(1), true);
        assert(r.skip(1).drop_last() =~= r.drop_last().skip(1));
        assert(r.skip(1).last() == r.last());
        assert(r.drop_last()[0] == r[0]);
        if r.len() == 2 {
            assert(r.drop_last().skip(1) =~= Seq::<LayerConfig>::empty());
            assert(Seq::<char>::empty() + ","@ =~= ","@);
        }
        assert(rest_text(r.skip(1), true) == rest_text(r.drop_last().skip(1), true) + ","@
            + enc_layer(r.last()));
        if sep {
            vstd::seq_lib::lemma_concat_associative(
                ","@ + enc_layer(r[0]),
                rest_text(r.drop_last().skip(1), true) + ","@,
                enc_layer(r.last()),
            );
            vstd::seq_lib::lemma_concat_associative(
                ","@ + enc_layer(r[0]),
                rest_text(r.drop_last().skip(1), true),
                ","@,
            );
        } else {
            vstd::seq_lib::lemma_concat_associative(
                enc_layer(r[0]),
                rest_text(r.drop_last().skip(1), true) + ","@,
                enc_layer(r.last()),
            );
            vstd::seq_lib::lemma_concat_associative(
                enc_layer(r[0]),
                rest_text(r.drop_last().skip(1), true),
                ","@,
            );
        }
    }
}

/// The whole layer list text is the remaining text seen from the start.
proof fn lemma_enc_layers_rest(ls: Seq<LayerConfig>)
    ensures
        enc_layers(ls) == rest_text(ls, false),
    decreases ls.len(),
{
    if ls.len() == 0 {
    } else if ls.len() == 1 {
        lemma_rest_snoc(ls, false);
    } else {
        lemma_enc_layers_rest(ls.drop_last());
        lemma_rest_snoc(ls, false);
    }
}

/// The layer list text splits at any prefix into the consumed layers and the
/// remaining text.
proof fn lemma_layers_decompose(ls: Seq<LayerConfig>, j: int)
    requires
        0 <= j <= ls.len(),
    ensures
        enc_layers(ls) == enc_layers(ls.take(j)) + rest_text(ls.skip(j), j >= 1),
    decreases ls.len() - j,
{
    if j == ls.len() {
        assert(ls.take(j) =~= ls);
        assert(ls.skip(j) =~= Seq::<LayerConfig>::empty());
        assert(enc_layers(ls) =~= enc_layers(ls) + Seq::<char>::empty());
    } else {
        lemma_layers_decompose(ls, j + 1);
        assert(ls.take(j + 1).drop_last() =~= ls.take(j));
        assert(ls.take(j + 1).last() == ls[j]);
        assert(ls.skip(j)[0] == ls[j]);
        assert(ls.skip(j).skip(1) =~= ls.skip(j + 1));
        if j == 0 {
            assert(enc_layers(ls.take(1)) == enc_layer(ls[0]));
            assert(rest_text(ls.skip(0), false) == enc_layer(ls[0]) + rest_text(ls.skip(1), true));
            assert(ls.skip(0) =~= ls);
            vstd::seq_lib::lemma_concat_associative(
                enc_layer(ls[0]),
                rest_text(ls.skip(1), true),
                Seq::<char>::empty(),
            );
            assert(enc_layers(ls.take(0)) =~= Seq::<char>::empty());
            assert(enc_layers(ls.take(0)) + rest_text(ls, false) =~= rest_text(ls, false));
            vstd::seq_lib::lemma_concat_associative(
                enc_layers(ls.take(1)),
                ","@,
                Seq::<char>::empty(),
            );
            assert(enc_layers(ls.take(1)) + rest_text(ls.skip(1), true) =~= enc_layer(ls[0])
                + rest_text(ls.skip(1), true));
        } else {
            assert(enc_layers(ls.take(j + 1)) == enc_layers(ls.take(j)) + ","@ + enc_layer(ls[j]));
            assert(rest_text(ls.skip(j), true) == ","@ + enc_layer(ls[j]) + rest_text(
                ls.skip(j + 1),
                true,
            ));
            vstd::seq_lib::lemma_concat_associative(
                enc_layers(ls.take(j)),
                ","@ + enc_layer(ls[j]),
                rest_text(ls.skip(j + 1), true),
            );
            vstd::seq_lib::lemma_concat_associative(enc_layers(ls.take(j)), ","@, enc_layer(ls[j]));
            vstd::seq_lib::lemma_concat_associative(
                ","@,
                enc_layer(ls[j]),
                rest_text(ls.skip(j + 1), true),
            );
        }
    }
}

/// Canonical occupancy of a layer list: the list text in place, a closing
/// bracket after it, every layer's signed fields in range.
pub open spec fn layers_at(t: Seq<char>, pos: int, ls: Seq<LayerConfig>) -> bool {
    &&& 0 <= pos
    &&& pos + enc_layers(ls).len() < t.len()
    &&& t.subrange(pos, pos + enc_layers(ls).len() as int) == enc_layers(ls)
    &&& t[pos + enc_layers(ls).len()] == ']'
    &&& forall|i: int| 0 <= i < ls.len() ==> layer_fields_in_range(#[trigger] ls[i])
}

/// Parses the canonical layer list, stopping before the closing bracket;
/// where the text reads a canonical list, the parse succeeds and consumes
/// exactly it.
#[verifier::rlimit(100)]
#[verifier::spinoff_prover]
fn parse_layers(s: &str, pos: usize, expected: Ghost<Seq<LayerConfig>>) -> (r: Option<
    (Vec<LayerConfig>, usize),
>)
    ensures
        r matches Some((ls, p)) ==> pos <= p <= s@.len() && s@.subrange(pos as int, p as int)
            == enc_layers(ls@),
        r matches Some((ls, p)) ==> forall|i: int|
            0 <= i < ls@.len() ==> (#[trigger] ls@[i]).layer_x_value == 0 && ls@[i].layer_y_value
                == 0 && ls@[i].animation_style.ani_wait == 0 && layer_fields_in_range(ls@[i]),
        layers_at(s@, pos as int, expected@) ==> (r matches Some((ls2, p2)) && p2 == pos
            + enc_layers(expected@).len()),
{
    let ghost exp = expected@;
    let ghost end: int = pos + enc_layers(exp).len();
    let slen = text_len(s);
    if pos >= slen {
        return Option::None;
    }
    proof {
        if layers_at(s@, pos as int, exp) {
            lemma_enc_layers_rest(exp);
        }
    }
    let c0 = s.get_char(pos) as u32;
    if c0 == 93 {
        // an immediate closing bracket: no layers
        let out: Vec<LayerConfig> = Vec::new();
        proof {
            assert(s@.subrange(pos as int, pos as int) =~= enc_layers(out@));
            if layers_at(s@, pos as int, exp) && exp.len() > 0 {
                lemma_first_layer_char(s@, pos as int, exp);
                assert((']') as int == 93);
                assert(false);
            }
            if layers_at(s@, pos as int, exp) {
                assert(enc_layers(exp).len() == 0);
            }
        }
        return Option::Some((out, pos));
    }
    proof {
        if layers_at(s@, pos as int, exp) {
            if exp.len() == 0 {
                assert(s@[pos as int] == ']');
                assert((']') as int == 93);
                assert(false);
            }
            lemma_split_concat(s@, pos as int, enc_layer(exp[0]), rest_text(exp.skip(1), true));
            assert(layer_at(s@, pos as int, exp[0]));
        }
    }
    let (l0, first_end) = match parse_layer(
        s,
        pos,
        Ghost(
            if exp.len() > 0 {
                exp[0]
            } else {
                LayerConfig::spec_default()
            },
        ),
    ) {
        Option::Some(t) => t,
        Option::None => {
            return Option::None;
        },
    };
    let mut out: Vec<LayerConfig> = Vec::new();
    out.push(l0);
    let mut cur = first_end;
    proof {
        assert(out@.drop_last() =~= Seq::<LayerConfig>::empty());
        assert(out@.len() == 1 && out@[0] == l0);
        assert(s@.subrange(pos as int, cur as int) == enc_layers(out@));
        if layers_at(s@, pos as int, exp) {
            assert(exp.take(1).drop_last() =~= Seq::<LayerConfig>::empty());
            assert(enc_layers(exp.take(1)) == enc_layer(exp[0]));
            assert(cur == pos + enc_layers(exp.take(1)).len());
        }
    }
    loop
        invariant
            pos <= cur <= s@.len(),
            slen == s@.len(),
            exp == expected@,
            end == pos + enc_layers(exp).len(),
            out@.len() >= 1,
            s@.subrange(pos as int, cur as int) == enc_layers(out@),
            forall|i: int|
                0 <= i < out@.len() ==> (#[trigger] out@[i]).layer_x_value == 0
                    && out@[i].layer_y_value == 0 && out@[i].animation_style.ani_wait == 0
                    && layer_fields_in_range(out@[i]),
            layers_at(s@, pos as int, exp) ==> out@.len() <= exp.len() && cur == pos + enc_layers(
                exp.take(out@.len() as int),
            ).len(),
        ensures
            pos <= cur <= s@.len(),
            s@.subrange(pos as int, cur as int) == enc_layers(out@),
            forall|i: int|
                0 <= i < out@.len() ==> (#[trigger] out@[i]).layer_x_value == 0
                    && out@[i].layer_y_value == 0 && out@[i].animation_style.ani_wait == 0
                    && layer_fields_in_range(out@[i]),
            layers_at(s@, pos as int, exp) ==> cur == pos + enc_layers(exp).len(),
        decreases s@.len() - cur,
    {
        proof {
            if layers_at(s@, pos as int, exp) {
                lemma_layers_decompose(exp, out@.len() as int);
                lemma_split_concat(
                    s@,
                    pos as int,
                    enc_layers(exp.take(out@.len() as int)),
                    rest_text(exp.skip(out@.len() as int), out@.len() >= 1),
                );
            }
        }
        if cur >= slen {
            proof {
                if layers_at(s@, pos as int, exp) {
                    if out@.len() < exp.len() {
                        reveal_strlit(",");
                        assert(rest_text(exp.skip(out@.len() as int), true)[0] == ',');
                        assert(false);
                    }
                    assert(exp.take(exp.len() as int) =~= exp);
                }
            }
            break ;
        }
        let ch = s.get_char(cur) as u32;
        if ch != 44 {
            // not a comma: the list ends here
            proof {
                if layers_at(s@, pos as int, exp) {
                    if out@.len() < exp.len() {
                        reveal_strlit(",");
                        assert(rest_text(exp.skip(out@.len() as int), true)[0] == ',');
                        assert(s@.subrange(cur as int, end)[0] == s@[cur as int]);
                        assert((',') as int == 44);
                        assert(false);
                    }
                    assert(exp.take(exp.len() as int) =~= exp);
                }
            }
            break ;
        }
        let ghost j = out@.len() as int;
        proof {
            if layers_at(s@, pos as int, exp) {
                if j == exp.len() {
                    assert(exp.take(j) =~= exp);
                    assert(s@[end] == ']');
                    assert((']') as int == 93);
                    assert(false);
                }
                reveal_strlit(",");
                assert(rest_text(exp.skip(j), true) == ","@ + enc_layer(exp.skip(j)[0]) + rest_text(
                    exp.skip(j).skip(1),
                    true,
                ));
                assert(exp.skip(j)[0] == exp[j]);
                lemma_split_concat(
                    s@,
                    cur as int,
                    ","@ + enc_layer(exp[j]),
                    rest_text(exp.skip(j).skip(1), true),
                );
                lemma_split_concat(s@, cur as int, ","@, enc_layer(exp[j]));
                assert(layer_at(s@, cur + 1, exp[j]));
            }
        }
        let (l, p2) = match parse_layer(
            s,
            cur + 1,
            Ghost(
                if exp.len() > out@.len() {
                    exp[out@.len() as int]
                } else {
                    LayerConfig::spec_default()
                },
            ),
        ) {
            Option::Some(t) => t,
            Option::None => {
                return Option::None;
            },
        };
        if p2 == cur {
            return Option::None;
        }
        let ghost sofar = out@;
        out.push(l);
        proof {
            reveal_strlit(",");
            lemma_ascii_comma(s@[cur as int], ch);
            assert(s@.subrange(cur as int, cur + 1) =~= ","@);
            lemma_subrange_chain(s@, pos as int, cur as int, cur + 1);
            lemma_subrange_chain(s@, pos as int, cur + 1, p2 as int);
            assert(out@.drop_last() =~= sofar);
            assert(out@.last() == l);
            assert(s@.subrange(pos as int, p2 as int) == enc_layers(out@));
            if layers_at(s@, pos as int, exp) {
                assert(exp.take(j + 1).drop_last() =~= exp.take(j));
                assert(exp.take(j + 1).last() == exp[j]);
                assert(enc_layers(exp.take(j + 1)) == enc_layers(exp.take(j)) + ","@ + enc_layer(
                    exp[j],
                ));
                assert(p2 == pos + enc_layers(exp.take(j + 1)).len());
            }
        }
        cur = p2;
    }
    Option::Some((out, cur))
}

/// A comma character is the character whose code the scan compared.
proof fn lemma_ascii_comma(c: char, ch: u32)
    requires
        c as u32 == ch,
        ch == 44,
    ensures
        c == ',',
{
    assert((',') as int == 44);
}

/// A non-empty canonical layer list opens with a brace.
proof fn lemma_first_layer_char(t: Seq<char>, pos: int, exp: Seq<LayerConfig>)
    requires
        layers_at(t, pos, exp),
        exp.len() > 0,
    ensures
        t[pos] == '{',
{
    lemma_enc_layers_rest(exp);
    lemma_split_concat(t, pos, enc_layer(exp[0]), rest_text(exp.skip(1), true));
    lemma_layer_first_char(exp[0]);
    assert(t.subrange(pos, pos + enc_layer(exp[0]).len() as int)[0] == t[pos]);
}

/// Every canonical layer opens with a brace.
proof fn lemma_layer_first_char(l: LayerConfig)
    ensures
        enc_layer(l).len() >= 1,
        enc_layer(l)[0] == '{',
{
    reveal_strlit("{\"layer_enabled\":");
    assert(enc_layer(l)[0] == "{\"layer_enabled\":"@[0]);
}

/// The pieces of a canonical configuration file, each in place.
#[verifier::rlimit(100)]
#[verifier::spinoff_prover]
proof fn lemma_config_pieces(t: Seq<char>, w: BkgConfig)
    requires
        t == enc_config(w),
        parseable(w),
    ensures
        t.subrange(0, ("{\"version\":"@).len() as int) == "{\"version\":"@,
        num_at(t, ("{\"version\":"@).len() as int, w.version as int),
        t.subrange(
            ("{\"version\":"@ + dec_u32(w.version as int)).len() as int,
            ("{\"version\":"@ + dec_u32(w.version as int) + ",\"bmp_filename\":\""@).len() as int,
        ) == ",\"bmp_filename\":\""@,
        name_at(
            t,
            ("{\"version\":"@ + dec_u32(w.version as int) + ",\"bmp_filename\":\""@).len() as int,
            w.bmp_filename@,
        ),
        t.subrange(
            ("{\"version\":"@ + dec_u32(w.version as int) + ",\"bmp_filename\":\""@
                + w.bmp_filename@).len() as int,
            ("{\"version\":"@ + dec_u32(w.version as int) + ",\"bmp_filename\":\""@
                + w.bmp_filename@ + "\",\"lighting_mode\":"@).len() as int,
        ) == "\",\"lighting_mode\":"@,
        num_at(
            t,
            ("{\"version\":"@ + dec_u32(w.version as int) + ",\"bmp_filename\":\""@
                + w.bmp_filename@ + "\",\"lighting_mode\":"@).len() as int,
            w.lighting_mode as int,
        ),
        t.subrange(
            ("{\"version\":"@ + dec_u32(w.version as int) + ",\"bmp_filename\":\""@
                + w.bmp_filename@ + "\",\"lighting_mode\":"@ + dec_u32(
                w.lighting_mode as int,
            )).len() as int,
            ("{\"version\":"@ + dec_u32(w.version as int) + ",\"bmp_filename\":\""@
                + w.bmp_filename@ + "\",\"lighting_mode\":"@ + dec_u32(w.lighting_mode as int)
                + ",\"layers\":["@).len() as int,
        ) == ",\"layers\":["@,
        layers_at(
            t,
            ("{\"version\":"@ + dec_u32(w.version as int) + ",\"bmp_filename\":\""@
                + w.bmp_filename@ + "\",\"lighting_mode\":"@ + dec_u32(w.lighting_mode as int)
                + ",\"layers\":["@).len() as int,
            w.layers@,
        ),
        t.subrange(
            ("{\"version\":"@ + dec_u32(w.version as int) + ",\"bmp_filename\":\""@
                + w.bmp_filename@ + "\",\"lighting_mode\":"@ + dec_u32(w.lighting_mode as int)
                + ",\"layers\":["@ + enc_layers(w.layers@)).len() as int,
            t.len() as int,
        ) == "]}"@,
        t.len() == ("{\"version\":"@ + dec_u32(w.version as int) + ",\"bmp_filename\":\""@
            + w.bmp_filename@ + "\",\"lighting_mode\":"@ + dec_u32(w.lighting_mode as int)
            + ",\"layers\":["@ + enc_layers(w.layers@) + "]}"@).len() as int,
{
    assert(t.subrange(0, t.len() as int) =~= t);
    lemma_split_concat(
        t,
        0,
        "{\"version\":"@ + dec_u32(w.version as int) + ",\"bmp_filename\":\""@ + w.bmp_filename@
            + "\",\"lighting_mode\":"@ + dec_u32(w.lighting_mode as int) + ",\"layers\":["@
            + enc_layers(w.layers@),
        "]}"@,
    );
    lemma_split_concat(
        t,
        0,
        "{\"version\":"@ + dec_u32(w.version as int) + ",\"bmp_filename\":\""@ + w.bmp_filename@
            + "\",\"lighting_mode\":"@ + dec_u32(w.lighting_mode as int) + ",\"layers\":["@,
        enc_layers(w.layers@),
    );
    lemma_split_concat(
        t,
        0,
        "{\"version\":"@ + dec_u32(w.version as int) + ",\"bmp_filename\":\""@ + w.bmp_filename@
            + "\",\"lighting_mode\":"@ + dec_u32(w.lighting_mode as int),
        ",\"layers\":["@,
    );
    lemma_split_concat(
        t,
        0,
        "{\"version\":"@ + dec_u32(w.version as int) + ",\"bmp_filename\":\""@ + w.bmp_filename@
            + "\",\"lighting_mode\":"@,
        dec_u32(w.lighting_mode as int),
    );
    lemma_split_concat(
        t,
        0,
        "{\"version\":"@ + dec_u32(w.version as int) + ",\"bmp_filename\":\""@ + w.bmp_filename@,
        "\",\"lighting_mode\":"@,
    );
    lemma_split_concat(
        t,
        0,
        "{\"version\":"@ + dec_u32(w.version as int) + ",\"bmp_filename\":\""@,
        w.bmp_filename@,
    );
    lemma_split_concat(t, 0, "{\"version\":"@ + dec_u32(w.version as int), ",\"bmp_filename\":\""@);
    lemma_split_concat(t, 0, "{\"version\":"@, dec_u32(w.version as int));
    reveal_strlit(",\"bmp_filename\":\"");
    assert(t.subrange(
        ("{\"version\":"@ + dec_u32(w.version as int)).len() as int,
        ("{\"version\":"@ + dec_u32(w.version as int) + ",\"bmp_filename\":\""@).len() as int,
    )[0] == t[("{\"version\":"@ + dec_u32(w.version as int)).len() as int]);
    assert(!is_digit(t[("{\"version\":"@ + dec_u32(w.version as int)).len() as int]));
    assert(num_at(t, ("{\"version\":"@).len() as int, w.version as int));
    reveal_strlit("\",\"lighting_mode\":");
    assert(t.subrange(
        ("{\"version\":"@ + dec_u32(w.version as int) + ",\"bmp_filename\":\""@ + w.bmp_filename@).len() as int,
        ("{\"version\":"@ + dec_u32(w.version as int) + ",\"bmp_filename\":\""@ + w.bmp_filename@
            + "\",\"lighting_mode\":"@).len() as int,
    )[0] == t[("{\"version\":"@ + dec_u32(w.version as int) + ",\"bmp_filename\":\""@
        + w.bmp_filename@).len() as int]);
    assert(name_at(
        t,
        ("{\"version\":"@ + dec_u32(w.version as int) + ",\"bmp_filename\":\""@).len() as int,
        w.bmp_filename@,
    ));
    reveal_strlit(",\"layers\":[");
    assert(t.subrange(
        ("{\"version\":"@ + dec_u32(w.version as int) + ",\"bmp_filename\":\""@ + w.bmp_filename@
            + "\",\"lighting_mode\":"@ + dec_u32(w.lighting_mode as int)).len() as int,
        ("{\"version\":"@ + dec_u32(w.version as int) + ",\"bmp_filename\":\""@ + w.bmp_filename@
            + "\",\"lighting_mode\":"@ + dec_u32(w.lighting_mode as int) + ",\"layers\":["@).len() as int,
    )[0] == t[("{\"version\":"@ + dec_u32(w.version as int) + ",\"bmp_filename\":\""@
        + w.bmp_filename@ + "\",\"lighting_mode\":"@ + dec_u32(w.lighting_mode as int)).len() as int]);
    assert(!is_digit(t[("{\"version\":"@ + dec_u32(w.version as int) + ",\"bmp_filename\":\""@
        + w.bmp_filename@ + "\",\"lighting_mode\":"@ + dec_u32(w.lighting_mode as int)).len() as int]));
    assert(num_at(
        t,
        ("{\"version\":"@ + dec_u32(w.version as int) + ",\"bmp_filename\":\""@ + w.bmp_filename@
            + "\",\"lighting_mode\":"@).len() as int,
        w.lighting_mode as int,
    ));
    reveal_strlit("]}");
    assert(t.subrange(
        ("{\"version\":"@ + dec_u32(w.version as int) + ",\"bmp_filename\":\""@ + w.bmp_filename@
            + "\",\"lighting_mode\":"@ + dec_u32(w.lighting_mode as int) + ",\"layers\":["@
            + enc_layers(w.layers@)).len() as int,
        t.len() as int,
    )[0] == t[("{\"version\":"@ + dec_u32(w.version as int) + ",\"bmp_filename\":\""@
        + w.bmp_filename@ + "\",\"lighting_mode\":"@ + dec_u32(w.lighting_mode as int)
        + ",\"layers\":["@ + enc_layers(w.layers@)).len() as int]);
    assert(layers_at(
        t,
        ("{\"version\":"@ + dec_u32(w.version as int) + ",\"bmp_filename\":\""@ + w.bmp_filename@
            + "\",\"lighting_mode\":"@ + dec_u32(w.lighting_mode as int) + ",\"layers\":["@).len() as int,
        w.layers@,
    ));
}

/// Parses a whole canonical configuration file. It succeeds only when the
/// text is exactly the canonical form of the returned configuration, so
/// saving what was loaded reproduces the file; and it succeeds on the
/// canonical form of every configuration the format can carry.
#[verifier::rlimit(100)]
#[verifier::spinoff_prover]
pub fn load_config(s: &str) -> (r: Option<BkgConfig>)
    ensures
        r matches Some(c) ==> s@ == enc_config(c),
        r matches Some(c) ==> forall|i: int|
            0 <= i < c.layers@.len() ==> (#[trigger] c.layers@[i]).layer_x_value == 0
                && c.layers@[i].layer_y_value == 0 && c.layers@[i].animation_style.ani_wait == 0
                && layer_fields_in_range(c.layers@[i]),
        (exists|c: BkgConfig| s@ == enc_config(c) && parseable(c)) ==> r is Some,
{
    let ghost hyp = exists|c: BkgConfig| s@ == enc_config(c) && parseable(c);
    let ghost w: BkgConfig = choose|c: BkgConfig| s@ == enc_config(c) && parseable(c);
    proof {
        if hyp {
            assert(s@ == enc_config(w) && parseable(w));
            lemma_config_pieces(s@, w);
        }
    }
    let (version, p1) = match lit_u32(s, 0, "{\"version\":", Ghost(w.version)) {
        Option::Some(t) => t,
        Option::None => {
            return Option::None;
        },
    };
    proof {
        if hyp {
            assert(p1 == ("{\"version\":"@ + dec_u32(w.version as int)).len());
        }
    }
    let p2 = match expect_lit(s, p1, ",\"bmp_filename\":\"") {
        Option::Some(t) => t,
        Option::None => {
            return Option::None;
        },
    };
    proof {
        if hyp {
            assert(p2 == ("{\"version\":"@ + dec_u32(w.version as int) + ",\"bmp_filename\":\""@).len());
        }
    }
    let (bmp_filename, p3) = match parse_name(s, p2, Ghost(w.bmp_filename@)) {
        Option::Some(t) => t,
        Option::None => {
            return Option::None;
        },
    };
    proof {
        if hyp {
            assert(p3 == ("{\"version\":"@ + dec_u32(w.version as int) + ",\"bmp_filename\":\""@ + w.bmp_filename@).len());
        }
    }
    let (lighting, p4) = match lit_u32(s, p3, "\",\"lighting_mode\":", Ghost(w.lighting_mode as u32)) {
        Option::Some(t) => t,
        Option::None => {
            return Option::None;
        },
    };
    proof {
        if hyp {
            assert(p4 == ("{\"version\":"@ + dec_u32(w.version as int) + ",\"bmp_filename\":\""@ + w.bmp_filename@ + "\",\"lighting_mode\":"@ + dec_u32(w.lighting_mode as int)).len());
        }
    }
    if lighting > 255 {
        proof {
            if hyp {
                assert(false);
            }
        }
        return Option::None;
    }
    let p5 = match expect_lit(s, p4, ",\"layers\":[") {
        Option::Some(t) => t,
        Option::None => {
            return Option::None;
        },
    };
    proof {
        if hyp {
            assert(p5 == ("{\"version\":"@ + dec_u32(w.version as int) + ",\"bmp_filename\":\""@ + w.bmp_filename@ + "\",\"lighting_mode\":"@ + dec_u32(w.lighting_mode as int) + ",\"layers\":["@).len());
        }
    }
    let (layers, p6) = match parse_layers(s, p5, Ghost(w.layers@)) {
        Option::Some(t) => t,
        Option::None => {
            return Option::None;
        },
    };
    proof {
        if hyp {
            assert(p6 == ("{\"version\":"@ + dec_u32(w.version as int) + ",\"bmp_filename\":\""@ + w.bmp_filename@ + "\",\"lighting_mode\":"@ + dec_u32(w.lighting_mode as int) + ",\"layers\":["@ + enc_layers(w.layers@)).len());
        }
    }
    let p7 = match expect_lit(s, p6, "]}") {
        Option::Some(t) => t,
        Option::None => {
            return Option::None;
        },
    };
    if p7 != text_len(s) {
        proof {
            if hyp {
                assert(false);
            }
        }
        return Option::None;
    }
    let c = BkgConfig { version, bmp_filename, lighting_mode: lighting as u8, layers };
    proof {
        lemma_subrange_chain(s@, 0, p1 as int, p2 as int);
        lemma_subrange_chain(s@, 0, p2 as int, p3 as int);
        lemma_subrange_chain(s@, 0, p3 as int, p4 as int);
        vstd::seq_lib::lemma_concat_associative(
            s@.subrange(0, p3 as int),
            "\",\"lighting_mode\":"@,
            dec_u32(lighting as int),
        );
        lemma_subrange_chain(s@, 0, p4 as int, p5 as int);
        lemma_subrange_chain(s@, 0, p5 as int, p6 as int);
        lemma_subrange_chain(s@, 0, p6 as int, p7 as int);
        assert(s@.subrange(0, p7 as int) == enc_config(c));
        assert(s@ =~= s@.subrange(0, p7 as int));
    }
    Option::Some(c)
}

/// Saving what was loaded reproduces the canonical file text: this follows
/// from `load_config` succeeding only on the canonical form of its result
/// and `save_config` producing exactly that form.
pub proof fn lemma_load_save_round_trip(file: Seq<char>, c: BkgConfig, saved: Seq<char>)
    requires
        file == enc_config(c),
        saved == enc_config(c),
    ensures
        saved == file,
{
}

} // verus!
