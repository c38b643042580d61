//! The multi-layer animated background compositor: per-stage configuration,
//! tick state, and the draw pass that turns layers into sprite batch
//! commands.

use vstd::prelude::*;
use vstd::pervasive::VecAdditionalExecFns;

use crate::batch::{grid_cmds, strip_cmds, SpriteBatch, SpriteBatchCommand};
use crate::rect::Rect;
use crate::rng::{rng_range_value, rng_step, rng_init, JitterRng};

verus! {

/// Largest magnitude accepted for a configuration field.
pub const CFG_LIMIT: u32 = 0x8000;

/// Band within which transient scroll values are kept; far wider than any
/// canvas, so the clamp only engages on degenerate configurations.
pub const STATE_LIMIT: i64 = 0x100_0000_0000;

/// Which compositing pattern a stage uses for its background.
#[derive(Clone, Copy, PartialEq, Eq, Structural, Debug)]
pub enum BackgroundType {
    TiledStatic,
    Tiled,
    TiledParallax,
    Waterway,
    Water,
    Black,
    Scrolling,
    Outside,
    OutsideWind,
    OutsideUnknown,
    Custom,
}

/// Per-layer scroll behaviour switches.
#[derive(Clone, Copy, PartialEq, Eq, Structural, Debug)]
pub struct ScrollFlags {
    pub follow_pc_x: bool,
    pub follow_pc_y: bool,
    pub autoscroll_x: bool,
    pub autoscroll_y: bool,
    pub align_with_water_lvl: bool,
    pub draw_above_foreground: bool,
    pub random_scroll_speed_x: bool,
    pub random_scroll_speed_y: bool,
    pub lock_to_x_axis: bool,
    pub lock_to_y_axis: bool,
    pub randomize_all_parameters: bool,
}

/// A layer's animation and scroll parameters. `ani_wait` is transient
/// frame-advance countdown state, never persisted.
#[derive(Clone, Copy, PartialEq, Eq, Structural, Debug)]
pub struct AnimationStyle {
    pub frame_count: u32,
    pub frame_start: u32,
    pub animation_speed: u32,
    pub scroll_speed_x: i32,
    pub scroll_speed_y: i32,
    pub scroll_flags: ScrollFlags,
    pub ani_wait: u32,
}

/// One background layer: its bitmap sub-rectangle, repeat grid, anchor and
/// animation style. `layer_x_value` and `layer_y_value` are transient scroll
/// offsets, never persisted and zeroed on load.
#[derive(Clone, Copy, PartialEq, Eq, Structural, Debug)]
pub struct LayerConfig {
    pub layer_enabled: bool,
    pub bmp_x_offset: u32,
    pub bmp_y_offset: u32,
    pub bmp_width: u32,
    pub bmp_height: u32,
    pub draw_repeat_x: u32,
    pub draw_repeat_y: u32,
    pub draw_repeat_gap_x: u32,
    pub draw_repeat_gap_y: u32,
    pub draw_corner_offset_x: i32,
    pub draw_corner_offset_y: i32,
    pub animation_style: AnimationStyle,
    pub layer_x_value: i64,
    pub layer_y_value: i64,
}

/// A versioned, persistable description of one background.
#[derive(Clone, PartialEq, Debug)]
pub struct BkgConfig {
    pub version: u32,
    pub bmp_filename: String,
    pub lighting_mode: u8,
    pub layers: Vec<LayerConfig>,
}

/// Schema version written into background configuration files.
pub fn current_version() -> (v: u32)
    ensures
        v == 1,
{
    1
}

/// `max(1, v)`: the divisor-safe frame count of a layer.
pub open spec fn max1(v: int) -> int {
    if v < 1 {
        1
    } else {
        v
    }
}

/// The magnitude of `v`.
pub open spec fn abs1(v: int) -> int {
    if v < 0 {
        -v
    } else {
        v
    }
}

/// Clamps a transient scroll value into the engine's working band.
pub open spec fn clamp_state(v: int) -> int {
    if v > STATE_LIMIT {
        STATE_LIMIT as int
    } else if v < -STATE_LIMIT {
        -STATE_LIMIT as int
    } else {
        v
    }
}

impl AnimationStyle {
    /// Animation parameters within field bounds, with the frame index inside
    /// the frame count and the wait counter inside the frame period.
    pub open spec fn wf(self) -> bool {
        &&& self.frame_count <= CFG_LIMIT
        &&& self.frame_start < max1(self.frame_count as int)
        &&& self.animation_speed <= CFG_LIMIT
        &&& self.ani_wait <= self.animation_speed
        &&& -(CFG_LIMIT as int) <= self.scroll_speed_x <= CFG_LIMIT
        &&& -(CFG_LIMIT as int) <= self.scroll_speed_y <= CFG_LIMIT
        &&& self.scroll_flags.random_scroll_speed_y ==> self.animation_speed >= 1
    }
}

impl LayerConfig {
    /// A configuration the engine can tick and draw: fields within bounds,
    /// the animation style well-formed, the atlas frames inside a 16-bit
    /// texture, and the transient scroll values inside the working band.
    pub open spec fn wf(self) -> bool {
        &&& self.bmp_x_offset <= CFG_LIMIT
        &&& self.bmp_y_offset <= CFG_LIMIT
        &&& self.bmp_width <= CFG_LIMIT
        &&& self.bmp_height <= CFG_LIMIT
        &&& self.draw_repeat_x <= CFG_LIMIT
        &&& self.draw_repeat_y <= CFG_LIMIT
        &&& self.draw_repeat_gap_x <= CFG_LIMIT
        &&& self.draw_repeat_gap_y <= CFG_LIMIT
        &&& -(CFG_LIMIT as int) <= self.draw_corner_offset_x <= CFG_LIMIT
        &&& -(CFG_LIMIT as int) <= self.draw_corner_offset_y <= CFG_LIMIT
        &&& self.animation_style.wf()
        &&& self.bmp_x_offset + self.bmp_width * max1(self.animation_style.frame_count as int)
            <= 0x10000
        &&& self.bmp_y_offset + self.bmp_height * max1(self.animation_style.frame_count as int)
            <= 0x10000
        &&& -STATE_LIMIT <= self.layer_x_value <= STATE_LIMIT
        &&& -STATE_LIMIT <= self.layer_y_value <= STATE_LIMIT
    }

    /// The default layer: enabled, everything else zero.
    pub fn new() -> (l: LayerConfig)
        ensures
            l == LayerConfig::spec_default(),
            l.wf(),
    {
        LayerConfig {
            layer_enabled: true,
            bmp_x_offset: 0,
            bmp_y_offset: 0,
            bmp_width: 0,
            bmp_height: 0,
            draw_repeat_x: 0,
            draw_repeat_y: 0,
            draw_repeat_gap_x: 0,
            draw_repeat_gap_y: 0,
            draw_corner_offset_x: 0,
            draw_corner_offset_y: 0,
            animation_style: AnimationStyle {
                ani_wait: 0,
                frame_count: 0,
                frame_start: 0,
                animation_speed: 0,
                scroll_speed_x: 0,
                scroll_speed_y: 0,
                scroll_flags: ScrollFlags {
                    follow_pc_x: false,
                    follow_pc_y: false,
                    autoscroll_x: false,
                    autoscroll_y: false,
                    align_with_water_lvl: false,
                    draw_above_foreground: false,
                    random_scroll_speed_x: false,
                    random_scroll_speed_y: false,
                    lock_to_x_axis: false,
                    lock_to_y_axis: false,
                    randomize_all_parameters: false,
                },
            },
            layer_x_value: 0,
            layer_y_value: 0,
        }
    }

    pub open spec fn spec_default() -> LayerConfig {
        LayerConfig {
            layer_enabled: true,
            bmp_x_offset: 0,
            bmp_y_offset: 0,
            bmp_width: 0,
            bmp_height: 0,
            draw_repeat_x: 0,
            draw_repeat_y: 0,
            draw_repeat_gap_x: 0,
            draw_repeat_gap_y: 0,
            draw_corner_offset_x: 0,
            draw_corner_offset_y: 0,
            animation_style: AnimationStyle {
                ani_wait: 0,
                frame_count: 0,
                frame_start: 0,
                animation_speed: 0,
                scroll_speed_x: 0,
                scroll_speed_y: 0,
                scroll_flags: ScrollFlags {
                    follow_pc_x: false,
                    follow_pc_y: false,
                    autoscroll_x: false,
                    autoscroll_y: false,
                    align_with_water_lvl: false,
                    draw_above_foreground: false,
                    random_scroll_speed_x: false,
                    random_scroll_speed_y: false,
                    lock_to_x_axis: false,
                    lock_to_y_axis: false,
                    randomize_all_parameters: false,
                },
            },
            layer_x_value: 0,
            layer_y_value: 0,
        }
    }
}

/// `c` with the current schema version stamped on.
pub open spec fn upgraded(c: BkgConfig) -> BkgConfig {
    BkgConfig { version: 1u32, ..c }
}

impl BkgConfig {
    /// Every layer is well-formed.
    pub open spec fn wf(self) -> bool {
        forall|i: int| 0 <= i < self.layers@.len() ==> (#[trigger] self.layers@[i]).wf()
    }

    /// Runtime check of `wf`, for callers holding an untrusted configuration.
    pub fn check_wf(&self) -> (r: bool)
        ensures
            r == self.wf(),
    {
        let n = self.layers.len();
        let mut i: usize = 0;
        while i < n
            invariant
                i <= n,
                n == self.layers@.len(),
                forall|k: int| 0 <= k < i ==> (#[trigger] self.layers@[k]).wf(),
            decreases n - i,
        {
            if !layer_wf_exec(&self.layers[i]) {
                return false;
            }
            i += 1;
        }
        true
    }

    /// Applies version-indexed fixups; at the current schema this only stamps
    /// the current version.
    pub fn upgrade(self) -> (r: BkgConfig)
        ensures
            r == upgraded(self),
    {
        let mut c = self;
        c.version = current_version();
        c
    }
}

/// Stamping the current version is stable: upgrading an already upgraded
/// configuration changes nothing.
pub proof fn lemma_upgrade_stable(c: BkgConfig)
    ensures
        upgraded(upgraded(c)) == upgraded(c),
{
}

/// Runtime check of `LayerConfig::wf`.
fn layer_wf_exec(l: &LayerConfig) -> (r: bool)
    ensures
        r == l.wf(),
{
    let a = &l.animation_style;
    let fc1: u32 = if a.frame_count < 1 {
        1
    } else {
        a.frame_count
    };
    let anim_ok = a.frame_count <= CFG_LIMIT && a.frame_start < fc1 && a.animation_speed
        <= CFG_LIMIT && a.ani_wait <= a.animation_speed && -(CFG_LIMIT as i32) <= a.scroll_speed_x
        && a.scroll_speed_x <= CFG_LIMIT as i32 && -(CFG_LIMIT as i32) <= a.scroll_speed_y
        && a.scroll_speed_y <= CFG_LIMIT as i32 && (!a.scroll_flags.random_scroll_speed_y
        || a.animation_speed >= 1);
    let fields_ok = l.bmp_x_offset <= CFG_LIMIT && l.bmp_y_offset <= CFG_LIMIT && l.bmp_width
        <= CFG_LIMIT && l.bmp_height <= CFG_LIMIT && l.draw_repeat_x <= CFG_LIMIT
        && l.draw_repeat_y <= CFG_LIMIT && l.draw_repeat_gap_x <= CFG_LIMIT && l.draw_repeat_gap_y
        <= CFG_LIMIT && -(CFG_LIMIT as i32) <= l.draw_corner_offset_x && l.draw_corner_offset_x
        <= CFG_LIMIT as i32 && -(CFG_LIMIT as i32) <= l.draw_corner_offset_y
        && l.draw_corner_offset_y <= CFG_LIMIT as i32;
    if !(anim_ok && fields_ok) {
        return false;
    }
    assert((l.bmp_width as int) * (fc1 as int) <= 0x8000 * 0x8001 && (l.bmp_height as int) * (
    fc1 as int) <= 0x8000 * 0x8001) by (nonlinear_arith)
        requires
            l.bmp_width <= 0x8000,
            l.bmp_height <= 0x8000,
            fc1 <= 0x8001,
    ;
    let atlas_ok = (l.bmp_x_offset as u64) + (l.bmp_width as u64) * (fc1 as u64) <= 0x10000 && (
    l.bmp_y_offset as u64) + (l.bmp_height as u64) * (fc1 as u64) <= 0x10000;
    let state_ok = -STATE_LIMIT <= l.layer_x_value && l.layer_x_value <= STATE_LIMIT && -STATE_LIMIT
        <= l.layer_y_value && l.layer_y_value <= STATE_LIMIT;
    atlas_ok && state_ok
}

/// One tick of a layer's animation: when more than one frame exists, the
/// wait counter runs up to the animation speed, then the frame index steps
/// cyclically.
pub open spec fn anim_step(a: AnimationStyle) -> AnimationStyle {
    if a.frame_count > 1 {
        if a.ani_wait + 1 >= a.animation_speed {
            AnimationStyle {
                frame_start: if a.frame_start < a.frame_count - 1 {
                    (a.frame_start + 1) as u32
                } else {
                    0u32
                },
                ani_wait: 0u32,
                ..a
            }
        } else {
            AnimationStyle { ani_wait: (a.ani_wait + 1) as u32, ..a }
        }
    } else {
        a
    }
}

/// One tick of a layer's horizontal auto-scroll and wrap, with the vertical
/// jitter the wrap rules couple onto the other axis. Returns the new
/// horizontal value, the (possibly jittered) vertical value and the
/// generator state.
pub open spec fn scroll_step_x(l: LayerConfig, a: AnimationStyle, w: int, x0: int, y0: int, r0: u32) -> (
    int,
    int,
    u32,
) {
    if !a.scroll_flags.autoscroll_x {
        (x0, y0, r0)
    } else {
        let bx = l.bmp_width + l.draw_repeat_gap_x;
        let ex = bx * l.draw_repeat_x;
        let cx = l.draw_corner_offset_x as int;
        let sp = a.animation_speed as int;
        let x1 = clamp_state(x0 - a.scroll_speed_x);
        let wrapped_low = x1 + cx + ex < 0;
        let x2 = if wrapped_low {
            clamp_state(x1 + bx + w)
        } else {
            x1
        };
        let y1 = if wrapped_low && a.scroll_flags.random_scroll_speed_y {
            clamp_state(y0 + rng_range_value(r0, -sp, sp))
        } else {
            y0
        };
        let r1 = if wrapped_low && a.scroll_flags.random_scroll_speed_y {
            rng_step(r0)
        } else {
            r0
        };
        let wrapped_high = x2 + cx > 0;
        let x3 = if wrapped_high {
            clamp_state(x2 - w)
        } else {
            x2
        };
        let y2 = if wrapped_high && a.scroll_flags.random_scroll_speed_y {
            clamp_state(y1 + rng_range_value(r1, -sp, sp))
        } else {
            y1
        };
        let r2 = if wrapped_high && a.scroll_flags.random_scroll_speed_y {
            rng_step(r1)
        } else {
            r1
        };
        (x3, y2, r2)
    }
}

/// One tick of a layer's vertical auto-scroll and wrap; the jitter couples
/// onto the same axis here.
pub open spec fn scroll_step_y(l: LayerConfig, a: AnimationStyle, h: int, y0: int, r0: u32) -> (
    int,
    u32,
) {
    if !a.scroll_flags.autoscroll_y {
        (y0, r0)
    } else {
        let by = l.bmp_height + l.draw_repeat_gap_y;
        let ey = by * l.draw_repeat_y;
        let cy = l.draw_corner_offset_y as int;
        let sp = a.animation_speed as int;
        let y1 = clamp_state(y0 - a.scroll_speed_y);
        let wrapped_low = y1 + cy + ey < 0;
        let y2 = if wrapped_low {
            clamp_state(y1 + by + h)
        } else {
            y1
        };
        let y3 = if wrapped_low && a.scroll_flags.random_scroll_speed_y {
            clamp_state(y2 + rng_range_value(r0, -sp, sp))
        } else {
            y2
        };
        let r1 = if wrapped_low && a.scroll_flags.random_scroll_speed_y {
            rng_step(r0)
        } else {
            r0
        };
        let wrapped_high = y3 + cy > 0;
        let y4 = if wrapped_high {
            clamp_state(y3 - h)
        } else {
            y3
        };
        let y5 = if wrapped_high && a.scroll_flags.random_scroll_speed_y {
            clamp_state(y4 + rng_range_value(r1, -sp, sp))
        } else {
            y4
        };
        let r2 = if wrapped_high && a.scroll_flags.random_scroll_speed_y {
            rng_step(r1)
        } else {
            r1
        };
        (y5, r2)
    }
}

/// One tick of one layer: animation advance, then horizontal and vertical
/// scroll. Disabled layers are untouched and draw nothing from the
/// generator.
pub open spec fn layer_tick(l: LayerConfig, w: int, h: int, r0: u32) -> (LayerConfig, u32) {
    if !l.layer_enabled {
        (l, r0)
    } else {
        let a = anim_step(l.animation_style);
        let sx = scroll_step_x(l, a, w, l.layer_x_value as int, l.layer_y_value as int, r0);
        let sy = scroll_step_y(l, a, h, sx.1, sx.2);
        (
            LayerConfig {
                animation_style: a,
                layer_x_value: sx.0 as i64,
                layer_y_value: sy.0 as i64,
                ..l
            },
            sy.1,
        )
    }
}

/// The generator state after the first `i` layers of a tick have been
/// processed.
pub open spec fn rng_after(ls: Seq<LayerConfig>, w: int, h: int, r0: u32, i: int) -> u32
    decreases i,
{
    if i <= 0 {
        r0
    } else {
        layer_tick(ls[i - 1], w, h, rng_after(ls, w, h, r0, i - 1)).1
    }
}

/// Layer `i` after one tick, with the generator state it sees.
pub open spec fn layer_after(ls: Seq<LayerConfig>, w: int, h: int, r0: u32, i: int) -> LayerConfig {
    layer_tick(ls[i], w, h, rng_after(ls, w, h, r0, i)).0
}

/// Clamps a transient scroll value into the engine's working band.
fn clamp_state_exec(v: i64) -> (r: i64)
    ensures
        r == clamp_state(v as int),
        -STATE_LIMIT <= r <= STATE_LIMIT,
{
    if v > STATE_LIMIT {
        STATE_LIMIT
    } else if v < -STATE_LIMIT {
        -STATE_LIMIT
    } else {
        v
    }
}

/// Advances a layer's animation frame by one tick.
fn anim_step_exec(a0: &AnimationStyle) -> (a: AnimationStyle)
    requires
        a0.wf(),
    ensures
        a == anim_step(*a0),
        a.wf(),
{
    let mut a = *a0;
    if a.frame_count > 1 {
        let w1 = a.ani_wait + 1;
        if w1 >= a.animation_speed {
            a.frame_start = if a.frame_start < a.frame_count - 1 {
                a.frame_start + 1
            } else {
                0
            };
            a.ani_wait = 0;
        } else {
            a.ani_wait = w1;
        }
    }
    a
}

/// Advances a layer's horizontal scroll by one tick.
#[verifier::rlimit(60)]
fn scroll_x_exec(l: &LayerConfig, a: &AnimationStyle, w: u16, x0: i64, y0: i64, rng: &mut JitterRng) -> (r: (
    i64,
    i64,
))
    requires
        l.wf(),
        a.wf(),
        w <= 0x8000,
        -STATE_LIMIT <= x0 <= STATE_LIMIT,
        -STATE_LIMIT <= y0 <= STATE_LIMIT,
    ensures
        r.0 == scroll_step_x(*l, *a, w as int, x0 as int, y0 as int, old(rng).state).0,
        r.1 == scroll_step_x(*l, *a, w as int, x0 as int, y0 as int, old(rng).state).1,
        final(rng).state == scroll_step_x(*l, *a, w as int, x0 as int, y0 as int, old(rng).state).2,
        -STATE_LIMIT <= r.0 <= STATE_LIMIT,
        -STATE_LIMIT <= r.1 <= STATE_LIMIT,
{
    if !a.scroll_flags.autoscroll_x {
        return (x0, y0);
    }
    let mut x = x0;
    let mut y = y0;
    let bx = (l.bmp_width + l.draw_repeat_gap_x) as i64;
    assert(0 <= bx * (l.draw_repeat_x as i64) <= 0x10000 * 0x8000) by (nonlinear_arith)
        requires
            0 <= bx <= 0x10000,
            0 <= l.draw_repeat_x <= 0x8000,
    ;
    let ex = bx * (l.draw_repeat_x as i64);
    let cx = l.draw_corner_offset_x as i64;
    x = clamp_state_exec(x - (a.scroll_speed_x as i64));
    if x + cx + ex < 0 {
        x = clamp_state_exec(x + bx + (w as i64));
        if a.scroll_flags.random_scroll_speed_y {
            let sp = a.animation_speed as i32;
            let j = rng.range(-sp, sp);
            y = clamp_state_exec(y + (j as i64));
        }
    }
    if x + cx > 0 {
        x = clamp_state_exec(x - (w as i64));
        if a.scroll_flags.random_scroll_speed_y {
            let sp = a.animation_speed as i32;
            let j = rng.range(-sp, sp);
            y = clamp_state_exec(y + (j as i64));
        }
    }
    (x, y)
}

/// Advances a layer's vertical scroll by one tick.
#[verifier::rlimit(60)]
fn scroll_y_exec(l: &LayerConfig, a: &AnimationStyle, h: u16, y0: i64, rng: &mut JitterRng) -> (r:
    i64)
    requires
        l.wf(),
        a.wf(),
        h <= 0x8000,
        -STATE_LIMIT <= y0 <= STATE_LIMIT,
    ensures
        r == scroll_step_y(*l, *a, h as int, y0 as int, old(rng).state).0,
        final(rng).state == scroll_step_y(*l, *a, h as int, y0 as int, old(rng).state).1,
        -STATE_LIMIT <= r <= STATE_LIMIT,
{
    if !a.scroll_flags.autoscroll_y {
        return y0;
    }
    let mut y = y0;
    let by = (l.bmp_height + l.draw_repeat_gap_y) as i64;
    assert(0 <= by * (l.draw_repeat_y as i64) <= 0x10000 * 0x8000) by (nonlinear_arith)
        requires
            0 <= by <= 0x10000,
            0 <= l.draw_repeat_y <= 0x8000,
    ;
    let ey = by * (l.draw_repeat_y as i64);
    let cy = l.draw_corner_offset_y as i64;
    y = clamp_state_exec(y - (a.scroll_speed_y as i64));
    if y + cy + ey < 0 {
        y = clamp_state_exec(y + by + (h as i64));
        if a.scroll_flags.random_scroll_speed_y {
            let sp = a.animation_speed as i32;
            let j = rng.range(-sp, sp);
            y = clamp_state_exec(y + (j as i64));
        }
    }
    if y + cy > 0 {
        y = clamp_state_exec(y - (h as i64));
        if a.scroll_flags.random_scroll_speed_y {
            let sp = a.animation_speed as i32;
            let j = rng.range(-sp, sp);
            y = clamp_state_exec(y + (j as i64));
        }
    }
    y
}

/// Ticks one layer, drawing jitter from `rng` exactly as the wrap rules
/// demand.
#[verifier::rlimit(60)]
fn layer_tick_exec(l: &LayerConfig, w: u16, h: u16, rng: &mut JitterRng) -> (r: LayerConfig)
    requires
        l.wf(),
        w <= 0x8000,
        h <= 0x8000,
    ensures
        r == layer_tick(*l, w as int, h as int, old(rng).state).0,
        final(rng).state == layer_tick(*l, w as int, h as int, old(rng).state).1,
        r.wf(),
{
    if !l.layer_enabled {
        return *l;
    }
    let a = anim_step_exec(&l.animation_style);
    let xy = scroll_x_exec(l, &a, w, l.layer_x_value, l.layer_y_value, rng);
    let y = scroll_y_exec(l, &a, h, xy.1, rng);
    let out = LayerConfig { animation_style: a, layer_x_value: xy.0, layer_y_value: y, ..*l };
    assert(out == layer_tick(*l, w as int, h as int, old(rng).state).0);
    out
}

/// The background compositor's owned state: tick counters, the active
/// configuration and the jitter generator.
pub struct Background {
    pub tick: usize,
    pub prev_tick: usize,
    pub bk_config: BkgConfig,
    pub rng: JitterRng,
}

impl Default for BkgConfig {
    /// The fallback configuration: current version, empty bitmap name, plain
    /// lighting, one default layer.
    fn default() -> (c: BkgConfig)
        ensures
            c.version == 1,
            c.bmp_filename@ =~= Seq::<char>::empty(),
            c.lighting_mode == 0,
            c.layers@ =~= seq![LayerConfig::spec_default()],
            c.wf(),
    {
        let mut layers: Vec<LayerConfig> = Vec::new();
        layers.push(LayerConfig::new());
        BkgConfig { version: current_version(), bmp_filename: String::new(), lighting_mode: 0, layers }
    }
}

impl Background {
    /// All layers of the active configuration are well-formed.
    pub open spec fn wf(self) -> bool {
        self.bk_config.wf()
    }

    /// A fresh compositor: tick zero, the default configuration, the jitter
    /// generator seeded with zero.
    pub fn new() -> (b: Background)
        ensures
            b.tick == 0,
            b.prev_tick == 0,
            b.bk_config.version == 1,
            b.bk_config.bmp_filename@ =~= Seq::<char>::empty(),
            b.bk_config.lighting_mode == 0,
            b.bk_config.layers@ =~= seq![LayerConfig::spec_default()],
            b.rng.state == rng_init(0),
            b.wf(),
    {
        Background {
            tick: 0,
            prev_tick: 0,
            bk_config: BkgConfig::default(),
            rng: JitterRng::new(0),
        }
    }

    /// Installs a loaded configuration: upgrades it, stores it, and hands
    /// back the bitmap name and lighting hint for the caller to apply to its
    /// stage. The stage's background kind becomes `Custom`.
    pub fn load_bkg_custom(&mut self, config: BkgConfig) -> (out: (String, u8))
        requires
            config.wf(),
        ensures
            final(self).bk_config == upgraded(config),
            final(self).tick == old(self).tick,
            final(self).prev_tick == old(self).prev_tick,
            final(self).rng == old(self).rng,
            final(self).wf(),
            out.0 == config.bmp_filename,
            out.1 == config.lighting_mode,
    {
        let name = config.bmp_filename.clone();
        let lighting = config.lighting_mode;
        self.bk_config = config.upgrade();
        (name, lighting)
    }

    /// Advances the compositor by one logical tick: the tick counter wraps,
    /// and each enabled layer advances its animation frame and its scroll
    /// offsets, with wrap and jitter exactly as `layer_tick` states.
    pub fn tick(&mut self, canvas_w: u16, canvas_h: u16)
        requires
            old(self).wf(),
            canvas_w <= 0x8000,
            canvas_h <= 0x8000,
        ensures
            final(self).wf(),
            final(self).tick == (if old(self).tick == usize::MAX {
                0usize
            } else {
                (old(self).tick + 1) as usize
            }),
            final(self).prev_tick == old(self).prev_tick,
            final(self).bk_config.version == old(self).bk_config.version,
            final(self).bk_config.bmp_filename == old(self).bk_config.bmp_filename,
            final(self).bk_config.lighting_mode == old(self).bk_config.lighting_mode,
            final(self).bk_config.layers@.len() == old(self).bk_config.layers@.len(),
            forall|i: int|
                0 <= i < old(self).bk_config.layers@.len() ==> final(self).bk_config.layers@[i]
                    == layer_after(
                    old(self).bk_config.layers@,
                    canvas_w as int,
                    canvas_h as int,
                    old(self).rng.state,
                    i,
                ),
            final(self).rng.state == rng_after(
                old(self).bk_config.layers@,
                canvas_w as int,
                canvas_h as int,
                old(self).rng.state,
                old(self).bk_config.layers@.len() as int,
            ),
    {
        self.tick = if self.tick == usize::MAX {
            0
        } else {
            self.tick + 1
        };

        let ghost ls0 = self.bk_config.layers@;
        let ghost r0 = self.rng.state;
        let ghost v0 = self.bk_config.version;
        let ghost name0 = self.bk_config.bmp_filename;
        let ghost light0 = self.bk_config.lighting_mode;
        let ghost t1 = self.tick;
        let ghost p0 = self.prev_tick;
        let n = self.bk_config.layers.len();
        let mut i: usize = 0;
        while i < n
            invariant
                i <= n,
                n == ls0.len(),
                self.bk_config.layers@.len() == ls0.len(),
                self.bk_config.version == v0,
                self.bk_config.bmp_filename == name0,
                self.bk_config.lighting_mode == light0,
                self.tick == t1,
                self.prev_tick == p0,
                canvas_w <= 0x8000,
                canvas_h <= 0x8000,
                forall|k: int| 0 <= k < n ==> (#[trigger] ls0[k]).wf(),
                forall|k: int| i <= k < n ==> self.bk_config.layers@[k] == ls0[k],
                forall|k: int|
                    0 <= k < i ==> self.bk_config.layers@[k] == layer_after(
                        ls0,
                        canvas_w as int,
                        canvas_h as int,
                        r0,
                        k,
                    ),
                forall|k: int| 0 <= k < i ==> (#[trigger] self.bk_config.layers@[k]).wf(),
                self.rng.state == rng_after(ls0, canvas_w as int, canvas_h as int, r0, i as int),
            decreases n - i,
        {
            let l = self.bk_config.layers[i];
            proof {
                assert(self.bk_config.layers@[i as int] == ls0[i as int]);
                assert(ls0[i as int].wf());
            }
            let nl = layer_tick_exec(&l, canvas_w, canvas_h, &mut self.rng);
            self.bk_config.layers.set(i, nl);
            i += 1;
        }
    }

    /// Emits one draw pass into `batch` and reports the clear colour the
    /// caller must fill the target with first, or `None` when the pass draws
    /// nothing (the above-foreground pass of a non-custom background). The
    /// camera position is `(frame_x, frame_y)` in pixels, `frame_ticks` is
    /// the sub-tick time in 1/256ths, and `water_level` aligns water-locked
    /// layers.
    pub fn draw(
        &self,
        batch: &mut SpriteBatch,
        stage_type: BackgroundType,
        bg_color: (u8, u8, u8, u8),
        canvas_w: u16,
        canvas_h: u16,
        frame_x: u32,
        frame_y: u32,
        frame_ticks: u16,
        scale: u16,
        water_level: i32,
        is_front: bool,
    ) -> (cleared: Option<(u8, u8, u8, u8)>)
        requires
            self.wf(),
            1 <= canvas_w <= 0x8000,
            1 <= canvas_h <= 0x8000,
            1 <= old(batch).width <= 0x8000,
            1 <= old(batch).height <= 0x8000,
            stage_type == BackgroundType::Scrolling ==> old(batch).width >= 3,
            frame_x <= 0x100000,
            frame_y <= 0x100000,
            frame_ticks < 256,
            1 <= scale <= 0x100,
            -0x10000 <= water_level <= 0x10000,
            stage_type == BackgroundType::Custom ==> forall|i: int|
                0 <= i < self.bk_config.layers@.len() ==> layer_draw_ok(
                    #[trigger] self.bk_config.layers@[i],
                    old(batch).width as int,
                    old(batch).height as int,
                ),
        ensures
            final(batch).width == old(batch).width,
            final(batch).height == old(batch).height,
            is_front && stage_type != BackgroundType::Custom ==> cleared is None
                && final(batch).commands@ == old(batch).commands@,
            !(is_front && stage_type != BackgroundType::Custom) ==> cleared == Some(
                draw_clear_color(stage_type, bg_color),
            ) && final(batch).commands@ == old(batch).commands@ + draw_cmds(
                stage_type,
                self.bk_config.layers@,
                old(batch).width as int,
                old(batch).height as int,
                canvas_w as int,
                canvas_h as int,
                frame_x as int,
                frame_y as int,
                frame_ticks as int,
                scale as int,
                self.tick as int,
                water_level as int,
                is_front,
            ),
    {
        if is_front && !matches!(stage_type, BackgroundType::Custom) {
            return None;
        }
        let ghost cmds0 = batch.commands@;
        match stage_type {
            BackgroundType::TiledStatic => {
                draw_tiled_static(batch, canvas_w, canvas_h);
            },
            BackgroundType::Tiled => {
                draw_tiled(batch, false, canvas_w, canvas_h, frame_x, frame_y, scale);
            },
            BackgroundType::TiledParallax => {
                draw_tiled(batch, true, canvas_w, canvas_h, frame_x, frame_y, scale);
            },
            BackgroundType::Waterway => {
                draw_tiled(batch, true, canvas_w, canvas_h, frame_x, frame_y, scale);
            },
            BackgroundType::Water => {
                proof {
                    assert(cmds0 =~= cmds0 + Seq::<SpriteBatchCommand>::empty());
                }
            },
            BackgroundType::Black => {
                proof {
                    assert(cmds0 =~= cmds0 + Seq::<SpriteBatchCommand>::empty());
                }
            },
            BackgroundType::Scrolling => {
                draw_scrolling(batch, canvas_w, canvas_h, self.tick, frame_ticks, scale);
            },
            BackgroundType::Outside => {
                draw_outside(batch, canvas_w, canvas_h, self.tick);
            },
            BackgroundType::OutsideWind => {
                draw_outside(batch, canvas_w, canvas_h, self.tick);
            },
            BackgroundType::OutsideUnknown => {
                draw_outside(batch, canvas_w, canvas_h, self.tick);
            },
            BackgroundType::Custom => {
                draw_custom(
                    batch,
                    &self.bk_config.layers,
                    canvas_w,
                    canvas_h,
                    frame_x,
                    frame_y,
                    water_level,
                    is_front,
                );
            },
        }
        let cleared = match stage_type {
            BackgroundType::Outside => (0, 0, 0, 255),
            BackgroundType::OutsideWind => (0, 0, 0, 255),
            BackgroundType::OutsideUnknown => (0, 0, 0, 255),
            _ => bg_color,
        };
        Some(cleared)
    }

    /// Records that a draw pass has consumed the current tick.
    pub fn draw_tick(&mut self)
        ensures
            final(self).prev_tick == old(self).tick,
            final(self).tick == old(self).tick,
            final(self).bk_config == old(self).bk_config,
            final(self).rng == old(self).rng,
    {
        self.prev_tick = self.tick;
    }
}

/// The number of steps a loop `x = start; while x < limit { x += step }`
/// makes, for a positive step.
pub open spec fn strip_n(start: int, limit: int, step: int) -> nat {
    if start >= limit {
        0
    } else {
        (((limit - start - 1) / step) + 1) as nat
    }
}

/// The number of repeats a custom layer actually draws on one axis: bounded
/// by the configured repeat count and cut off at the legacy sub-pixel limit.
pub open spec fn custom_n(start: int, limit: int, step: int, rep: int) -> nat {
    if rep <= 0 || start >= limit {
        0
    } else if step == 0 {
        rep as nat
    } else if strip_n(start, limit, step) < rep {
        strip_n(start, limit, step)
    } else {
        rep as nat
    }
}

/// The whole-texture source rectangle of a `w` by `h` atlas.
pub open spec fn full_rect(w: int, h: int) -> Rect {
    Rect { left: 0, top: 0, right: w as isize, bottom: h as isize }
}

/// The commands of a `TiledStatic` background: the canvas covered with the
/// atlas, one spare row and column on each leading edge.
pub open spec fn tiled_static_cmds(bw: int, bh: int, w: int, h: int) -> Seq<SpriteBatchCommand> {
    grid_cmds(
        full_rect(bw, bh),
        -bw,
        -bh,
        bw,
        bh,
        bw,
        bh,
        ((w - 1) / bw + 2) as nat,
        ((h - 1) / bh + 2) as nat,
    )
}

/// The camera-driven tile offset: the camera position modulo the atlas, at
/// half speed (rounded to the scale grid) for the parallax variants.
pub open spec fn tiled_offset(half: bool, f: int, scale: int, b: int) -> int {
    if half {
        ((f * scale / 2) / scale) % b
    } else {
        f % b
    }
}

/// The commands of a `Tiled`, `TiledParallax` or `Waterway` background.
pub open spec fn tiled_cmds(half: bool, bw: int, bh: int, w: int, h: int, fx: int, fy: int, scale: int) -> Seq<
    SpriteBatchCommand,
> {
    grid_cmds(
        full_rect(bw, bh),
        -bw - tiled_offset(half, fx, scale, bw),
        -bh - tiled_offset(half, fy, scale, bh),
        bw,
        bh,
        bw,
        bh,
        (w / bw + 3) as nat,
        (h / bh + 3) as nat,
    )
}

/// The horizontal sweep of a `Scrolling` background: a third-period tick
/// offset, interpolated by the sub-tick time (in 1/256ths) and swept at three
/// times the scroll speed, in scaled pixels.
pub open spec fn scroll_interp(tick: int, bw: int, ft: int, scale: int) -> int {
    (256 * (tick % (bw / 3)) + ft) * 3 * scale / 256
}

/// The commands of a `Scrolling` background.
pub open spec fn scrolling_cmds(bw: int, bh: int, w: int, h: int, tick: int, ft: int, scale: int) -> Seq<
    SpriteBatchCommand,
> {
    grid_cmds(
        full_rect(bw, bh),
        -bw - scroll_interp(tick, bw, ft, scale),
        -bh,
        bw,
        bh,
        bw,
        bh,
        (w / bw + 7) as nat,
        (h / bh + 2) as nat,
    )
}

/// The commands of the `Outside` family: a sun/moon band with side buffers,
/// stretched sky and ground edges when the canvas is taller than the artwork,
/// and four parallax strips at four horizontal speeds.
pub open spec fn outside_cmds(tick: int, w: int, h: int) -> Seq<SpriteBatchCommand> {
    let off = tick % 640;
    let oy = (h - 240) / 2;
    let center = (w - 320) / 2;
    let side = Rect { left: 144, top: 0, right: 244, bottom: 88 };
    let s1 = strip_cmds(side, 0, oy, 100, 100, 88, strip_n(0, center, 100));
    let s2 = strip_cmds(Rect { left: 0, top: 0, right: 320, bottom: 88 }, center, oy, 1, 320, 88, 1);
    let s3 = strip_cmds(side, center + 320, oy, 100, 100, 88, strip_n(center + 320, w, 100));
    let edges = if oy > 0 {
        strip_cmds(
            Rect { left: 128, top: 0, right: 228, bottom: 1 },
            0,
            0,
            100,
            100,
            oy,
            strip_n(0, w, 100),
        ) + strip_cmds(Rect { left: 0, top: 0, right: 320, bottom: 1 }, (w - 320) / 2, 0, 1, 320, oy, 1)
            + strip_cmds(
            Rect { left: 0, top: 239, right: 320, bottom: 240 },
            -off * 4,
            oy + 240,
            320,
            320,
            oy + 4,
            strip_n(-off * 4, w, 320),
        )
    } else {
        Seq::empty()
    };
    let p1 = strip_cmds(
        Rect { left: 0, top: 88, right: 320, bottom: 123 },
        -(off / 2),
        oy + 88,
        320,
        320,
        35,
        strip_n(-(off / 2), w, 320),
    );
    let p2s = if off % 320 == 0 {
        0
    } else {
        320 - off % 320
    };
    let p2 = strip_cmds(
        Rect { left: 0, top: 123, right: 320, bottom: 146 },
        p2s,
        oy + 123,
        320,
        320,
        23,
        strip_n(p2s, w, 320),
    );
    let p3 = strip_cmds(
        Rect { left: 0, top: 146, right: 320, bottom: 176 },
        -(off * 2),
        oy + 146,
        320,
        320,
        30,
        strip_n(-(off * 2), w, 320),
    );
    let p4 = strip_cmds(
        Rect { left: 0, top: 176, right: 320, bottom: 240 },
        -(off * 4),
        oy + 176,
        320,
        320,
        64,
        strip_n(-(off * 4), w, 320),
    );
    s1 + s2 + s3 + edges + p1 + p2 + p3 + p4
}

/// The atlas sub-rectangle a layer reads this frame: the configured offset
/// advanced by one frame-size per animation frame.
pub open spec fn custom_src_rect(l: LayerConfig) -> Rect {
    let fs = l.animation_style.frame_start as int;
    let xo = l.bmp_x_offset + l.bmp_width * fs;
    let yo = l.bmp_y_offset + l.bmp_height * fs;
    Rect {
        left: xo as isize,
        top: yo as isize,
        right: (xo + l.bmp_width) as isize,
        bottom: (yo + l.bmp_height) as isize,
    }
}

/// The horizontal anchor of a custom layer: scroll value plus corner offset,
/// pulled by the camera when the layer follows it or is locked.
pub open spec fn custom_x0(l: LayerConfig, cam_x: int) -> int {
    l.layer_x_value + l.draw_corner_offset_x + (if l.animation_style.scroll_flags.follow_pc_x {
        -(cam_x * l.animation_style.scroll_speed_x)
    } else {
        0
    }) + (if l.animation_style.scroll_flags.lock_to_y_axis {
        -cam_x
    } else {
        0
    })
}

/// The vertical anchor of a custom layer, with the water-level alignment in
/// the legacy sub-pixel unit.
pub open spec fn custom_y0(l: LayerConfig, cam_y: int, water: int) -> int {
    l.layer_y_value + (if l.animation_style.scroll_flags.align_with_water_lvl {
        water * 512 - cam_y
    } else {
        0
    }) + l.draw_corner_offset_y + (if l.animation_style.scroll_flags.follow_pc_y {
        -(cam_y * l.animation_style.scroll_speed_y)
    } else {
        0
    }) + (if l.animation_style.scroll_flags.lock_to_x_axis {
        -cam_y
    } else {
        0
    })
}

/// The commands one custom layer emits on the pass that matches its
/// above-foreground flag: a repeat grid of its current atlas frame, cut off
/// at the legacy sub-pixel canvas limit.
pub open spec fn custom_layer_cmds(
    l: LayerConfig,
    texw: int,
    texh: int,
    w: int,
    h: int,
    fx: int,
    fy: int,
    water: int,
    is_front: bool,
) -> Seq<SpriteBatchCommand> {
    if !l.layer_enabled || l.animation_style.scroll_flags.draw_above_foreground != is_front {
        Seq::empty()
    } else {
        let x0 = custom_x0(l, fx % texw);
        let y0 = custom_y0(l, fy % texh, water);
        let sx = l.bmp_width + l.draw_repeat_gap_x;
        let sy = l.bmp_height + l.draw_repeat_gap_y;
        grid_cmds(
            custom_src_rect(l),
            x0,
            y0,
            sx,
            sy,
            l.bmp_width as int,
            l.bmp_height as int,
            custom_n(x0, 16 * w, sx, l.draw_repeat_x as int),
            custom_n(y0, 16 * h, sy, l.draw_repeat_y as int),
        )
    }
}

/// The commands of a `Custom` background: each layer's grid, in configured
/// order.
pub open spec fn custom_cmds(
    ls: Seq<LayerConfig>,
    texw: int,
    texh: int,
    w: int,
    h: int,
    fx: int,
    fy: int,
    water: int,
    is_front: bool,
) -> Seq<SpriteBatchCommand>
    decreases ls.len(),
{
    if ls.len() == 0 {
        Seq::empty()
    } else {
        custom_cmds(ls.drop_last(), texw, texh, w, h, fx, fy, water, is_front)
            + custom_layer_cmds(ls.last(), texw, texh, w, h, fx, fy, water, is_front)
    }
}

/// The clear colour a draw pass uses: black for the `Outside` family, the
/// stage's background colour otherwise.
pub open spec fn draw_clear_color(stage: BackgroundType, bg: (u8, u8, u8, u8)) -> (u8, u8, u8, u8) {
    match stage {
        BackgroundType::Outside => (0u8, 0u8, 0u8, 255u8),
        BackgroundType::OutsideWind => (0u8, 0u8, 0u8, 255u8),
        BackgroundType::OutsideUnknown => (0u8, 0u8, 0u8, 255u8),
        _ => bg,
    }
}

/// Every command a draw pass appends, by background kind.
pub open spec fn draw_cmds(
    stage: BackgroundType,
    ls: Seq<LayerConfig>,
    texw: int,
    texh: int,
    w: int,
    h: int,
    fx: int,
    fy: int,
    ft: int,
    scale: int,
    tick: int,
    water: int,
    is_front: bool,
) -> Seq<SpriteBatchCommand> {
    match stage {
        BackgroundType::TiledStatic => tiled_static_cmds(texw, texh, w, h),
        BackgroundType::Tiled => tiled_cmds(false, texw, texh, w, h, fx, fy, scale),
        BackgroundType::TiledParallax => tiled_cmds(true, texw, texh, w, h, fx, fy, scale),
        BackgroundType::Waterway => tiled_cmds(true, texw, texh, w, h, fx, fy, scale),
        BackgroundType::Water => Seq::empty(),
        BackgroundType::Black => Seq::empty(),
        BackgroundType::Scrolling => scrolling_cmds(texw, texh, w, h, tick, ft, scale),
        BackgroundType::Outside => outside_cmds(tick, w, h),
        BackgroundType::OutsideWind => outside_cmds(tick, w, h),
        BackgroundType::OutsideUnknown => outside_cmds(tick, w, h),
        BackgroundType::Custom => custom_cmds(ls, texw, texh, w, h, fx, fy, water, is_front),
    }
}

/// A layer whose draw anchors stay within the command coordinate budget.
pub open spec fn layer_draw_ok(l: LayerConfig, texw: int, texh: int) -> bool {
    &&& -0x400_0000 <= l.layer_x_value <= 0x400_0000
    &&& -0x400_0000 <= l.layer_y_value <= 0x400_0000
    &&& (l.animation_style.scroll_flags.follow_pc_x ==> abs1(
        l.animation_style.scroll_speed_x as int,
    ) * texw <= 0x200_0000)
    &&& (l.animation_style.scroll_flags.follow_pc_y ==> abs1(
        l.animation_style.scroll_speed_y as int,
    ) * texh <= 0x200_0000)
}

/// Floor division by two, on either sign.
fn floor_div2(a: isize) -> (r: isize)
    requires
        -0x10000 <= a <= 0x10000,
    ensures
        r == (a as int) / 2,
{
    if a >= 0 {
        ((a as usize) / 2) as isize
    } else {
        let m = (-a) as usize;
        -(((m + 1) / 2) as isize)
    }
}

/// Executable `strip_n`.
fn strip_n_exec(start: i64, limit: i64, step: i64) -> (n: usize)
    requires
        -0x1000_0000 <= start <= 0x1000_0000,
        -0x1000_0000 <= limit <= 0x80000,
        1 <= step <= 0x10000,
    ensures
        n == strip_n(start as int, limit as int, step as int),
        n * step <= 0x2000_0000,
{
    if start >= limit {
        return 0;
    }
    let diff = (limit - 1 - start) as u64;
    let n64 = diff / (step as u64) + 1;
    proof {
        assert((diff / (step as u64)) * (step as u64) <= diff && n64 * step == (diff / (
        step as u64)) * (step as u64) + step) by (nonlinear_arith)
            requires
                step >= 1,
                n64 == diff / (step as u64) + 1,
        ;
    }
    n64 as usize
}

/// Executable `custom_n`.
fn custom_n_exec(start: i64, limit: i64, step: i64, rep: u32) -> (n: usize)
    requires
        -0x1000_0000 <= start <= 0x1000_0000,
        0 < limit <= 0x80000,
        0 <= step <= 0x10000,
        rep <= 0x8000,
    ensures
        n == custom_n(start as int, limit as int, step as int, rep as int),
        n * step <= 0x2000_0000,
{
    if rep == 0 || start >= limit {
        proof {
            assert(0 * step == 0) by (nonlinear_arith);
        }
        return 0;
    }
    if step == 0 {
        proof {
            assert((rep as int) * 0 == 0) by (nonlinear_arith);
        }
        return rep as usize;
    }
    let sn = strip_n_exec(start, limit, step);
    if sn < rep as usize {
        sn
    } else {
        proof {
            assert((rep as int) * step <= (sn as int) * step) by (nonlinear_arith)
                requires
                    rep <= sn,
                    0 <= step,
            ;
        }
        rep as usize
    }
}

/// Emits a `TiledStatic` background: the canvas covered with the atlas.
fn draw_tiled_static(batch: &mut SpriteBatch, w: u16, h: u16)
    requires
        1 <= old(batch).width <= 0x8000,
        1 <= old(batch).height <= 0x8000,
        1 <= w <= 0x8000,
        1 <= h <= 0x8000,
    ensures
        final(batch).width == old(batch).width,
        final(batch).height == old(batch).height,
        final(batch).commands@ == old(batch).commands@ + tiled_static_cmds(
            old(batch).width as int,
            old(batch).height as int,
            w as int,
            h as int,
        ),
{
    let bw = batch.width as usize;
    let bh = batch.height as usize;
    let ncols = (w as usize - 1) / bw + 2;
    let nrows = (h as usize - 1) / bh + 2;
    proof {
        assert(((w - 1) / (bw as int)) * (bw as int) <= w - 1 && ((h - 1) / (bh as int)) * (
        bh as int) <= h - 1 && ncols * (bw as int) == ((w - 1) / (bw as int)) * (bw as int) + 2 * (
        bw as int) && nrows * (bh as int) == ((h - 1) / (bh as int)) * (bh as int) + 2 * (bh as int))
            by (nonlinear_arith)
            requires
                bw >= 1,
                bh >= 1,
                w >= 1,
                h >= 1,
                ncols == (w - 1) / (bw as int) + 2,
                nrows == (h - 1) / (bh as int) + 2,
        ;
    }
    let src = Rect { left: 0, top: 0, right: bw as isize, bottom: bh as isize };
    batch.emit_grid(
        &src,
        -(bw as isize),
        -(bh as isize),
        bw as isize,
        bh as isize,
        bw as isize,
        bh as isize,
        ncols,
        nrows,
    );
}

/// Emits a `Tiled`, `TiledParallax` or `Waterway` background: the canvas
/// covered with the atlas, shifted against the camera.
fn draw_tiled(batch: &mut SpriteBatch, half: bool, w: u16, h: u16, fx: u32, fy: u32, scale: u16)
    requires
        1 <= old(batch).width <= 0x8000,
        1 <= old(batch).height <= 0x8000,
        1 <= w <= 0x8000,
        1 <= h <= 0x8000,
        fx <= 0x100000,
        fy <= 0x100000,
        1 <= scale <= 0x100,
    ensures
        final(batch).width == old(batch).width,
        final(batch).height == old(batch).height,
        final(batch).commands@ == old(batch).commands@ + tiled_cmds(
            half,
            old(batch).width as int,
            old(batch).height as int,
            w as int,
            h as int,
            fx as int,
            fy as int,
            scale as int,
        ),
{
    let bw = batch.width as usize;
    let bh = batch.height as usize;
    proof {
        assert(fx as int * scale as int <= 0x100000 * 0x100) by (nonlinear_arith)
            requires
                fx <= 0x100000,
                scale <= 0x100,
        ;
        assert(fy as int * scale as int <= 0x100000 * 0x100) by (nonlinear_arith)
            requires
                fy <= 0x100000,
                scale <= 0x100,
        ;
    }
    let ox: usize = if half {
        (((fx as u64 * scale as u64) / 2) / (scale as u64) % (bw as u64)) as usize
    } else {
        (fx as usize) % bw
    };
    let oy: usize = if half {
        (((fy as u64 * scale as u64) / 2) / (scale as u64) % (bh as u64)) as usize
    } else {
        (fy as usize) % bh
    };
    let ncols = (w as usize) / bw + 3;
    let nrows = (h as usize) / bh + 3;
    proof {
        assert(((w as int) / (bw as int)) * (bw as int) <= w && ((h as int) / (bh as int)) * (
        bh as int) <= h && ncols * (bw as int) == ((w as int) / (bw as int)) * (bw as int) + 3 * (
        bw as int) && nrows * (bh as int) == ((h as int) / (bh as int)) * (bh as int) + 3 * (
        bh as int)) by (nonlinear_arith)
            requires
                bw >= 1,
                bh >= 1,
                w >= 1,
                h >= 1,
                ncols == (w as int) / (bw as int) + 3,
                nrows == (h as int) / (bh as int) + 3,
        ;
    }
    let src = Rect { left: 0, top: 0, right: bw as isize, bottom: bh as isize };
    batch.emit_grid(
        &src,
        -((bw + ox) as isize),
        -((bh + oy) as isize),
        bw as isize,
        bh as isize,
        bw as isize,
        bh as isize,
        ncols,
        nrows,
    );
}

/// Emits a `Scrolling` background: the atlas swept horizontally at three
/// times the tick rate, interpolated by the sub-tick time.
fn draw_scrolling(batch: &mut SpriteBatch, w: u16, h: u16, tick: usize, ft: u16, scale: u16)
    requires
        3 <= old(batch).width <= 0x8000,
        1 <= old(batch).height <= 0x8000,
        1 <= w <= 0x8000,
        1 <= h <= 0x8000,
        ft < 256,
        1 <= scale <= 0x100,
    ensures
        final(batch).width == old(batch).width,
        final(batch).height == old(batch).height,
        final(batch).commands@ == old(batch).commands@ + scrolling_cmds(
            old(batch).width as int,
            old(batch).height as int,
            w as int,
            h as int,
            tick as int,
            ft as int,
            scale as int,
        ),
{
    let bw = batch.width as usize;
    let bh = batch.height as usize;
    let third = bw / 3;
    let off = tick % third;
    proof {
        assert(off < 0x2aab) by {
            assert(third <= 0x2aaa);
        }
        assert((256 * (off as int) + ft) * 3 * (scale as int) <= (256 * 0x2aaa + 255) * 3 * 0x100
            && (256 * (off as int) + ft) * 3 >= 0 && (256 * (off as int) + ft) * 3 * (scale as int)
            >= 0) by (nonlinear_arith)
            requires
                0 <= off < 0x2aab,
                0 <= ft < 256,
                1 <= scale <= 0x100,
        ;
    }
    let interp = ((256 * (off as u64) + (ft as u64)) * 3 * (scale as u64) / 256) as usize;
    proof {
        assert(((w as int) / (bw as int)) * (bw as int) <= w && ((h as int) / (bh as int)) * (
        bh as int) <= h && ((w as int) / (bw as int) + 7) * (bw as int) == ((w as int) / (
        bw as int)) * (bw as int) + 7 * (bw as int) && ((h as int) / (bh as int) + 2) * (bh as int)
            == ((h as int) / (bh as int)) * (bh as int) + 2 * (bh as int)) by (nonlinear_arith)
            requires
                bw >= 1,
                bh >= 1,
                w >= 1,
                h >= 1,
        ;
    }
    let ncols = (w as usize) / bw + 7;
    let nrows = (h as usize) / bh + 2;
    let src = Rect { left: 0, top: 0, right: bw as isize, bottom: bh as isize };
    batch.emit_grid(
        &src,
        -((bw + interp) as isize),
        -(bh as isize),
        bw as isize,
        bh as isize,
        bw as isize,
        bh as isize,
        ncols,
        nrows,
    );
}

/// Emits an `Outside` family background: sun band, stretched edges, four
/// parallax strips.
/// Emits the sun band of an `Outside` background: side buffers, the sun,
/// side buffers again.
#[verifier::rlimit(100)]
#[verifier::spinoff_prover]
fn outside_sun(batch: &mut SpriteBatch, w: u16, oy: isize, center: isize)
    requires
        1 <= w <= 0x8000,
        -0x8000 <= oy <= 0x8000,
        -0x8000 <= center <= 0x8000,
    ensures
        final(batch).width == old(batch).width,
        final(batch).height == old(batch).height,
        final(batch).commands@ == old(batch).commands@ + (strip_cmds(
            Rect { left: 144, top: 0, right: 244, bottom: 88 },
            0,
            oy as int,
            100,
            100,
            88,
            strip_n(0, center as int, 100),
        ) + strip_cmds(
            Rect { left: 0, top: 0, right: 320, bottom: 88 },
            center as int,
            oy as int,
            1,
            320,
            88,
            1,
        ) + strip_cmds(
            Rect { left: 144, top: 0, right: 244, bottom: 88 },
            center as int + 320,
            oy as int,
            100,
            100,
            88,
            strip_n(center as int + 320, w as int, 100),
        )),
{
    let ghost cmds0 = batch.commands@;
    let side = Rect { left: 144, top: 0, right: 244, bottom: 88 };
    let sun = Rect { left: 0, top: 0, right: 320, bottom: 88 };
    let n1 = strip_n_exec(0, center as i64, 100);
    batch.emit_strip(&side, 0, oy, 100, 100, 88, n1);
    batch.emit_strip(&sun, center, oy, 1, 320, 88, 1);
    let n3 = strip_n_exec(center as i64 + 320, w as i64, 100);
    batch.emit_strip(&side, center + 320, oy, 100, 100, 88, n3);
    proof {
        assert(batch.commands@ =~= cmds0 + (strip_cmds(
            side,
            0,
            oy as int,
            100,
            100,
            88,
            strip_n(0, center as int, 100),
        ) + strip_cmds(sun, center as int, oy as int, 1, 320, 88, 1) + strip_cmds(
            side,
            center as int + 320,
            oy as int,
            100,
            100,
            88,
            strip_n(center as int + 320, w as int, 100),
        )));
    }
}

/// Emits the stretched sky and ground bands of an `Outside` background on a
/// canvas taller than the artwork.
#[verifier::rlimit(100)]
#[verifier::spinoff_prover]
fn outside_edges(batch: &mut SpriteBatch, w: u16, off: isize, oy: isize)
    requires
        1 <= w <= 0x8000,
        0 <= off < 640,
        0 < oy <= 0x8000,
    ensures
        final(batch).width == old(batch).width,
        final(batch).height == old(batch).height,
        final(batch).commands@ == old(batch).commands@ + (strip_cmds(
            Rect { left: 128, top: 0, right: 228, bottom: 1 },
            0,
            0,
            100,
            100,
            oy as int,
            strip_n(0, w as int, 100),
        ) + strip_cmds(
            Rect { left: 0, top: 0, right: 320, bottom: 1 },
            (w - 320) / 2,
            0,
            1,
            320,
            oy as int,
            1,
        ) + strip_cmds(
            Rect { left: 0, top: 239, right: 320, bottom: 240 },
            -(off as int) * 4,
            oy + 240,
            320,
            320,
            oy + 4,
            strip_n(-(off as int) * 4, w as int, 320),
        )),
{
    let ghost cmds0 = batch.commands@;
    let sky = Rect { left: 128, top: 0, right: 228, bottom: 1 };
    let skyc = Rect { left: 0, top: 0, right: 320, bottom: 1 };
    let ground = Rect { left: 0, top: 239, right: 320, bottom: 240 };
    let ne1 = strip_n_exec(0, w as i64, 100);
    batch.emit_strip(&sky, 0, 0, 100, 100, oy, ne1);
    batch.emit_strip(&skyc, floor_div2(w as isize - 320), 0, 1, 320, oy, 1);
    let ne3 = strip_n_exec(-(off as i64) * 4, w as i64, 320);
    batch.emit_strip(&ground, -off * 4, oy + 240, 320, 320, oy + 4, ne3);
    proof {
        assert(batch.commands@ =~= cmds0 + (strip_cmds(
            sky,
            0,
            0,
            100,
            100,
            oy as int,
            strip_n(0, w as int, 100),
        ) + strip_cmds(skyc, (w - 320) / 2, 0, 1, 320, oy as int, 1) + strip_cmds(
            ground,
            -(off as int) * 4,
            oy + 240,
            320,
            320,
            oy + 4,
            strip_n(-(off as int) * 4, w as int, 320),
        )));
    }
}

/// Emits an `Outside` family background: sun band, stretched edges, four
/// parallax strips.
#[verifier::rlimit(100)]
#[verifier::spinoff_prover]
fn draw_outside(batch: &mut SpriteBatch, w: u16, h: u16, tick: usize)
    requires
        1 <= w <= 0x8000,
        1 <= h <= 0x8000,
    ensures
        final(batch).width == old(batch).width,
        final(batch).height == old(batch).height,
        final(batch).commands@ == old(batch).commands@ + outside_cmds(
            tick as int,
            w as int,
            h as int,
        ),
{
    let ghost cmds0 = batch.commands@;
    let offu = tick % 640;
    let off = offu as isize;
    let oy = floor_div2(h as isize - 240);
    let center = floor_div2(w as isize - 320);

    let ghost ti = tick as int;
    let ghost wi = w as int;
    let ghost hi = h as int;
    let ghost oyi = oy as int;
    let ghost ci = center as int;
    proof {
        assert(off == ti % 640 && oyi == (hi - 240) / 2 && ci == (wi - 320) / 2);
    }
    let ghost s123 = strip_cmds(
        Rect { left: 144, top: 0, right: 244, bottom: 88 },
        0,
        oyi,
        100,
        100,
        88,
        strip_n(0, ci, 100),
    ) + strip_cmds(Rect { left: 0, top: 0, right: 320, bottom: 88 }, ci, oyi, 1, 320, 88, 1)
        + strip_cmds(
        Rect { left: 144, top: 0, right: 244, bottom: 88 },
        ci + 320,
        oyi,
        100,
        100,
        88,
        strip_n(ci + 320, wi, 100),
    );
    outside_sun(batch, w, oy, center);

    let ghost edges = (if oyi > 0 {
        strip_cmds(Rect { left: 128, top: 0, right: 228, bottom: 1 }, 0, 0, 100, 100, oyi, strip_n(0, wi, 100))
            + strip_cmds(Rect { left: 0, top: 0, right: 320, bottom: 1 }, (wi - 320) / 2, 0, 1, 320, oyi, 1)
            + strip_cmds(
            Rect { left: 0, top: 239, right: 320, bottom: 240 },
            -(ti % 640) * 4,
            oyi + 240,
            320,
            320,
            oyi + 4,
            strip_n(-(ti % 640) * 4, wi, 320),
        )
    } else {
        Seq::<SpriteBatchCommand>::empty()
    });
    if oy > 0 {
        outside_edges(batch, w, off, oy);
    }
    proof {
        assert(batch.commands@ =~= cmds0 + (s123 + edges));
    }

    let ghost p1 = strip_cmds(
        Rect { left: 0, top: 88, right: 320, bottom: 123 },
        -((ti % 640) / 2),
        oyi + 88,
        320,
        320,
        35,
        strip_n(-((ti % 640) / 2), wi, 320),
    );
    let r1 = Rect { left: 0, top: 88, right: 320, bottom: 123 };
    let np1 = strip_n_exec(-((offu / 2) as i64), w as i64, 320);
    batch.emit_strip(&r1, -((offu / 2) as isize), oy + 88, 320, 320, 35, np1);

    let p2su = if offu % 320 == 0 {
        0
    } else {
        320 - offu % 320
    };
    let ghost p2 = strip_cmds(
        Rect { left: 0, top: 123, right: 320, bottom: 146 },
        p2su as int,
        oyi + 123,
        320,
        320,
        23,
        strip_n(p2su as int, wi, 320),
    );
    let r2 = Rect { left: 0, top: 123, right: 320, bottom: 146 };
    let np2 = strip_n_exec(p2su as i64, w as i64, 320);
    batch.emit_strip(&r2, p2su as isize, oy + 123, 320, 320, 23, np2);

    let ghost p3 = strip_cmds(
        Rect { left: 0, top: 146, right: 320, bottom: 176 },
        -(ti % 640) * 2,
        oyi + 146,
        320,
        320,
        30,
        strip_n(-(ti % 640) * 2, wi, 320),
    );
    let r3 = Rect { left: 0, top: 146, right: 320, bottom: 176 };
    let np3 = strip_n_exec(-(offu as i64) * 2, w as i64, 320);
    batch.emit_strip(&r3, -off * 2, oy + 146, 320, 320, 30, np3);

    let ghost p4 = strip_cmds(
        Rect { left: 0, top: 176, right: 320, bottom: 240 },
        -(ti % 640) * 4,
        oyi + 176,
        320,
        320,
        64,
        strip_n(-(ti % 640) * 4, wi, 320),
    );
    let r4 = Rect { left: 0, top: 176, right: 320, bottom: 240 };
    let np4 = strip_n_exec(-(offu as i64) * 4, w as i64, 320);
    batch.emit_strip(&r4, -off * 4, oy + 176, 320, 320, 64, np4);

    proof {
        assert(batch.commands@ =~= cmds0 + (s123 + edges + p1 + p2 + p3 + p4));
        assert(outside_cmds(ti, wi, hi) == s123 + edges + p1 + p2 + p3 + p4);
    }
}

/// Emits one custom layer onto the batch, on the pass matching its
/// above-foreground flag.
#[verifier::rlimit(60)]
fn draw_custom_layer(
    batch: &mut SpriteBatch,
    l: &LayerConfig,
    w: u16,
    h: u16,
    fx: u32,
    fy: u32,
    water: i32,
    is_front: bool,
)
    requires
        l.wf(),
        layer_draw_ok(*l, old(batch).width as int, old(batch).height as int),
        1 <= old(batch).width <= 0x8000,
        1 <= old(batch).height <= 0x8000,
        1 <= w <= 0x8000,
        1 <= h <= 0x8000,
        fx <= 0x100000,
        fy <= 0x100000,
        -0x10000 <= water <= 0x10000,
    ensures
        final(batch).width == old(batch).width,
        final(batch).height == old(batch).height,
        final(batch).commands@ == old(batch).commands@ + custom_layer_cmds(
            *l,
            old(batch).width as int,
            old(batch).height as int,
            w as int,
            h as int,
            fx as int,
            fy as int,
            water as int,
            is_front,
        ),
{
    let flags = l.animation_style.scroll_flags;
    if !l.layer_enabled || flags.draw_above_foreground != is_front {
        proof {
            assert(batch.commands@ =~= batch.commands@ + Seq::<SpriteBatchCommand>::empty());
        }
        return ;
    }
    let texw = batch.width as usize;
    let texh = batch.height as usize;
    let cam_x = ((fx as usize) % texw) as i64;
    let cam_y = ((fy as usize) % texh) as i64;

    let mut x0: i64 = l.layer_x_value + (l.draw_corner_offset_x as i64);
    if flags.follow_pc_x {
        let spd = l.animation_style.scroll_speed_x as i64;
        let spabs = if spd < 0 {
            -spd
        } else {
            spd
        };
        proof {
            assert(spabs == abs1(l.animation_style.scroll_speed_x as int));
            assert(-0x200_0000 <= cam_x * spd <= 0x200_0000) by (nonlinear_arith)
                requires
                    0 <= cam_x < texw,
                    texw >= 1,
                    -spabs <= spd <= spabs,
                    spabs * texw <= 0x200_0000,
                    spabs >= 0,
            ;
        }
        x0 = x0 - cam_x * spd;
    }
    if flags.lock_to_y_axis {
        x0 = x0 - cam_x;
    }

    let mut y0: i64 = l.layer_y_value;
    if flags.align_with_water_lvl {
        y0 = y0 + (water as i64) * 512 - cam_y;
    }
    y0 = y0 + (l.draw_corner_offset_y as i64);
    if flags.follow_pc_y {
        let spd = l.animation_style.scroll_speed_y as i64;
        let spabs = if spd < 0 {
            -spd
        } else {
            spd
        };
        proof {
            assert(spabs == abs1(l.animation_style.scroll_speed_y as int));
            assert(-0x200_0000 <= cam_y * spd <= 0x200_0000) by (nonlinear_arith)
                requires
                    0 <= cam_y < texh,
                    texh >= 1,
                    -spabs <= spd <= spabs,
                    spabs * texh <= 0x200_0000,
                    spabs >= 0,
            ;
        }
        y0 = y0 - cam_y * spd;
    }
    if flags.lock_to_x_axis {
        y0 = y0 - cam_y;
    }
    proof {
        assert(x0 == custom_x0(*l, cam_x as int));
        assert(y0 == custom_y0(*l, cam_y as int, water as int));
    }

    let fs = l.animation_style.frame_start as u64;
    let ghost fc1 = max1(l.animation_style.frame_count as int);
    proof {
        assert((l.bmp_width as int) * (fs as int) + (l.bmp_width as int) <= (l.bmp_width as int)
            * fc1 && (l.bmp_height as int) * (fs as int) + (l.bmp_height as int) <= (
        l.bmp_height as int) * fc1 && 0 <= (l.bmp_width as int) * (fs as int) && 0 <= (
        l.bmp_height as int) * (fs as int)) by (nonlinear_arith)
            requires
                0 <= fs,
                fs + 1 <= fc1,
                0 <= l.bmp_width,
                0 <= l.bmp_height,
        ;
    }
    let xo = (l.bmp_x_offset as u64) + (l.bmp_width as u64) * fs;
    let yo = (l.bmp_y_offset as u64) + (l.bmp_height as u64) * fs;
    let src = Rect {
        left: xo as isize,
        top: yo as isize,
        right: (xo + l.bmp_width as u64) as isize,
        bottom: (yo + l.bmp_height as u64) as isize,
    };
    proof {
        assert(src == custom_src_rect(*l));
    }

    let sx = (l.bmp_width + l.draw_repeat_gap_x) as i64;
    let sy = (l.bmp_height + l.draw_repeat_gap_y) as i64;
    let ncols = custom_n_exec(x0, 16 * (w as i64), sx, l.draw_repeat_x);
    let nrows = custom_n_exec(y0, 16 * (h as i64), sy, l.draw_repeat_y);
    batch.emit_grid(
        &src,
        x0 as isize,
        y0 as isize,
        sx as isize,
        sy as isize,
        l.bmp_width as isize,
        l.bmp_height as isize,
        ncols,
        nrows,
    );
}

/// Emits every layer of a `Custom` background, in configured order.
fn draw_custom(
    batch: &mut SpriteBatch,
    layers: &Vec<LayerConfig>,
    w: u16,
    h: u16,
    fx: u32,
    fy: u32,
    water: i32,
    is_front: bool,
)
    requires
        forall|i: int| 0 <= i < layers@.len() ==> (#[trigger] layers@[i]).wf(),
        forall|i: int|
            0 <= i < layers@.len() ==> layer_draw_ok(
                #[trigger] layers@[i],
                old(batch).width as int,
                old(batch).height as int,
            ),
        1 <= old(batch).width <= 0x8000,
        1 <= old(batch).height <= 0x8000,
        1 <= w <= 0x8000,
        1 <= h <= 0x8000,
        fx <= 0x100000,
        fy <= 0x100000,
        -0x10000 <= water <= 0x10000,
    ensures
        final(batch).width == old(batch).width,
        final(batch).height == old(batch).height,
        final(batch).commands@ == old(batch).commands@ + custom_cmds(
            layers@,
            old(batch).width as int,
            old(batch).height as int,
            w as int,
            h as int,
            fx as int,
            fy as int,
            water as int,
            is_front,
        ),
{
    let ghost cmds0 = batch.commands@;
    let ghost ls = layers@;
    let n = layers.len();
    let mut i: usize = 0;
    while i < n
        invariant
            i <= n,
            n == ls.len(),
            layers@ == ls,
            forall|k: int| 0 <= k < n ==> (#[trigger] ls[k]).wf(),
            forall|k: int|
                0 <= k < n ==> layer_draw_ok(
                    #[trigger] ls[k],
                    old(batch).width as int,
                    old(batch).height as int,
                ),
            1 <= batch.width <= 0x8000,
            1 <= batch.height <= 0x8000,
            batch.width == old(batch).width,
            batch.height == old(batch).height,
            1 <= w <= 0x8000,
            1 <= h <= 0x8000,
            fx <= 0x100000,
            fy <= 0x100000,
            -0x10000 <= water <= 0x10000,
            batch.commands@ == cmds0 + custom_cmds(
                ls.take(i as int),
                old(batch).width as int,
                old(batch).height as int,
                w as int,
                h as int,
                fx as int,
                fy as int,
                water as int,
                is_front,
            ),
        decreases n - i,
    {
        let l = layers[i];
        draw_custom_layer(batch, &l, w, h, fx, fy, water, is_front);
        proof {
            assert(ls.take(i + 1).drop_last() =~= ls.take(i as int));
            assert(ls.take(i + 1).last() == ls[i as int]);
        }
        i += 1;
    }
    proof {
        assert(ls.take(n as int) =~= ls);
    }
}

/// The frame index invariant: one tick keeps `frame_start` strictly below
/// `max(1, frame_count)`, for any layer whose index starts there.
pub proof fn lemma_tick_frame_start_in_range(l: LayerConfig, w: int, h: int, r: u32)
    requires
        l.animation_style.frame_start < max1(l.animation_style.frame_count as int),
    ensures
        layer_tick(l, w, h, r).0.animation_style.frame_start < max1(
            layer_tick(l, w, h, r).0.animation_style.frame_count as int,
        ),
        layer_tick(l, w, h, r).0.animation_style.frame_count == l.animation_style.frame_count,
{
}

/// The scroll offset stays within one canvas plus one bitmap-and-gap plus
/// the corner anchor, on either axis.
pub open spec fn scroll_bound_x(l: LayerConfig, w: int) -> bool {
    abs1(l.layer_x_value as int) <= w + (l.bmp_width + l.draw_repeat_gap_x) + abs1(
        l.draw_corner_offset_x as int,
    )
}

pub open spec fn scroll_bound_y(l: LayerConfig, h: int) -> bool {
    abs1(l.layer_y_value as int) <= h + (l.bmp_height + l.draw_repeat_gap_y) + abs1(
        l.draw_corner_offset_y as int,
    )
}

/// Bounded drift: with the canvas fixed, a jitter-free layer whose repeat
/// extent fits one canvas-and-bitmap span and whose scroll speed is at most
/// one canvas per tick keeps both scroll offsets within the stated band.
pub proof fn lemma_tick_scroll_bounded(l: LayerConfig, w: int, h: int, r: u32)
    requires
        l.wf(),
        1 <= w <= 0x8000,
        1 <= h <= 0x8000,
        !l.animation_style.scroll_flags.random_scroll_speed_y,
        abs1(l.animation_style.scroll_speed_x as int) <= w,
        abs1(l.animation_style.scroll_speed_y as int) <= h,
        (l.bmp_width + l.draw_repeat_gap_x) * l.draw_repeat_x <= w + (l.bmp_width
            + l.draw_repeat_gap_x),
        (l.bmp_height + l.draw_repeat_gap_y) * l.draw_repeat_y <= h + (l.bmp_height
            + l.draw_repeat_gap_y),
        scroll_bound_x(l, w),
        scroll_bound_y(l, h),
    ensures
        scroll_bound_x(layer_tick(l, w, h, r).0, w),
        scroll_bound_y(layer_tick(l, w, h, r).0, h),
{
    assert((l.bmp_width + l.draw_repeat_gap_x) * l.draw_repeat_x >= 0) by (nonlinear_arith)
        requires
            l.bmp_width + l.draw_repeat_gap_x >= 0,
            l.draw_repeat_x >= 0,
    ;
    assert((l.bmp_height + l.draw_repeat_gap_y) * l.draw_repeat_y >= 0) by (nonlinear_arith)
        requires
            l.bmp_height + l.draw_repeat_gap_y >= 0,
            l.draw_repeat_y >= 0,
    ;
}

/// The frame index invariant over whole ticks: layer `i` of a `tick` call,
/// as `tick`'s contract describes it through `layer_after`, keeps its frame
/// index below `max(1, frame_count)`.
pub proof fn lemma_tick_layer_frame_start_in_range(
    ls: Seq<LayerConfig>,
    w: int,
    h: int,
    r: u32,
    i: int,
)
    requires
        0 <= i < ls.len(),
        ls[i].animation_style.frame_start < max1(ls[i].animation_style.frame_count as int),
    ensures
        layer_after(ls, w, h, r, i).animation_style.frame_start < max1(
            layer_after(ls, w, h, r, i).animation_style.frame_count as int,
        ),
{
    lemma_tick_frame_start_in_range(ls[i], w, h, rng_after(ls, w, h, r, i));
}

/// Bounded drift over whole ticks: layer `i` of a `tick` call keeps both
/// scroll offsets within the stated band, under the same conditions as the
/// single-layer bound.
pub proof fn lemma_tick_layer_scroll_bounded(ls: Seq<LayerConfig>, w: int, h: int, r: u32, i: int)
    requires
        0 <= i < ls.len(),
        ls[i].wf(),
        1 <= w <= 0x8000,
        1 <= h <= 0x8000,
        !ls[i].animation_style.scroll_flags.random_scroll_speed_y,
        abs1(ls[i].animation_style.scroll_speed_x as int) <= w,
        abs1(ls[i].animation_style.scroll_speed_y as int) <= h,
        (ls[i].bmp_width + ls[i].draw_repeat_gap_x) * ls[i].draw_repeat_x <= w + (ls[i].bmp_width
            + ls[i].draw_repeat_gap_x),
        (ls[i].bmp_height + ls[i].draw_repeat_gap_y) * ls[i].draw_repeat_y <= h + (ls[i].bmp_height
            + ls[i].draw_repeat_gap_y),
        scroll_bound_x(ls[i], w),
        scroll_bound_y(ls[i], h),
    ensures
        scroll_bound_x(layer_after(ls, w, h, r, i), w),
        scroll_bound_y(layer_after(ls, w, h, r, i), h),
{
    lemma_tick_scroll_bounded(ls[i], w, h, rng_after(ls, w, h, r, i));
}

} // verus!
