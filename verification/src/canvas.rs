//! A CPU-side 32-bit ARGB framebuffer with clip-aware fill and blit
//! primitives.

use vstd::prelude::*;

use crate::blend::{spec_blend, blend_pixel, chan_a, chan_b, chan_g, chan_r, BlendMode};
use crate::rect::{placement_empty, trim_oob_rects, trim_spec, Rect, COORD_LIMIT};

verus! {

/// Largest accepted canvas side length.
pub const CANVAS_LIMIT: usize = 0x8000;

/// A row-major buffer of packed ARGB pixels.
#[verifier::ext_equal]
pub struct Canvas {
    pub width: usize,
    pub height: usize,
    pub buf: Vec<u32>,
}

/// The pixel of `c` at column `x`, row `y`.
pub open spec fn pix(c: Canvas, x: int, y: int) -> u32 {
    c.buf@[y * c.width + x]
}

impl Canvas {
    /// The buffer holds exactly one word per cell and both sides are small
    /// enough that index arithmetic cannot overflow.
    pub open spec fn wf(self) -> bool {
        &&& self.buf@.len() == self.width * self.height
        &&& self.width <= CANVAS_LIMIT
        &&& self.height <= CANVAS_LIMIT
    }

    /// A transparent-black canvas of the given size.
    pub fn new(width: usize, height: usize) -> (c: Canvas)
        requires
            width <= CANVAS_LIMIT,
            height <= CANVAS_LIMIT,
        ensures
            c.wf(),
            c.width == width,
            c.height == height,
            forall|x: int, y: int|
                0 <= x < width && 0 <= y < height ==> #[trigger] pix(c, x, y) == 0u32,
    {
        assert(width * height <= CANVAS_LIMIT * CANVAS_LIMIT) by (nonlinear_arith)
            requires
                width <= CANVAS_LIMIT,
                height <= CANVAS_LIMIT,
        ;
        let total = width * height;
        let mut buf: Vec<u32> = Vec::new();
        let mut i: usize = 0;
        while i < total
            invariant
                i <= total,
                buf@.len() == i,
                forall|k: int| 0 <= k < i ==> buf@[k] == 0u32,
            decreases total - i,
        {
            buf.push(0u32);
            i += 1;
        }
        let c = Canvas { width, height, buf };
        assert forall|x: int, y: int|
            0 <= x < width && 0 <= y < height implies #[trigger] pix(c, x, y) == 0u32 by {
            lemma_index_in_bounds(x, y, width as int, height as int);
        }
        c
    }

    pub fn width(&self) -> (w: usize)
        ensures
            w == self.width,
    {
        self.width
    }

    pub fn height(&self) -> (h: usize)
        ensures
            h == self.height,
    {
        self.height
    }

    /// The row-major buffer position of the cell at `(x, y)`.
    pub fn buffer_index(&self, x: usize, y: usize) -> (i: usize)
        requires
            self.wf(),
            x < self.width,
            y < self.height,
        ensures
            i == y * self.width + x,
            i < self.buf@.len(),
    {
        proof {
            lemma_index_in_bounds(x as int, y as int, self.width as int, self.height as int);
            assert(self.width * self.height <= CANVAS_LIMIT * CANVAS_LIMIT) by (nonlinear_arith)
                requires
                    self.width <= CANVAS_LIMIT,
                    self.height <= CANVAS_LIMIT,
            ;
        }
        y * self.width + x
    }

    /// Reads the pixel at `(x, y)`.
    pub fn get_pixel(&self, x: usize, y: usize) -> (v: u32)
        requires
            self.wf(),
            x < self.width,
            y < self.height,
        ensures
            v == pix(*self, x as int, y as int),
    {
        let i = self.buffer_index(x, y);
        self.buf[i]
    }

    /// Writes the pixel at `(x, y)`; every other pixel keeps its value.
    pub fn set_pixel(&mut self, x: usize, y: usize, v: u32)
        requires
            old(self).wf(),
            x < old(self).width,
            y < old(self).height,
        ensures
            final(self).wf(),
            final(self).width == old(self).width,
            final(self).height == old(self).height,
            pix(*final(self), x as int, y as int) == v,
            forall|dx: int, dy: int|
                0 <= dx < old(self).width && 0 <= dy < old(self).height && !(dx == x && dy == y)
                    ==> #[trigger] pix(*final(self), dx, dy) == pix(*old(self), dx, dy),
    {
        let i = self.buffer_index(x, y);
        self.buf[i] = v;
        proof {
            let w = self.width as int;
            let h = self.height as int;
            assert forall|dx: int, dy: int|
                0 <= dx < w && 0 <= dy < h && !(dx == x && dy == y) implies #[trigger] pix(
                *self,
                dx,
                dy,
            ) == pix(*old(self), dx, dy) by {
                lemma_index_in_bounds(dx, dy, w, h);
                lemma_index_injective(dx, dy, x as int, y as int, w);
            }
        }
    }
}

/// Row-major indices stay inside the buffer.
proof fn lemma_index_in_bounds(x: int, y: int, w: int, h: int)
    by (nonlinear_arith)
    requires
        0 <= x < w,
        0 <= y < h,
    ensures
        0 <= y * w + x < w * h,
{
}

/// Distinct cells have distinct row-major indices.
proof fn lemma_index_injective(x1: int, y1: int, x2: int, y2: int, w: int)
    by (nonlinear_arith)
    requires
        0 <= x1 < w,
        0 <= x2 < w,
        0 <= y1,
        0 <= y2,
        !(x1 == x2 && y1 == y2),
    ensures
        y1 * w + x1 != y2 * w + x2,
{
}

/// Integer linear interpolation: maps `x` from `[in_min, in_max]` onto
/// `[out_min, out_max]`.
pub open spec fn map_spec(x: int, in_min: int, in_max: int, out_min: int, out_max: int) -> int {
    (x - in_min) * (out_max - out_min) / (in_max - in_min) + out_min
}

/// Executable integer linear interpolation over non-decreasing ranges.
pub fn map(x: isize, in_min: isize, in_max: isize, out_min: isize, out_max: isize) -> (r: isize)
    requires
        in_min <= x <= in_max,
        in_min < in_max,
        out_min <= out_max,
        x - in_min <= 0x8000,
        in_max - in_min <= 0x8000,
        out_max - out_min <= 0x8000,
        -COORD_LIMIT <= out_min <= COORD_LIMIT,
    ensures
        r == map_spec(x as int, in_min as int, in_max as int, out_min as int, out_max as int),
        out_min <= r <= out_max,
        x < in_max && out_min < out_max ==> r < out_max,
{
    let dx = (x - in_min) as u64;
    let din = (in_max - in_min) as u64;
    let dout = (out_max - out_min) as u64;
    assert(dx * dout <= 0x8000 * 0x8000) by (nonlinear_arith)
        requires
            dx <= 0x8000,
            dout <= 0x8000,
    ;
    let q = dx * dout / din;
    assert(q <= dout) by (nonlinear_arith)
        requires
            q == (dx as int) * (dout as int) / (din as int),
            din > 0,
            dout >= 0,
            dx <= din,
    ;
    assert(dx < din && dout >= 1 ==> q < dout) by (nonlinear_arith)
        requires
            q == (dx as int) * (dout as int) / (din as int),
            din > 0,
            dout >= 0,
            dx <= din,
    ;
    q as isize + out_min
}

/// The value the rectangle copy writes at destination cell `(dx, dy)`.
pub open spec fn rect_blit_pix(
    dst0: Canvas,
    src: Canvas,
    rs: Rect,
    x: int,
    y: int,
    mode: BlendMode,
    c: (u8, u8, u8, u8),
    dx: int,
    dy: int,
) -> u32 {
    match trim_spec(rs, dst0.width as int, dst0.height as int, x, y) {
        Some((s, x1, y1)) => {
            if x1 <= dx < x1 + s.spec_width() && y1 <= dy < y1 + s.spec_height() {
                spec_blend(
                    pix(src, s.left + (dx - x1), s.top + (dy - y1)),
                    pix(dst0, dx, dy),
                    mode,
                    c,
                ) as u32
            } else {
                pix(dst0, dx, dy)
            }
        },
        None => pix(dst0, dx, dy),
    }
}

/// Copies the `rect_src` portion of `canv_src` to `(x, y)` on `canv_dst`,
/// after out-of-bounds trimming, blending each pixel under `mode` modulated
/// by `color_mod`.
pub fn draw_to_canvas_rect(
    canv_dst: &mut Canvas,
    canv_src: &Canvas,
    rect_src: &Rect,
    x: isize,
    y: isize,
    mode: BlendMode,
    color_mod: (u8, u8, u8, u8),
)
    requires
        old(canv_dst).wf(),
        canv_src.wf(),
        rect_src.wf(),
        rect_src.in_range(),
        0 <= rect_src.left,
        rect_src.right <= canv_src.width,
        0 <= rect_src.top,
        rect_src.bottom <= canv_src.height,
        -COORD_LIMIT <= x <= COORD_LIMIT,
        -COORD_LIMIT <= y <= COORD_LIMIT,
    ensures
        final(canv_dst).wf(),
        final(canv_dst).width == old(canv_dst).width,
        final(canv_dst).height == old(canv_dst).height,
        forall|dx: int, dy: int|
            0 <= dx < old(canv_dst).width && 0 <= dy < old(canv_dst).height ==> #[trigger] pix(
                *final(canv_dst),
                dx,
                dy,
            ) == rect_blit_pix(
                *old(canv_dst),
                *canv_src,
                *rect_src,
                x as int,
                y as int,
                mode,
                color_mod,
                dx,
                dy,
            ),
{
    let ghost dst0 = *canv_dst;
    let dw = canv_dst.width();
    let dh = canv_dst.height();
    let trimmed = trim_oob_rects(rect_src, dw as isize, dh as isize, x, y);
    let (s, x1, y1) = match trimmed {
        Some(t) => t,
        None => {
            return ;
        },
    };
    let sw = s.width() as usize;
    let sh = s.height() as usize;
    let x1u = x1 as usize;
    let y1u = y1 as usize;
    let sl = s.left as usize;
    let st = s.top as usize;

    let mut iy: usize = 0;
    while iy < sh
        invariant
            iy <= sh,
            canv_dst.wf(),
            canv_dst.width == dst0.width,
            canv_dst.height == dst0.height,
            canv_src.wf(),
            dst0.wf(),
            trim_spec(*rect_src, dst0.width as int, dst0.height as int, x as int, y as int)
                == Some((s, x1u as int, y1u as int)),
            sw == s.spec_width(),
            sh == s.spec_height(),
            sl == s.left,
            st == s.top,
            x1u + sw <= dst0.width,
            y1u + sh <= dst0.height,
            0 <= rect_src.left <= s.left,
            s.right <= rect_src.right <= canv_src.width,
            0 <= rect_src.top <= s.top,
            s.bottom <= rect_src.bottom <= canv_src.height,
            forall|dx: int, dy: int|
                0 <= dx < dst0.width && 0 <= dy < dst0.height ==> #[trigger] pix(
                    *canv_dst,
                    dx,
                    dy,
                ) == (if y1u <= dy < y1u + iy && x1u <= dx < x1u + sw {
                    spec_blend(
                        pix(*canv_src, s.left + (dx - x1u), s.top + (dy - y1u)),
                        pix(dst0, dx, dy),
                        mode,
                        color_mod,
                    ) as u32
                } else {
                    pix(dst0, dx, dy)
                }),
        decreases sh - iy,
    {
        let mut ix: usize = 0;
        while ix < sw
            invariant
                iy < sh,
                ix <= sw,
                canv_dst.wf(),
                canv_dst.width == dst0.width,
                canv_dst.height == dst0.height,
                canv_src.wf(),
                dst0.wf(),
                sw == s.spec_width(),
                sh == s.spec_height(),
                sl == s.left,
                st == s.top,
                x1u + sw <= dst0.width,
                y1u + sh <= dst0.height,
                0 <= rect_src.left <= s.left,
                s.right <= rect_src.right <= canv_src.width,
                0 <= rect_src.top <= s.top,
                s.bottom <= rect_src.bottom <= canv_src.height,
                forall|dx: int, dy: int|
                    0 <= dx < dst0.width && 0 <= dy < dst0.height ==> #[trigger] pix(
                        *canv_dst,
                        dx,
                        dy,
                    ) == (if (y1u <= dy < y1u + iy && x1u <= dx < x1u + sw) || (dy == y1u + iy
                        && x1u <= dx < x1u + ix) {
                        spec_blend(
                            pix(*canv_src, s.left + (dx - x1u), s.top + (dy - y1u)),
                            pix(dst0, dx, dy),
                            mode,
                            color_mod,
                        ) as u32
                    } else {
                        pix(dst0, dx, dy)
                    }),
            decreases sw - ix,
        {
            let sv = canv_src.get_pixel(sl + ix, st + iy);
            let dv = canv_dst.get_pixel(x1u + ix, y1u + iy);
            let blended = blend_pixel(sv, dv, mode, color_mod);
            canv_dst.set_pixel(x1u + ix, y1u + iy, blended);
            ix += 1;
        }
        iy += 1;
    }
}

/// The source column the scaled copy reads for destination column `dx`.
pub open spec fn scaled_src_x(rd: Rect, rs: Rect, t: Rect, x1: int, dx: int) -> int {
    map_spec(dx - x1 + t.left - rd.left, 0, rd.spec_width(), 0, rs.spec_width()) + rs.left
}

/// The source row the scaled copy reads for destination row `dy`.
pub open spec fn scaled_src_y(rd: Rect, rs: Rect, t: Rect, y1: int, dy: int) -> int {
    map_spec(dy - y1 + t.top - rd.top, 0, rd.spec_height(), 0, rs.spec_height()) + rs.top
}

/// The value the scaled copy writes at a destination cell whose previous
/// value is `prev`, on a `w` by `h` destination.
pub open spec fn scaled_pix_value(
    w: int,
    h: int,
    src: Canvas,
    rd: Rect,
    rs: Rect,
    mode: BlendMode,
    c: (u8, u8, u8, u8),
    dx: int,
    dy: int,
    prev: u32,
) -> u32 {
    match trim_spec(rd, w, h, rd.left as int, rd.top as int) {
        Some((t, x1, y1)) => {
            if x1 <= dx < x1 + t.spec_width() && y1 <= dy < y1 + t.spec_height() {
                spec_blend(
                    pix(src, scaled_src_x(rd, rs, t, x1, dx), scaled_src_y(rd, rs, t, y1, dy)),
                    prev,
                    mode,
                    c,
                ) as u32
            } else {
                prev
            }
        },
        None => prev,
    }
}

/// The value the scaled copy writes at destination cell `(dx, dy)`.
pub open spec fn scaled_blit_pix(
    dst0: Canvas,
    src: Canvas,
    rd: Rect,
    rs: Rect,
    mode: BlendMode,
    c: (u8, u8, u8, u8),
    dx: int,
    dy: int,
) -> u32 {
    scaled_pix_value(
        dst0.width as int,
        dst0.height as int,
        src,
        rd,
        rs,
        mode,
        c,
        dx,
        dy,
        pix(dst0, dx, dy),
    )
}

/// Maps the `rect_src` portion of `canv_src` onto the `rect_dst` portion of
/// `canv_dst` by integer linear interpolation, after out-of-bounds trimming;
/// interpolation is reparameterised on the trimmed destination so that edges
/// align.
pub fn draw_to_canvas_scaled(
    canv_dst: &mut Canvas,
    canv_src: &Canvas,
    rect_dst: &Rect,
    rect_src: &Rect,
    mode: BlendMode,
    color_mod: (u8, u8, u8, u8),
)
    requires
        old(canv_dst).wf(),
        canv_src.wf(),
        rect_dst.wf(),
        rect_dst.in_range(),
        rect_dst.spec_width() <= 0x8000,
        rect_dst.spec_height() <= 0x8000,
        rect_src.wf(),
        rect_src.in_range(),
        1 <= rect_src.spec_width(),
        1 <= rect_src.spec_height(),
        0 <= rect_src.left,
        rect_src.right <= canv_src.width,
        0 <= rect_src.top,
        rect_src.bottom <= canv_src.height,
    ensures
        final(canv_dst).wf(),
        final(canv_dst).width == old(canv_dst).width,
        final(canv_dst).height == old(canv_dst).height,
        forall|dx: int, dy: int|
            0 <= dx < old(canv_dst).width && 0 <= dy < old(canv_dst).height ==> #[trigger] pix(
                *final(canv_dst),
                dx,
                dy,
            ) == scaled_blit_pix(
                *old(canv_dst),
                *canv_src,
                *rect_dst,
                *rect_src,
                mode,
                color_mod,
                dx,
                dy,
            ),
{
    let ghost dst0 = *canv_dst;
    let dw = canv_dst.width();
    let dh = canv_dst.height();
    let trimmed = trim_oob_rects(rect_dst, dw as isize, dh as isize, rect_dst.left, rect_dst.top);
    let (t, x1, y1) = match trimmed {
        Some(tt) => tt,
        None => {
            return ;
        },
    };
    let tw = t.width() as usize;
    let th = t.height() as usize;
    let x1u = x1 as usize;
    let y1u = y1 as usize;

    let mut iy: usize = 0;
    while iy < th
        invariant
            iy <= th,
            canv_dst.wf(),
            canv_dst.width == dst0.width,
            canv_dst.height == dst0.height,
            canv_src.wf(),
            dst0.wf(),
            trim_spec(*rect_dst, dst0.width as int, dst0.height as int, rect_dst.left as int, rect_dst.top as int)
                == Some((t, x1u as int, y1u as int)),
            tw == t.spec_width(),
            th == t.spec_height(),
            x1u + tw <= dst0.width,
            y1u + th <= dst0.height,
            rect_dst.wf(),
            rect_dst.in_range(),
            rect_dst.spec_width() <= 0x8000,
            rect_dst.spec_height() <= 0x8000,
            rect_dst.left <= t.left,
            t.right <= rect_dst.right,
            rect_dst.top <= t.top,
            t.bottom <= rect_dst.bottom,
            1 <= t.spec_width() <= rect_dst.spec_width(),
            1 <= t.spec_height() <= rect_dst.spec_height(),
            rect_src.wf(),
            rect_src.in_range(),
            1 <= rect_src.spec_width(),
            1 <= rect_src.spec_height(),
            0 <= rect_src.left,
            rect_src.right <= canv_src.width,
            0 <= rect_src.top,
            rect_src.bottom <= canv_src.height,
            forall|dx: int, dy: int|
                0 <= dx < dst0.width && 0 <= dy < dst0.height ==> #[trigger] pix(
                    *canv_dst,
                    dx,
                    dy,
                ) == (if y1u <= dy < y1u + iy && x1u <= dx < x1u + tw {
                    spec_blend(
                        pix(
                            *canv_src,
                            scaled_src_x(*rect_dst, *rect_src, t, x1u as int, dx),
                            scaled_src_y(*rect_dst, *rect_src, t, y1u as int, dy),
                        ),
                        pix(dst0, dx, dy),
                        mode,
                        color_mod,
                    ) as u32
                } else {
                    pix(dst0, dx, dy)
                }),
        decreases th - iy,
    {
        let sy = map(
            iy as isize + (t.top - rect_dst.top),
            0,
            rect_dst.height(),
            0,
            rect_src.height(),
        ) + rect_src.top;
        let syu = sy as usize;
        let mut ix: usize = 0;
        while ix < tw
            invariant
                iy < th,
                ix <= tw,
                canv_dst.wf(),
                canv_dst.width == dst0.width,
                canv_dst.height == dst0.height,
                canv_src.wf(),
                dst0.wf(),
                tw == t.spec_width(),
                th == t.spec_height(),
                x1u + tw <= dst0.width,
                y1u + th <= dst0.height,
                rect_dst.wf(),
                rect_dst.in_range(),
                rect_dst.spec_width() <= 0x8000,
                rect_dst.spec_height() <= 0x8000,
                rect_dst.left <= t.left,
                t.right <= rect_dst.right,
                rect_dst.top <= t.top,
                t.bottom <= rect_dst.bottom,
                1 <= t.spec_width() <= rect_dst.spec_width(),
                1 <= t.spec_height() <= rect_dst.spec_height(),
                rect_src.wf(),
                rect_src.in_range(),
                1 <= rect_src.spec_width(),
                1 <= rect_src.spec_height(),
                0 <= rect_src.left,
                rect_src.right <= canv_src.width,
                0 <= rect_src.top,
                rect_src.bottom <= canv_src.height,
                syu == scaled_src_y(*rect_dst, *rect_src, t, y1u as int, y1u + iy),
                0 <= syu < canv_src.height,
                forall|dx: int, dy: int|
                    0 <= dx < dst0.width && 0 <= dy < dst0.height ==> #[trigger] pix(
                        *canv_dst,
                        dx,
                        dy,
                    ) == (if (y1u <= dy < y1u + iy && x1u <= dx < x1u + tw) || (dy == y1u + iy
                        && x1u <= dx < x1u + ix) {
                        spec_blend(
                            pix(
                                *canv_src,
                                scaled_src_x(*rect_dst, *rect_src, t, x1u as int, dx),
                                scaled_src_y(*rect_dst, *rect_src, t, y1u as int, dy),
                            ),
                            pix(dst0, dx, dy),
                            mode,
                            color_mod,
                        ) as u32
                    } else {
                        pix(dst0, dx, dy)
                    }),
            decreases tw - ix,
        {
            let sx = map(
                ix as isize + (t.left - rect_dst.left),
                0,
                rect_dst.width(),
                0,
                rect_src.width(),
            ) + rect_src.left;
            let sxu = sx as usize;
            let sv = canv_src.get_pixel(sxu, syu);
            let dv = canv_dst.get_pixel(x1u + ix, y1u + iy);
            let blended = blend_pixel(sv, dv, mode, color_mod);
            canv_dst.set_pixel(x1u + ix, y1u + iy, blended);
            ix += 1;
        }
        iy += 1;
    }
}

/// The value the scanline fill writes at destination cell `(dx, dy)`: the
/// filled band is inclusive of the trimmed rectangle's right and bottom
/// edges, clipped to the canvas.
pub open spec fn fill_pix(
    dst0: Canvas,
    r: Rect,
    mode: BlendMode,
    cmod: (u8, u8, u8, u8),
    clr: u32,
    dx: int,
    dy: int,
) -> u32 {
    match trim_spec(r, dst0.width as int, dst0.height as int, r.left as int, r.top as int) {
        Some((s, x1, y1)) => {
            if s.left <= dx <= s.right && s.top <= dy <= s.bottom {
                spec_blend(clr, pix(dst0, dx, dy), mode, cmod) as u32
            } else {
                pix(dst0, dx, dy)
            }
        },
        None => pix(dst0, dx, dy),
    }
}

/// Fills the `rect_src` region of `canv_dst` with `color` (given as `(r, g,
/// b, a)` bytes), blending under `blend_mode` modulated by `color_mod`. The
/// filled band includes the trimmed rectangle's right and bottom edges.
pub fn draw_to_canvas_fill(
    canv_dst: &mut Canvas,
    rect_src: &Rect,
    blend_mode: BlendMode,
    color_mod: (u8, u8, u8, u8),
    color: (u8, u8, u8, u8),
)
    requires
        old(canv_dst).wf(),
        rect_src.wf(),
        rect_src.in_range(),
    ensures
        final(canv_dst).wf(),
        final(canv_dst).width == old(canv_dst).width,
        final(canv_dst).height == old(canv_dst).height,
        forall|dx: int, dy: int|
            0 <= dx < old(canv_dst).width && 0 <= dy < old(canv_dst).height ==> #[trigger] pix(
                *final(canv_dst),
                dx,
                dy,
            ) == fill_pix(
                *old(canv_dst),
                *rect_src,
                blend_mode,
                color_mod,
                argb_of(color),
                dx,
                dy,
            ),
{
    let ghost dst0 = *canv_dst;
    let clr = pack_color(color);
    let dw = canv_dst.width();
    let dh = canv_dst.height();
    let trimmed = trim_oob_rects(rect_src, dw as isize, dh as isize, rect_src.left, rect_src.top);
    let (s, _x1, _y1) = match trimmed {
        Some(t) => t,
        None => {
            return ;
        },
    };
    let xs = s.left as usize;
    let ys = s.top as usize;
    let xe = if (s.right as usize) < dw - 1 {
        s.right as usize
    } else {
        dw - 1
    };
    let ye = if (s.bottom as usize) < dh - 1 {
        s.bottom as usize
    } else {
        dh - 1
    };

    let mut yv: usize = ys;
    while yv <= ye
        invariant
            ys <= yv <= ye + 1,
            canv_dst.wf(),
            canv_dst.width == dst0.width,
            canv_dst.height == dst0.height,
            dst0.wf(),
            trim_spec(*rect_src, dst0.width as int, dst0.height as int, rect_src.left as int, rect_src.top as int)
                matches Some(tt) && tt.0 == s,
            xs == s.left,
            ys == s.top,
            0 <= s.left <= s.right,
            0 <= s.top <= s.bottom,
            xe == (if s.right < dst0.width { s.right as int } else { dst0.width - 1 }),
            ye == (if s.bottom < dst0.height { s.bottom as int } else { dst0.height - 1 }),
            xs <= xe < dst0.width,
            ye < dst0.height,
            clr == argb_of(color),
            forall|dx: int, dy: int|
                0 <= dx < dst0.width && 0 <= dy < dst0.height ==> #[trigger] pix(
                    *canv_dst,
                    dx,
                    dy,
                ) == (if xs <= dx <= xe && ys <= dy < yv {
                    spec_blend(clr, pix(dst0, dx, dy), blend_mode, color_mod) as u32
                } else {
                    pix(dst0, dx, dy)
                }),
        decreases ye + 1 - yv,
    {
        let mut xv: usize = xs;
        while xv <= xe
            invariant
                ys <= yv <= ye,
                xs <= xv <= xe + 1,
                canv_dst.wf(),
                canv_dst.width == dst0.width,
                canv_dst.height == dst0.height,
                dst0.wf(),
                xe < dst0.width,
                ye < dst0.height,
                forall|dx: int, dy: int|
                    0 <= dx < dst0.width && 0 <= dy < dst0.height ==> #[trigger] pix(
                        *canv_dst,
                        dx,
                        dy,
                    ) == (if (xs <= dx <= xe && ys <= dy < yv) || (dy == yv && xs <= dx < xv) {
                        spec_blend(clr, pix(dst0, dx, dy), blend_mode, color_mod) as u32
                    } else {
                        pix(dst0, dx, dy)
                    }),
            decreases xe + 1 - xv,
        {
            let dv = canv_dst.get_pixel(xv, yv);
            let blended = blend_pixel(clr, dv, blend_mode, color_mod);
            canv_dst.set_pixel(xv, yv, blended);
            xv += 1;
        }
        yv += 1;
    }
    assert forall|dx: int, dy: int|
        0 <= dx < dst0.width && 0 <= dy < dst0.height implies #[trigger] pix(*canv_dst, dx, dy)
        == fill_pix(dst0, *rect_src, blend_mode, color_mod, argb_of(color), dx, dy) by {}
}

/// The ARGB word for an `(r, g, b, a)` byte colour.
pub open spec fn argb_of(c: (u8, u8, u8, u8)) -> u32 {
    ((c.3 as int) * 16777216 + (c.0 as int) * 65536 + (c.1 as int) * 256 + (c.2 as int)) as u32
}

/// Packs an `(r, g, b, a)` byte colour into its ARGB word.
pub fn pack_color(c: (u8, u8, u8, u8)) -> (v: u32)
    ensures
        v == argb_of(c),
{
    (c.3 as u32) * 16777216 + (c.0 as u32) * 65536 + (c.1 as u32) * 256 + (c.2 as u32)
}

/// `b` is the row-major BGRA byte serialisation of `c`.
pub open spec fn bgra_matches(b: Seq<u8>, c: Canvas) -> bool {
    &&& b.len() == 4 * c.buf@.len()
    &&& forall|i: int|
        0 <= i < c.buf@.len() ==> {
            &&& #[trigger] b[4 * i] == chan_b(c.buf@[i]) as u8
            &&& b[4 * i + 1] == chan_g(c.buf@[i]) as u8
            &&& b[4 * i + 2] == chan_r(c.buf@[i]) as u8
            &&& b[4 * i + 3] == chan_a(c.buf@[i]) as u8
        }
}

/// Serialises a canvas into bytes in BGRA order, row-major: the layout the
/// window surface expects when the finished frame is pushed out.
pub fn canvas_to_bgra_bytes(c: &Canvas) -> (out: Vec<u8>)
    requires
        c.wf(),
    ensures
        bgra_matches(out@, *c),
{
    let n = c.buf.len();
    assert(c.width * c.height <= CANVAS_LIMIT * CANVAS_LIMIT) by (nonlinear_arith)
        requires
            c.width <= CANVAS_LIMIT,
            c.height <= CANVAS_LIMIT,
    ;
    let mut out: Vec<u8> = Vec::new();
    let mut i: usize = 0;
    while i < n
        invariant
            i <= n,
            n == c.buf@.len(),
            n <= CANVAS_LIMIT * CANVAS_LIMIT,
            out@.len() == 4 * i,
            forall|k: int|
                0 <= k < i ==> {
                    &&& #[trigger] out@[4 * k] == chan_b(c.buf@[k]) as u8
                    &&& out@[4 * k + 1] == chan_g(c.buf@[k]) as u8
                    &&& out@[4 * k + 2] == chan_r(c.buf@[k]) as u8
                    &&& out@[4 * k + 3] == chan_a(c.buf@[k]) as u8
                },
        decreases n - i,
    {
        let v = c.buf[i];
        let ghost out0 = out@;
        let b0 = (v % 256) as u8;
        let b1 = ((v / 256) % 256) as u8;
        let b2 = ((v / 65536) % 256) as u8;
        let b3 = ((v / 16777216) % 256) as u8;
        out.push(b0);
        out.push(b1);
        out.push(b2);
        out.push(b3);
        proof {
            assert(b0 as int == chan_b(v) && b1 as int == chan_g(v) && b2 as int == chan_r(v)
                && b3 as int == chan_a(v));
            assert(out@ == out0 + seq![b0, b1, b2, b3]);
            assert forall|k: int| 0 <= k < i + 1 implies {
                &&& #[trigger] out@[4 * k] == chan_b(c.buf@[k]) as u8
                &&& out@[4 * k + 1] == chan_g(c.buf@[k]) as u8
                &&& out@[4 * k + 2] == chan_r(c.buf@[k]) as u8
                &&& out@[4 * k + 3] == chan_a(c.buf@[k]) as u8
            } by {
                if k < i {
                    assert(out@[4 * k] == out0[4 * k]);
                    assert(out@[4 * k + 1] == out0[4 * k + 1]);
                    assert(out@[4 * k + 2] == out0[4 * k + 2]);
                    assert(out@[4 * k + 3] == out0[4 * k + 3]);
                } else {
                    assert(out@[4 * k] == b0);
                    assert(out@[4 * k + 1] == b1);
                    assert(out@[4 * k + 2] == b2);
                    assert(out@[4 * k + 3] == b3);
                }
            }
        }
        i += 1;
    }
    out
}

} // verus!
