//! The CPU rendering backend: a main canvas, a table of texture canvases,
//! a selectable render target and a global blend state.
//!
//! Textures are backend-local handles into the table, so a handle can only
//! ever be used with the backend that created it; a stale handle surfaces as
//! a typed error instead of undefined behaviour.

use vstd::prelude::*;
use vstd::pervasive::VecAdditionalExecFns;

use crate::batch::{cmd_wf, cmds_pix, SpriteBatch};
use crate::blend::BlendMode;
use crate::canvas::{
    argb_of, bgra_matches, canvas_to_bgra_bytes, draw_to_canvas_fill, fill_pix, pack_color, pix,
    Canvas, CANVAS_LIMIT,
};
use crate::rect::{Rect, COORD_LIMIT};

verus! {

/// A recoverable rendering fault.
#[derive(Clone, Copy, PartialEq, Eq, Structural, Debug)]
pub enum RenderError {
    /// The texture handle does not belong to this backend.
    InvalidTexture,
    /// The render target would alias the texture being drawn.
    TargetIsSource,
}

/// The software rendering backend.
pub struct SoftwareRenderer {
    pub main: Canvas,
    pub textures: Vec<Canvas>,
    pub target: Option<usize>,
    pub blend_mode: BlendMode,
}

/// The canvas the renderer currently draws to.
pub open spec fn target_canvas(s: SoftwareRenderer) -> Canvas {
    match s.target {
        Option::None => s.main,
        Option::Some(i) => s.textures@[i as int],
    }
}

impl SoftwareRenderer {
    /// Every canvas is well-formed and the target handle, if any, is live.
    pub open spec fn wf(self) -> bool {
        &&& self.main.wf()
        &&& forall|i: int| 0 <= i < self.textures@.len() ==> (#[trigger] self.textures@[i]).wf()
        &&& match self.target {
            Option::None => true,
            Option::Some(i) => i < self.textures@.len(),
        }
    }

    /// A fresh backend drawing to a main canvas of the given size, with
    /// alpha blending, as the compositor expects on startup.
    pub fn new(width: u16, height: u16) -> (s: SoftwareRenderer)
        requires
            width <= 0x8000,
            height <= 0x8000,
        ensures
            s.wf(),
            s.main.width == width,
            s.main.height == height,
            s.textures@.len() == 0,
            s.target is None,
            s.blend_mode == BlendMode::Alpha,
            forall|x: int, y: int|
                0 <= x < width && 0 <= y < height ==> #[trigger] pix(s.main, x, y) == 0u32,
    {
        SoftwareRenderer {
            main: Canvas::new(width as usize, height as usize),
            textures: Vec::new(),
            target: Option::None,
            blend_mode: BlendMode::Alpha,
        }
    }

    /// The backend's name.
    pub fn renderer_name(&self) -> (r: &'static str)
        ensures
            r@ == "Software"@,
    {
        "Software"
    }

    /// Allocates a render-target-capable texture, cleared to transparent
    /// black, and returns its handle.
    pub fn create_texture_mutable(&mut self, width: u16, height: u16) -> (h: usize)
        requires
            old(self).wf(),
            width <= 0x8000,
            height <= 0x8000,
        ensures
            final(self).wf(),
            h == old(self).textures@.len(),
            final(self).textures@.len() == old(self).textures@.len() + 1,
            forall|i: int|
                0 <= i < old(self).textures@.len() ==> final(self).textures@[i] == old(self).textures@[i],
            final(self).textures@[h as int].width == width,
            final(self).textures@[h as int].height == height,
            forall|x: int, y: int|
                0 <= x < width && 0 <= y < height ==> #[trigger] pix(
                    final(self).textures@[h as int],
                    x,
                    y,
                ) == 0u32,
            final(self).main == old(self).main,
            final(self).target == old(self).target,
            final(self).blend_mode == old(self).blend_mode,
    {
        let h = self.textures.len();
        self.textures.push(Canvas::new(width as usize, height as usize));
        h
    }

    /// Uploads RGBA8 pixel data as a new immutable texture and returns its
    /// handle; each pixel is repacked into the canvas's ARGB word order.
    pub fn create_texture(&mut self, width: u16, height: u16, data: &Vec<u8>) -> (h: usize)
        requires
            old(self).wf(),
            width <= 0x8000,
            height <= 0x8000,
            data@.len() == 4 * width * height,
        ensures
            final(self).wf(),
            h == old(self).textures@.len(),
            final(self).textures@.len() == old(self).textures@.len() + 1,
            forall|i: int|
                0 <= i < old(self).textures@.len() ==> final(self).textures@[i] == old(self).textures@[i],
            final(self).textures@[h as int].width == width,
            final(self).textures@[h as int].height == height,
            forall|i: int|
                0 <= i < width * height ==> #[trigger] final(self).textures@[h as int].buf@[i]
                    == argb_of((data@[4 * i], data@[4 * i + 1], data@[4 * i + 2], data@[4 * i + 3])),
            final(self).main == old(self).main,
            final(self).target == old(self).target,
            final(self).blend_mode == old(self).blend_mode,
    {
        assert(width * height <= CANVAS_LIMIT * CANVAS_LIMIT) by (nonlinear_arith)
            requires
                width <= CANVAS_LIMIT,
                height <= CANVAS_LIMIT,
        ;
        let total = (width as usize) * (height as usize);
        let dlen = data.len();
        proof {
            assert(4 * (total as int) == 4 * (width as int) * (height as int)) by (nonlinear_arith)
                requires
                    total == (width as int) * (height as int),
            ;
        }
        let mut buf: Vec<u32> = Vec::new();
        let mut i: usize = 0;
        while i < total
            invariant
                i <= total,
                total == width * height,
                data@.len() == 4 * total,
                dlen == data@.len(),
                buf@.len() == i,
                forall|k: int|
                    0 <= k < i ==> #[trigger] buf@[k] == argb_of(
                        (data@[4 * k], data@[4 * k + 1], data@[4 * k + 2], data@[4 * k + 3]),
                    ),
            decreases total - i,
        {
            let r = data[4 * i] as u32;
            let g = data[4 * i + 1] as u32;
            let b = data[4 * i + 2] as u32;
            let a = data[4 * i + 3] as u32;
            let argb = a * 16777216 + r * 65536 + g * 256 + b;
            buf.push(argb);
            i += 1;
        }
        let c = Canvas { width: width as usize, height: height as usize, buf };
        let h = self.textures.len();
        self.textures.push(c);
        h
    }

    /// Switches the global blend equation.
    pub fn set_blend_mode(&mut self, blend: BlendMode)
        ensures
            final(self).blend_mode == blend,
            final(self).main == old(self).main,
            final(self).textures == old(self).textures,
            final(self).target == old(self).target,
    {
        self.blend_mode = blend;
    }

    /// Directs drawing at a texture's canvas, or back at the main canvas.
    /// Fails exactly when the handle does not belong to this backend.
    pub fn set_render_target(&mut self, texture: Option<usize>) -> (r: Result<(), RenderError>)
        requires
            old(self).wf(),
        ensures
            final(self).wf(),
            final(self).main == old(self).main,
            final(self).textures == old(self).textures,
            final(self).blend_mode == old(self).blend_mode,
            match texture {
                Option::None => r is Ok && final(self).target is None,
                Option::Some(i) => {
                    if i < old(self).textures@.len() {
                        r is Ok && final(self).target == Some(i)
                    } else {
                        r == Err::<(), RenderError>(RenderError::InvalidTexture) && final(self).target == old(self).target
                    }
                },
            },
    {
        match texture {
            Option::None => {
                self.target = Option::None;
                Ok(())
            },
            Option::Some(i) => {
                if i < self.textures.len() {
                    self.target = Option::Some(i);
                    Ok(())
                } else {
                    Err(RenderError::InvalidTexture)
                }
            },
        }
    }

    /// Fills the `rect` region of the current target with `color`, blended
    /// under the current blend mode with an identity colour modulation.
    pub fn draw_rect(&mut self, rect: &Rect, color: (u8, u8, u8, u8)) -> (r: Result<
        (),
        RenderError,
    >)
        requires
            old(self).wf(),
            rect.wf(),
            rect.in_range(),
        ensures
            final(self).wf(),
            r is Ok,
            final(self).target == old(self).target,
            final(self).blend_mode == old(self).blend_mode,
            final(self).textures@.len() == old(self).textures@.len(),
            target_canvas(*final(self)).width == target_canvas(*old(self)).width,
            target_canvas(*final(self)).height == target_canvas(*old(self)).height,
            forall|dx: int, dy: int|
                0 <= dx < target_canvas(*old(self)).width && 0 <= dy < target_canvas(
                    *old(self),
                ).height ==> #[trigger] pix(target_canvas(*final(self)), dx, dy) == fill_pix(
                    target_canvas(*old(self)),
                    *rect,
                    old(self).blend_mode,
                    (255u8, 255u8, 255u8, 255u8),
                    argb_of(color),
                    dx,
                    dy,
                ),
            match old(self).target {
                Option::None => final(self).textures == old(self).textures,
                Option::Some(i) => final(self).main == old(self).main && forall|j: int|
                    0 <= j < old(self).textures@.len() && j != i ==> final(self).textures@[j] == old(self).textures@[j],
            },
    {
        let mode = self.blend_mode;
        match self.target {
            Option::None => {
                draw_to_canvas_fill(&mut self.main, rect, mode, (255, 255, 255, 255), color);
            },
            Option::Some(i) => {
                let c = &mut self.textures[i];
                draw_to_canvas_fill(c, rect, mode, (255, 255, 255, 255), color);
            },
        }
        Ok(())
    }

    /// Fills the whole current target with `color` under the current blend
    /// mode.
    pub fn clear(&mut self, color: (u8, u8, u8, u8))
        requires
            old(self).wf(),
        ensures
            final(self).wf(),
            final(self).target == old(self).target,
            final(self).blend_mode == old(self).blend_mode,
            final(self).textures@.len() == old(self).textures@.len(),
            target_canvas(*final(self)).width == target_canvas(*old(self)).width,
            target_canvas(*final(self)).height == target_canvas(*old(self)).height,
            forall|dx: int, dy: int|
                0 <= dx < target_canvas(*old(self)).width && 0 <= dy < target_canvas(
                    *old(self),
                ).height ==> #[trigger] pix(target_canvas(*final(self)), dx, dy) == fill_pix(
                    target_canvas(*old(self)),
                    (Rect {
                        left: 0,
                        top: 0,
                        right: target_canvas(*old(self)).width as isize,
                        bottom: target_canvas(*old(self)).height as isize,
                    }),
                    old(self).blend_mode,
                    (255u8, 255u8, 255u8, 255u8),
                    argb_of(color),
                    dx,
                    dy,
                ),
            match old(self).target {
                Option::None => final(self).textures == old(self).textures,
                Option::Some(i) => final(self).main == old(self).main && forall|j: int|
                    0 <= j < old(self).textures@.len() && j != i ==> final(self).textures@[j] == old(self).textures@[j],
            },
    {
        let (w, h) = match self.target {
            Option::None => (self.main.width(), self.main.height()),
            Option::Some(i) => {
                let c = &self.textures[i];
                (c.width(), c.height())
            },
        };
        let rect = Rect { left: 0, top: 0, right: w as isize, bottom: h as isize };
        let _ = self.draw_rect(&rect, color);
    }

    /// Draws a one-pixel rectangle outline in `color` directly onto the main
    /// canvas, without blending; the overhang outside the canvas is clipped.
    pub fn draw_outline_rect(&mut self, rect: &Rect, _line_width: usize, color: (u8, u8, u8, u8)) -> (r:
        Result<(), RenderError>)
        requires
            old(self).wf(),
            rect.wf(),
            rect.in_range(),
        ensures
            final(self).wf(),
            r is Ok,
            final(self).textures == old(self).textures,
            final(self).target == old(self).target,
            final(self).blend_mode == old(self).blend_mode,
            final(self).main.width == old(self).main.width,
            final(self).main.height == old(self).main.height,
            forall|x: int, y: int|
                0 <= x < old(self).main.width && 0 <= y < old(self).main.height ==> #[trigger] pix(
                    final(self).main,
                    x,
                    y,
                ) == (if on_outline(*rect, x, y) {
                    argb_of(color)
                } else {
                    pix(old(self).main, x, y)
                }),
    {
        let clr = pack_color(color);
        let w = self.main.width();
        let h = self.main.height();
        let ghost m0 = self.main;
        draw_row(&mut self.main, rect.left, rect.right, rect.top, clr);
        draw_row(&mut self.main, rect.left, rect.right, rect.bottom, clr);
        draw_col(&mut self.main, rect.top, rect.bottom, rect.left, clr);
        draw_col(&mut self.main, rect.top, rect.bottom, rect.right, clr);
        proof {
            assert forall|x: int, y: int|
                0 <= x < m0.width && 0 <= y < m0.height implies #[trigger] pix(self.main, x, y) == (
            if on_outline(*rect, x, y) {
                argb_of(color)
            } else {
                pix(m0, x, y)
            }) by {}
        }
        Ok(())
    }

    /// Draws every command of `batch`, sourced from texture `tex`, onto the
    /// current target under the current blend mode, draining the batch.
    /// Fails exactly when the handle does not belong to this backend, or
    /// when the current target is the texture itself.
    pub fn draw_batch(&mut self, batch: &mut SpriteBatch, tex: usize) -> (r: Result<
        (),
        RenderError,
    >)
        requires
            old(self).wf(),
            tex < old(self).textures@.len() ==> forall|i: int|
                0 <= i < old(batch).commands@.len() ==> cmd_wf(
                    #[trigger] old(batch).commands@[i],
                    old(self).textures@[tex as int],
                ),
        ensures
            final(self).wf(),
            final(self).target == old(self).target,
            final(self).blend_mode == old(self).blend_mode,
            final(self).textures@.len() == old(self).textures@.len(),
            final(batch).width == old(batch).width,
            final(batch).height == old(batch).height,
            old(self).target == Some(tex) ==> r == Err::<(), RenderError>(
                RenderError::TargetIsSource,
            ) && *final(self) == *old(self) && final(batch).commands@ == old(batch).commands@,
            if old(self).target != Some(tex) && tex < old(self).textures@.len() {
                r is Ok && final(batch).commands@ =~= Seq::empty() && target_canvas(
                    *final(self),
                ).width == target_canvas(*old(self)).width && target_canvas(*final(self)).height
                    == target_canvas(*old(self)).height && (forall|dx: int, dy: int|
                    0 <= dx < target_canvas(*old(self)).width && 0 <= dy < target_canvas(
                        *old(self),
                    ).height ==> #[trigger] pix(target_canvas(*final(self)), dx, dy) == cmds_pix(
                        old(self).textures@[tex as int],
                        old(batch).commands@,
                        old(self).blend_mode,
                        target_canvas(*old(self)).width as int,
                        target_canvas(*old(self)).height as int,
                        dx,
                        dy,
                        pix(target_canvas(*old(self)), dx, dy),
                    )) && (match old(self).target {
                    Option::None => final(self).textures == old(self).textures,
                    Option::Some(i) => final(self).main == old(self).main && forall|j: int|
                        0 <= j < old(self).textures@.len() && j != i ==> final(self).textures@[j]
                            == old(self).textures@[j],
                })
            } else {
                old(self).target == Some(tex) || (r == Err::<(), RenderError>(
                    RenderError::InvalidTexture,
                ) && *final(self) == *old(self) && final(batch).commands@ == old(
                    batch,
                ).commands@)
            },
    {
        match self.target {
            Option::Some(t) if t == tex => {
                return Err(RenderError::TargetIsSource);
            },
            _ => {},
        }
        if tex >= self.textures.len() {
            return Err(RenderError::InvalidTexture);
        }
        let mode = self.blend_mode;
        match self.target {
            Option::None => {
                let src = &self.textures[tex];
                batch.draw_onto(src, &mut self.main, mode);
            },
            Option::Some(i) => {
                let mut tmp = Canvas { width: 0, height: 0, buf: Vec::new() };
                self.textures.set_and_swap(i, &mut tmp);
                let src = &self.textures[tex];
                batch.draw_onto(src, &mut tmp, mode);
                self.textures.set_and_swap(i, &mut tmp);
            },
        }
        Ok(())
    }

    /// Sets or clears the scissor rectangle. The CPU compositing path does
    /// not scissor: the call is accepted and ignored.
    pub fn set_clip_rect(&mut self, _rect: Option<Rect>) -> (r: Result<(), RenderError>)
        ensures
            r is Ok,
            *final(self) == *old(self),
    {
        Ok(())
    }

    /// Composites the finished frame for the window: reallocates the main
    /// canvas if the window has been resized, and hands back the frame in
    /// BGRA byte order. While the game is suspended nothing is touched and
    /// nothing is handed out.
    pub fn present(&mut self, window_w: u16, window_h: u16, suspended: bool) -> (out: Option<
        Vec<u8>,
    >)
        requires
            old(self).wf(),
            window_w <= 0x8000,
            window_h <= 0x8000,
        ensures
            final(self).wf(),
            suspended ==> out is None && *final(self) == *old(self),
            !suspended ==> {
                &&& final(self).textures == old(self).textures
                &&& final(self).target == old(self).target
                &&& final(self).blend_mode == old(self).blend_mode
                &&& final(self).main.width == window_w
                &&& final(self).main.height == window_h
                &&& (old(self).main.width == window_w && old(self).main.height == window_h
                    ==> final(self).main == old(self).main)
            },
            !suspended ==> out is Some,
            !suspended ==> (out matches Some(b) ==> bgra_matches(b@, final(self).main)),
    {
        if suspended {
            return Option::None;
        }
        if self.main.width() != window_w as usize || self.main.height() != window_h as usize {
            self.main = Canvas::new(window_w as usize, window_h as usize);
        }
        Option::Some(canvas_to_bgra_bytes(&self.main))
    }
}

/// The cell `(x, y)` lies on the one-pixel outline of `r`.
pub open spec fn on_outline(r: Rect, x: int, y: int) -> bool {
    ||| (r.left <= x <= r.right && (y == r.top || y == r.bottom))
    ||| (r.top <= y <= r.bottom && (x == r.left || x == r.right))
}

/// Writes `clr` along the horizontal segment `[x0, x1]` at row `yv`, clipped
/// to the canvas.
fn draw_row(c: &mut Canvas, x0: isize, x1: isize, yv: isize, clr: u32)
    requires
        old(c).wf(),
        x0 <= x1,
        -COORD_LIMIT <= x0 <= COORD_LIMIT,
        -COORD_LIMIT <= x1 <= COORD_LIMIT,
        -COORD_LIMIT <= yv <= COORD_LIMIT,
    ensures
        final(c).wf(),
        final(c).width == old(c).width,
        final(c).height == old(c).height,
        forall|x: int, y: int|
            0 <= x < old(c).width && 0 <= y < old(c).height ==> #[trigger] pix(*final(c), x, y) == (
            if y == yv && x0 <= x <= x1 {
                clr
            } else {
                pix(*old(c), x, y)
            }),
{
    let ghost c0 = *c;
    let w = c.width();
    let h = c.height();
    if w == 0 || h == 0 || yv < 0 || yv >= h as isize || x1 < 0 || x0 >= w as isize {
        return ;
    }
    let yu = yv as usize;
    let xs: usize = if x0 < 0 {
        0
    } else {
        x0 as usize
    };
    let xe: usize = if x1 >= w as isize {
        w - 1
    } else {
        x1 as usize
    };
    let mut xv: usize = xs;
    while xv <= xe
        invariant
            xs <= xv <= xe + 1,
            xe < c0.width,
            yu < c0.height,
            yu == yv,
            xs == (if x0 < 0 { 0 } else { x0 as int }),
            xe == (if x1 >= c0.width { c0.width - 1 } else { x1 as int }),
            c.wf(),
            c.width == c0.width,
            c.height == c0.height,
            c0.wf(),
            forall|x: int, y: int|
                0 <= x < c0.width && 0 <= y < c0.height ==> #[trigger] pix(*c, x, y) == (if y == yv
                    && xs <= x < xv {
                    clr
                } else {
                    pix(c0, x, y)
                }),
        decreases xe + 1 - xv,
    {
        c.set_pixel(xv, yu, clr);
        xv += 1;
    }
}

/// Writes `clr` along the vertical segment `[y0, y1]` at column `xv`,
/// clipped to the canvas.
fn draw_col(c: &mut Canvas, y0: isize, y1: isize, xv: isize, clr: u32)
    requires
        old(c).wf(),
        y0 <= y1,
        -COORD_LIMIT <= y0 <= COORD_LIMIT,
        -COORD_LIMIT <= y1 <= COORD_LIMIT,
        -COORD_LIMIT <= xv <= COORD_LIMIT,
    ensures
        final(c).wf(),
        final(c).width == old(c).width,
        final(c).height == old(c).height,
        forall|x: int, y: int|
            0 <= x < old(c).width && 0 <= y < old(c).height ==> #[trigger] pix(*final(c), x, y) == (
            if x == xv && y0 <= y <= y1 {
                clr
            } else {
                pix(*old(c), x, y)
            }),
{
    let ghost c0 = *c;
    let w = c.width();
    let h = c.height();
    if w == 0 || h == 0 || xv < 0 || xv >= w as isize || y1 < 0 || y0 >= h as isize {
        return ;
    }
    let xu = xv as usize;
    let ys: usize = if y0 < 0 {
        0
    } else {
        y0 as usize
    };
    let ye: usize = if y1 >= h as isize {
        h - 1
    } else {
        y1 as usize
    };
    let mut yv: usize = ys;
    while yv <= ye
        invariant
            ys <= yv <= ye + 1,
            ye < c0.height,
            xu < c0.width,
            xu == xv,
            ys == (if y0 < 0 { 0 } else { y0 as int }),
            ye == (if y1 >= c0.height { c0.height - 1 } else { y1 as int }),
            c.wf(),
            c.width == c0.width,
            c.height == c0.height,
            c0.wf(),
            forall|x: int, y: int|
                0 <= x < c0.width && 0 <= y < c0.height ==> #[trigger] pix(*c, x, y) == (if x == xv
                    && ys <= y < yv {
                    clr
                } else {
                    pix(c0, x, y)
                }),
        decreases ye + 1 - yv,
    {
        c.set_pixel(xu, yv, clr);
        yv += 1;
    }
}

} // verus!
