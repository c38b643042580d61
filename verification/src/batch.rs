//! Sprite batches: a per-texture command list of rect-to-rect blits,
//! accumulated between frames and drained onto the current render target.

use vstd::prelude::*;

use crate::blend::BlendMode;
use crate::canvas::{draw_to_canvas_scaled, pix, scaled_pix_value, Canvas};
use crate::rect::{Rect, COORD_LIMIT};

verus! {

/// One queued blit. Source rectangles are integer pixel coordinates in the
/// texture; destinations are coordinates in the render target.
#[derive(Clone, Copy, PartialEq, Eq, Debug)]
pub enum SpriteBatchCommand {
    DrawRect(Rect, Rect),
    DrawRectFlip(Rect, Rect, bool, bool),
    DrawRectTinted(Rect, Rect, (u8, u8, u8, u8)),
    DrawRectFlipTinted(Rect, Rect, bool, bool, (u8, u8, u8, u8)),
}

/// A texture's accumulated draw-rect command queue.
pub struct SpriteBatch {
    pub width: u16,
    pub height: u16,
    pub commands: Vec<SpriteBatchCommand>,
}

/// The source and destination rectangles a command would blit, or `None` for
/// the flipped forms, which the CPU path leaves undrawn.
pub open spec fn cmd_rects(cmd: SpriteBatchCommand) -> Option<(Rect, Rect, (u8, u8, u8, u8))> {
    match cmd {
        SpriteBatchCommand::DrawRect(src, dst) => Some((src, dst, (255u8, 255u8, 255u8, 255u8))),
        SpriteBatchCommand::DrawRectTinted(src, dst, c) => Some((src, dst, c)),
        SpriteBatchCommand::DrawRectFlip(_, _, _, _) => None,
        SpriteBatchCommand::DrawRectFlipTinted(_, _, _, _, _) => None,
    }
}

/// A command the CPU path can apply against the given texture canvas.
pub open spec fn cmd_wf(cmd: SpriteBatchCommand, tex: Canvas) -> bool {
    match cmd_rects(cmd) {
        Some((src, dst, _)) => {
            &&& src.wf()
            &&& src.in_range()
            &&& 1 <= src.spec_width()
            &&& 1 <= src.spec_height()
            &&& 0 <= src.left
            &&& src.right <= tex.width
            &&& 0 <= src.top
            &&& src.bottom <= tex.height
            &&& dst.wf()
            &&& dst.in_range()
            &&& dst.spec_width() <= 0x8000
            &&& dst.spec_height() <= 0x8000
        },
        None => true,
    }
}

/// The value one command leaves at a cell whose previous value is `prev`.
pub open spec fn cmd_pix(
    tex: Canvas,
    cmd: SpriteBatchCommand,
    mode: BlendMode,
    w: int,
    h: int,
    dx: int,
    dy: int,
    prev: u32,
) -> u32 {
    match cmd_rects(cmd) {
        Some((src, dst, c)) => scaled_pix_value(w, h, tex, dst, src, mode, c, dx, dy, prev),
        None => prev,
    }
}

/// The value a command sequence leaves at a cell whose starting value is
/// `base`, applying the commands in insertion order.
pub open spec fn cmds_pix(
    tex: Canvas,
    cmds: Seq<SpriteBatchCommand>,
    mode: BlendMode,
    w: int,
    h: int,
    dx: int,
    dy: int,
    base: u32,
) -> u32
    decreases cmds.len(),
{
    if cmds.len() == 0 {
        base
    } else {
        cmd_pix(
            tex,
            cmds.last(),
            mode,
            w,
            h,
            dx,
            dy,
            cmds_pix(tex, cmds.drop_last(), mode, w, h, dx, dy, base),
        )
    }
}

/// The commands of a horizontal strip: `n` copies of `src`, the `k`-th
/// placed at `(x0 + k * step, y0)` with destination size `dw` by `dh`.
pub open spec fn strip_cmds(src: Rect, x0: int, y0: int, step: int, dw: int, dh: int, n: nat) -> Seq<
    SpriteBatchCommand,
>
    decreases n,
{
    if n == 0 {
        Seq::empty()
    } else {
        strip_cmds(src, x0, y0, step, dw, dh, (n - 1) as nat).push(
            SpriteBatchCommand::DrawRect(
                src,
                Rect {
                    left: (x0 + (n - 1) * step) as isize,
                    top: y0 as isize,
                    right: (x0 + (n - 1) * step + dw) as isize,
                    bottom: (y0 + dh) as isize,
                },
            ),
        )
    }
}

/// The commands of a grid of strips: `nrows` rows, the `r`-th at
/// `y0 + r * step_y`, each a strip of `ncols` copies.
pub open spec fn grid_cmds(
    src: Rect,
    x0: int,
    y0: int,
    step_x: int,
    step_y: int,
    dw: int,
    dh: int,
    ncols: nat,
    nrows: nat,
) -> Seq<SpriteBatchCommand>
    decreases nrows,
{
    if nrows == 0 {
        Seq::empty()
    } else {
        grid_cmds(src, x0, y0, step_x, step_y, dw, dh, ncols, (nrows - 1) as nat) + strip_cmds(
            src,
            x0,
            y0 + (nrows - 1) * step_y,
            step_x,
            dw,
            dh,
            ncols,
        )
    }
}

/// Every strip has one command per copy.
pub proof fn lemma_strip_len(src: Rect, x0: int, y0: int, step: int, dw: int, dh: int, n: nat)
    ensures
        strip_cmds(src, x0, y0, step, dw, dh, n).len() == n,
    decreases n,
{
    if n > 0 {
        lemma_strip_len(src, x0, y0, step, dw, dh, (n - 1) as nat);
    }
}

/// Every grid has `nrows * ncols` commands.
pub proof fn lemma_grid_len(
    src: Rect,
    x0: int,
    y0: int,
    step_x: int,
    step_y: int,
    dw: int,
    dh: int,
    ncols: nat,
    nrows: nat,
)
    ensures
        grid_cmds(src, x0, y0, step_x, step_y, dw, dh, ncols, nrows).len() == nrows * ncols,
    decreases nrows,
{
    if nrows > 0 {
        lemma_grid_len(src, x0, y0, step_x, step_y, dw, dh, ncols, (nrows - 1) as nat);
        lemma_strip_len(src, x0, y0 + (nrows - 1) * step_y, step_x, dw, dh, ncols);
        assert(nrows * ncols == (nrows - 1) * ncols + ncols) by (nonlinear_arith);
    } else {
        assert(nrows * ncols == 0) by (nonlinear_arith)
            requires
                nrows == 0,
        ;
    }
}

impl SpriteBatch {
    /// An empty batch for a texture of the given size.
    pub fn new(width: u16, height: u16) -> (b: SpriteBatch)
        ensures
            b.width == width,
            b.height == height,
            b.commands@ =~= Seq::<SpriteBatchCommand>::empty(),
    {
        SpriteBatch { width, height, commands: Vec::new() }
    }

    /// The size of the texture this batch draws from.
    pub fn dimensions(&self) -> (d: (u16, u16))
        ensures
            d == (self.width, self.height),
    {
        (self.width, self.height)
    }

    /// Queues a copy of the whole texture with its top-left corner at
    /// `(x, y)`.
    pub fn add(&mut self, x: isize, y: isize)
        requires
            -COORD_LIMIT <= x <= COORD_LIMIT,
            -COORD_LIMIT <= y <= COORD_LIMIT,
        ensures
            final(self).width == old(self).width,
            final(self).height == old(self).height,
            final(self).commands@ == old(self).commands@.push(
                SpriteBatchCommand::DrawRect(
                    Rect {
                        left: 0,
                        top: 0,
                        right: old(self).width as isize,
                        bottom: old(self).height as isize,
                    },
                    Rect {
                        left: x,
                        top: y,
                        right: (x + old(self).width as isize) as isize,
                        bottom: (y + old(self).height as isize) as isize,
                    },
                ),
            ),
    {
        let w = self.width as isize;
        let h = self.height as isize;
        let src = Rect { left: 0, top: 0, right: w, bottom: h };
        let dst = Rect { left: x, top: y, right: x + w, bottom: y + h };
        self.commands.push(SpriteBatchCommand::DrawRect(src, dst));
    }

    /// Queues a copy of the `rect` portion of the texture with its top-left
    /// corner at `(x, y)`.
    pub fn add_rect(&mut self, x: isize, y: isize, rect: &Rect)
        requires
            -COORD_LIMIT <= x <= COORD_LIMIT,
            -COORD_LIMIT <= y <= COORD_LIMIT,
            rect.wf(),
            rect.in_range(),
        ensures
            final(self).width == old(self).width,
            final(self).height == old(self).height,
            final(self).commands@ == old(self).commands@.push(
                SpriteBatchCommand::DrawRect(
                    *rect,
                    Rect {
                        left: x,
                        top: y,
                        right: (x + rect.spec_width()) as isize,
                        bottom: (y + rect.spec_height()) as isize,
                    },
                ),
            ),
    {
        let w = rect.width();
        let h = rect.height();
        let dst = Rect { left: x, top: y, right: x + w, bottom: y + h };
        self.commands.push(SpriteBatchCommand::DrawRect(*rect, dst));
    }

    /// Queues a copy of the `rect` portion of the texture stretched by the
    /// integer factors `scale_x` and `scale_y`.
    pub fn add_rect_scaled(&mut self, x: isize, y: isize, scale_x: isize, scale_y: isize, rect: &Rect)
        requires
            -COORD_LIMIT <= x <= COORD_LIMIT,
            -COORD_LIMIT <= y <= COORD_LIMIT,
            rect.wf(),
            rect.in_range(),
            0 <= scale_x,
            0 <= scale_y,
            rect.spec_width() * scale_x <= COORD_LIMIT,
            rect.spec_height() * scale_y <= COORD_LIMIT,
        ensures
            final(self).width == old(self).width,
            final(self).height == old(self).height,
            final(self).commands@ == old(self).commands@.push(
                SpriteBatchCommand::DrawRect(
                    *rect,
                    Rect {
                        left: x,
                        top: y,
                        right: (x + rect.spec_width() * scale_x) as isize,
                        bottom: (y + rect.spec_height() * scale_y) as isize,
                    },
                ),
            ),
    {
        let w = rect.width() * scale_x;
        let h = rect.height() * scale_y;
        assert(w == rect.spec_width() * scale_x && h == rect.spec_height() * scale_y);
        let dst = Rect { left: x, top: y, right: x + w, bottom: y + h };
        self.commands.push(SpriteBatchCommand::DrawRect(*rect, dst));
    }

    /// Queues a horizontal strip of `n` copies of `src`, stepping `step`
    /// pixels between copies, each `dw` by `dh` on the target.
    pub fn emit_strip(
        &mut self,
        src: &Rect,
        x0: isize,
        y0: isize,
        step: isize,
        dw: isize,
        dh: isize,
        n: usize,
    )
        requires
            -0x3000_0000 <= x0 <= 0x3000_0000,
            -0x3000_0000 <= y0 <= 0x3000_0000,
            0 <= step,
            0 <= dw <= 0x800_0000,
            0 <= dh <= 0x800_0000,
            n * step <= 0x2000_0000,
        ensures
            final(self).width == old(self).width,
            final(self).height == old(self).height,
            final(self).commands@ == old(self).commands@ + strip_cmds(
                *src,
                x0 as int,
                y0 as int,
                step as int,
                dw as int,
                dh as int,
                n as nat,
            ),
    {
        let ghost cmds0 = self.commands@;
        let mut x = x0;
        let mut k: usize = 0;
        while k < n
            invariant
                k <= n,
                x == x0 + k * step,
                -0x3000_0000 <= x0 <= 0x3000_0000,
                -0x3000_0000 <= y0 <= 0x3000_0000,
                0 <= step,
                0 <= dw <= 0x800_0000,
                0 <= dh <= 0x800_0000,
                n * step <= 0x2000_0000,
                0 <= k * step <= n * step,
                self.width == old(self).width,
                self.height == old(self).height,
                self.commands@ == cmds0 + strip_cmds(
                    *src,
                    x0 as int,
                    y0 as int,
                    step as int,
                    dw as int,
                    dh as int,
                    k as nat,
                ),
            decreases n - k,
        {
            assert(0 <= (k + 1) * step <= n * step && (k + 1) * step == k * step + step)
                by (nonlinear_arith)
                requires
                    0 <= step,
                    k + 1 <= n,
            ;
            let cmd = SpriteBatchCommand::DrawRect(
                *src,
                Rect { left: x, top: y0, right: x + dw, bottom: y0 + dh },
            );
            self.commands.push(cmd);
            x = x + step;
            k = k + 1;
        }
    }

    /// Queues a grid of `nrows` by `ncols` copies of `src`.
    pub fn emit_grid(
        &mut self,
        src: &Rect,
        x0: isize,
        y0: isize,
        step_x: isize,
        step_y: isize,
        dw: isize,
        dh: isize,
        ncols: usize,
        nrows: usize,
    )
        requires
            -0x3000_0000 <= x0 <= 0x3000_0000,
            -0x1000_0000 <= y0 <= 0x1000_0000,
            0 <= step_x,
            0 <= step_y,
            0 <= dw <= 0x800_0000,
            0 <= dh <= 0x800_0000,
            ncols * step_x <= 0x2000_0000,
            nrows * step_y <= 0x2000_0000,
        ensures
            final(self).width == old(self).width,
            final(self).height == old(self).height,
            final(self).commands@ == old(self).commands@ + grid_cmds(
                *src,
                x0 as int,
                y0 as int,
                step_x as int,
                step_y as int,
                dw as int,
                dh as int,
                ncols as nat,
                nrows as nat,
            ),
    {
        let ghost cmds0 = self.commands@;
        let mut y = y0;
        let mut r: usize = 0;
        while r < nrows
            invariant
                r <= nrows,
                y == y0 + r * step_y,
                -0x3000_0000 <= x0 <= 0x3000_0000,
                -0x1000_0000 <= y0 <= 0x1000_0000,
                0 <= step_x,
                0 <= step_y,
                0 <= dw <= 0x800_0000,
                0 <= dh <= 0x800_0000,
                ncols * step_x <= 0x2000_0000,
                nrows * step_y <= 0x2000_0000,
                0 <= r * step_y <= nrows * step_y,
                self.width == old(self).width,
                self.height == old(self).height,
                self.commands@ == cmds0 + grid_cmds(
                    *src,
                    x0 as int,
                    y0 as int,
                    step_x as int,
                    step_y as int,
                    dw as int,
                    dh as int,
                    ncols as nat,
                    r as nat,
                ),
            decreases nrows - r,
        {
            assert(0 <= (r + 1) * step_y <= nrows * step_y && (r + 1) * step_y == r * step_y
                + step_y) by (nonlinear_arith)
                requires
                    0 <= step_y,
                    r + 1 <= nrows,
            ;
            self.emit_strip(src, x0, y, step_x, dw, dh, ncols);
            proof {
                assert(self.commands@ == cmds0 + grid_cmds(
                    *src,
                    x0 as int,
                    y0 as int,
                    step_x as int,
                    step_y as int,
                    dw as int,
                    dh as int,
                    ncols as nat,
                    (r + 1) as nat,
                ));
            }
            y = y + step_y;
            r = r + 1;
        }
    }

    /// Drops every queued command without drawing it.
    pub fn clear(&mut self)
        ensures
            final(self).width == old(self).width,
            final(self).height == old(self).height,
            final(self).commands@ =~= Seq::<SpriteBatchCommand>::empty(),
    {
        self.commands.clear();
    }

    /// Draws every queued command, in insertion order, from `tex_canvas` onto
    /// `target` under `mode`, then drains the queue.
    pub fn draw_onto(&mut self, tex_canvas: &Canvas, target: &mut Canvas, mode: BlendMode)
        requires
            old(target).wf(),
            tex_canvas.wf(),
            forall|i: int|
                0 <= i < old(self).commands@.len() ==> cmd_wf(
                    #[trigger] old(self).commands@[i],
                    *tex_canvas,
                ),
        ensures
            final(self).width == old(self).width,
            final(self).height == old(self).height,
            final(self).commands@ =~= Seq::<SpriteBatchCommand>::empty(),
            final(target).wf(),
            final(target).width == old(target).width,
            final(target).height == old(target).height,
            forall|dx: int, dy: int|
                0 <= dx < old(target).width && 0 <= dy < old(target).height ==> #[trigger] pix(
                    *final(target),
                    dx,
                    dy,
                ) == cmds_pix(
                    *tex_canvas,
                    old(self).commands@,
                    mode,
                    old(target).width as int,
                    old(target).height as int,
                    dx,
                    dy,
                    pix(*old(target), dx, dy),
                ),
    {
        let ghost tgt0 = *target;
        let ghost cmds = self.commands@;
        let n = self.commands.len();
        let mut i: usize = 0;
        while i < n
            invariant
                i <= n,
                n == cmds.len(),
                self.commands@ == cmds,
                self.width == old(self).width,
                self.height == old(self).height,
                tex_canvas.wf(),
                tgt0.wf(),
                target.wf(),
                target.width == tgt0.width,
                target.height == tgt0.height,
                forall|k: int| 0 <= k < cmds.len() ==> cmd_wf(#[trigger] cmds[k], *tex_canvas),
                forall|dx: int, dy: int|
                    0 <= dx < tgt0.width && 0 <= dy < tgt0.height ==> #[trigger] pix(
                        *target,
                        dx,
                        dy,
                    ) == cmds_pix(
                        *tex_canvas,
                        cmds.take(i as int),
                        mode,
                        tgt0.width as int,
                        tgt0.height as int,
                        dx,
                        dy,
                        pix(tgt0, dx, dy),
                    ),
            decreases n - i,
        {
            let ghost before = *target;
            let cmd = self.commands[i];
            match cmd {
                SpriteBatchCommand::DrawRect(src, dst) => {
                    draw_to_canvas_scaled(
                        target,
                        tex_canvas,
                        &dst,
                        &src,
                        mode,
                        (255, 255, 255, 255),
                    );
                },
                SpriteBatchCommand::DrawRectTinted(src, dst, c) => {
                    draw_to_canvas_scaled(target, tex_canvas, &dst, &src, mode, c);
                },
                SpriteBatchCommand::DrawRectFlip(_, _, _, _) => {},
                SpriteBatchCommand::DrawRectFlipTinted(_, _, _, _, _) => {},
            }
            proof {
                assert(cmds.take(i + 1).drop_last() =~= cmds.take(i as int));
                assert(cmds.take(i + 1).last() == cmds[i as int]);
                assert forall|dx: int, dy: int|
                    0 <= dx < tgt0.width && 0 <= dy < tgt0.height implies #[trigger] pix(
                    *target,
                    dx,
                    dy,
                ) == cmds_pix(
                    *tex_canvas,
                    cmds.take(i + 1),
                    mode,
                    tgt0.width as int,
                    tgt0.height as int,
                    dx,
                    dy,
                    pix(tgt0, dx, dy),
                ) by {
                    assert(pix(*target, dx, dy) == cmd_pix(
                        *tex_canvas,
                        cmds[i as int],
                        mode,
                        tgt0.width as int,
                        tgt0.height as int,
                        dx,
                        dy,
                        pix(before, dx, dy),
                    ));
                }
            }
            i += 1;
        }
        proof {
            assert(cmds.take(n as int) =~= cmds);
        }
        self.commands.clear();
    }
}

} // verus!
