//! Axis-aligned rectangles and the out-of-bounds trimming step used by every
//! CPU blit primitive.

use vstd::prelude::*;

verus! {

/// Greatest magnitude a rectangle coordinate may take; keeps every sum and
/// difference of two coordinates well inside `isize` on every machine width.
pub const COORD_LIMIT: isize = 0x2000_0000;

/// An axis-aligned rectangle `(left, top, right, bottom)`.
#[derive(Clone, Copy, PartialEq, Eq, Structural, Debug)]
pub struct Rect {
    pub left: isize,
    pub top: isize,
    pub right: isize,
    pub bottom: isize,
}

impl Rect {
    /// A well-formed rectangle has its right edge at or beyond its left edge
    /// and its bottom edge at or beyond its top edge.
    pub open spec fn wf(self) -> bool {
        self.left <= self.right && self.top <= self.bottom
    }

    /// All four coordinates lie within `COORD_LIMIT` in magnitude.
    pub open spec fn in_range(self) -> bool {
        &&& -COORD_LIMIT <= self.left <= COORD_LIMIT
        &&& -COORD_LIMIT <= self.top <= COORD_LIMIT
        &&& -COORD_LIMIT <= self.right <= COORD_LIMIT
        &&& -COORD_LIMIT <= self.bottom <= COORD_LIMIT
    }

    pub open spec fn spec_width(self) -> int {
        self.right - self.left
    }

    pub open spec fn spec_height(self) -> int {
        self.bottom - self.top
    }

    pub fn new(left: isize, top: isize, right: isize, bottom: isize) -> (r: Rect)
        ensures
            r == (Rect { left, top, right, bottom }),
    {
        Rect { left, top, right, bottom }
    }

    /// A rectangle given by its top-left corner and its size.
    pub fn new_size(left: isize, top: isize, width: isize, height: isize) -> (r: Rect)
        requires
            isize::MIN <= left + width <= isize::MAX,
            isize::MIN <= top + height <= isize::MAX,
        ensures
            r.left == left,
            r.top == top,
            r.right == left + width,
            r.bottom == top + height,
    {
        Rect { left, top, right: left + width, bottom: top + height }
    }

    pub fn width(&self) -> (w: isize)
        requires
            self.wf(),
            self.in_range(),
        ensures
            w == self.spec_width(),
    {
        self.right - self.left
    }

    pub fn height(&self) -> (h: isize)
        requires
            self.wf(),
            self.in_range(),
        ensures
            h == self.spec_height(),
    {
        self.bottom - self.top
    }
}

/// True when placing `r` with its top-left corner at `(x, y)` touches no cell
/// of the `dw` by `dh` destination grid.
pub open spec fn placement_empty(r: Rect, dw: int, dh: int, x: int, y: int) -> bool {
    ||| x >= dw
    ||| y >= dh
    ||| x + r.spec_width() <= 0
    ||| y + r.spec_height() <= 0
    ||| r.spec_width() == 0
    ||| r.spec_height() == 0
    ||| dw <= 0
    ||| dh <= 0
}

/// The trimmed source rectangle and destination corner: the placement clipped
/// against the destination bounds, or `None` when nothing would be drawn.
pub open spec fn trim_spec(r: Rect, dw: int, dh: int, x: int, y: int) -> Option<(Rect, int, int)> {
    if placement_empty(r, dw, dh, x, y) {
        None
    } else {
        let l1 = if x < 0 {
            r.left - x
        } else {
            r.left as int
        };
        let x1 = if x < 0 {
            0
        } else {
            x
        };
        let t1 = if y < 0 {
            r.top - y
        } else {
            r.top as int
        };
        let y1 = if y < 0 {
            0
        } else {
            y
        };
        let r1 = if x1 + (r.right - l1) > dw {
            l1 + (dw - x1)
        } else {
            r.right as int
        };
        let b1 = if y1 + (r.bottom - t1) > dh {
            t1 + (dh - y1)
        } else {
            r.bottom as int
        };
        Some(
            (
                Rect {
                    left: l1 as isize,
                    top: t1 as isize,
                    right: r1 as isize,
                    bottom: b1 as isize,
                },
                x1,
                y1,
            ),
        )
    }
}

/// Clips a source rectangle placed at `(x, y)` against a `dest_width` by
/// `dest_height` destination. Returns the trimmed rectangle with the adjusted
/// corner, or `None` exactly when the placement covers no destination cell.
///
/// When `Some((s, x1, y1))` comes back: `s` lies inside the original
/// rectangle, is non-degenerate, keeps the source-to-destination alignment,
/// and placing it at `(x1, y1)` lies fully inside the destination bounds.
pub fn trim_oob_rects(rect_src: &Rect, dest_width: isize, dest_height: isize, x: isize, y: isize) -> (res:
    Option<(Rect, isize, isize)>)
    requires
        rect_src.wf(),
        rect_src.in_range(),
        -COORD_LIMIT <= x <= COORD_LIMIT,
        -COORD_LIMIT <= y <= COORD_LIMIT,
        0 <= dest_width <= COORD_LIMIT,
        0 <= dest_height <= COORD_LIMIT,
    ensures
        res matches Some((s, x1, y1)) ==> trim_spec(*rect_src, dest_width as int, dest_height as int, x as int, y as int)
            == Some((s, x1 as int, y1 as int)),
        res is None <==> placement_empty(*rect_src, dest_width as int, dest_height as int, x as int, y as int),
        res matches Some((s, x1, y1)) ==> {
            &&& s.wf()
            &&& 1 <= s.spec_width() <= rect_src.spec_width()
            &&& 1 <= s.spec_height() <= rect_src.spec_height()
            &&& rect_src.left <= s.left
            &&& s.right <= rect_src.right
            &&& rect_src.top <= s.top
            &&& s.bottom <= rect_src.bottom
            &&& 0 <= x1
            &&& x1 + s.spec_width() <= dest_width
            &&& 0 <= y1
            &&& y1 + s.spec_height() <= dest_height
            &&& x1 - s.left == x - rect_src.left
            &&& y1 - s.top == y - rect_src.top
        },
{
    let w = rect_src.width();
    let h = rect_src.height();
    if x >= dest_width || y >= dest_height || x + w <= 0 || y + h <= 0 || w == 0 || h == 0
        || dest_width == 0 || dest_height == 0 {
        return None;
    }
    let mut left = rect_src.left;
    let mut top = rect_src.top;
    let mut right = rect_src.right;
    let mut bottom = rect_src.bottom;
    let mut x1 = x;
    let mut y1 = y;

    if x1 < 0 {
        left = left - x1;
        x1 = 0;
    }
    if y1 < 0 {
        top = top - y1;
        y1 = 0;
    }
    if x1 + (right - left) > dest_width {
        let diff = x1 + (right - left) - dest_width;
        right = right - diff;
    }
    if y1 + (bottom - top) > dest_height {
        let diff = y1 + (bottom - top) - dest_height;
        bottom = bottom - diff;
    }
    Some((Rect { left, top, right, bottom }, x1, y1))
}

} // verus!
