use vstd::prelude::*;
use crate::align::{Horizontal, Vertical, h_fraction_halves, v_fraction_halves};

verus! {

/// Largest magnitude, in whole pixels, accepted for a viewport dimension, a
/// padding value, or a bounding-box coordinate.  Keeping inputs within this
/// bound lets every half-pixel computation below stay well inside `i64`.
pub const MAX_DIM: i64 = 0x4000_0000;

/// The drawable screen rectangle for a frame, in whole pixels.  Anchors are
/// expressed relative to the viewport origin, so only `w` and `h` enter the
/// anchor formulas; `x` and `y` carry the rectangle's position for callers
/// that need it.
#[derive(Clone, Copy, Debug, PartialEq, Eq, Structural)]
pub struct Viewport {
    pub x: i64,
    pub y: i64,
    pub w: i64,
    pub h: i64,
}

/// A screen-space point, in half pixels: a field value of `n` is the
/// coordinate `n / 2` in pixels.
#[derive(Clone, Copy, Debug, PartialEq, Eq, Structural)]
pub struct Anchor {
    pub x: i64,
    pub y: i64,
}

/// The fractional point of the text block's own bounding box that coincides
/// with the anchor, in half units per axis: 0 is the leading edge, 1 the
/// center, 2 the trailing edge.
#[derive(Clone, Copy, Debug, PartialEq, Eq, Structural)]
pub struct Offset {
    pub x: i64,
    pub y: i64,
}

/// The result of the calculator: where to place the text block's
/// offset-origin, and which point of the block that origin is.
#[derive(Clone, Copy, Debug, PartialEq, Eq, Structural)]
pub struct Placement {
    pub anchor: Anchor,
    pub offset: Offset,
}

/// A measured text bounding box, in whole pixels: origin `(x, y)` and size
/// `(w, h)`.
#[derive(Clone, Copy, Debug, PartialEq, Eq, Structural)]
pub struct BoundingBox {
    pub x: i64,
    pub y: i64,
    pub w: i64,
    pub h: i64,
}

impl Viewport {
    /// A viewport is well formed when its position and size are bounded and
    /// its size is non-negative.  A zero width or height is still well
    /// formed: such a degenerate viewport is rejected by the calculator.
    pub open spec fn wf(self) -> bool {
        &&& -MAX_DIM <= self.x <= MAX_DIM
        &&& -MAX_DIM <= self.y <= MAX_DIM
        &&& 0 <= self.w <= MAX_DIM
        &&& 0 <= self.h <= MAX_DIM
    }

    /// A viewport with no area on some axis.
    pub open spec fn is_degenerate(self) -> bool {
        self.w == 0 || self.h == 0
    }
}

impl Anchor {
    /// Every anchor the calculator produces stays within twice the dimension
    /// bound in half pixels.
    pub open spec fn wf(self) -> bool {
        &&& -2 * MAX_DIM <= self.x <= 2 * MAX_DIM
        &&& -2 * MAX_DIM <= self.y <= 2 * MAX_DIM
    }
}

impl Offset {
    /// Both fractional coordinates lie within the unit interval.
    pub open spec fn wf(self) -> bool {
        &&& 0 <= self.x <= 2
        &&& 0 <= self.y <= 2
    }
}

impl Placement {
    pub open spec fn wf(self) -> bool {
        self.anchor.wf() && self.offset.wf()
    }
}

impl BoundingBox {
    pub open spec fn wf(self) -> bool {
        &&& -MAX_DIM <= self.x <= MAX_DIM
        &&& -MAX_DIM <= self.y <= MAX_DIM
        &&& 0 <= self.w <= MAX_DIM
        &&& 0 <= self.h <= MAX_DIM
    }
}

/// The anchor abscissa, in half pixels, for a viewport of width `w` pixels and
/// the given padding: half the padding in from the left edge, the horizontal
/// middle, or half the padding in from the right edge.
pub open spec fn anchor_x_halves(w: int, padding: int, halign: Horizontal) -> int {
    match halign {
        Horizontal::Left => padding,
        Horizontal::Center => w,
        Horizontal::Right => 2 * w - padding,
    }
}

/// The anchor ordinate, in half pixels, for a viewport of height `h` pixels,
/// as in `anchor_x_halves`.
pub open spec fn anchor_y_halves(h: int, padding: int, valign: Vertical) -> int {
    match valign {
        Vertical::Top => padding,
        Vertical::Middle => h,
        Vertical::Bottom => 2 * h - padding,
    }
}

/// What the calculator returns: `None` for a degenerate viewport, otherwise
/// the anchor point and fractional offset selected by the two alignments.
pub open spec fn placement_spec(
    viewport: Viewport,
    padding: int,
    halign: Horizontal,
    valign: Vertical,
) -> Option<Placement> {
    if viewport.is_degenerate() {
        None
    } else {
        Some(
            Placement {
                anchor: Anchor {
                    x: anchor_x_halves(viewport.w as int, padding, halign) as i64,
                    y: anchor_y_halves(viewport.h as int, padding, valign) as i64,
                },
                offset: Offset {
                    x: h_fraction_halves(halign) as i64,
                    y: v_fraction_halves(valign) as i64,
                },
            },
        )
    }
}

/// Computes the anchor point and fractional offset for one text block.
///
/// The result is a function of the arguments alone (`placement_spec`), so
/// repeated calls with identical inputs return identical placements.
///
/// Policy for degenerate viewports: a viewport whose width or height is zero
/// is rejected, and the calculator returns `None`; on every non-degenerate
/// well-formed viewport it returns `Some`.
pub fn compute(viewport: Viewport, padding: i64, halign: Horizontal, valign: Vertical) -> (r:
    Option<Placement>)
    requires
        viewport.wf(),
        0 <= padding <= MAX_DIM,
    ensures
        r == placement_spec(viewport, padding as int, halign, valign),
        (r is Some) <==> !viewport.is_degenerate(),
        r matches Some(p) ==> p.wf(),
{
    if viewport.w == 0 || viewport.h == 0 {
        return None;
    }
    let ax: i64 = match halign {
        Horizontal::Left => padding,
        Horizontal::Center => viewport.w,
        Horizontal::Right => 2 * viewport.w - padding,
    };
    let ay: i64 = match valign {
        Vertical::Top => padding,
        Vertical::Middle => viewport.h,
        Vertical::Bottom => 2 * viewport.h - padding,
    };
    let ox: i64 = match halign {
        Horizontal::Left => 0,
        Horizontal::Center => 1,
        Horizontal::Right => 2,
    };
    let oy: i64 = match valign {
        Vertical::Top => 0,
        Vertical::Middle => 1,
        Vertical::Bottom => 2,
    };
    Some(Placement { anchor: Anchor { x: ax, y: ay }, offset: Offset { x: ox, y: oy } })
}

/// Re-expresses a placement's fractional offset in absolute half pixels using
/// the measured bounding box of the text: the adjusted point is
/// `anchor + offset * size + origin` per axis.
pub fn refine(placement: Placement, bounds: BoundingBox) -> (r: Anchor)
    requires
        placement.wf(),
        bounds.wf(),
    ensures
        r.x == placement.anchor.x + placement.offset.x * bounds.w + 2 * bounds.x,
        r.y == placement.anchor.y + placement.offset.y * bounds.h + 2 * bounds.y,
{
    let ox: i64 = placement.offset.x;
    let oy: i64 = placement.offset.y;
    let bw: i64 = bounds.w;
    let bh: i64 = bounds.h;
    proof {
        assert(0 <= ox * bw <= 2 * 0x4000_0000) by (nonlinear_arith)
            requires
                0 <= ox <= 2,
                0 <= bw <= 0x4000_0000,
        ;
        assert(0 <= oy * bh <= 2 * 0x4000_0000) by (nonlinear_arith)
            requires
                0 <= oy <= 2,
                0 <= bh <= 0x4000_0000,
        ;
    }
    Anchor {
        x: placement.anchor.x + ox * bw + 2 * bounds.x,
        y: placement.anchor.y + oy * bh + 2 * bounds.y,
    }
}

/// The nine alignment pairs of the demo grid, rows top to bottom and, within
/// each row, columns left to right.
pub fn alignment_grid() -> (r: Vec<(Horizontal, Vertical)>)
    ensures
        r@.len() == 9,
        r@[0] == (Horizontal::Left, Vertical::Top),
        r@[1] == (Horizontal::Center, Vertical::Top),
        r@[2] == (Horizontal::Right, Vertical::Top),
        r@[3] == (Horizontal::Left, Vertical::Middle),
        r@[4] == (Horizontal::Center, Vertical::Middle),
        r@[5] == (Horizontal::Right, Vertical::Middle),
        r@[6] == (Horizontal::Left, Vertical::Bottom),
        r@[7] == (Horizontal::Center, Vertical::Bottom),
        r@[8] == (Horizontal::Right, Vertical::Bottom),
{
    let mut grid: Vec<(Horizontal, Vertical)> = Vec::new();
    grid.push((Horizontal::Left, Vertical::Top));
    grid.push((Horizontal::Center, Vertical::Top));
    grid.push((Horizontal::Right, Vertical::Top));
    grid.push((Horizontal::Left, Vertical::Middle));
    grid.push((Horizontal::Center, Vertical::Middle));
    grid.push((Horizontal::Right, Vertical::Middle));
    grid.push((Horizontal::Left, Vertical::Bottom));
    grid.push((Horizontal::Center, Vertical::Bottom));
    grid.push((Horizontal::Right, Vertical::Bottom));
    grid
}

/// For a fixed viewport width, the anchor abscissa is monotonically
/// non-decreasing as the horizontal alignment moves left, center, right,
/// provided the padding does not exceed the width.  (With a padding larger
/// than the width the left anchor already sits right of the center one, so
/// those inputs are excluded.)
pub proof fn lemma_anchor_x_monotone(w: int, padding: int)
    requires
        0 <= padding <= w,
    ensures
        anchor_x_halves(w, padding, Horizontal::Left) <= anchor_x_halves(
            w,
            padding,
            Horizontal::Center,
        ),
        anchor_x_halves(w, padding, Horizontal::Center) <= anchor_x_halves(
            w,
            padding,
            Horizontal::Right,
        ),
{
}

} // verus!
