use vstd::prelude::*;

verus! {

/// Horizontal alignment of a text block within the viewport.
#[derive(Clone, Copy, Debug, PartialEq, Eq, Structural)]
pub enum Horizontal {
    Left,
    Center,
    Right,
}

/// Vertical alignment of a text block within the viewport.
#[derive(Clone, Copy, Debug, PartialEq, Eq, Structural)]
pub enum Vertical {
    Top,
    Middle,
    Bottom,
}

/// The fraction of the text block's own width that coincides with the anchor,
/// in half units: 0 is the leading edge, 1 is the center (one half), 2 is the
/// trailing edge (two halves, i.e. the whole width).
pub open spec fn h_fraction_halves(halign: Horizontal) -> int {
    match halign {
        Horizontal::Left => 0,
        Horizontal::Center => 1,
        Horizontal::Right => 2,
    }
}

/// The fraction of the text block's own height that coincides with the anchor,
/// in half units, as in `h_fraction_halves`.
pub open spec fn v_fraction_halves(valign: Vertical) -> int {
    match valign {
        Vertical::Top => 0,
        Vertical::Middle => 1,
        Vertical::Bottom => 2,
    }
}

/// Every fractional offset the alignments select lies within the unit
/// interval: each coordinate is 0, one half, or 1 (0, 1 or 2 half units).
pub proof fn lemma_fraction_within_unit(halign: Horizontal, valign: Vertical)
    ensures
        0 <= h_fraction_halves(halign) <= 2,
        0 <= v_fraction_halves(valign) <= 2,
{
}

} // verus!
