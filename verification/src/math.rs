//! Scalar and rectangle primitives for the split layout.
//!
//! All geometry uses integer coordinates in the host's local space.

use vstd::prelude::*;

verus! {

/// Largest coordinate magnitude the library accepts from its host.
///
/// Window bounds, pointer positions and configuration values must stay
/// within this bound so that the layout arithmetic, which sums a handful
/// of such values, can be carried out in `i64` without overflow.
pub open spec fn max_coord() -> int {
    0x4000_0000
}

/// A host-supplied coordinate: bounded by [`max_coord`].
pub open spec fn coord_ok(v: int) -> bool {
    -max_coord() <= v <= max_coord()
}

/// A derived coordinate: wider than [`coord_ok`], still far from `i64` limits.
///
/// Quantities computed from a few host coordinates (clamped split values,
/// floored window bounds, per-event maximum values) satisfy this bound.
pub open spec fn wide_ok(v: int) -> bool {
    -0x100_0000_0000 <= v <= 0x100_0000_0000
}

/// `x` raised to at least `lo`, then lowered to at most `hi`.
///
/// When `lo > hi` the result is `hi`, below `lo`: the lower bound is
/// applied first, the upper bound last.
pub open spec fn clamp(x: int, lo: int, hi: int) -> int {
    let raised = if x > lo {
        x
    } else {
        lo
    };
    if raised < hi {
        raised
    } else {
        hi
    }
}

/// A 2D vector or size in integer coordinates.
#[derive(Clone, Copy, Debug, PartialEq, Eq, Structural)]
pub struct Vec2 {
    /// The horizontal component.
    pub x: i64,
    /// The vertical component.
    pub y: i64,
}

/// The mathematical model of a [`Vec2`].
pub ghost struct Vec2View {
    pub x: int,
    pub y: int,
}

impl View for Vec2 {
    type V = Vec2View;

    open spec fn view(&self) -> Vec2View {
        Vec2View { x: self.x as int, y: self.y as int }
    }
}

/// An axis-aligned rectangle: position and extent in integer coordinates.
#[derive(Clone, Copy, Debug, PartialEq, Eq, Structural)]
pub struct Rectangle {
    /// The horizontal position of the left edge.
    pub x: i64,
    /// The vertical position of the top edge.
    pub y: i64,
    /// The width.
    pub w: i64,
    /// The height.
    pub h: i64,
}

/// The mathematical model of a [`Rectangle`].
pub ghost struct RectView {
    pub x: int,
    pub y: int,
    pub w: int,
    pub h: int,
}

impl View for Rectangle {
    type V = RectView;

    open spec fn view(&self) -> RectView {
        RectView { x: self.x as int, y: self.y as int, w: self.w as int, h: self.h as int }
    }
}

/// Every component of the rectangle is a host-supplied coordinate.
pub open spec fn rect_ok(r: RectView) -> bool {
    &&& coord_ok(r.x)
    &&& coord_ok(r.y)
    &&& coord_ok(r.w)
    &&& coord_ok(r.h)
}

/// Every component of the rectangle is a derived coordinate.
pub open spec fn rect_wide_ok(r: RectView) -> bool {
    &&& wide_ok(r.x)
    &&& wide_ok(r.y)
    &&& wide_ok(r.w)
    &&& wide_ok(r.h)
}

/// Whether `pos` lies inside `rect`, half-open on the far edges:
/// `pos.x` in `[rect.x, rect.x + rect.w)` and `pos.y` in
/// `[rect.y, rect.y + rect.h)`.
pub open spec fn spec_is_inside(pos: Vec2View, rect: RectView) -> bool {
    &&& pos.x >= rect.x
    &&& pos.y >= rect.y
    &&& pos.x < rect.x + rect.w
    &&& pos.y < rect.y + rect.h
}

/// Returns true if the point is inside the rectangle.
pub fn is_inside(pos: Vec2, rect: Rectangle) -> (r: bool)
    requires
        i64::MIN <= rect@.x + rect@.w <= i64::MAX,
        i64::MIN <= rect@.y + rect@.h <= i64::MAX,
    ensures
        r == spec_is_inside(pos@, rect@),
{
    pos.x >= rect.x && pos.y >= rect.y && pos.x < rect.x + rect.w && pos.y < rect.y + rect.h
}

} // verus!
