//! The composite layout: four splits carving a window into five panels.

use vstd::prelude::*;

use crate::math::{
    coord_ok, max_coord, rect_ok, rect_wide_ok, RectView, Rectangle, Vec2, Vec2View,
};
use crate::settings::{settings_ok, SplitLayoutSettings};
use crate::split::{
    event_ok, layout_ok, spec_line_rect, spec_state, split_step, SplitController, SplitEvent,
    SplitLayout, SplitLayoutView, SplitOrientation, SplitState, SplitView,
};

verus! {

/// What a split layout window is computed for.
#[derive(Clone, Copy, Debug, PartialEq, Eq, Structural)]
pub enum SplitLayoutPurpose {
    /// For drawing.
    Draw,
    /// For handling events.
    Event,
}

/// A set of edges, one named flag per split.
#[derive(Clone, Copy, Debug, PartialEq, Eq, Structural)]
pub struct EdgeFlags {
    /// The left split is in the set.
    pub left: bool,
    /// The right split is in the set.
    pub right: bool,
    /// The top split is in the set.
    pub top: bool,
    /// The bottom split is in the set.
    pub bottom: bool,
}

impl EdgeFlags {
    /// Whether any edge is in the set.
    pub open spec fn spec_any(self) -> bool {
        self.left || self.right || self.top || self.bottom
    }

    /// Returns true if any edge is in the set.
    pub fn any(&self) -> (r: bool)
        ensures
            r == self.spec_any(),
    {
        self.left || self.right || self.top || self.bottom
    }

    /// Returns the empty set.
    pub fn empty() -> (r: EdgeFlags)
        ensures
            r == (EdgeFlags { left: false, right: false, top: false, bottom: false }),
    {
        EdgeFlags { left: false, right: false, top: false, bottom: false }
    }
}

/// Stores information about a split layout.
///
/// The layout is split into a left, right, top and bottom panel around a
/// center panel.
pub struct SplitLayoutController {
    /// The left split controller.
    pub left: SplitController,
    /// The right split controller.
    pub right: SplitController,
    /// The top split controller.
    pub top: SplitController,
    /// The bottom split controller.
    pub bottom: SplitController,
    /// The minimum size of the center panel.
    pub center_min_size: Vec2,
    /// Which splits are being dragged.
    pub drag_splits: EdgeFlags,
    /// Which splits are locked.
    pub lock_splits: EdgeFlags,
}

/// The mathematical model of a [`SplitLayoutController`].
pub ghost struct LayoutView {
    pub left: SplitView,
    pub right: SplitView,
    pub top: SplitView,
    pub bottom: SplitView,
    pub center_min_size: Vec2View,
    pub drag_splits: EdgeFlags,
    pub lock_splits: EdgeFlags,
}

impl View for SplitLayoutController {
    type V = LayoutView;

    open spec fn view(&self) -> LayoutView {
        LayoutView {
            left: self.left@,
            right: self.right@,
            top: self.top@,
            bottom: self.bottom@,
            center_min_size: self.center_min_size@,
            drag_splits: self.drag_splits,
            lock_splits: self.lock_splits,
        }
    }
}

impl LayoutView {
    /// Well-formedness: each split is well formed and anchored to its own
    /// edge, the center's minimum size is a host-supplied coordinate pair,
    /// the space the splits and center occupy together stays bounded, and
    /// the drag set mirrors the splits' dragging flags.
    pub open spec fn wf(self) -> bool {
        &&& spec_min_size(self).x <= 5 * max_coord()
        &&& spec_min_size(self).y <= 5 * max_coord()
        &&& self.left.wf()
        &&& self.right.wf()
        &&& self.top.wf()
        &&& self.bottom.wf()
        &&& self.left.orientation == SplitOrientation::Left
        &&& self.right.orientation == SplitOrientation::Right
        &&& self.top.orientation == SplitOrientation::Top
        &&& self.bottom.orientation == SplitOrientation::Bottom
        &&& coord_ok(self.center_min_size.x)
        &&& coord_ok(self.center_min_size.y)
        &&& self.drag_splits.left == self.left.dragging
        &&& self.drag_splits.right == self.right.dragging
        &&& self.drag_splits.top == self.top.dragging
        &&& self.drag_splits.bottom == self.bottom.dragging
    }
}

/// The layout's minimum size, from the splits' current values: what the
/// four splits and the center minimum occupy together along each axis.
pub open spec fn spec_min_size(c: LayoutView) -> Vec2View {
    Vec2View {
        x: c.left.value + c.left.border + c.right.value + c.right.border + c.center_min_size.x,
        y: c.top.value + c.top.border + c.bottom.value + c.bottom.border + c.center_min_size.y,
    }
}

/// The window bounds floored component-wise to the layout's minimum size.
pub open spec fn spec_bounds(c: LayoutView, rect: RectView) -> RectView {
    let ms = spec_min_size(c);
    RectView {
        x: rect.x,
        y: rect.y,
        w: if rect.w > ms.x {
            rect.w
        } else {
            ms.x
        },
        h: if rect.h > ms.y {
            rect.h
        } else {
            ms.y
        },
    }
}

/// The left/right splits' layout window. For drawing it is inset by the
/// top and bottom splits' value plus border, so the drawn line does not
/// overlap the top and bottom bars; for event handling it is zero, so the
/// splits span the full height and stay reachable near the corners.
pub open spec fn spec_left_right_layout(c: LayoutView, purpose: SplitLayoutPurpose) -> SplitLayoutView {
    match purpose {
        SplitLayoutPurpose::Draw => (SplitLayoutView {
            start: c.top.value + c.top.border,
            end: c.bottom.value + c.bottom.border,
        }),
        SplitLayoutPurpose::Event => (SplitLayoutView { start: 0, end: 0 }),
    }
}

/// The top/bottom splits' layout window: always zero, the full width.
pub open spec fn spec_top_bottom_layout() -> SplitLayoutView {
    SplitLayoutView { start: 0, end: 0 }
}

/// Whether a split takes part in event handling: it must not be locked,
/// and while any split is being dragged only the dragged split takes part.
pub open spec fn spec_active(drag_splits: EdgeFlags, locked: bool, dragged: bool) -> bool {
    !locked && (!drag_splits.spec_any() || dragged)
}

/// The per-event maximum value of a split along one axis: the bounded
/// extent, less the opposing split's value, the center minimum and both
/// borders.
pub open spec fn spec_max_value(extent: int, opposing_value: int, center_min: int, border: int, opposing_border: int) -> int {
    extent - opposing_value - center_min - border - opposing_border
}

/// The top split after one event: handled against the bounded extent,
/// with the maximum value computed from the bottom split's current state.
pub open spec fn spec_step_top(c: LayoutView, b: RectView, e: SplitEvent) -> SplitView {
    if spec_active(c.drag_splits, c.lock_splits.top, c.drag_splits.top) {
        split_step(
            c.top,
            spec_top_bottom_layout(),
            spec_max_value(b.h, c.bottom.value, c.center_min_size.y, c.top.border, c.bottom.border),
            b,
            e,
        )
    } else {
        c.top
    }
}

/// The bottom split after one event, given the top split's state `top1`
/// as the event left it.
pub open spec fn spec_step_bottom(c: LayoutView, top1: SplitView, b: RectView, e: SplitEvent) -> SplitView {
    if spec_active(c.drag_splits, c.lock_splits.bottom, c.drag_splits.bottom) {
        split_step(
            c.bottom,
            spec_top_bottom_layout(),
            spec_max_value(b.h, top1.value, c.center_min_size.y, c.bottom.border, top1.border),
            b,
            e,
        )
    } else {
        c.bottom
    }
}

/// The left split after one event: handled against the bounded extent,
/// with the maximum value computed from the right split's current state.
pub open spec fn spec_step_left(c: LayoutView, b: RectView, e: SplitEvent) -> SplitView {
    if spec_active(c.drag_splits, c.lock_splits.left, c.drag_splits.left) {
        split_step(
            c.left,
            SplitLayoutView { start: 0, end: 0 },
            spec_max_value(b.w, c.right.value, c.center_min_size.x, c.left.border, c.right.border),
            b,
            e,
        )
    } else {
        c.left
    }
}

/// The right split after one event, given the left split's state `left1`
/// as the event left it.
pub open spec fn spec_step_right(c: LayoutView, left1: SplitView, b: RectView, e: SplitEvent) -> SplitView {
    if spec_active(c.drag_splits, c.lock_splits.right, c.drag_splits.right) {
        split_step(
            c.right,
            SplitLayoutView { start: 0, end: 0 },
            spec_max_value(b.w, left1.value, c.center_min_size.x, c.right.border, left1.border),
            b,
            e,
        )
    } else {
        c.right
    }
}

/// The transition of the whole layout under one event.
///
/// The splits are handled in the order top, bottom, left, right, each
/// against the bounds computed up front and a maximum value computed from
/// the state its predecessors left behind; locked splits and, during a
/// drag, splits other than the dragged one are left untouched. The drag
/// set is then recomputed from the four dragging flags.
pub open spec fn spec_layout_step(c: LayoutView, rect: RectView, e: SplitEvent) -> LayoutView {
    let b = spec_bounds(c, rect);
    let top1 = spec_step_top(c, b, e);
    let bottom1 = spec_step_bottom(c, top1, b, e);
    let left1 = spec_step_left(c, b, e);
    let right1 = spec_step_right(c, left1, b, e);
    LayoutView {
        left: left1,
        right: right1,
        top: top1,
        bottom: bottom1,
        center_min_size: c.center_min_size,
        drag_splits: EdgeFlags {
            left: left1.dragging,
            right: right1.dragging,
            top: top1.dragging,
            bottom: bottom1.dragging,
        },
        lock_splits: c.lock_splits,
    }
}

impl SplitLayoutController {
    /// Creates a new `SplitLayoutController` from the settings: four splits
    /// with their edge's initial and minimum value and the shared border,
    /// nothing hovered or dragged, and the locks taken from the settings.
    pub fn new(settings: &SplitLayoutSettings) -> (r: SplitLayoutController)
        ensures
            r@ == (LayoutView {
                left: SplitView {
                    mouse_hover: false,
                    dragging: false,
                    value: settings.left_value as int,
                    min_value: settings.left_min_value as int,
                    border: settings.border as int,
                    orientation: SplitOrientation::Left,
                },
                right: SplitView {
                    mouse_hover: false,
                    dragging: false,
                    value: settings.right_value as int,
                    min_value: settings.right_min_value as int,
                    border: settings.border as int,
                    orientation: SplitOrientation::Right,
                },
                top: SplitView {
                    mouse_hover: false,
                    dragging: false,
                    value: settings.top_value as int,
                    min_value: settings.top_min_value as int,
                    border: settings.border as int,
                    orientation: SplitOrientation::Top,
                },
                bottom: SplitView {
                    mouse_hover: false,
                    dragging: false,
                    value: settings.bottom_value as int,
                    min_value: settings.bottom_min_value as int,
                    border: settings.border as int,
                    orientation: SplitOrientation::Bottom,
                },
                center_min_size: settings.center_min_size@,
                drag_splits: EdgeFlags { left: false, right: false, top: false, bottom: false },
                lock_splits: EdgeFlags {
                    left: settings.lock_left,
                    right: settings.lock_right,
                    top: settings.lock_top,
                    bottom: settings.lock_bottom,
                },
            }),
            settings_ok(*settings) ==> r@.wf(),
    {
        SplitLayoutController {
            left: SplitController::new(
                settings.left_value,
                settings.left_min_value,
                settings.border,
                SplitOrientation::Left,
            ),
            right: SplitController::new(
                settings.right_value,
                settings.right_min_value,
                settings.border,
                SplitOrientation::Right,
            ),
            top: SplitController::new(
                settings.top_value,
                settings.top_min_value,
                settings.border,
                SplitOrientation::Top,
            ),
            bottom: SplitController::new(
                settings.bottom_value,
                settings.bottom_min_value,
                settings.border,
                SplitOrientation::Bottom,
            ),
            center_min_size: settings.center_min_size,
            drag_splits: EdgeFlags::empty(),
            lock_splits: EdgeFlags {
                left: settings.lock_left,
                right: settings.lock_right,
                top: settings.lock_top,
                bottom: settings.lock_bottom,
            },
        }
    }

    /// Returns true if the layout is well formed: the check behind the
    /// contracts' well-formedness condition, for hosts that mutate the
    /// public fields directly.
    pub fn well_formed(&self) -> (r: bool)
        ensures
            r == self@.wf(),
    {
        let coord_max: i64 = 0x4000_0000;
        let value_max: i64 = 7 * coord_max;
        let splits_ok: bool = {
            &&& -coord_max <= self.left.min_value && self.left.min_value <= coord_max
            &&& 0 <= self.left.border && self.left.border <= coord_max
            &&& -coord_max <= self.left.value && self.left.value <= value_max
            &&& -coord_max <= self.right.min_value && self.right.min_value <= coord_max
            &&& 0 <= self.right.border && self.right.border <= coord_max
            &&& -coord_max <= self.right.value && self.right.value <= value_max
            &&& -coord_max <= self.top.min_value && self.top.min_value <= coord_max
            &&& 0 <= self.top.border && self.top.border <= coord_max
            &&& -coord_max <= self.top.value && self.top.value <= value_max
            &&& -coord_max <= self.bottom.min_value && self.bottom.min_value <= coord_max
            &&& 0 <= self.bottom.border && self.bottom.border <= coord_max
            &&& -coord_max <= self.bottom.value && self.bottom.value <= value_max
        };
        let rest_ok: bool = splits_ok && matches!(self.left.orientation, SplitOrientation::Left)
            && matches!(self.right.orientation, SplitOrientation::Right)
            && matches!(self.top.orientation, SplitOrientation::Top)
            && matches!(self.bottom.orientation, SplitOrientation::Bottom)
            && -coord_max <= self.center_min_size.x && self.center_min_size.x <= coord_max
            && -coord_max <= self.center_min_size.y && self.center_min_size.y <= coord_max
            && self.drag_splits.left == self.left.dragging
            && self.drag_splits.right == self.right.dragging
            && self.drag_splits.top == self.top.dragging
            && self.drag_splits.bottom == self.bottom.dragging;
        if !rest_ok {
            return false;
        }
        let ms_x: i64 = self.left.value + self.left.border + self.right.value + self.right.border
            + self.center_min_size.x;
        let ms_y: i64 = self.top.value + self.top.border + self.bottom.value + self.bottom.border
            + self.center_min_size.y;
        ms_x <= 5 * coord_max && ms_y <= 5 * coord_max
    }

    /// Computes the layout's minimum size from the splits' current values.
    ///
    /// The current values are used instead of the minimum values, so that
    /// the splits keep appearing at their current position when the window
    /// shrinks.
    pub fn min_size(&self) -> (r: Vec2)
        requires
            self@.wf(),
        ensures
            r@ == spec_min_size(self@),
    {
        Vec2 {
            x: self.left.value + self.left.border + self.right.value + self.right.border
                + self.center_min_size.x,
            y: self.top.value + self.top.border + self.bottom.value + self.bottom.border
                + self.center_min_size.y,
        }
    }

    /// Computes the bounds from the window bounds `rect`.
    ///
    /// The result never gets smaller than [`Self::min_size`].
    pub fn bounds(&self, rect: Rectangle) -> (r: Rectangle)
        requires
            self@.wf(),
            rect_ok(rect@),
        ensures
            r@ == spec_bounds(self@, rect@),
            r@.w >= spec_min_size(self@).x,
            r@.h >= spec_min_size(self@).y,
            rect_wide_ok(r@),
    {
        let ms = self.min_size();
        Rectangle {
            x: rect.x,
            y: rect.y,
            w: if rect.w > ms.x {
                rect.w
            } else {
                ms.x
            },
            h: if rect.h > ms.y {
                rect.h
            } else {
                ms.y
            },
        }
    }

    /// Returns the left/right split layout window for the given purpose.
    pub fn left_right_layout(&self, purpose: SplitLayoutPurpose) -> (r: SplitLayout)
        requires
            self@.wf(),
        ensures
            r@ == spec_left_right_layout(self@, purpose),
    {
        match purpose {
            SplitLayoutPurpose::Draw => SplitLayout {
                start: self.top.value + self.top.border,
                end: self.bottom.value + self.bottom.border,
            },
            SplitLayoutPurpose::Event => SplitLayout { start: 0, end: 0 },
        }
    }

    /// Returns the top/bottom split layout window.
    pub fn top_bottom_layout(&self) -> (r: SplitLayout)
        ensures
            r@ == spec_top_bottom_layout(),
    {
        SplitLayout { start: 0, end: 0 }
    }

    /// Processes one event for one split: computes the split's maximum
    /// value from the extent left over by its opposing split and the
    /// center minimum, then forwards the event.
    fn event_edge(
        split: &mut SplitController,
        extent: i64,
        opposing_value: i64,
        opposing_border: i64,
        center_min: i64,
        layout: SplitLayout,
        bounds: Rectangle,
        e: &SplitEvent,
    )
        requires
            old(split)@.wf(),
            layout_ok(layout@),
            rect_wide_ok(bounds@),
            event_ok(*e),
            extent as int <= 5 * max_coord(),
            coord_ok(center_min as int),
            0 <= opposing_border as int <= max_coord(),
            -max_coord() <= opposing_value as int <= 7 * max_coord(),
            extent as int >= old(split)@.value + old(split)@.border + opposing_value as int
                + opposing_border as int + center_min as int,
        ensures
            final(split)@ == split_step(
                old(split)@,
                layout@,
                spec_max_value(
                    extent as int,
                    opposing_value as int,
                    center_min as int,
                    old(split)@.border,
                    opposing_border as int,
                ),
                bounds@,
                *e,
            ),
            final(split)@.wf(),
            final(split)@.value <= spec_max_value(
                extent as int,
                opposing_value as int,
                center_min as int,
                old(split)@.border,
                opposing_border as int,
            ),
            final(split)@.border == old(split)@.border,
            final(split)@.min_value == old(split)@.min_value,
            final(split)@.orientation == old(split)@.orientation,
    {
        let max_value: i64 = extent - opposing_value - center_min - split.border
            - opposing_border;
        proof {
            assert(max_value as int >= old(split)@.value);
            assert(max_value as int <= 7 * max_coord());
        }
        split.event(layout, max_value, bounds, e);
    }

    /// Handles one event: the layout transitions exactly by
    /// [`spec_layout_step`], and stays well formed.
    ///
    /// A locked split never changes, and while a split is being dragged no
    /// other split changes either.
    #[verifier::rlimit(100)]
    pub fn event(&mut self, rect: Rectangle, e: &SplitEvent)
        requires
            old(self)@.wf(),
            rect_ok(rect@),
            event_ok(*e),
        ensures
            final(self)@ == spec_layout_step(old(self)@, rect@, *e),
            final(self)@.wf(),
            !spec_active(old(self).drag_splits, old(self).lock_splits.left, old(self).drag_splits.left)
                ==> final(self)@.left == old(self)@.left,
            !spec_active(old(self).drag_splits, old(self).lock_splits.right, old(self).drag_splits.right)
                ==> final(self)@.right == old(self)@.right,
            !spec_active(old(self).drag_splits, old(self).lock_splits.top, old(self).drag_splits.top)
                ==> final(self)@.top == old(self)@.top,
            !spec_active(old(self).drag_splits, old(self).lock_splits.bottom, old(self).drag_splits.bottom)
                ==> final(self)@.bottom == old(self)@.bottom,
    {
        let ghost c = old(self)@;
        let bounds = self.bounds(rect);
        let ghost b = spec_bounds(c, rect@);
        proof {
            assert(b.h >= spec_min_size(c).y && b.h <= 5 * max_coord());
            assert(b.w >= spec_min_size(c).x && b.w <= 5 * max_coord());
        }

        if !self.lock_splits.top {
            if !self.drag_splits.any() || self.drag_splits.top {
                let layout = self.top_bottom_layout();
                let opposing_value = self.bottom.value;
                let opposing_border = self.bottom.border;
                Self::event_edge(
                    &mut self.top,
                    bounds.h,
                    opposing_value,
                    opposing_border,
                    self.center_min_size.y,
                    layout,
                    bounds,
                    e,
                );
            }
        }
        let ghost top1 = self.top@;
        proof {
            assert(top1 == spec_step_top(c, b, *e));
            assert(top1.value + top1.border + c.bottom.value + c.bottom.border
                + c.center_min_size.y <= b.h);
        }

        if !self.lock_splits.bottom {
            if !self.drag_splits.any() || self.drag_splits.bottom {
                let layout = self.top_bottom_layout();
                let opposing_value = self.top.value;
                let opposing_border = self.top.border;
                Self::event_edge(
                    &mut self.bottom,
                    bounds.h,
                    opposing_value,
                    opposing_border,
                    self.center_min_size.y,
                    layout,
                    bounds,
                    e,
                );
            }
        }
        let ghost bottom1 = self.bottom@;
        proof {
            assert(bottom1 == spec_step_bottom(c, top1, b, *e));
            assert(top1.value + top1.border + bottom1.value + bottom1.border
                + c.center_min_size.y <= b.h);
        }

        if !self.lock_splits.left {
            if !self.drag_splits.any() || self.drag_splits.left {
                let layout = SplitLayout { start: 0, end: 0 };
                let opposing_value = self.right.value;
                let opposing_border = self.right.border;
                Self::event_edge(
                    &mut self.left,
                    bounds.w,
                    opposing_value,
                    opposing_border,
                    self.center_min_size.x,
                    layout,
                    bounds,
                    e,
                );
            }
        }
        let ghost left1 = self.left@;
        proof {
            assert(left1 == spec_step_left(c, b, *e));
            assert(left1.value + left1.border + c.right.value + c.right.border
                + c.center_min_size.x <= b.w);
        }

        if !self.lock_splits.right {
            if !self.drag_splits.any() || self.drag_splits.right {
                let layout = SplitLayout { start: 0, end: 0 };
                let opposing_value = self.left.value;
                let opposing_border = self.left.border;
                Self::event_edge(
                    &mut self.right,
                    bounds.w,
                    opposing_value,
                    opposing_border,
                    self.center_min_size.x,
                    layout,
                    bounds,
                    e,
                );
            }
        }
        let ghost right1 = self.right@;
        proof {
            assert(right1 == spec_step_right(c, left1, b, *e));
            assert(left1.value + left1.border + right1.value + right1.border
                + c.center_min_size.x <= b.w);
        }

        self.drag_splits = EdgeFlags {
            left: self.left.is_dragging(),
            right: self.right.is_dragging(),
            top: self.top.is_dragging(),
            bottom: self.bottom.is_dragging(),
        };
        proof {
            assert(self@ == spec_layout_step(old(self)@, rect@, *e));
            assert(self@.wf());
        }
    }

    /// Computes the split line rectangles for drawing:
    /// `[left, right, top, bottom]`.
    pub fn rectangles(&self, rect: Rectangle) -> (r: [Rectangle; 4])
        requires
            self@.wf(),
            rect_ok(rect@),
        ensures
            ({
                let b = spec_bounds(self@, rect@);
                let lr = spec_left_right_layout(self@, SplitLayoutPurpose::Draw);
                let tb = spec_top_bottom_layout();
                &&& r[0]@ == spec_line_rect(
                    SplitOrientation::Left,
                    self@.left.value,
                    self@.left.border,
                    lr,
                    b,
                )
                &&& r[1]@ == spec_line_rect(
                    SplitOrientation::Right,
                    self@.right.value,
                    self@.right.border,
                    lr,
                    b,
                )
                &&& r[2]@ == spec_line_rect(
                    SplitOrientation::Top,
                    self@.top.value,
                    self@.top.border,
                    tb,
                    b,
                )
                &&& r[3]@ == spec_line_rect(
                    SplitOrientation::Bottom,
                    self@.bottom.value,
                    self@.bottom.border,
                    tb,
                    b,
                )
            }),
    {
        let bounds = self.bounds(rect);
        let top_bottom_layout = self.top_bottom_layout();
        let left_right_layout = self.left_right_layout(SplitLayoutPurpose::Draw);
        [
            self.left.line_rect(left_right_layout, bounds),
            self.right.line_rect(left_right_layout, bounds),
            self.top.line_rect(top_bottom_layout, bounds),
            self.bottom.line_rect(top_bottom_layout, bounds),
        ]
    }

    /// Returns the split controller states `[left, right, top, bottom]`.
    pub fn states(&self) -> (r: [SplitState; 4])
        ensures
            r[0] == spec_state(self.left.mouse_hover, self.left.dragging),
            r[1] == spec_state(self.right.mouse_hover, self.right.dragging),
            r[2] == spec_state(self.top.mouse_hover, self.top.dragging),
            r[3] == spec_state(self.bottom.mouse_hover, self.bottom.dragging),
    {
        [self.left.state(), self.right.state(), self.top.state(), self.bottom.state()]
    }

    /// Computes the panel rectangles `[left, right, top, bottom, center]`:
    /// the top and bottom panels span the full width, the left and right
    /// panels the band between the top and bottom splits' lines, and the
    /// center what remains after all four splits and their borders.
    pub fn panel_rectangles(&self, rect: Rectangle) -> (r: [Rectangle; 5])
        requires
            self@.wf(),
            rect_ok(rect@),
        ensures
            ({
                let b = spec_bounds(self@, rect@);
                let band_y = b.y + self@.top.value + self@.top.border;
                let band_h = b.h - self@.top.value - self@.top.border - self@.bottom.value
                    - self@.bottom.border;
                &&& r[0]@ == (RectView { x: b.x, y: band_y, w: self@.left.value, h: band_h })
                &&& r[1]@ == (RectView {
                    x: b.x + b.w - self@.right.value,
                    y: band_y,
                    w: self@.right.value,
                    h: band_h,
                })
                &&& r[2]@ == (RectView { x: b.x, y: b.y, w: b.w, h: self@.top.value })
                &&& r[3]@ == (RectView {
                    x: b.x,
                    y: b.y + b.h - self@.bottom.value,
                    w: b.w,
                    h: self@.bottom.value,
                })
                &&& r[4]@ == (RectView {
                    x: b.x + self@.left.value + self@.left.border,
                    y: band_y,
                    w: b.w - self@.right.value - self@.right.border - self@.left.value
                        - self@.left.border,
                    h: band_h,
                })
            }),
    {
        let bounds = self.bounds(rect);
        let left_right_y: i64 = bounds.y + self.top.value + self.top.border;
        let left_right_h: i64 = bounds.h - self.top.value - self.top.border - self.bottom.value
            - self.bottom.border;
        [
            Rectangle { x: bounds.x, y: left_right_y, w: self.left.value, h: left_right_h },
            Rectangle {
                x: bounds.x + bounds.w - self.right.value,
                y: left_right_y,
                w: self.right.value,
                h: left_right_h,
            },
            Rectangle { x: bounds.x, y: bounds.y, w: bounds.w, h: self.top.value },
            Rectangle {
                x: bounds.x,
                y: bounds.y + bounds.h - self.bottom.value,
                w: bounds.w,
                h: self.bottom.value,
            },
            Rectangle {
                x: bounds.x + self.left.value + self.left.border,
                y: left_right_y,
                w: bounds.w - self.right.value - self.right.border - self.left.value
                    - self.left.border,
                h: left_right_h,
            },
        ]
    }
}

} // verus!
