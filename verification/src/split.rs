//! A single draggable divider: its interaction state and geometry.

use vstd::prelude::*;

use crate::math::{
    clamp, coord_ok, is_inside, max_coord, rect_wide_ok, spec_is_inside, wide_ok, RectView,
    Rectangle, Vec2, Vec2View,
};

verus! {

/// Orients a split from an edge of its parent panel.
#[derive(Clone, Copy, Debug, PartialEq, Eq, Structural)]
pub enum SplitOrientation {
    /// Splits from the left edge of the parent panel.
    Left,
    /// Splits from the right edge of the parent panel.
    Right,
    /// Splits from the top edge of the parent panel.
    Top,
    /// Splits from the bottom edge of the parent panel.
    Bottom,
}

/// The interaction state of a split.
#[derive(Clone, Copy, Debug, PartialEq, Eq, Structural)]
pub enum SplitState {
    /// The split is inactive.
    Inactive,
    /// The pointer is hovering above the split.
    Hover,
    /// The user is dragging the split.
    Drag,
    /// The user is dragging, but the split is not following the pointer.
    DragNotFollowing,
}

/// The cross-axis window of a split line: insets from the two ends of the
/// parent panel between which the divider line spans.
#[derive(Clone, Copy, Debug, PartialEq, Eq, Structural)]
pub struct SplitLayout {
    /// The inset of the split line from the start edge of the parent panel.
    pub start: i64,
    /// The inset of the split line from the end edge of the parent panel.
    pub end: i64,
}

/// The mathematical model of a [`SplitLayout`].
pub ghost struct SplitLayoutView {
    pub start: int,
    pub end: int,
}

impl View for SplitLayout {
    type V = SplitLayoutView;

    open spec fn view(&self) -> SplitLayoutView {
        SplitLayoutView { start: self.start as int, end: self.end as int }
    }
}

/// Both insets of the layout window are derived coordinates.
pub open spec fn layout_ok(l: SplitLayoutView) -> bool {
    &&& wide_ok(l.start)
    &&& wide_ok(l.end)
}

/// One discrete input event, with pointer positions already mapped into
/// the layout's local coordinate space by the host.
#[derive(Clone, Copy, Debug, PartialEq, Eq, Structural)]
pub enum SplitEvent {
    /// The pointer moved to the given local position.
    PointerMove(Vec2),
    /// The primary pointer button was pressed.
    Press,
    /// The primary pointer button was released.
    Release,
    /// Any other input; ignored by the controllers.
    Other,
}

/// A pointer position carried by the event is a host-supplied coordinate.
pub open spec fn event_ok(e: SplitEvent) -> bool {
    match e {
        SplitEvent::PointerMove(p) => coord_ok(p@.x) && coord_ok(p@.y),
        _ => true,
    }
}

/// One draggable split of the layout.
pub struct SplitController {
    /// Whether the pointer is hovering over the split line.
    pub mouse_hover: bool,
    /// Whether the user is dragging the split.
    pub dragging: bool,
    /// The current value of the split: its offset from the edge it anchors to.
    pub value: i64,
    /// The minimum value of the split.
    pub min_value: i64,
    /// The border width: the thickness of the split line.
    pub border: i64,
    /// The orientation of the split.
    pub orientation: SplitOrientation,
}

/// The mathematical model of a [`SplitController`].
pub ghost struct SplitView {
    pub mouse_hover: bool,
    pub dragging: bool,
    pub value: int,
    pub min_value: int,
    pub border: int,
    pub orientation: SplitOrientation,
}

impl View for SplitController {
    type V = SplitView;

    open spec fn view(&self) -> SplitView {
        SplitView {
            mouse_hover: self.mouse_hover,
            dragging: self.dragging,
            value: self.value as int,
            min_value: self.min_value as int,
            border: self.border as int,
            orientation: self.orientation,
        }
    }
}

impl SplitView {
    /// Well-formedness: the configuration fields are host-supplied
    /// coordinates with a nonnegative border, and the current value stays
    /// within the band that event handling preserves.
    pub open spec fn wf(self) -> bool {
        &&& coord_ok(self.min_value)
        &&& 0 <= self.border <= max_coord()
        &&& -max_coord() <= self.value <= 7 * max_coord()
    }
}

/// The state derived from the hover and dragging flags.
pub open spec fn spec_state(mouse_hover: bool, dragging: bool) -> SplitState {
    if dragging {
        if mouse_hover {
            SplitState::Drag
        } else {
            SplitState::DragNotFollowing
        }
    } else {
        if mouse_hover {
            SplitState::Hover
        } else {
            SplitState::Inactive
        }
    }
}

/// The value a drag would move the split to, before clamping: the pointer
/// position measured from the split's anchor edge, less half the border so
/// the line centers on the pointer.
pub open spec fn drag_target(o: SplitOrientation, pos: Vec2View, rect: RectView, border: int) -> int {
    match o {
        SplitOrientation::Left => pos.x - rect.x - border / 2,
        SplitOrientation::Right => rect.w - pos.x + rect.x - border / 2,
        SplitOrientation::Top => pos.y - rect.y - border / 2,
        SplitOrientation::Bottom => rect.y + rect.h - pos.y - border / 2,
    }
}

/// The split line's rectangle: it spans the cross axis from `layout.start`
/// to the parent's far extent less `layout.end`, offset along the main axis
/// by `value` from the anchor edge, with thickness `border`.
pub open spec fn spec_line_rect(
    o: SplitOrientation,
    value: int,
    border: int,
    layout: SplitLayoutView,
    rect: RectView,
) -> RectView {
    match o {
        SplitOrientation::Left => (RectView {
            x: rect.x + value,
            y: rect.y + layout.start,
            w: border,
            h: rect.h - layout.start - layout.end,
        }),
        SplitOrientation::Right => (RectView {
            x: rect.x + rect.w - value - border,
            y: rect.y + layout.start,
            w: border,
            h: rect.h - layout.start - layout.end,
        }),
        SplitOrientation::Top => (RectView {
            x: rect.x + layout.start,
            y: rect.y + value,
            w: rect.w - layout.start - layout.end,
            h: border,
        }),
        SplitOrientation::Bottom => (RectView {
            x: rect.x + layout.start,
            y: rect.y + rect.h - value - border,
            w: rect.w - layout.start - layout.end,
            h: border,
        }),
    }
}

/// The transition of one split under one event.
///
/// A pointer move first drags the value (when dragging) to the clamped
/// drag target, then recomputes hover against the split line at its new
/// value. A press starts a drag only while hovering; a release always ends
/// it. Other events change nothing.
#[verifier::opaque]
pub open spec fn split_step(
    s: SplitView,
    layout: SplitLayoutView,
    max_value: int,
    rect: RectView,
    e: SplitEvent,
) -> SplitView {
    match e {
        SplitEvent::PointerMove(p) => {
            let value = if s.dragging {
                clamp(drag_target(s.orientation, p@, rect, s.border), s.min_value, max_value)
            } else {
                s.value
            };
            let hover = spec_is_inside(p@, spec_line_rect(s.orientation, value, s.border, layout, rect));
            SplitView { value: value, mouse_hover: hover, ..s }
        },
        SplitEvent::Press => (SplitView { dragging: s.dragging || s.mouse_hover, ..s }),
        SplitEvent::Release => (SplitView { dragging: false, ..s }),
        SplitEvent::Other => s,
    }
}

impl SplitController {
    /// Creates a new `SplitController` with no hover and no drag.
    pub fn new(value: i64, min_value: i64, border: i64, orientation: SplitOrientation) -> (r:
        SplitController)
        ensures
            r@ == (SplitView {
                mouse_hover: false,
                dragging: false,
                value: value as int,
                min_value: min_value as int,
                border: border as int,
                orientation: orientation,
            }),
    {
        SplitController {
            mouse_hover: false,
            dragging: false,
            value: value,
            min_value: min_value,
            border: border,
            orientation: orientation,
        }
    }

    /// Gets whether the split is currently being dragged by the user.
    pub fn is_dragging(&self) -> (r: bool)
        ensures
            r == self.dragging,
    {
        self.dragging
    }

    /// Gets the current state of the split, derived from the hover and
    /// dragging flags alone.
    pub fn state(&self) -> (r: SplitState)
        ensures
            r == spec_state(self.mouse_hover, self.dragging),
    {
        match (self.mouse_hover, self.dragging) {
            (false, false) => SplitState::Inactive,
            (true, false) => SplitState::Hover,
            (true, true) => SplitState::Drag,
            (false, true) => SplitState::DragNotFollowing,
        }
    }

    /// Gets the split line's rectangle within the parent panel `rect`,
    /// given the cross-axis `layout` window.
    pub fn line_rect(&self, layout: SplitLayout, rect: Rectangle) -> (r: Rectangle)
        requires
            wide_ok(self@.value),
            0 <= self@.border <= max_coord(),
            layout_ok(layout@),
            rect_wide_ok(rect@),
        ensures
            r@ == spec_line_rect(self.orientation, self@.value, self@.border, layout@, rect@),
    {
        match self.orientation {
            SplitOrientation::Left => Rectangle {
                x: rect.x + self.value,
                y: rect.y + layout.start,
                w: self.border,
                h: rect.h - layout.start - layout.end,
            },
            SplitOrientation::Right => Rectangle {
                x: rect.x + rect.w - self.value - self.border,
                y: rect.y + layout.start,
                w: self.border,
                h: rect.h - layout.start - layout.end,
            },
            SplitOrientation::Top => Rectangle {
                x: rect.x + layout.start,
                y: rect.y + self.value,
                w: rect.w - layout.start - layout.end,
                h: self.border,
            },
            SplitOrientation::Bottom => Rectangle {
                x: rect.x + layout.start,
                y: rect.y + rect.h - self.value - self.border,
                w: rect.w - layout.start - layout.end,
                h: self.border,
            },
        }
    }

    /// Handles one event: the split transitions exactly by [`split_step`].
    ///
    /// While dragging, a pointer move clamps the new value: it never
    /// exceeds `max_value`, and never falls below `min_value` as long as
    /// `min_value <= max_value` (when the bounds cross, the value lands on
    /// `max_value`).
    pub fn event(&mut self, layout: SplitLayout, max_value: i64, rect: Rectangle, e: &SplitEvent)
        requires
            old(self)@.wf(),
            layout_ok(layout@),
            wide_ok(max_value as int),
            rect_wide_ok(rect@),
            event_ok(*e),
        ensures
            final(self)@ == split_step(old(self)@, layout@, max_value as int, rect@, *e),
            final(self)@.min_value == old(self)@.min_value,
            final(self)@.border == old(self)@.border,
            final(self)@.orientation == old(self)@.orientation,
            !((*e) is PointerMove && old(self).dragging)
                ==> final(self)@.value == old(self)@.value,
            (*e) is PointerMove && old(self).dragging ==> final(self)@.value <= max_value as int,
            (*e) is PointerMove && old(self).dragging && old(self)@.min_value <= max_value as int
                ==> old(self)@.min_value <= final(self)@.value,
            (*e) is PointerMove && old(self).dragging
                ==> final(self)@.value >= old(self)@.min_value || final(self)@.value
                == max_value as int,
    {
        proof {
            reveal(split_step);
        }
        match e {
            SplitEvent::PointerMove(pos) => {
                if self.dragging {
                    let target: i64 = match self.orientation {
                        SplitOrientation::Left => pos.x - rect.x - self.border / 2,
                        SplitOrientation::Right => rect.w - pos.x + rect.x - self.border / 2,
                        SplitOrientation::Top => pos.y - rect.y - self.border / 2,
                        SplitOrientation::Bottom => rect.y + rect.h - pos.y - self.border / 2,
                    };
                    let raised: i64 = if target > self.min_value {
                        target
                    } else {
                        self.min_value
                    };
                    self.value = if raised < max_value {
                        raised
                    } else {
                        max_value
                    };
                }
                let lr = self.line_rect(layout, rect);
                self.mouse_hover = is_inside(*pos, lr);
            },
            SplitEvent::Press => {
                if self.mouse_hover {
                    self.dragging = true;
                }
            },
            SplitEvent::Release => {
                self.dragging = false;
            },
            SplitEvent::Other => {},
        }
    }
}

} // verus!
