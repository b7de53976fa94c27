//! Construction-time configuration for the split layout.

use vstd::prelude::*;

use crate::math::{coord_ok, max_coord, Vec2};

verus! {

/// Stores split layout settings: per-edge initial and minimum values, the
/// shared border width, the center's minimum size and per-edge locks.
#[derive(Clone, Copy, Debug, PartialEq, Eq, Structural)]
pub struct SplitLayoutSettings {
    /// The border width.
    pub border: i64,
    /// The minimum size of the center panel.
    pub center_min_size: Vec2,
    /// The initial value for the left split.
    pub left_value: i64,
    /// The minimum value for the left split.
    pub left_min_value: i64,
    /// The initial value for the right split.
    pub right_value: i64,
    /// The minimum value for the right split.
    pub right_min_value: i64,
    /// The initial value for the top split.
    pub top_value: i64,
    /// The minimum value for the top split.
    pub top_min_value: i64,
    /// The initial value for the bottom split.
    pub bottom_value: i64,
    /// The minimum value for the bottom split.
    pub bottom_min_value: i64,
    /// Locks the left split.
    pub lock_left: bool,
    /// Locks the right split.
    pub lock_right: bool,
    /// Locks the top split.
    pub lock_top: bool,
    /// Locks the bottom split.
    pub lock_bottom: bool,
}

/// Every scalar of the settings is a host-supplied coordinate, with a
/// nonnegative border.
pub open spec fn settings_ok(s: SplitLayoutSettings) -> bool {
    &&& 0 <= s.border <= max_coord()
    &&& coord_ok(s.center_min_size@.x)
    &&& coord_ok(s.center_min_size@.y)
    &&& coord_ok(s.left_value as int)
    &&& coord_ok(s.left_min_value as int)
    &&& coord_ok(s.right_value as int)
    &&& coord_ok(s.right_min_value as int)
    &&& coord_ok(s.top_value as int)
    &&& coord_ok(s.top_min_value as int)
    &&& coord_ok(s.bottom_value as int)
    &&& coord_ok(s.bottom_min_value as int)
}

impl SplitLayoutSettings {
    /// Creates a new `SplitLayoutSettings` object with all split values set
    /// to the given minimum, nothing locked, and the center's minimum size
    /// set to 1x1.
    pub fn new(border: i64, min_value: i64) -> (r: SplitLayoutSettings)
        ensures
            r == (SplitLayoutSettings {
                border: border,
                center_min_size: Vec2 { x: 1, y: 1 },
                left_value: min_value,
                left_min_value: min_value,
                right_value: min_value,
                right_min_value: min_value,
                top_value: min_value,
                top_min_value: min_value,
                bottom_value: min_value,
                bottom_min_value: min_value,
                lock_left: false,
                lock_right: false,
                lock_top: false,
                lock_bottom: false,
            }),
    {
        SplitLayoutSettings {
            border: border,
            center_min_size: Vec2 { x: 1, y: 1 },
            left_value: min_value,
            left_min_value: min_value,
            right_value: min_value,
            right_min_value: min_value,
            top_value: min_value,
            top_min_value: min_value,
            bottom_value: min_value,
            bottom_min_value: min_value,
            lock_left: false,
            lock_right: false,
            lock_top: false,
            lock_bottom: false,
        }
    }

    /// Sets the value and minimum value for the left split.
    pub fn left(self, value: i64, min_value: i64) -> (r: SplitLayoutSettings)
        ensures
            r == (SplitLayoutSettings { left_value: value, left_min_value: min_value, ..self }),
    {
        SplitLayoutSettings { left_value: value, left_min_value: min_value, ..self }
    }

    /// Sets the value and minimum value for the right split.
    pub fn right(self, value: i64, min_value: i64) -> (r: SplitLayoutSettings)
        ensures
            r == (SplitLayoutSettings { right_value: value, right_min_value: min_value, ..self }),
    {
        SplitLayoutSettings { right_value: value, right_min_value: min_value, ..self }
    }

    /// Sets the value and minimum value for the top split.
    pub fn top(self, value: i64, min_value: i64) -> (r: SplitLayoutSettings)
        ensures
            r == (SplitLayoutSettings { top_value: value, top_min_value: min_value, ..self }),
    {
        SplitLayoutSettings { top_value: value, top_min_value: min_value, ..self }
    }

    /// Sets the value and minimum value for the bottom split.
    pub fn bottom(self, value: i64, min_value: i64) -> (r: SplitLayoutSettings)
        ensures
            r == (SplitLayoutSettings { bottom_value: value, bottom_min_value: min_value, ..self }),
    {
        SplitLayoutSettings { bottom_value: value, bottom_min_value: min_value, ..self }
    }

    /// Locks the left split, setting its value and minimum value at the
    /// same time.
    pub fn lock_left(self, value: i64) -> (r: SplitLayoutSettings)
        ensures
            r == (SplitLayoutSettings {
                lock_left: true,
                left_value: value,
                left_min_value: value,
                ..self
            }),
    {
        SplitLayoutSettings { lock_left: true, left_value: value, left_min_value: value, ..self }
    }

    /// Locks the right split, setting its value and minimum value at the
    /// same time.
    pub fn lock_right(self, value: i64) -> (r: SplitLayoutSettings)
        ensures
            r == (SplitLayoutSettings {
                lock_right: true,
                right_value: value,
                right_min_value: value,
                ..self
            }),
    {
        SplitLayoutSettings { lock_right: true, right_value: value, right_min_value: value, ..self }
    }

    /// Locks the top split, setting its value and minimum value at the
    /// same time.
    pub fn lock_top(self, value: i64) -> (r: SplitLayoutSettings)
        ensures
            r == (SplitLayoutSettings {
                lock_top: true,
                top_value: value,
                top_min_value: value,
                ..self
            }),
    {
        SplitLayoutSettings { lock_top: true, top_value: value, top_min_value: value, ..self }
    }

    /// Locks the bottom split, setting its value and minimum value at the
    /// same time.
    pub fn lock_bottom(self, value: i64) -> (r: SplitLayoutSettings)
        ensures
            r == (SplitLayoutSettings {
                lock_bottom: true,
                bottom_value: value,
                bottom_min_value: value,
                ..self
            }),
    {
        SplitLayoutSettings {
            lock_bottom: true,
            bottom_value: value,
            bottom_min_value: value,
            ..self
        }
    }
}

} // verus!
