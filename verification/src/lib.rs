//! A library for handling split-panel layout state and events.
//!
//! Four draggable divider lines (left, right, top, bottom) carve a
//! rectangular window into five regions: four border panels and a center.
//! The library tracks hover/drag state per divider, computes divider and
//! panel geometry, and enforces minimum-size constraints.
//!
//! All geometry is expressed in integer coordinates of the host's local
//! space; the host maps raw pointer positions into that space before
//! handing events to the library.

mod layout;
mod math;
mod settings;
mod split;

pub use layout::{
    spec_active, spec_bounds, spec_layout_step, spec_left_right_layout, spec_max_value,
    spec_min_size, spec_step_bottom, spec_step_left, spec_step_right, spec_step_top,
    spec_top_bottom_layout, EdgeFlags, LayoutView, SplitLayoutController, SplitLayoutPurpose,
};
pub use math::{
    clamp, coord_ok, is_inside, max_coord, rect_ok, rect_wide_ok, spec_is_inside, wide_ok,
    RectView, Rectangle, Vec2, Vec2View,
};
pub use settings::{settings_ok, SplitLayoutSettings};
pub use split::{
    drag_target, event_ok, layout_ok, spec_line_rect, spec_state, split_step, SplitController,
    SplitEvent, SplitLayout, SplitLayoutView, SplitOrientation, SplitState, SplitView,
};
