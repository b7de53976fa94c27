//! Tests for the composite split layout controller.

use split_controller::{
    Rectangle, SplitEvent, SplitLayout, SplitLayoutController, SplitLayoutPurpose,
    SplitLayoutSettings, SplitState, Vec2,
};

fn rect(x: i64, y: i64, w: i64, h: i64) -> Rectangle {
    Rectangle { x, y, w, h }
}

/// border 2, every split at value 50 with minimum 50, center minimum 10x10.
fn controller() -> SplitLayoutController {
    let mut settings = SplitLayoutSettings::new(2, 50);
    settings.center_min_size = Vec2 { x: 10, y: 10 };
    SplitLayoutController::new(&settings)
}

fn move_to(c: &mut SplitLayoutController, r: Rectangle, x: i64, y: i64) {
    c.event(r, &SplitEvent::PointerMove(Vec2 { x, y }));
}

#[test]
fn min_size_sums_values_borders_and_center() {
    let c = controller();
    assert_eq!(c.min_size(), Vec2 { x: 114, y: 114 });
}

#[test]
fn bounds_never_fall_below_min_size() {
    let c = controller();
    assert_eq!(c.bounds(rect(3, 4, 50, 500)), rect(3, 4, 114, 500));
    assert_eq!(c.bounds(rect(3, 4, 500, 20)), rect(3, 4, 500, 114));
    assert_eq!(c.bounds(rect(3, 4, 500, 500)), rect(3, 4, 500, 500));
}

#[test]
fn new_controller_takes_locks_from_settings() {
    let mut settings = SplitLayoutSettings::new(2, 50).lock_top(30);
    settings.center_min_size = Vec2 { x: 10, y: 10 };
    let c = SplitLayoutController::new(&settings);
    assert!(c.lock_splits.top);
    assert!(!c.lock_splits.left && !c.lock_splits.right && !c.lock_splits.bottom);
    assert_eq!(c.top.value, 30);
    assert_eq!(c.top.min_value, 30);
    assert!(c.well_formed());
}

#[test]
fn layout_windows_differ_by_purpose() {
    let c = controller();
    assert_eq!(
        c.left_right_layout(SplitLayoutPurpose::Draw),
        SplitLayout { start: 52, end: 52 }
    );
    assert_eq!(
        c.left_right_layout(SplitLayoutPurpose::Event),
        SplitLayout { start: 0, end: 0 }
    );
    assert_eq!(c.top_bottom_layout(), SplitLayout { start: 0, end: 0 });
}

#[test]
fn rectangles_give_the_four_split_lines() {
    let c = controller();
    let r = c.rectangles(rect(0, 0, 400, 300));
    assert_eq!(r[0], rect(50, 52, 2, 196));
    assert_eq!(r[1], rect(348, 52, 2, 196));
    assert_eq!(r[2], rect(0, 50, 400, 2));
    assert_eq!(r[3], rect(0, 248, 400, 2));
}

#[test]
fn panel_rectangles_partition_the_bounds() {
    let c = controller();
    let r = c.panel_rectangles(rect(0, 0, 400, 300));
    assert_eq!(r[0], rect(0, 52, 50, 196));
    assert_eq!(r[1], rect(350, 52, 50, 196));
    assert_eq!(r[2], rect(0, 0, 400, 50));
    assert_eq!(r[3], rect(0, 250, 400, 50));
    assert_eq!(r[4], rect(52, 52, 296, 196));
}

#[test]
fn queries_are_pure() {
    let c = controller();
    let r = rect(0, 0, 400, 300);
    assert_eq!(c.rectangles(r), c.rectangles(r));
    assert_eq!(c.panel_rectangles(r), c.panel_rectangles(r));
    assert_eq!(c.states(), c.states());
    assert_eq!(c.min_size(), c.min_size());
    assert_eq!(c.bounds(r), c.bounds(r));
}

#[test]
fn drag_left_split_clamps_and_goes_inactive_on_release() {
    let mut c = controller();
    let r = rect(0, 0, 400, 300);
    move_to(&mut c, r, 51, 150);
    assert_eq!(c.left.state(), SplitState::Hover);
    c.event(r, &SplitEvent::Press);
    assert_eq!(c.left.state(), SplitState::Drag);
    assert!(c.drag_splits.left);
    // The pointer jumps past the maximum: 400 - 50 - 10 - 2 - 2 = 336.
    move_to(&mut c, r, 390, 150);
    assert_eq!(c.left.value, 336);
    assert_eq!(c.left.state(), SplitState::DragNotFollowing);
    c.event(r, &SplitEvent::Release);
    assert_eq!(c.left.state(), SplitState::Inactive);
    assert_eq!(c.left.value, 336);
    assert!(!c.drag_splits.left);
}

#[test]
fn hovering_the_right_split_does_not_touch_the_left() {
    let mut c = controller();
    let r = rect(0, 0, 400, 300);
    move_to(&mut c, r, 349, 150);
    assert_eq!(c.right.state(), SplitState::Hover);
    assert_eq!(c.left.state(), SplitState::Inactive);
    assert_eq!(c.left.value, 50);
}

#[test]
fn locked_left_split_ignores_a_drag_gesture() {
    let mut settings = SplitLayoutSettings::new(2, 50).lock_left(50);
    settings.center_min_size = Vec2 { x: 10, y: 10 };
    let mut c = SplitLayoutController::new(&settings);
    let r = rect(0, 0, 400, 300);
    move_to(&mut c, r, 51, 150);
    c.event(r, &SplitEvent::Press);
    move_to(&mut c, r, 120, 150);
    c.event(r, &SplitEvent::Release);
    assert_eq!(c.left.value, 50);
    assert_eq!(c.left.state(), SplitState::Inactive);
}

#[test]
fn dragging_one_split_shields_the_others() {
    let mut c = controller();
    let r = rect(0, 0, 400, 300);
    move_to(&mut c, r, 51, 150);
    c.event(r, &SplitEvent::Press);
    assert!(c.drag_splits.left);
    // The pointer lands inside the right split's hit rectangle, but only
    // the dragged left split processes the move.
    move_to(&mut c, r, 349, 150);
    assert_eq!(c.right.state(), SplitState::Inactive);
    assert_eq!(c.right.value, 50);
    assert_eq!(c.top.state(), SplitState::Inactive);
    assert_eq!(c.bottom.state(), SplitState::Inactive);
    assert_eq!(c.left.value, 336);
}

#[test]
fn drag_top_split_downwards() {
    let mut c = controller();
    let r = rect(0, 0, 400, 300);
    move_to(&mut c, r, 200, 51);
    assert_eq!(c.top.state(), SplitState::Hover);
    c.event(r, &SplitEvent::Press);
    move_to(&mut c, r, 200, 100);
    assert_eq!(c.top.value, 99);
    assert_eq!(c.top.state(), SplitState::Drag);
    c.event(r, &SplitEvent::Release);
    assert_eq!(c.top.state(), SplitState::Hover);
}

#[test]
fn drag_bottom_split_stops_at_its_minimum() {
    let mut c = controller();
    let r = rect(0, 0, 400, 300);
    move_to(&mut c, r, 200, 249);
    assert_eq!(c.bottom.state(), SplitState::Hover);
    c.event(r, &SplitEvent::Press);
    move_to(&mut c, r, 200, 280);
    assert_eq!(c.bottom.value, 50);
    c.event(r, &SplitEvent::Release);
}

#[test]
fn events_keep_the_controller_well_formed() {
    let mut c = controller();
    let r = rect(0, 0, 400, 300);
    assert!(c.well_formed());
    move_to(&mut c, r, 51, 150);
    c.event(r, &SplitEvent::Press);
    move_to(&mut c, r, 390, 150);
    c.event(r, &SplitEvent::Release);
    c.event(r, &SplitEvent::Other);
    assert!(c.well_formed());
}

#[test]
fn states_lists_all_four_splits() {
    let mut c = controller();
    let r = rect(0, 0, 400, 300);
    move_to(&mut c, r, 349, 150);
    let s = c.states();
    assert_eq!(s[0], SplitState::Inactive);
    assert_eq!(s[1], SplitState::Hover);
    assert_eq!(s[2], SplitState::Inactive);
    assert_eq!(s[3], SplitState::Inactive);
}
