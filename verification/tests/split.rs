//! Tests for single split controllers, geometry primitives and settings.

use split_controller::{
    is_inside, Rectangle, SplitController, SplitEvent, SplitLayout, SplitLayoutSettings,
    SplitOrientation, SplitState, Vec2,
};

fn rect(x: i64, y: i64, w: i64, h: i64) -> Rectangle {
    Rectangle { x, y, w, h }
}

fn zero_layout() -> SplitLayout {
    SplitLayout { start: 0, end: 0 }
}

#[test]
fn state_follows_hover_and_dragging_flags() {
    let mut c = SplitController::new(50, 50, 2, SplitOrientation::Left);
    assert_eq!(c.state(), SplitState::Inactive);
    c.mouse_hover = true;
    assert_eq!(c.state(), SplitState::Hover);
    c.dragging = true;
    assert_eq!(c.state(), SplitState::Drag);
    c.mouse_hover = false;
    assert_eq!(c.state(), SplitState::DragNotFollowing);
    c.dragging = false;
    assert_eq!(c.state(), SplitState::Inactive);
}

#[test]
fn new_split_is_idle() {
    let c = SplitController::new(60, 40, 2, SplitOrientation::Top);
    assert_eq!(c.value, 60);
    assert_eq!(c.min_value, 40);
    assert_eq!(c.border, 2);
    assert_eq!(c.orientation, SplitOrientation::Top);
    assert!(!c.is_dragging());
    assert_eq!(c.state(), SplitState::Inactive);
}

#[test]
fn line_rect_left() {
    let c = SplitController::new(50, 50, 2, SplitOrientation::Left);
    let r = c.line_rect(SplitLayout { start: 10, end: 20 }, rect(5, 7, 400, 300));
    assert_eq!(r, rect(55, 17, 2, 270));
}

#[test]
fn line_rect_right() {
    let c = SplitController::new(50, 50, 2, SplitOrientation::Right);
    let r = c.line_rect(SplitLayout { start: 10, end: 20 }, rect(5, 7, 400, 300));
    assert_eq!(r, rect(353, 17, 2, 270));
}

#[test]
fn line_rect_top() {
    let c = SplitController::new(50, 50, 2, SplitOrientation::Top);
    let r = c.line_rect(SplitLayout { start: 10, end: 20 }, rect(5, 7, 400, 300));
    assert_eq!(r, rect(15, 57, 370, 2));
}

#[test]
fn line_rect_bottom() {
    let c = SplitController::new(50, 50, 2, SplitOrientation::Bottom);
    let r = c.line_rect(SplitLayout { start: 10, end: 20 }, rect(5, 7, 400, 300));
    assert_eq!(r, rect(15, 255, 370, 2));
}

#[test]
fn is_inside_is_half_open() {
    let r = rect(0, 0, 10, 10);
    assert!(is_inside(Vec2 { x: 0, y: 0 }, r));
    assert!(is_inside(Vec2 { x: 9, y: 9 }, r));
    assert!(!is_inside(Vec2 { x: 10, y: 0 }, r));
    assert!(!is_inside(Vec2 { x: 0, y: 10 }, r));
    assert!(!is_inside(Vec2 { x: -1, y: 0 }, r));
}

#[test]
fn drag_move_clamps_to_max_value() {
    let mut c = SplitController::new(50, 50, 2, SplitOrientation::Left);
    c.dragging = true;
    c.event(
        zero_layout(),
        336,
        rect(0, 0, 400, 300),
        &SplitEvent::PointerMove(Vec2 { x: 390, y: 150 }),
    );
    assert_eq!(c.value, 336);
}

#[test]
fn drag_move_clamps_to_min_value() {
    let mut c = SplitController::new(50, 50, 2, SplitOrientation::Left);
    c.dragging = true;
    c.event(
        zero_layout(),
        336,
        rect(0, 0, 400, 300),
        &SplitEvent::PointerMove(Vec2 { x: 10, y: 150 }),
    );
    assert_eq!(c.value, 50);
}

#[test]
fn drag_move_with_crossed_bounds_lands_on_max_value() {
    // When the window is too small, the minimum can exceed the maximum;
    // the lower bound is applied first, so the value lands on the maximum,
    // below the split's own minimum.
    let mut c = SplitController::new(50, 60, 2, SplitOrientation::Left);
    c.dragging = true;
    c.event(
        zero_layout(),
        40,
        rect(0, 0, 400, 300),
        &SplitEvent::PointerMove(Vec2 { x: 100, y: 150 }),
    );
    assert_eq!(c.value, 40);
}

#[test]
fn press_without_hover_does_not_drag() {
    let mut c = SplitController::new(50, 50, 2, SplitOrientation::Left);
    c.event(zero_layout(), 336, rect(0, 0, 400, 300), &SplitEvent::Press);
    assert!(!c.is_dragging());
}

#[test]
fn press_while_hovering_starts_drag_and_release_ends_it() {
    let mut c = SplitController::new(50, 50, 2, SplitOrientation::Left);
    let r = rect(0, 0, 400, 300);
    c.event(zero_layout(), 336, r, &SplitEvent::PointerMove(Vec2 { x: 51, y: 150 }));
    assert_eq!(c.state(), SplitState::Hover);
    c.event(zero_layout(), 336, r, &SplitEvent::Press);
    assert_eq!(c.state(), SplitState::Drag);
    c.event(zero_layout(), 336, r, &SplitEvent::Release);
    assert_eq!(c.state(), SplitState::Hover);
}

#[test]
fn other_events_change_nothing() {
    let mut c = SplitController::new(50, 50, 2, SplitOrientation::Left);
    c.mouse_hover = true;
    c.dragging = true;
    c.event(zero_layout(), 336, rect(0, 0, 400, 300), &SplitEvent::Other);
    assert_eq!(c.value, 50);
    assert!(c.mouse_hover);
    assert!(c.is_dragging());
}

#[test]
fn right_split_measures_from_far_edge() {
    let mut c = SplitController::new(50, 50, 2, SplitOrientation::Right);
    c.dragging = true;
    c.event(
        zero_layout(),
        336,
        rect(0, 0, 400, 300),
        &SplitEvent::PointerMove(Vec2 { x: 300, y: 150 }),
    );
    assert_eq!(c.value, 99);
}

#[test]
fn settings_new_fills_every_edge_with_the_minimum() {
    let s = SplitLayoutSettings::new(2, 50);
    assert_eq!(s.border, 2);
    assert_eq!(s.center_min_size, Vec2 { x: 1, y: 1 });
    assert_eq!(s.left_value, 50);
    assert_eq!(s.left_min_value, 50);
    assert_eq!(s.right_value, 50);
    assert_eq!(s.right_min_value, 50);
    assert_eq!(s.top_value, 50);
    assert_eq!(s.top_min_value, 50);
    assert_eq!(s.bottom_value, 50);
    assert_eq!(s.bottom_min_value, 50);
    assert!(!s.lock_left && !s.lock_right && !s.lock_top && !s.lock_bottom);
}

#[test]
fn settings_builders_set_one_edge_each() {
    let s = SplitLayoutSettings::new(2, 50).left(60, 10).right(70, 20).top(80, 30).bottom(90, 40);
    assert_eq!((s.left_value, s.left_min_value), (60, 10));
    assert_eq!((s.right_value, s.right_min_value), (70, 20));
    assert_eq!((s.top_value, s.top_min_value), (80, 30));
    assert_eq!((s.bottom_value, s.bottom_min_value), (90, 40));
}

#[test]
fn settings_locks_pin_value_and_minimum() {
    let s = SplitLayoutSettings::new(2, 50)
        .lock_left(11)
        .lock_right(12)
        .lock_top(13)
        .lock_bottom(14);
    assert!(s.lock_left && s.lock_right && s.lock_top && s.lock_bottom);
    assert_eq!((s.left_value, s.left_min_value), (11, 11));
    assert_eq!((s.right_value, s.right_min_value), (12, 12));
    assert_eq!((s.top_value, s.top_min_value), (13, 13));
    assert_eq!((s.bottom_value, s.bottom_min_value), (14, 14));
}
