use bezier_editor::curve::{evaluate, CurveSample};
use bezier_editor::editor::{grab_index, DragState, Editor};
use bezier_editor::geometry::{drag_position, get_center, hit, tangent_segments, Point};

#[test]
fn initial_tangent_segments_have_zero_length() {
    let e = Editor::new();
    assert_eq!(e.points[0], Point::new(100, 360));
    assert_eq!(e.points[1], Point::new(100, 360));
    assert_eq!(e.points[2], Point::new(1180, 360));
    assert_eq!(e.points[3], Point::new(1180, 360));
    assert_eq!(e.drag, DragState::Idle);
    let (a, b) = tangent_segments(&e.points);
    assert_eq!(a.start, a.end);
    assert_eq!(b.start, b.end);
    assert_eq!(a.start, Point::new(105, 365));
    assert_eq!(b.start, Point::new(1185, 365));
}

#[test]
fn drag_moves_grabbed_point_under_pointer() {
    let mut e = Editor::new();
    e.update(Point::new(100, 360), true);
    // handles 0 and 1 coincide at the start: the higher index is grabbed
    assert_eq!(e.drag, DragState::Dragging(1));
    e.update(Point::new(200, 400), true);
    assert_eq!(e.points[1], Point::new(195, 395));
    assert_eq!(e.points[0], Point::new(100, 360));
}

#[test]
fn drag_moves_point_zero_when_alone() {
    let mut e = Editor::new();
    e.points[1] = Point::new(500, 500);
    e.update(Point::new(100, 360), true);
    assert_eq!(e.drag, DragState::Dragging(0));
    e.update(Point::new(200, 400), true);
    assert_eq!(e.points[0], Point::new(195, 395));
    e.update(Point::new(300, 300), false);
    assert_eq!(e.drag, DragState::Idle);
    assert_eq!(e.points[0], Point::new(195, 395));
}

#[test]
fn overlapping_handles_grab_highest_index() {
    let mut e = Editor::new();
    e.update(Point::new(1180, 360), true);
    assert_eq!(e.drag, DragState::Dragging(3));
    assert_eq!(grab_index(&Editor::new().points, Point::new(1185, 365)), Some(3));
}

#[test]
fn press_outside_every_handle_stays_idle() {
    let mut e = Editor::new();
    e.update(Point::new(640, 100), true);
    assert_eq!(e.drag, DragState::Idle);
    assert_eq!(e.points, Editor::new().points);
    assert_eq!(grab_index(&e.points, Point::new(99, 360)), None);
}

#[test]
fn release_while_idle_is_noop() {
    let mut e = Editor::new();
    e.update(Point::new(105, 365), false);
    assert_eq!(e.drag, DragState::Idle);
    assert_eq!(e.points, Editor::new().points);
}

#[test]
fn press_while_dragging_keeps_grab() {
    let mut e = Editor::new();
    e.update(Point::new(1180, 360), true);
    assert_eq!(e.drag, DragState::Dragging(3));
    // the pointer now also covers handle 0, which must not be grabbed
    e.update(Point::new(105, 365), true);
    assert_eq!(e.drag, DragState::Dragging(3));
    assert_eq!(e.points[3], Point::new(100, 360));
}

#[test]
fn hit_box_bounds_are_inclusive() {
    let h = Point::new(20, 30);
    assert!(hit(h, Point::new(30, 40)));
    assert!(hit(h, Point::new(20, 30)));
    assert!(hit(h, Point::new(25, 35)));
    assert!(!hit(h, Point::new(31, 40)));
    assert!(!hit(h, Point::new(30, 41)));
    assert!(!hit(h, Point::new(19, 35)));
}

#[test]
fn center_and_drag_offsets() {
    assert_eq!(get_center(Point::new(100, 360)), Point::new(105, 365));
    assert_eq!(drag_position(Point::new(200, 400)), Point::new(195, 395));
}

#[test]
fn curve_starts_at_point_zero_and_ends_at_point_two() {
    let pts = [Point::new(3, 4), Point::new(50, -7), Point::new(90, 80), Point::new(-20, 11)];
    assert_eq!(evaluate(&pts, 0, 7), CurveSample { x: 343 * 3, y: 343 * 4, scale: 343 });
    assert_eq!(evaluate(&pts, 7, 7), CurveSample { x: 343 * 90, y: 343 * 80, scale: 343 });
}

#[test]
fn collinear_points_give_sample_on_line() {
    let pts = [Point::new(0, 0), Point::new(10, 20), Point::new(20, 40), Point::new(30, 60)];
    let s = evaluate(&pts, 1, 2);
    assert_eq!(s, CurveSample { x: 150, y: 300, scale: 8 });
    assert_eq!(s.x * 2, s.y);
}

#[test]
fn curve_uses_reordered_points() {
    let pts = [Point::new(0, 0), Point::new(100, 0), Point::new(100, 100), Point::new(0, 100)];
    let s = evaluate(&pts, 1, 2);
    assert_eq!(s, CurveSample { x: 400, y: 500, scale: 8 });
}

#[test]
fn curve_parameter_outside_unit_interval() {
    let pts = [Point::new(0, 0), Point::new(0, 0), Point::new(0, 0), Point::new(1, 0)];
    // t = 2: r = -1, weight of point 3 is r*n*n + r*n*d = -4 - 2
    let s = evaluate(&pts, 2, 1);
    assert_eq!(s, CurveSample { x: -6, y: 0, scale: 1 });
}
