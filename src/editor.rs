//! The editor state: four control points and which of them, if any, the
//! pointer is dragging.

use vstd::prelude::*;
use crate::geometry::{
    Point,
    HANDLE_SIZE,
    in_hit_box,
    drag_fits,
    corner_under,
    hit,
    drag_position,
};

verus! {

/// Width of the editing area, in pixels.
pub const WINDOW_WIDTH: i32 = 1280;

/// Height of the editing area, in pixels.
pub const WINDOW_HEIGHT: i32 = 720;

/// Horizontal distance of the initial control points from the left and
/// right edges.
pub const EDGE_MARGIN: i32 = 100;

/// Which control point the pointer holds.
#[derive(Clone, Copy, Debug, PartialEq, Eq, Structural)]
pub enum DragState {
    Idle,
    Dragging(usize),
}

/// The control point that a press at `pointer` grabs: the highest index
/// whose hit box holds the pointer, or none.
pub open spec fn grab_target(points: Seq<Point>, pointer: Point) -> Option<usize> {
    if in_hit_box(points[3], pointer) {
        Some(3usize)
    } else if in_hit_box(points[2], pointer) {
        Some(2usize)
    } else if in_hit_box(points[1], pointer) {
        Some(1usize)
    } else if in_hit_box(points[0], pointer) {
        Some(0usize)
    } else {
        None
    }
}

/// The drag state after a frame in which the pointer is at `pointer` and
/// the button is `down` or not. A grab is looked for only while idle; a
/// released button always ends the drag.
pub open spec fn next_drag(drag: DragState, points: Seq<Point>, pointer: Point, down: bool) -> DragState {
    if !down {
        DragState::Idle
    } else {
        match drag {
            DragState::Idle => match grab_target(points, pointer) {
                Some(i) => DragState::Dragging(i),
                None => DragState::Idle,
            },
            DragState::Dragging(i) => DragState::Dragging(i),
        }
    }
}

/// The control points after a frame that ends in `drag`: the dragged point
/// moves so that its center sits under the pointer, the others stay.
pub open spec fn next_points(points: Seq<Point>, drag: DragState, pointer: Point) -> Seq<Point> {
    match drag {
        DragState::Idle => points,
        DragState::Dragging(i) => points.update(i as int, corner_under(pointer)),
    }
}

/// The control points the editor starts with: two at the left edge and two
/// at the right edge, all at mid-height.
pub open spec fn initial_points() -> Seq<Point> {
    let left = Point { x: EDGE_MARGIN, y: (WINDOW_HEIGHT / 2) as i32 };
    let right = Point { x: (WINDOW_WIDTH - EDGE_MARGIN) as i32, y: (WINDOW_HEIGHT / 2) as i32 };
    seq![left, left, right, right]
}

/// Four control points and the drag in progress.
#[derive(Clone, Copy, Debug)]
pub struct Editor {
    pub points: [Point; 4],
    pub drag: DragState,
}

/// The control point of the drag state, if any, exists.
pub open spec fn drag_in_range(drag: DragState) -> bool {
    match drag {
        DragState::Idle => true,
        DragState::Dragging(i) => i < 4,
    }
}

impl Editor {
    pub open spec fn wf(&self) -> bool {
        drag_in_range(self.drag)
    }

    /// An idle editor with the initial control points.
    pub fn new() -> (r: Editor)
        ensures
            r.wf(),
            r.points@ == initial_points(),
            r.drag == DragState::Idle,
    {
        let left = Point { x: EDGE_MARGIN, y: WINDOW_HEIGHT / 2 };
        let right = Point { x: WINDOW_WIDTH - EDGE_MARGIN, y: WINDOW_HEIGHT / 2 };
        let r = Editor { points: [left, left, right, right], drag: DragState::Idle };
        assert(r.points@ =~= initial_points());
        r
    }

    /// Advances the editor by one frame of pointer input: looks for a grab
    /// while idle and the button is down, ends any drag when it is up, and
    /// moves the dragged point under the pointer.
    pub fn update(&mut self, pointer: Point, down: bool)
        requires
            old(self).wf(),
            drag_fits(pointer),
        ensures
            final(self).wf(),
            final(self).drag == next_drag(old(self).drag, old(self).points@, pointer, down),
            final(self).points@ == next_points(old(self).points@, final(self).drag, pointer),
    {
        if down && self.drag == DragState::Idle {
            match grab_index(&self.points, pointer) {
                Some(i) => {
                    self.drag = DragState::Dragging(i);
                },
                None => {},
            }
        }
        if !down {
            self.drag = DragState::Idle;
        }
        match self.drag {
            DragState::Dragging(i) => {
                self.points[i] = drag_position(pointer);
            },
            DragState::Idle => {},
        }
    }
}

/// Scans every handle in order and keeps the last one whose hit box holds
/// the pointer: where handles overlap, the highest index wins.
pub fn grab_index(points: &[Point; 4], pointer: Point) -> (r: Option<usize>)
    ensures
        r == grab_target(points@, pointer),
{
    let mut found: Option<usize> = None;
    let mut i: usize = 0;
    while i < 4
        invariant
            0 <= i <= 4,
            match found {
                Some(c) => c < i && in_hit_box(points@[c as int], pointer) && forall|j: int|
                    c < j < i ==> !in_hit_box(#[trigger] points@[j], pointer),
                None => forall|j: int| 0 <= j < i ==> !in_hit_box(#[trigger] points@[j], pointer),
            },
        decreases 4 - i,
    {
        if hit(points[i], pointer) {
            found = Some(i);
        }
        i = i + 1;
    }
    found
}

/// A press strictly inside the hit box of handle `i` grabs handle `i`,
/// provided no higher-index handle also holds the pointer (those win ties).
pub proof fn lemma_press_inside_grabs(points: Seq<Point>, pointer: Point, i: usize)
    requires
        points.len() == 4,
        i < 4,
        points[i as int].x < pointer.x < points[i as int].x + HANDLE_SIZE,
        points[i as int].y < pointer.y < points[i as int].y + HANDLE_SIZE,
        forall|j: int| i < j < 4 ==> !in_hit_box(#[trigger] points[j], pointer),
    ensures
        next_drag(DragState::Idle, points, pointer, true) == DragState::Dragging(i),
{
}

/// A press outside every hit box leaves the editor idle, and no control
/// point moves.
pub proof fn lemma_press_outside_stays_idle(points: Seq<Point>, pointer: Point)
    requires
        points.len() == 4,
        forall|j: int| 0 <= j < 4 ==> !in_hit_box(#[trigger] points[j], pointer),
    ensures
        next_drag(DragState::Idle, points, pointer, true) == DragState::Idle,
        next_points(points, DragState::Idle, pointer) == points,
{
    assert(!in_hit_box(points[0], pointer));
    assert(!in_hit_box(points[1], pointer));
    assert(!in_hit_box(points[2], pointer));
    assert(!in_hit_box(points[3], pointer));
}

/// Releasing the button while idle changes nothing.
pub proof fn lemma_release_when_idle_is_noop(points: Seq<Point>, pointer: Point)
    ensures
        next_drag(DragState::Idle, points, pointer, false) == DragState::Idle,
        next_points(points, DragState::Idle, pointer) == points,
{
}

/// Holding the button during a drag never grabs another handle.
pub proof fn lemma_press_while_dragging_keeps_grab(points: Seq<Point>, pointer: Point, i: usize)
    ensures
        next_drag(DragState::Dragging(i), points, pointer, true) == DragState::Dragging(i),
{
}

/// The hit box is closed: its far corner `(x + size, y + size)` is inside.
pub proof fn lemma_far_corner_is_inside(handle: Point, pointer: Point)
    requires
        pointer.x == handle.x + HANDLE_SIZE,
        pointer.y == handle.y + HANDLE_SIZE,
    ensures
        in_hit_box(handle, pointer),
{
}

} // verus!
