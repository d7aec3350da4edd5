//! Points, handles and their hit boxes.

use vstd::prelude::*;

verus! {

/// Side length, in pixels, of the square handle drawn at each control point.
pub const HANDLE_SIZE: i32 = 10;

/// Half of `HANDLE_SIZE`: the offset from a handle's top-left corner to its center.
pub const HALF_HANDLE: i32 = 5;

/// A position on the integer pixel grid.
#[derive(Clone, Copy, Debug, PartialEq, Eq, Structural)]
pub struct Point {
    pub x: i32,
    pub y: i32,
}

/// A line segment between two points.
#[derive(Clone, Copy, Debug, PartialEq, Eq, Structural)]
pub struct Segment {
    pub start: Point,
    pub end: Point,
}

/// The pointer lies in the closed square of side `HANDLE_SIZE` whose
/// top-left corner is `handle`.
pub open spec fn in_hit_box(handle: Point, pointer: Point) -> bool {
    &&& handle.x <= pointer.x <= handle.x + HANDLE_SIZE
    &&& handle.y <= pointer.y <= handle.y + HANDLE_SIZE
}

/// The center of a handle can be computed without leaving the `i32` range.
pub open spec fn center_fits(p: Point) -> bool {
    p.x + HALF_HANDLE <= i32::MAX && p.y + HALF_HANDLE <= i32::MAX
}

/// A handle can be placed so that its center is at this pointer position
/// without leaving the `i32` range.
pub open spec fn drag_fits(pointer: Point) -> bool {
    pointer.x - HALF_HANDLE >= i32::MIN && pointer.y - HALF_HANDLE >= i32::MIN
}

/// The center of the handle whose top-left corner is `p`.
pub open spec fn center_of(p: Point) -> Point {
    Point { x: (p.x + HALF_HANDLE) as i32, y: (p.y + HALF_HANDLE) as i32 }
}

/// The top-left corner that puts a handle's center under `pointer`.
pub open spec fn corner_under(pointer: Point) -> Point {
    Point { x: (pointer.x - HALF_HANDLE) as i32, y: (pointer.y - HALF_HANDLE) as i32 }
}

impl Point {
    pub fn new(x: i32, y: i32) -> (r: Point)
        ensures
            r.x == x,
            r.y == y,
    {
        Point { x, y }
    }
}

/// Whether `pointer` lies in the hit box of the handle at `handle`; both
/// bounds are inclusive on each axis.
pub fn hit(handle: Point, pointer: Point) -> (r: bool)
    ensures
        r == in_hit_box(handle, pointer),
{
    let hx = handle.x as i64;
    let hy = handle.y as i64;
    let px = pointer.x as i64;
    let py = pointer.y as i64;
    hx <= px && px <= hx + HANDLE_SIZE as i64 && hy <= py && py <= hy + HANDLE_SIZE as i64
}

/// The center of the handle whose top-left corner is `p`.
pub fn get_center(p: Point) -> (r: Point)
    requires
        center_fits(p),
    ensures
        r == center_of(p),
        r.x == p.x + HALF_HANDLE,
        r.y == p.y + HALF_HANDLE,
{
    Point { x: p.x + HALF_HANDLE, y: p.y + HALF_HANDLE }
}

/// The top-left corner a dragged handle takes so that the pointer sits at
/// its center.
pub fn drag_position(pointer: Point) -> (r: Point)
    requires
        drag_fits(pointer),
    ensures
        r == corner_under(pointer),
        r.x == pointer.x - HALF_HANDLE,
        r.y == pointer.y - HALF_HANDLE,
{
    Point { x: pointer.x - HALF_HANDLE, y: pointer.y - HALF_HANDLE }
}

/// The two tangent guides: from the center of handle 0 to that of handle 1,
/// and from the center of handle 2 to that of handle 3.
pub fn tangent_segments(points: &[Point; 4]) -> (r: (Segment, Segment))
    requires
        forall|i: int| 0 <= i < 4 ==> center_fits(#[trigger] points[i]),
    ensures
        r.0.start == center_of(points[0]),
        r.0.end == center_of(points[1]),
        r.1.start == center_of(points[2]),
        r.1.end == center_of(points[3]),
{
    let first = Segment { start: get_center(points[0]), end: get_center(points[1]) };
    let second = Segment { start: get_center(points[2]), end: get_center(points[3]) };
    (first, second)
}

} // verus!
