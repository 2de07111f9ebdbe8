//! Pixel positions.
use super::shape::Shape;
use vstd::prelude::*;
use vstd::std_specs::ops::AddSpec;

verus! {

/// A pixel position. The origin is the top-left corner; `x` grows to the
/// right and `y` grows downwards.
#[derive(Debug, Clone, Copy, PartialEq, Eq, Structural)]
pub struct Point {
    pub x: usize,
    pub y: usize,
}

impl Point {
    pub fn new(x: usize, y: usize) -> (point: Point)
        ensures
            point.x == x,
            point.y == y,
    {
        Point { x, y }
    }

    /// Whether `angle`, in degrees, is a quarter turn to the right: 90, or
    /// 270 to the left.
    pub open spec fn turns_right(angle: int) -> bool {
        angle == 90 || angle == -270
    }

    /// Whether `angle`, in degrees, is a half turn.
    pub open spec fn turns_half(angle: int) -> bool {
        angle == 180 || angle == -180
    }

    /// Whether `angle`, in degrees, is a quarter turn to the left: 270, or
    /// 90 to the left.
    pub open spec fn turns_left(angle: int) -> bool {
        angle == 270 || angle == -90
    }

    /// Whether the point can be carried along when a grid of shape `rect`
    /// is turned by `angle`: the coordinates that are mirrored must lie
    /// inside the grid.
    pub open spec fn can_relocate(&self, rect: &Shape, angle: int) -> bool {
        &&& Self::turns_right(angle) ==> self.y < rect.height
        &&& Self::turns_half(angle) ==> self.x < rect.width && self.y < rect.height
        &&& Self::turns_left(angle) ==> self.x < rect.width
    }

    /// Where the point lies after a grid of shape `rect` is turned by
    /// `angle` degrees. Angles other than the six quarter and half turns
    /// leave the point where it is.
    pub open spec fn spec_relocate(&self, rect: &Shape, angle: int) -> Point {
        if Self::turns_right(angle) {
            Point { x: (rect.height - 1 - self.y) as usize, y: self.x }
        } else if Self::turns_half(angle) {
            Point { x: (rect.width - 1 - self.x) as usize, y: (rect.height - 1 - self.y) as usize }
        } else if Self::turns_left(angle) {
            Point { x: self.y, y: (rect.width - 1 - self.x) as usize }
        } else {
            *self
        }
    }

    /// Maps the point into the frame of the grid `rect` turned by `angle`
    /// degrees.
    pub fn relocate(&self, rect: &Shape, angle: i32) -> (point: Point)
        requires
            self.can_relocate(rect, angle as int),
        ensures
            point == self.spec_relocate(rect, angle as int),
    {
        if angle == 90 || angle == -270 {
            Point { x: rect.height - 1 - self.y, y: self.x }
        } else if angle == 180 || angle == -180 {
            Point { x: rect.width - 1 - self.x, y: rect.height - 1 - self.y }
        } else if angle == 270 || angle == -90 {
            Point { x: self.y, y: rect.width - 1 - self.x }
        } else {
            *self
        }
    }

    /// The row-major byte offset of the point in a grid of shape `shape`.
    pub open spec fn spec_point_to_index(&self, shape: &Shape) -> int {
        (self.y * shape.width + self.x) * shape.ndim
    }

    /// The row-major byte offset of the point in a grid of shape `shape`,
    /// with no check that the point lies inside the grid.
    pub fn point_to_index(&self, shape: &Shape) -> (index: usize)
        requires
            self.y * shape.width + self.x <= usize::MAX,
            self.spec_point_to_index(shape) <= usize::MAX,
        ensures
            index == self.spec_point_to_index(shape),
    {
        (self.y * shape.width + self.x) * shape.ndim
    }
}

impl vstd::std_specs::ops::AddSpecImpl<Shape> for Point {
    open spec fn obeys_add_spec() -> bool {
        true
    }

    open spec fn add_req(self, shape: Shape) -> bool {
        self.x + shape.width <= usize::MAX && self.y + shape.height <= usize::MAX
    }

    open spec fn add_spec(self, shape: Shape) -> Point {
        Point { x: (self.x + shape.width) as usize, y: (self.y + shape.height) as usize }
    }
}

/// A point moved by the extent of a shape: the corner opposite to the point
/// of a box of that shape.
impl core::ops::Add<Shape> for Point {
    type Output = Point;

    fn add(self, shape: Shape) -> (point: Point) {
        Point { x: self.x + shape.width, y: self.y + shape.height }
    }
}

impl vstd::std_specs::ops::AddSpecImpl<Point> for Point {
    open spec fn obeys_add_spec() -> bool {
        true
    }

    open spec fn add_req(self, rhs: Point) -> bool {
        self.x + rhs.x <= usize::MAX && self.y + rhs.y <= usize::MAX
    }

    open spec fn add_spec(self, rhs: Point) -> Point {
        Point { x: (self.x + rhs.x) as usize, y: (self.y + rhs.y) as usize }
    }
}

/// Vector addition of two points.
impl core::ops::Add<Point> for Point {
    type Output = Point;

    fn add(self, rhs: Point) -> (point: Point) {
        Point { x: self.x + rhs.x, y: self.y + rhs.y }
    }
}

/// Adding points is plain coordinate arithmetic: the sum has the
/// sums of the coordinates, the order of the two points does not matter, and
/// neither does the grouping of three.
pub proof fn lemma_point_addition(p: Point, q: Point, r: Point)
    requires
        p.x + q.x + r.x <= usize::MAX,
        p.y + q.y + r.y <= usize::MAX,
    ensures
        p.add_req(q),
        q.add_req(p),
        p.add_spec(q).x == p.x + q.x,
        p.add_spec(q).y == p.y + q.y,
        p.add_spec(q) == q.add_spec(p),
        p.add_spec(q).add_req(r),
        p.add_req(q.add_spec(r)),
        p.add_spec(q).add_spec(r) == p.add_spec(q.add_spec(r)),
        p.add_spec(Point { x: 0, y: 0 }) == p,
{
}

} // verus!
