use vstd::prelude::*;

verus! {

/// A position in integer world units.
#[derive(Clone, Copy, Debug, PartialEq, Eq, Structural)]
pub struct Point {
    pub x: i32,
    pub y: i32,
}

impl Point {
    pub fn new(x: i32, y: i32) -> (r: Point)
        ensures
            r.x == x,
            r.y == y,
    {
        Point { x, y }
    }

    pub open spec fn origin_spec() -> Point {
        Point { x: 0, y: 0 }
    }

    /// The center of the playfield.
    pub fn origin() -> (r: Point)
        ensures
            r == Point::origin_spec(),
    {
        Point { x: 0, y: 0 }
    }
}

/// A direction, scaled freely, and a scalar speed.
///
/// A direction component never holds `i32::MIN`, so that reversing it is exact.
#[derive(Clone, Copy, Debug, PartialEq, Eq, Structural)]
pub struct Velocity {
    pub dir_x: i32,
    pub dir_y: i32,
    pub speed: u64,
}

impl Velocity {
    pub open spec fn wf(self) -> bool {
        self.dir_x != i32::MIN && self.dir_y != i32::MIN
    }

    /// The same velocity with the horizontal direction reversed.
    pub open spec fn flipped_x(self) -> Velocity {
        Velocity { dir_x: (-self.dir_x) as i32, ..self }
    }

    /// The same velocity with the vertical direction reversed.
    pub open spec fn flipped_y(self) -> Velocity {
        Velocity { dir_y: (-self.dir_y) as i32, ..self }
    }

    pub fn new(dir_x: i32, dir_y: i32, speed: u64) -> (r: Velocity)
        requires
            dir_x != i32::MIN,
            dir_y != i32::MIN,
        ensures
            r == (Velocity { dir_x, dir_y, speed }),
            r.wf(),
    {
        Velocity { dir_x, dir_y, speed }
    }

    pub fn flip_x(self) -> (r: Velocity)
        requires
            self.wf(),
        ensures
            r == self.flipped_x(),
            r.wf(),
    {
        Velocity { dir_x: -self.dir_x, ..self }
    }

    pub fn flip_y(self) -> (r: Velocity)
        requires
            self.wf(),
        ensures
            r == self.flipped_y(),
            r.wf(),
    {
        Velocity { dir_y: -self.dir_y, ..self }
    }
}

} // verus!
