use vstd::prelude::*;

verus! {

/// The value of `v` brought into the range of `i16`.
pub open spec fn clamp_i16(v: int) -> int {
    if v < i16::MIN {
        i16::MIN as int
    } else if v > i16::MAX {
        i16::MAX as int
    } else {
        v
    }
}

/// Adds two coordinates, saturating at the bounds of `i16`.
pub fn add_sat(a: i16, b: i16) -> (r: i16)
    ensures
        r == clamp_i16(a + b),
{
    let s: i32 = a as i32 + b as i32;
    if s < i16::MIN as i32 {
        i16::MIN
    } else if s > i16::MAX as i32 {
        i16::MAX
    } else {
        s as i16
    }
}

/// Subtracts two coordinates, saturating at the bounds of `i16`.
pub fn sub_sat(a: i16, b: i16) -> (r: i16)
    ensures
        r == clamp_i16(a - b),
{
    let s: i32 = a as i32 - b as i32;
    if s < i16::MIN as i32 {
        i16::MIN
    } else if s > i16::MAX as i32 {
        i16::MAX
    } else {
        s as i16
    }
}

/// A point, velocity or offset on the integer plane.
#[derive(Clone, Copy, Debug, PartialEq, Eq, Structural)]
pub struct Point {
    pub x: i16,
    pub y: i16,
}

impl Point {
    pub fn new(x: i16, y: i16) -> (r: Point)
        ensures
            r == (Point { x, y }),
    {
        Point { x, y }
    }
}

/// An axis-aligned rectangle given by its top-left corner and its size.
#[derive(Clone, Copy, Debug, PartialEq, Eq, Structural)]
pub struct Rect {
    pub position: Point,
    pub width: i16,
    pub height: i16,
}

impl Rect {
    /// The right edge, saturated to `i16`.
    pub open spec fn right_spec(self) -> int {
        clamp_i16(self.position.x + self.width)
    }

    /// The bottom edge, saturated to `i16`.
    pub open spec fn bottom_spec(self) -> int {
        clamp_i16(self.position.y + self.height)
    }

    /// Whether the interiors of the two rectangles overlap.
    pub open spec fn intersects_spec(self, other: Rect) -> bool {
        &&& self.position.x < other.right_spec()
        &&& self.right_spec() > other.position.x
        &&& self.position.y < other.bottom_spec()
        &&& self.bottom_spec() > other.position.y
    }

    /// The same rectangle moved `dx` to the right (saturating).
    pub open spec fn shifted(self, dx: int) -> Rect {
        Rect {
            position: Point { x: clamp_i16(self.position.x + dx) as i16, y: self.position.y },
            ..self
        }
    }

    pub fn new(position: Point, width: i16, height: i16) -> (r: Rect)
        ensures
            r == (Rect { position, width, height }),
    {
        Rect { position, width, height }
    }

    pub fn new_from_x_y(x: i16, y: i16, width: i16, height: i16) -> (r: Rect)
        ensures
            r == (Rect { position: Point { x, y }, width, height }),
    {
        Rect { position: Point { x, y }, width, height }
    }

    pub fn x(&self) -> (r: i16)
        ensures
            r == self.position.x,
    {
        self.position.x
    }

    pub fn y(&self) -> (r: i16)
        ensures
            r == self.position.y,
    {
        self.position.y
    }

    pub fn right(&self) -> (r: i16)
        ensures
            r == self.right_spec(),
    {
        add_sat(self.position.x, self.width)
    }

    pub fn bottom(&self) -> (r: i16)
        ensures
            r == self.bottom_spec(),
    {
        add_sat(self.position.y, self.height)
    }

    pub fn set_x(&mut self, x: i16)
        ensures
            *final(self) == (Rect { position: Point { x, y: old(self).position.y }, ..*old(self) }),
    {
        self.position.x = x;
    }

    /// Moves the rectangle `dx` to the right.
    pub fn move_horizontally(&mut self, dx: i16)
        ensures
            *final(self) == old(self).shifted(dx as int),
    {
        let x = add_sat(self.position.x, dx);
        self.position.x = x;
    }

    pub fn intersects(&self, other: &Rect) -> (r: bool)
        ensures
            r == self.intersects_spec(*other),
    {
        self.position.x < other.right() && self.right() > other.position.x && self.position.y
            < other.bottom() && self.bottom() > other.position.y
    }
}

/// The width and height of a picture.
#[derive(Clone, Copy, Debug, PartialEq, Eq, Structural)]
pub struct Size {
    pub width: i16,
    pub height: i16,
}

} // verus!
