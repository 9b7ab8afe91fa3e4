use vstd::prelude::*;

verus! {

/// A cell position on the terminal screen (column `x`, row `y`).
#[derive(Clone, Copy, PartialEq, Eq, Structural, Debug)]
pub struct Point {
    pub x: u16,
    pub y: u16,
}

/// A rectangle of terminal cells: its top-left corner and its size.
#[derive(Clone, Copy, PartialEq, Eq, Structural, Debug)]
pub struct Area {
    pub x: u16,
    pub y: u16,
    pub width: u16,
    pub height: u16,
}

impl Point {
    pub fn new(x: u16, y: u16) -> (r: Point)
        ensures
            r.x == x,
            r.y == y,
    {
        Point { x, y }
    }
}

impl Area {
    pub fn new(x: u16, y: u16, width: u16, height: u16) -> (r: Area)
        ensures
            r == (Area { x, y, width, height }),
    {
        Area { x, y, width, height }
    }

    /// Whether `p` lies on one of the area's cells: at most `width - 1`
    /// columns right of its left edge and `height - 1` rows below its top
    /// edge. The cells of its border count as inside, up to the screen's
    /// last column and row.
    pub open spec fn contains_spec(self, p: Point) -> bool {
        &&& self.x <= p.x
        &&& p.x - self.x < self.width
        &&& self.y <= p.y
        &&& p.y - self.y < self.height
    }

    /// `p` in coordinates local to the area.
    pub open spec fn relative_spec(self, p: Point) -> Point {
        Point { x: (p.x - self.x) as u16, y: (p.y - self.y) as u16 }
    }

    /// Hit-test: whether `p` lies inside the area (edges included).
    pub fn contains(self, p: Point) -> (r: bool)
        ensures
            r == self.contains_spec(p),
    {
        self.x <= p.x && p.x - self.x < self.width && self.y <= p.y && p.y - self.y < self.height
    }

    /// `p` in coordinates local to the area (its top-left corner is `(0, 0)`).
    pub fn relative(self, p: Point) -> (r: Point)
        requires
            self.contains_spec(p),
        ensures
            r == self.relative_spec(p),
    {
        Point { x: p.x - self.x, y: p.y - self.y }
    }
}

} // verus!
