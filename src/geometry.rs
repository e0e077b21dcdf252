use vstd::prelude::*;

verus! {

/// Largest coordinate of a grid cell.
pub const MAX_COORD: u16 = 65535;

/// A grid cell position; both coordinates are non-negative.
#[derive(Clone, Copy, Debug, PartialEq, Eq, Structural, Default)]
pub struct Position {
    pub x: u16,
    pub y: u16,
}

/// A rectangle of grid cells: columns `x .. x + width`, rows `y .. y + height`.
#[derive(Clone, Copy, Debug, PartialEq, Eq, Structural, Default)]
pub struct Rect {
    pub x: u16,
    pub y: u16,
    pub width: u16,
    pub height: u16,
}

impl Position {
    pub fn new(x: u16, y: u16) -> (r: Position)
        ensures
            r == (Position { x, y }),
    {
        Position { x, y }
    }
}

impl Rect {
    /// A rectangle is well formed when it has at least one cell and every
    /// one of its cells lies on the grid.
    pub open spec fn wf(self) -> bool {
        &&& self.width >= 1
        &&& self.height >= 1
        &&& self.x + self.width <= MAX_COORD + 1
        &&& self.y + self.height <= MAX_COORD + 1
    }

    /// First column to the right of the rectangle.
    pub open spec fn right_spec(self) -> int {
        self.x + self.width
    }

    /// First row below the rectangle.
    pub open spec fn bottom_spec(self) -> int {
        self.y + self.height
    }

    pub open spec fn contains_spec(self, p: Position) -> bool {
        self.x <= p.x < self.right_spec() && self.y <= p.y < self.bottom_spec()
    }

    pub open spec fn intersects_spec(self, o: Rect) -> bool {
        &&& self.x < o.right_spec()
        &&& o.x < self.right_spec()
        &&& self.y < o.bottom_spec()
        &&& o.y < self.bottom_spec()
    }

    /// Number of cells from `a` to `b` inclusive, capped at the largest `u16`.
    pub open spec fn span_len(a: u16, b: u16) -> u16 {
        let d = if a <= b { b - a } else { a - b };
        if d < MAX_COORD { (d + 1) as u16 } else { MAX_COORD }
    }

    /// The smallest rectangle holding both corners `a` and `b` (a rectangle
    /// spanning the whole grid loses its last column or row).
    pub open spec fn spanning_spec(a: Position, b: Position) -> Rect {
        Rect {
            x: if a.x <= b.x { a.x } else { b.x },
            y: if a.y <= b.y { a.y } else { b.y },
            width: Rect::span_len(a.x, b.x),
            height: Rect::span_len(a.y, b.y),
        }
    }

    pub fn new(x: u16, y: u16, width: u16, height: u16) -> (r: Rect)
        ensures
            r == (Rect { x, y, width, height }),
    {
        Rect { x, y, width, height }
    }

    /// First column to the right of the rectangle.
    pub fn right(&self) -> (r: u32)
        ensures
            r == self.right_spec(),
    {
        self.x as u32 + self.width as u32
    }

    /// First row below the rectangle.
    pub fn bottom(&self) -> (r: u32)
        ensures
            r == self.bottom_spec(),
    {
        self.y as u32 + self.height as u32
    }

    /// Number of cells covered.
    pub fn area(&self) -> (r: u32)
        ensures
            r == self.width * self.height,
    {
        assert(self.width * self.height <= 0xffff * 0xffff) by (nonlinear_arith)
            requires
                self.width <= 0xffff,
                self.height <= 0xffff,
        ;
        self.width as u32 * self.height as u32
    }

    /// Whether the cell `p` lies inside the rectangle (its border included).
    pub fn contains(&self, p: Position) -> (r: bool)
        ensures
            r == self.contains_spec(p),
    {
        p.x >= self.x && (p.x as u32) < self.right() && p.y >= self.y && (p.y as u32)
            < self.bottom()
    }

    /// Whether the two rectangles share at least one cell.
    pub fn intersects(&self, o: &Rect) -> (r: bool)
        ensures
            r == self.intersects_spec(*o),
    {
        (self.x as u32) < o.right() && (o.x as u32) < self.right() && (self.y as u32) < o.bottom()
            && (o.y as u32) < self.bottom()
    }

    /// The smallest rectangle holding both corners `a` and `b`.
    pub fn spanning(a: Position, b: Position) -> (r: Rect)
        ensures
            r == Rect::spanning_spec(a, b),
            r.wf(),
    {
        let (x, width) = if a.x <= b.x {
            (a.x, b.x - a.x)
        } else {
            (b.x, a.x - b.x)
        };
        let (y, height) = if a.y <= b.y {
            (a.y, b.y - a.y)
        } else {
            (b.y, a.y - b.y)
        };
        let width = if width < MAX_COORD { width + 1 } else { width };
        let height = if height < MAX_COORD { height + 1 } else { height };
        Rect { x, y, width, height }
    }
}

} // verus!
