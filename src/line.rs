use vstd::prelude::*;

use crate::geometry::{Position, Rect, MAX_COORD};

verus! {

/// The eight compass directions a line is snapped to.
#[derive(Clone, Copy, Debug, PartialEq, Eq, Structural)]
pub enum LineDirection {
    Up,
    UpRight,
    Right,
    DownRight,
    Down,
    DownLeft,
    Left,
    UpLeft,
}

/// The sector of a drag by `(dx, dy)`, not both zero.
///
/// The diamond angle of the drag grows from 0 to 4 as the drag turns from
/// right through down, left and up; each branch below compares it with the
/// sector bounds 1/4, 3/4 (plus the quadrant's base) by cross-multiplying.
pub open spec fn sector(dx: int, dy: int) -> LineDirection {
    if dy >= 0 {
        if dx >= 0 {
            // angle = dy / (dx + dy)
            if 3 * dy < dx {
                LineDirection::Right
            } else if dy < 3 * dx {
                LineDirection::DownRight
            } else {
                LineDirection::Down
            }
        } else {
            // angle = 1 + (-dx) / (-dx + dy)
            if 3 * (-dx) < dy {
                LineDirection::Down
            } else if -dx < 3 * dy {
                LineDirection::DownLeft
            } else {
                LineDirection::Left
            }
        }
    } else if dx < 0 {
        // angle = 2 + (-dy) / (-dx - dy)
        if 3 * (-dy) < -dx {
            LineDirection::Left
        } else if -dy < 3 * (-dx) {
            LineDirection::UpLeft
        } else {
            LineDirection::Up
        }
    } else {
        // angle = 3 + dx / (dx - dy)
        if 3 * dx < -dy {
            LineDirection::Up
        } else if dx < 3 * (-dy) {
            LineDirection::UpRight
        } else {
            LineDirection::Right
        }
    }
}

/// Horizontal cells moved by one step of a line in direction `d`.
pub open spec fn step_x(d: LineDirection) -> int {
    match d {
        LineDirection::Right => 1,
        LineDirection::DownRight | LineDirection::UpRight => 2,
        LineDirection::Left => -1,
        LineDirection::DownLeft | LineDirection::UpLeft => -2,
        _ => 0,
    }
}

/// Vertical cells moved by one step of a line in direction `d`.
pub open spec fn step_y(d: LineDirection) -> int {
    match d {
        LineDirection::Down | LineDirection::DownRight | LineDirection::DownLeft => 1,
        LineDirection::Up | LineDirection::UpRight | LineDirection::UpLeft => -1,
        _ => 0,
    }
}

/// The glyph painted on each cell of a line in direction `d`.
pub open spec fn glyph_of(d: LineDirection) -> char {
    match d {
        LineDirection::Right | LineDirection::Left => '─',
        LineDirection::Down | LineDirection::Up => '│',
        LineDirection::DownRight | LineDirection::UpLeft => '＼',
        LineDirection::DownLeft | LineDirection::UpRight => '／',
    }
}

/// `v` kept on the grid: a column left of the grid becomes the first one,
/// a column right of it the last one.
pub open spec fn on_grid(v: int) -> int {
    if v < 0 {
        0
    } else if v > MAX_COORD {
        MAX_COORD as int
    } else {
        v
    }
}

/// A straight line from `from` to `to` in one of the eight directions.
///
/// `to` is reached from `from` by one or more steps of the direction: one
/// cell for the cardinal ones, two across and one down or up for the
/// diagonal ones, whose last column is cut short where the grid ends.
#[derive(Clone, Copy, Debug, PartialEq, Eq, Structural)]
pub struct StraightLine {
    pub from: Position,
    pub to: Position,
    pub direction: LineDirection,
}

impl LineDirection {
    pub fn glyph(&self) -> (r: char)
        ensures
            r == glyph_of(*self),
    {
        match self {
            LineDirection::Right | LineDirection::Left => '─',
            LineDirection::Down | LineDirection::Up => '│',
            LineDirection::DownRight | LineDirection::UpLeft => '＼',
            LineDirection::DownLeft | LineDirection::UpRight => '／',
        }
    }
}

impl StraightLine {
    /// `to` lies beyond `from` on the direction's axis, or on the row of the
    /// 2:1 diagonal through `from`, no further out than the diagonal (its
    /// column is cut short where the line met the grid's edge).
    pub open spec fn wf(self) -> bool {
        let (f, t) = (self.from, self.to);
        match self.direction {
            LineDirection::Right => t.y == f.y && f.x < t.x,
            LineDirection::Left => t.y == f.y && t.x < f.x,
            LineDirection::Down => t.x == f.x && f.y < t.y,
            LineDirection::Up => t.x == f.x && t.y < f.y,
            LineDirection::DownRight => f.y < t.y && f.x <= t.x <= f.x + 2 * (t.y - f.y),
            LineDirection::DownLeft => f.y < t.y && f.x - 2 * (t.y - f.y) <= t.x <= f.x,
            LineDirection::UpRight => t.y < f.y && f.x <= t.x <= f.x + 2 * (f.y - t.y),
            LineDirection::UpLeft => t.y < f.y && f.x - 2 * (f.y - t.y) <= t.x <= f.x,
        }
    }

    /// Whether the line steps on the cell `(x, y)`: each step moves one cell
    /// along the axis of a cardinal line, or two columns and one row along a
    /// diagonal one, from `from` up to the row and column of `to`.
    pub open spec fn covers(self, x: int, y: int) -> bool {
        let (f, t) = (self.from, self.to);
        match self.direction {
            LineDirection::Right => y == f.y && f.x <= x <= t.x,
            LineDirection::Left => y == f.y && t.x <= x <= f.x,
            LineDirection::Down => x == f.x && f.y <= y <= t.y,
            LineDirection::Up => x == f.x && t.y <= y <= f.y,
            LineDirection::DownRight => f.y <= y <= t.y && x == f.x + 2 * (y - f.y) && x <= t.x,
            LineDirection::DownLeft => f.y <= y <= t.y && x == f.x - 2 * (y - f.y) && t.x <= x,
            LineDirection::UpRight => t.y <= y <= f.y && x == f.x + 2 * (f.y - y) && x <= t.x,
            LineDirection::UpLeft => t.y <= y <= f.y && x == f.x - 2 * (f.y - y) && t.x <= x,
        }
    }

    /// The endpoint the router derives for a drag from `from` towards `to`
    /// in direction `d`: cardinal lines keep the primary coordinate of `to`;
    /// diagonal lines keep the row of `to` and take two columns for each row,
    /// the column saturating at the grid's edge.
    pub open spec fn snapped(from: Position, to: Position, d: LineDirection) -> Position {
        match d {
            LineDirection::Right | LineDirection::Left => Position { x: to.x, y: from.y },
            LineDirection::Down | LineDirection::Up => Position { x: from.x, y: to.y },
            _ => {
                let rows = if from.y <= to.y { to.y - from.y } else { from.y - to.y };
                let run = if step_x(d) > 0 { 2 * rows } else { -2 * rows };
                Position { x: on_grid(from.x + run) as u16, y: to.y }
            },
        }
    }

    /// The line the router makes of a drag from `from` to `to`.
    pub open spec fn classified(from: Position, to: Position) -> Option<StraightLine> {
        if from == to {
            None
        } else {
            let d = sector(to.x - from.x, to.y - from.y);
            Some(StraightLine { from, to: StraightLine::snapped(from, to, d), direction: d })
        }
    }

    /// The rectangle spanned by the two endpoints.
    pub open spec fn area_spec(self) -> Rect {
        Rect::spanning_spec(self.from, self.to)
    }

    /// Routes a drag from `from` to `to` into a line; a drag that does not
    /// move gives none.
    pub fn new(from: Position, to: Position) -> (r: Option<StraightLine>)
        ensures
            r == StraightLine::classified(from, to),
            r matches Some(l) ==> l.wf() && l.to != l.from,
    {
        let dx: i32 = to.x as i32 - from.x as i32;
        let dy: i32 = to.y as i32 - from.y as i32;
        if dx == 0 && dy == 0 {
            return None;
        }
        let direction = if dy >= 0 {
            if dx >= 0 {
                if 3 * dy < dx {
                    LineDirection::Right
                } else if dy < 3 * dx {
                    LineDirection::DownRight
                } else {
                    LineDirection::Down
                }
            } else {
                if 3 * (-dx) < dy {
                    LineDirection::Down
                } else if -dx < 3 * dy {
                    LineDirection::DownLeft
                } else {
                    LineDirection::Left
                }
            }
        } else if dx < 0 {
            if 3 * (-dy) < -dx {
                LineDirection::Left
            } else if -dy < 3 * (-dx) {
                LineDirection::UpLeft
            } else {
                LineDirection::Up
            }
        } else {
            if 3 * dx < -dy {
                LineDirection::Up
            } else if dx < 3 * (-dy) {
                LineDirection::UpRight
            } else {
                LineDirection::Right
            }
        };
        let rows: u32 = if from.y <= to.y {
            (to.y - from.y) as u32
        } else {
            (from.y - to.y) as u32
        };
        let end = match direction {
            LineDirection::Right | LineDirection::Left => Position { x: to.x, y: from.y },
            LineDirection::Down | LineDirection::Up => Position { x: from.x, y: to.y },
            LineDirection::DownRight | LineDirection::UpRight => {
                let x = from.x as u32 + 2 * rows;
                assert(step_x(direction) > 0);
                Position { x: if x > MAX_COORD as u32 { MAX_COORD } else { x as u16 }, y: to.y }
            },
            LineDirection::DownLeft | LineDirection::UpLeft => {
                let x = if from.x as u32 >= 2 * rows { from.x as u32 - 2 * rows } else { 0 };
                assert(step_x(direction) < 0);
                Position { x: x as u16, y: to.y }
            },
        };
        assert(direction == sector(to.x - from.x, to.y - from.y));
        assert(end == StraightLine::snapped(from, to, direction));
        Some(StraightLine { from, to: end, direction })
    }

    /// Whether the line steps on the cell `(x, y)`.
    pub fn covers_cell(&self, x: u32, y: u32) -> (r: bool)
        requires
            self.wf(),
        ensures
            r == self.covers(x as int, y as int),
    {
        let (fx, fy) = (self.from.x as u64, self.from.y as u64);
        let (tx, ty) = (self.to.x as u64, self.to.y as u64);
        let (x, y) = (x as u64, y as u64);
        let d = self.direction;
        match d {
            LineDirection::Right => y == fy && fx <= x && x <= tx,
            LineDirection::Left => y == fy && tx <= x && x <= fx,
            LineDirection::Down => x == fx && fy <= y && y <= ty,
            LineDirection::Up => x == fx && ty <= y && y <= fy,
            LineDirection::DownRight => fy <= y && y <= ty && x == fx + 2 * (y - fy) && x <= tx,
            LineDirection::DownLeft => fy <= y && y <= ty && x + 2 * (y - fy) == fx && tx <= x,
            LineDirection::UpRight => ty <= y && y <= fy && x == fx + 2 * (fy - y) && x <= tx,
            LineDirection::UpLeft => ty <= y && y <= fy && x + 2 * (fy - y) == fx && tx <= x,
        }
    }

    /// A cell the line steps on lies between its endpoints' rows and columns.
    pub proof fn lemma_covers_within(self, x: int, y: int)
        requires
            self.wf(),
            self.covers(x, y),
        ensures
            self.from.y <= y <= self.to.y || self.to.y <= y <= self.from.y,
            self.from.x <= x <= self.to.x || self.to.x <= x <= self.from.x,
    {
        match self.direction {
            LineDirection::Right => {},
            LineDirection::Left => {},
            LineDirection::Down => {},
            LineDirection::Up => {},
            LineDirection::DownRight => {},
            LineDirection::DownLeft => {},
            LineDirection::UpRight => {},
            LineDirection::UpLeft => {},
        }
    }

    /// The rectangle spanned by the two endpoints.
    pub fn area(&self) -> (r: Rect)
        ensures
            r == self.area_spec(),
            r.wf(),
    {
        Rect::spanning(self.from, self.to)
    }
}

/// Every drag that moves is routed to a line of at least two cells: it
/// starts where the drag started, its direction is the sector of the drag,
/// and its end lies on that direction's axis (cardinal) or on the row of the
/// drag's end, along the 2:1 diagonal up to the grid's edge (diagonal).
pub proof fn lemma_moving_drag_routes(from: Position, to: Position)
    requires
        from != to,
    ensures
        StraightLine::classified(from, to) matches Some(l) && l.from == from && l.direction
            == sector(to.x - from.x, to.y - from.y) && l.wf() && l.to != l.from,
{
    let d = sector(to.x - from.x, to.y - from.y);
    match d {
        LineDirection::DownRight | LineDirection::DownLeft => {
            assert(to.y >= from.y);
        },
        LineDirection::UpRight | LineDirection::UpLeft => {
            assert(to.y < from.y);
        },
        _ => {},
    }
}

/// A drag that does not move is routed to no line.
pub proof fn lemma_still_drag_routes_nowhere(p: Position)
    ensures
        StraightLine::classified(p, p) is None,
{
}

} // verus!
