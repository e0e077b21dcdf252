use vstd::prelude::*;

use crate::elements::{Element, Shape};
use crate::geometry::{Position, Rect, MAX_COORD};
use crate::line::StraightLine;

verus! {

/// The transient operation of one gesture.
#[derive(Clone, Debug)]
pub enum Operation {
    Selection { origin: Position, second: Position },
    Move { origin: Position, second: Position },
    Resize { direction: Direction, origin: Position, second: Position },
    MoveLineHandle { handle: LineHandle, pos: Position },
    EditText { buffer: String },
}

/// Which end of a line a handle drag moves.
#[derive(Clone, Copy, Debug, PartialEq, Eq, Structural)]
pub enum LineHandle {
    First,
    Second,
}

/// The corner a resize grabs.
#[derive(Clone, Copy, Debug, PartialEq, Eq, Structural)]
pub enum Direction {
    TopLeft,
    TopRight,
    BottomLeft,
    BottomRight,
}

/// `v` clamped into `lo ..= hi`.
pub open spec fn clamp(v: int, lo: int, hi: int) -> int {
    if v < lo {
        lo
    } else if v > hi {
        hi
    } else {
        v
    }
}

/// Start of a span of `len` cells at `start` moved by `delta`, kept on the
/// grid.
pub open spec fn moved_start(start: int, len: int, delta: int) -> int {
    clamp(start + delta, 0, MAX_COORD + 1 - len)
}

/// How far a line whose columns (or rows) run from `lo` to `hi` moves when
/// dragged by `delta`: as far as the grid lets both ends go.
pub open spec fn line_shift(lo: int, hi: int, delta: int) -> int {
    clamp(delta, -lo, MAX_COORD - hi)
}

/// A span `start .. start + len` whose start edge is dragged by `delta`; the far
/// edge stays, at least one cell remains and the start stays on the grid (and
/// the length within a `u16`). Gives the new start and length.
pub open spec fn drag_near_edge(start: int, len: int, delta: int) -> (int, int) {
    let lo = if -start >= len - MAX_COORD { -start } else { len - MAX_COORD };
    let d = clamp(delta, lo, len - 1);
    (start + d, len - d)
}

/// A span `start .. start + len` whose far edge is dragged by `delta`; the
/// start stays, at least one cell remains and the span stays on the grid.
pub open spec fn drag_far_edge(start: int, len: int, delta: int) -> int {
    let limit = if start == 0 { MAX_COORD as int } else { MAX_COORD + 1 - start };
    clamp(len + delta, 1, limit)
}

pub open spec fn grabs_left(d: Direction) -> bool {
    d == Direction::TopLeft || d == Direction::BottomLeft
}

pub open spec fn grabs_top(d: Direction) -> bool {
    d == Direction::TopLeft || d == Direction::TopRight
}

/// A rectangle under a resize of corner `d` by `(dx, dy)`: the opposite
/// corner stays put and neither side drops below one cell.
pub open spec fn resized(a: Rect, d: Direction, dx: int, dy: int) -> Rect {
    let (x, w) = if grabs_left(d) {
        drag_near_edge(a.x as int, a.width as int, dx)
    } else {
        (a.x as int, drag_far_edge(a.x as int, a.width as int, dx))
    };
    let (y, h) = if grabs_top(d) {
        drag_near_edge(a.y as int, a.height as int, dy)
    } else {
        (a.y as int, drag_far_edge(a.y as int, a.height as int, dy))
    };
    Rect { x: x as u16, y: y as u16, width: w as u16, height: h as u16 }
}

/// A rectangle moved by `(dx, dy)`, kept on the grid.
pub open spec fn moved(a: Rect, dx: int, dy: int) -> Rect {
    Rect {
        x: moved_start(a.x as int, a.width as int, dx) as u16,
        y: moved_start(a.y as int, a.height as int, dy) as u16,
        ..a
    }
}

/// A line moved by `(dx, dy)`, both ends kept on the grid.
pub open spec fn moved_line(l: StraightLine, dx: int, dy: int) -> StraightLine {
    let (f, t) = (l.from, l.to);
    let sx = if f.x <= t.x {
        line_shift(f.x as int, t.x as int, dx)
    } else {
        line_shift(t.x as int, f.x as int, dx)
    };
    let sy = if f.y <= t.y {
        line_shift(f.y as int, t.y as int, dy)
    } else {
        line_shift(t.y as int, f.y as int, dy)
    };
    StraightLine {
        from: Position { x: (f.x + sx) as u16, y: (f.y + sy) as u16 },
        to: Position { x: (t.x + sx) as u16, y: (t.y + sy) as u16 },
        direction: l.direction,
    }
}

impl Operation {
    /// The rectangle of a box or a text under the operation.
    pub open spec fn area_under(self, a: Rect) -> Rect {
        match self {
            Operation::Move { origin, second } => moved(a, second.x - origin.x, second.y - origin.y),
            Operation::Resize { direction, origin, second } => resized(
                a,
                direction,
                second.x - origin.x,
                second.y - origin.y,
            ),
            _ => a,
        }
    }

    /// The preview of an element under the operation; none where a line
    /// handle is dragged back onto the line's fixed end.
    pub open spec fn apply(self, e: Shape) -> Option<Shape> {
        match e {
            Shape::Box { area } => Some(Shape::Box { area: self.area_under(area) }),
            Shape::Text { area, content } => Some(
                Shape::Text { area: self.area_under(area), content },
            ),
            Shape::Line(l) => match self {
                Operation::Move { origin, second } => Some(
                    Shape::Line(moved_line(l, second.x - origin.x, second.y - origin.y)),
                ),
                Operation::MoveLineHandle { handle, pos } => {
                    let fixed = match handle {
                        LineHandle::First => l.to,
                        LineHandle::Second => l.from,
                    };
                    match StraightLine::classified(fixed, pos) {
                        Some(m) => Some(Shape::Line(m)),
                        None => None,
                    }
                },
                _ => Some(Shape::Line(l)),
            },
        }
    }

    fn transform_area(&self, area: &Rect) -> (r: Rect)
        requires
            area.wf(),
        ensures
            r == self.area_under(*area),
            r.wf(),
    {
        match self {
            Operation::Move { origin, second } => {
                let dx = second.x as i32 - origin.x as i32;
                let dy = second.y as i32 - origin.y as i32;
                Rect {
                    x: moved_start_exec(area.x, area.width, dx),
                    y: moved_start_exec(area.y, area.height, dy),
                    ..*area
                }
            },
            Operation::Resize { direction, origin, second } => {
                let dx = second.x as i32 - origin.x as i32;
                let dy = second.y as i32 - origin.y as i32;
                let (x, width) = match direction {
                    Direction::TopLeft | Direction::BottomLeft => drag_near_edge_exec(
                        area.x,
                        area.width,
                        dx,
                    ),
                    _ => (area.x, drag_far_edge_exec(area.x, area.width, dx)),
                };
                let (y, height) = match direction {
                    Direction::TopLeft | Direction::TopRight => drag_near_edge_exec(
                        area.y,
                        area.height,
                        dy,
                    ),
                    _ => (area.y, drag_far_edge_exec(area.y, area.height, dy)),
                };
                Rect { x, y, width, height }
            },
            _ => *area,
        }
    }

    /// The preview of `element` under the operation.
    pub fn apply_transform(&self, element: &Element) -> (r: Option<Element>)
        requires
            element@.wf(),
        ensures
            r matches Some(e) ==> e@.wf(),
            match self.apply(element@) {
                Some(s) => r matches Some(e) && e@ == s,
                None => r is None,
            },
    {
        match element {
            Element::Box { area } => Some(Element::Box { area: self.transform_area(area) }),
            Element::Text { area, content } => Some(
                Element::Text { area: self.transform_area(area), content: content.clone() },
            ),
            Element::Line(line) => match self {
                Operation::Move { origin, second } => {
                    let dx = second.x as i32 - origin.x as i32;
                    let dy = second.y as i32 - origin.y as i32;
                    let (f, t) = (line.from, line.to);
                    let sx = if f.x <= t.x {
                        line_shift_exec(f.x, t.x, dx)
                    } else {
                        line_shift_exec(t.x, f.x, dx)
                    };
                    let sy = if f.y <= t.y {
                        line_shift_exec(f.y, t.y, dy)
                    } else {
                        line_shift_exec(t.y, f.y, dy)
                    };
                    let moved = StraightLine {
                        from: Position { x: (f.x as i32 + sx) as u16, y: (f.y as i32 + sy) as u16 },
                        to: Position { x: (t.x as i32 + sx) as u16, y: (t.y as i32 + sy) as u16 },
                        direction: line.direction,
                    };
                    Some(Element::Line(moved))
                },
                Operation::MoveLineHandle { handle, pos } => {
                    let fixed = match handle {
                        LineHandle::First => line.to,
                        LineHandle::Second => line.from,
                    };
                    match StraightLine::new(fixed, *pos) {
                        Some(m) => Some(Element::Line(m)),
                        None => None,
                    }
                },
                _ => Some(Element::Line(*line)),
            },
        }
    }
}

fn moved_start_exec(start: u16, len: u16, delta: i32) -> (r: u16)
    requires
        len >= 1,
        start + len <= MAX_COORD + 1,
        -(MAX_COORD as int) <= delta <= MAX_COORD,
    ensures
        r == moved_start(start as int, len as int, delta as int),
{
    let v = start as i32 + delta;
    let hi = MAX_COORD as i32 + 1 - len as i32;
    if v < 0 {
        0
    } else if v > hi {
        hi as u16
    } else {
        v as u16
    }
}

fn line_shift_exec(lo: u16, hi: u16, delta: i32) -> (r: i32)
    requires
        lo <= hi,
        -(MAX_COORD as int) <= delta <= MAX_COORD,
    ensures
        r == line_shift(lo as int, hi as int, delta as int),
{
    let min = -(lo as i32);
    let max = MAX_COORD as i32 - hi as i32;
    if delta < min {
        min
    } else if delta > max {
        max
    } else {
        delta
    }
}

fn drag_near_edge_exec(start: u16, len: u16, delta: i32) -> (r: (u16, u16))
    requires
        len >= 1,
        start + len <= MAX_COORD + 1,
        -(MAX_COORD as int) <= delta <= MAX_COORD,
    ensures
        r.0 == drag_near_edge(start as int, len as int, delta as int).0,
        r.1 == drag_near_edge(start as int, len as int, delta as int).1,
        r.1 >= 1,
        r.0 + r.1 == start + len,
{
    let lo = if -(start as i32) >= len as i32 - MAX_COORD as i32 {
        -(start as i32)
    } else {
        len as i32 - MAX_COORD as i32
    };
    let hi = len as i32 - 1;
    let d = if delta < lo {
        lo
    } else if delta > hi {
        hi
    } else {
        delta
    };
    ((start as i32 + d) as u16, (len as i32 - d) as u16)
}

fn drag_far_edge_exec(start: u16, len: u16, delta: i32) -> (r: u16)
    requires
        len >= 1,
        start + len <= MAX_COORD + 1,
        -(MAX_COORD as int) <= delta <= MAX_COORD,
    ensures
        r == drag_far_edge(start as int, len as int, delta as int),
        r >= 1,
        start + r <= MAX_COORD + 1,
{
    let limit: i32 = if start == 0 {
        MAX_COORD as i32
    } else {
        MAX_COORD as i32 + 1 - start as i32
    };
    let v = len as i32 + delta;
    if v < 1 {
        1
    } else if v > limit {
        limit as u16
    } else {
        v as u16
    }
}

/// However far a corner is dragged, a resized rectangle keeps at least one
/// cell of width and of height and stays on the grid.
pub proof fn lemma_resize_keeps_a_cell(a: Rect, direction: Direction, origin: Position, second: Position)
    requires
        a.wf(),
    ensures
        ({
            let r = (Operation::Resize { direction, origin, second }).area_under(a);
            &&& r.width >= 1
            &&& r.height >= 1
            &&& r.wf()
        }),
{
}

} // verus!
