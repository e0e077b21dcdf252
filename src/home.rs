use std::collections::{HashSet, VecDeque};

use vstd::prelude::*;

use crate::action::Action;
use crate::canvas::{preview, replace_element, DrawingCanvas};
use crate::elements::{Element, Shape};
use crate::geometry::{Position, Rect, MAX_COORD};
use crate::line::{step_x, step_y, StraightLine};
use crate::operation::{Direction, LineHandle, Operation};

verus! {

broadcast use vstd::std_specs::hash::group_hash_axioms;

/// Columns of the screen left of the canvas, taken by the layer list.
pub const LIST_WIDTH: u16 = 12;

/// Rows moved by one scroll step; columns move twice as far.
pub const SCROLL_STEP: u16 = 4;

/// The drawing tool in use.
#[derive(Clone, Copy, Debug, PartialEq, Eq, Structural)]
pub enum Tool {
    Cursor,
    Box,
    Line,
    Text,
}

impl Default for Tool {
    fn default() -> (r: Tool)
        ensures
            r == Tool::Cursor,
    {
        Tool::Cursor
    }
}

/// What a pointer event did.
#[derive(Clone, Copy, Debug, PartialEq, Eq, Structural)]
pub enum MouseEventKind {
    Down,
    Drag,
    Up,
    ScrollDown,
    ScrollUp,
    ScrollLeft,
    ScrollRight,
    Other,
}

/// A pointer event at a screen cell; `additive` is the modifier that adds
/// to the selection instead of replacing it.
#[derive(Clone, Copy, Debug, PartialEq, Eq, Structural)]
pub struct MouseEvent {
    pub kind: MouseEventKind,
    pub column: u16,
    pub row: u16,
    pub additive: bool,
}

/// Where a single selected element can be grabbed.
#[derive(Clone, Copy, Debug, PartialEq, Eq, Structural)]
pub enum Handles {
    Nothing,
    Line { first: Option<Position>, second: Option<Position> },
    Corners {
        top_left: Option<Position>,
        top_right: Option<Position>,
        bottom_left: Option<Position>,
        bottom_right: Option<Position>,
    },
}

/// The editing session: the tool, the operation under way, the selection,
/// the canvas and how far the view is scrolled.
#[derive(Debug)]
pub struct Home {
    pub current_tool: Tool,
    pub current_operation: Option<Operation>,
    pub selected_elements: HashSet<usize>,
    pub canvas: DrawingCanvas,
    pub scroll_offset: Position,
}

/// The grid cell at `(x, y)`, if both lie on the grid.
pub open spec fn cell_at(x: int, y: int) -> Option<Position> {
    if 0 <= x <= MAX_COORD && 0 <= y <= MAX_COORD {
        Some(Position { x: x as u16, y: y as u16 })
    } else {
        None
    }
}

/// The resize handle of a rectangle's corner: one cell outside it, diagonally.
pub open spec fn corner_handle(a: Rect, d: Direction) -> Option<Position> {
    match d {
        Direction::TopLeft => cell_at(a.x - 1, a.y - 1),
        Direction::TopRight => cell_at(a.x + a.width, a.y - 1),
        Direction::BottomLeft => cell_at(a.x - 1, a.y + a.height),
        Direction::BottomRight => cell_at(a.x + a.width, a.y + a.height),
    }
}

/// The corner whose handle is at `p`, trying top-left, top-right,
/// bottom-left and bottom-right in turn.
pub open spec fn corner_at(a: Rect, p: Position) -> Option<Direction> {
    if corner_handle(a, Direction::TopLeft) == Some(p) {
        Some(Direction::TopLeft)
    } else if corner_handle(a, Direction::TopRight) == Some(p) {
        Some(Direction::TopRight)
    } else if corner_handle(a, Direction::BottomLeft) == Some(p) {
        Some(Direction::BottomLeft)
    } else if corner_handle(a, Direction::BottomRight) == Some(p) {
        Some(Direction::BottomRight)
    } else {
        None
    }
}

/// The handle of a line's end: one step outward beyond it.
pub open spec fn line_handle(l: StraightLine, h: LineHandle) -> Option<Position> {
    let (sx, sy) = (step_x(l.direction), step_y(l.direction));
    match h {
        LineHandle::First => cell_at(l.from.x - sx, l.from.y - sy),
        LineHandle::Second => cell_at(l.to.x + sx, l.to.y + sy),
    }
}

/// The line handle at `p`, the first one tried first.
pub open spec fn line_handle_at(l: StraightLine, p: Position) -> Option<LineHandle> {
    if line_handle(l, LineHandle::First) == Some(p) {
        Some(LineHandle::First)
    } else if line_handle(l, LineHandle::Second) == Some(p) {
        Some(LineHandle::Second)
    } else {
        None
    }
}

/// The canvas cell under the screen cell `(column, row)` scrolled by
/// `scroll`, each coordinate kept on the grid.
pub open spec fn pointer_spec(scroll: Position, column: u16, row: u16) -> Position {
    let x = column - LIST_WIDTH + scroll.x;
    let y = row + scroll.y;
    Position {
        x: if x > MAX_COORD { MAX_COORD } else { x as u16 },
        y: if y > MAX_COORD { MAX_COORD } else { y as u16 },
    }
}

/// The topmost of the first `n` shapes whose area holds `p`.
pub open spec fn topmost_at(shapes: Seq<Shape>, p: Position, n: int) -> Option<usize>
    decreases n,
{
    if n <= 0 {
        None
    } else if shapes[n - 1].area().contains_spec(p) {
        Some((n - 1) as usize)
    } else {
        topmost_at(shapes, p, n - 1)
    }
}

/// The lowest index from `i` up to `n` that is selected.
pub open spec fn first_selected_from(sel: Set<usize>, i: int, n: int) -> Option<usize>
    decreases n - i,
{
    if i >= n {
        None
    } else if sel.contains(i as usize) {
        Some(i as usize)
    } else {
        first_selected_from(sel, i + 1, n)
    }
}

/// The lowest index from `i` up to the end whose shape is a text holding `p`.
pub open spec fn first_text_from(shapes: Seq<Shape>, p: Position, i: int) -> Option<usize>
    decreases shapes.len() - i,
{
    if i >= shapes.len() || i < 0 {
        None
    } else if shapes[i] is Text && shapes[i].area().contains_spec(p) {
        Some(i as usize)
    } else {
        first_text_from(shapes, p, i + 1)
    }
}

/// Whether some selected shape's area holds `p`.
pub open spec fn selection_hit(shapes: Seq<Shape>, sel: Set<usize>, p: Position) -> bool {
    exists|i: int| 0 <= i < shapes.len() && sel.contains(i as usize) && (#[trigger] shapes[i]).area().contains_spec(p)
}

/// The indices of the shapes whose area shares a cell with `r`.
pub open spec fn intersecting(shapes: Seq<Shape>, r: Rect) -> Set<usize> {
    Set::new(|i: usize| i < shapes.len() && shapes[i as int].area().intersects_spec(r))
}

/// The shapes with the selected ones replaced by their preview under `op`.
pub open spec fn committed(shapes: Seq<Shape>, sel: Set<usize>, op: Operation) -> Seq<Shape> {
    Seq::new(shapes.len(), |i: int| preview(shapes[i], sel.contains(i as usize), Some(op)))
}

/// The first `n` shapes without the selected ones, in order.
pub open spec fn kept(shapes: Seq<Shape>, sel: Set<usize>, n: int) -> Seq<Shape>
    decreases n,
{
    if n <= 0 {
        Seq::empty()
    } else if sel.contains((n - 1) as usize) {
        kept(shapes, sel, n - 1)
    } else {
        kept(shapes, sel, n - 1).push(shapes[n - 1])
    }
}

/// The set `{0, .., n - 1}`.
pub open spec fn all_below(n: int) -> Set<usize> {
    Set::new(|i: usize| i < n)
}

proof fn lemma_first_selected(sel: Set<usize>, i: int, n: int)
    requires
        0 <= i,
        n <= usize::MAX,
    ensures
        first_selected_from(sel, i, n) matches Some(k) ==> i <= k < n && sel.contains(k),
    decreases n - i,
{
    if i < n && !sel.contains(i as usize) {
        lemma_first_selected(sel, i + 1, n);
    }
}

proof fn lemma_first_text(shapes: Seq<Shape>, p: Position, i: int)
    requires
        0 <= i,
        shapes.len() <= usize::MAX,
    ensures
        first_text_from(shapes, p, i) matches Some(k) ==> 0 <= i <= k < shapes.len()
            && shapes[k as int] is Text && shapes[k as int].area().contains_spec(p),
    decreases shapes.len() - i,
{
    if 0 <= i < shapes.len() && !(shapes[i] is Text && shapes[i].area().contains_spec(p)) {
        lemma_first_text(shapes, p, i + 1);
    }
}

proof fn lemma_topmost(shapes: Seq<Shape>, p: Position, n: int)
    ensures
        topmost_at(shapes, p, n) matches Some(k) ==> k < n,
    decreases n,
{
    if n > 0 {
        lemma_topmost(shapes, p, n - 1);
    }
}

fn cell_at_exec(x: i32, y: i32) -> (r: Option<Position>)
    ensures
        r == cell_at(x as int, y as int),
{
    if 0 <= x && x <= MAX_COORD as i32 && 0 <= y && y <= MAX_COORD as i32 {
        Some(Position { x: x as u16, y: y as u16 })
    } else {
        None
    }
}

/// The resize handle of the corner `d` of `a`.
pub fn corner_handle_exec(a: &Rect, d: Direction) -> (r: Option<Position>)
    ensures
        r == corner_handle(*a, d),
{
    let (x, y, w, h) = (a.x as i32, a.y as i32, a.width as i32, a.height as i32);
    match d {
        Direction::TopLeft => cell_at_exec(x - 1, y - 1),
        Direction::TopRight => cell_at_exec(x + w, y - 1),
        Direction::BottomLeft => cell_at_exec(x - 1, y + h),
        Direction::BottomRight => cell_at_exec(x + w, y + h),
    }
}

fn corner_at_exec(a: &Rect, p: Position) -> (r: Option<Direction>)
    ensures
        r == corner_at(*a, p),
{
    if corner_handle_exec(a, Direction::TopLeft) == Some(p) {
        Some(Direction::TopLeft)
    } else if corner_handle_exec(a, Direction::TopRight) == Some(p) {
        Some(Direction::TopRight)
    } else if corner_handle_exec(a, Direction::BottomLeft) == Some(p) {
        Some(Direction::BottomLeft)
    } else if corner_handle_exec(a, Direction::BottomRight) == Some(p) {
        Some(Direction::BottomRight)
    } else {
        None
    }
}

/// The handle of the end `h` of `l`.
pub fn line_handle_exec(l: &StraightLine, h: LineHandle) -> (r: Option<Position>)
    ensures
        r == line_handle(*l, h),
{
    let (sx, sy): (i32, i32) = match l.direction {
        crate::line::LineDirection::Right => (1, 0),
        crate::line::LineDirection::DownRight => (2, 1),
        crate::line::LineDirection::Down => (0, 1),
        crate::line::LineDirection::DownLeft => (-2, 1),
        crate::line::LineDirection::Left => (-1, 0),
        crate::line::LineDirection::UpLeft => (-2, -1),
        crate::line::LineDirection::Up => (0, -1),
        crate::line::LineDirection::UpRight => (2, -1),
    };
    match h {
        LineHandle::First => cell_at_exec(l.from.x as i32 - sx, l.from.y as i32 - sy),
        LineHandle::Second => cell_at_exec(l.to.x as i32 + sx, l.to.y as i32 + sy),
    }
}

fn line_handle_at_exec(l: &StraightLine, p: Position) -> (r: Option<LineHandle>)
    ensures
        r == line_handle_at(*l, p),
{
    if line_handle_exec(l, LineHandle::First) == Some(p) {
        Some(LineHandle::First)
    } else if line_handle_exec(l, LineHandle::Second) == Some(p) {
        Some(LineHandle::Second)
    } else {
        None
    }
}

impl Home {
    /// Every selected index names an element, and the canvas is well formed.
    pub open spec fn wf(self) -> bool {
        &&& self.canvas.wf()
        &&& forall|i: usize| #[trigger]
            self.selected_elements@.contains(i) ==> i < self.canvas.elements@.len()
    }

    pub open spec fn shapes(self) -> Seq<Shape> {
        self.canvas.shapes()
    }

    /// The selected element, when exactly one is selected.
    pub open spec fn sole_selected(self) -> Option<usize> {
        if self.selected_elements@.len() == 1 {
            first_selected_from(self.selected_elements@, 0, self.canvas.elements@.len() as int)
        } else {
            None
        }
    }

    /// A session with the cursor tool, nothing selected and an empty canvas.
    pub fn new() -> (r: Home)
        ensures
            r.wf(),
            r.current_tool == Tool::Cursor,
            r.current_operation is None,
            r.selected_elements@ == Set::<usize>::empty(),
            r.canvas.elements@.len() == 0,
            r.scroll_offset == (Position { x: 0, y: 0 }),
    {
        Home {
            current_tool: Tool::Cursor,
            current_operation: None,
            selected_elements: HashSet::new(),
            canvas: DrawingCanvas::new(),
            scroll_offset: Position { x: 0, y: 0 },
        }
    }

    /// Switches to `tool`; switching to another tool drops the operation.
    fn update_tool(&mut self, tool: Tool)
        ensures
            final(self).current_tool == tool,
            tool == old(self).current_tool ==> final(self).current_operation
                == old(self).current_operation,
            tool != old(self).current_tool ==> final(self).current_operation is None,
            final(self).selected_elements == old(self).selected_elements,
            final(self).canvas == old(self).canvas,
            final(self).scroll_offset == old(self).scroll_offset,
    {
        if tool == self.current_tool {
            return;
        }
        self.current_operation = None;
        self.current_tool = tool;
    }

    /// Back to the cursor tool with nothing selected.
    fn reset_tool(&mut self)
        ensures
            final(self).current_tool == Tool::Cursor,
            old(self).current_tool != Tool::Cursor ==> final(self).current_operation is None,
            old(self).current_tool == Tool::Cursor ==> final(self).current_operation
                == old(self).current_operation,
            final(self).selected_elements@ == Set::<usize>::empty(),
            final(self).canvas == old(self).canvas,
            final(self).scroll_offset == old(self).scroll_offset,
    {
        self.update_tool(Tool::Cursor);
        self.selected_elements.clear();
    }

    /// The canvas cell under the screen cell `(column, row)`.
    pub fn pointer(&self, column: u16, row: u16) -> (r: Position)
        requires
            column >= LIST_WIDTH,
        ensures
            r == pointer_spec(self.scroll_offset, column, row),
    {
        let x = column as u32 - LIST_WIDTH as u32 + self.scroll_offset.x as u32;
        let y = row as u32 + self.scroll_offset.y as u32;
        Position {
            x: if x > MAX_COORD as u32 {
                MAX_COORD
            } else {
                x as u16
            },
            y: if y > MAX_COORD as u32 {
                MAX_COORD
            } else {
                y as u16
            },
        }
    }

    /// The lowest selected index.
    fn first_selected(&self) -> (r: Option<usize>)
        ensures
            r == first_selected_from(self.selected_elements@, 0, self.canvas.elements@.len() as int),
    {
        let n = self.canvas.elements.len();
        let mut i: usize = 0;
        while i < n
            invariant
                n == self.canvas.elements@.len(),
                i <= n,
                first_selected_from(self.selected_elements@, 0, n as int) == first_selected_from(
                    self.selected_elements@,
                    i as int,
                    n as int,
                ),
            decreases n - i,
        {
            if self.selected_elements.contains(&i) {
                return Some(i);
            }
            i += 1;
        }
        None
    }

    /// The selected element, when exactly one is selected.
    fn only_selected(&self) -> (r: Option<usize>)
        ensures
            r == self.sole_selected(),
    {
        if self.selected_elements.len() == 1 {
            self.first_selected()
        } else {
            None
        }
    }

    /// Whether some selected element's area holds `p`.
    fn selection_hit(&self, p: Position) -> (r: bool)
        requires
            self.wf(),
        ensures
            r == selection_hit(self.shapes(), self.selected_elements@, p),
    {
        let n = self.canvas.elements.len();
        for i in 0..n
            invariant
                n == self.canvas.elements@.len(),
                forall|j: int|
                    0 <= j < i ==> !(self.selected_elements@.contains(j as usize)
                        && (#[trigger] self.shapes()[j]).area().contains_spec(p)),
        {
            if self.selected_elements.contains(&i) && self.canvas.elements[i].area().contains(p) {
                assert(self.shapes()[i as int] == self.canvas.elements@[i as int]@);
                return true;
            }
            assert(self.shapes()[i as int] == self.canvas.elements@[i as int]@);
        }
        false
    }

    /// The topmost element whose area holds `p`.
    fn topmost_at(&self, p: Position) -> (r: Option<usize>)
        ensures
            r == topmost_at(self.shapes(), p, self.canvas.elements@.len() as int),
    {
        let mut k = self.canvas.elements.len();
        while k > 0
            invariant
                k <= self.canvas.elements@.len(),
                topmost_at(self.shapes(), p, self.canvas.elements@.len() as int) == topmost_at(
                    self.shapes(),
                    p,
                    k as int,
                ),
            decreases k,
        {
            assert(self.shapes()[k - 1] == self.canvas.elements@[k - 1]@);
            if self.canvas.elements[k - 1].area().contains(p) {
                return Some(k - 1);
            }
            k -= 1;
        }
        None
    }

    /// The lowest-indexed text element whose area holds `p`.
    fn first_text_at(&self, p: Position) -> (r: Option<usize>)
        ensures
            r == first_text_from(self.shapes(), p, 0),
    {
        let n = self.canvas.elements.len();
        let mut i: usize = 0;
        while i < n
            invariant
                n == self.canvas.elements@.len(),
                i <= n,
                first_text_from(self.shapes(), p, 0) == first_text_from(self.shapes(), p, i as int),
            decreases n - i,
        {
            assert(self.shapes()[i as int] == self.canvas.elements@[i as int]@);
            if let Element::Text { area, .. } = &self.canvas.elements[i] {
                if area.contains(p) {
                    return Some(i);
                }
            }
            i += 1;
        }
        None
    }

    /// The indices of the elements whose area shares a cell with `r`.
    fn intersecting(&self, r: &Rect) -> (s: HashSet<usize>)
        ensures
            s@ == intersecting(self.shapes(), *r),
    {
        let n = self.canvas.elements.len();
        let mut s: HashSet<usize> = HashSet::new();
        for i in 0..n
            invariant
                n == self.canvas.elements@.len(),
                s@ == Set::new(
                    |j: usize| j < i && self.shapes()[j as int].area().intersects_spec(*r),
                ),
        {
            assert(self.shapes()[i as int] == self.canvas.elements@[i as int]@);
            if self.canvas.elements[i].area().intersects(r) {
                s.insert(i);
            }
            assert(s@ =~= Set::new(
                |j: usize| j < i + 1 && self.shapes()[j as int].area().intersects_spec(*r),
            ));
        }
        assert(s@ =~= intersecting(self.shapes(), *r));
        s
    }
}

/// The tool, the canvas and the scroll offset are as they were.
pub open spec fn same_canvas(a: Home, b: Home) -> bool {
    &&& b.current_tool == a.current_tool
    &&& b.canvas == a.canvas
    &&& b.scroll_offset == a.scroll_offset
}

/// Nothing changed.
pub open spec fn unchanged(a: Home, b: Home) -> bool {
    &&& same_canvas(a, b)
    &&& b.current_operation == a.current_operation
    &&& b.selected_elements@ == a.selected_elements@
}

/// The handle of the sole selected line that lies at `p`.
pub open spec fn line_grab(h: Home, p: Position) -> Option<LineHandle> {
    match h.sole_selected() {
        Some(i) => match h.shapes()[i as int] {
            Shape::Line(l) => line_handle_at(l, p),
            _ => None,
        },
        None => None,
    }
}

/// The corner of the sole selected box or text whose handle lies at `p`.
pub open spec fn corner_grab(h: Home, p: Position) -> Option<Direction> {
    match h.sole_selected() {
        Some(i) => match h.shapes()[i as int] {
            Shape::Line(_) => None,
            s => corner_at(s.area(), p),
        },
        None => None,
    }
}

/// `{i}`, or the empty set.
pub open spec fn set_of(i: Option<usize>) -> Set<usize> {
    match i {
        Some(i) => set![i],
        None => Set::empty(),
    }
}

/// A press at `p` with the cursor tool: on a selected element it starts a
/// move; on a handle of the sole selected element it starts a handle drag or a
/// resize; elsewhere it starts a rubber band and selects the topmost element
/// under `p` (added to the selection when `additive`).
pub open spec fn cursor_down_spec(a: Home, b: Home, p: Position, additive: bool, r: Option<Action>) -> bool {
    &&& same_canvas(a, b)
    &&& if selection_hit(a.shapes(), a.selected_elements@, p) {
        &&& b.current_operation == Some(Operation::Move { origin: p, second: p })
        &&& b.selected_elements@ == a.selected_elements@
        &&& r is None
    } else if line_grab(a, p) is Some {
        &&& b.current_operation == Some(
            Operation::MoveLineHandle { handle: line_grab(a, p)->0, pos: p },
        )
        &&& b.selected_elements@ == a.selected_elements@
        &&& r == Some(Action::RenderBuffer)
    } else if corner_grab(a, p) is Some {
        &&& b.current_operation == Some(
            Operation::Resize { direction: corner_grab(a, p)->0, origin: p, second: p },
        )
        &&& b.selected_elements@ == a.selected_elements@
        &&& r == Some(Action::RenderBuffer)
    } else {
        &&& b.current_operation == Some(Operation::Selection { origin: p, second: p })
        &&& b.selected_elements@ == (if additive {
            a.selected_elements@
        } else {
            Set::empty()
        }).union(set_of(topmost_at(a.shapes(), p, a.shapes().len() as int)))
        &&& r == Some(Action::RenderBuffer)
    }
}

/// A press at `p` with a drawing tool starts a rubber band and clears the
/// selection; with the text tool while a text is edited it asks to commit it.
pub open spec fn tool_down_spec(a: Home, b: Home, p: Position, r: Option<Action>) -> bool {
    if a.current_tool == Tool::Text && a.current_operation matches Some(Operation::EditText { .. }) {
        unchanged(a, b) && r == Some(Action::CommitText)
    } else {
        &&& same_canvas(a, b)
        &&& b.current_operation == Some(Operation::Selection { origin: p, second: p })
        &&& b.selected_elements@ == Set::<usize>::empty()
        &&& r is None
    }
}

/// A drag to `p` moves the second point of the operation; with the cursor
/// tool the rubber band selects every element it overlaps.
pub open spec fn drag_spec(a: Home, b: Home, p: Position, r: Option<Action>) -> bool {
    &&& same_canvas(a, b)
    &&& if a.current_tool != Tool::Cursor {
        &&& match a.current_operation {
            Some(Operation::Selection { origin, .. }) => b.current_operation == Some(
                Operation::Selection { origin, second: p },
            ),
            _ => b.current_operation == a.current_operation,
        }
        &&& b.selected_elements@ == a.selected_elements@
        &&& r == Some(Action::RenderBuffer)
    } else {
        match a.current_operation {
            Some(Operation::Selection { origin, .. }) => {
                &&& b.current_operation == Some(Operation::Selection { origin, second: p })
                &&& b.selected_elements@ == intersecting(
                    a.shapes(),
                    Rect::spanning_spec(origin, p),
                )
                &&& r == Some(Action::RenderBuffer)
            },
            Some(Operation::Move { origin, .. }) => {
                &&& b.current_operation == Some(Operation::Move { origin, second: p })
                &&& b.selected_elements@ == a.selected_elements@
                &&& r == Some(Action::RenderBuffer)
            },
            Some(Operation::Resize { direction, origin, .. }) => {
                &&& b.current_operation == Some(Operation::Resize { direction, origin, second: p })
                &&& b.selected_elements@ == a.selected_elements@
                &&& r == Some(Action::RenderBuffer)
            },
            Some(Operation::MoveLineHandle { handle, .. }) => {
                &&& b.current_operation == Some(Operation::MoveLineHandle { handle, pos: p })
                &&& b.selected_elements@ == a.selected_elements@
                &&& r == Some(Action::RenderBuffer)
            },
            _ => unchanged(a, b) && r is None,
        }
    }
}

/// The rectangle of a rubber band from `origin` to `second`.
pub open spec fn band(op: Option<Operation>) -> Option<Rect> {
    match op {
        Some(Operation::Selection { origin, second }) => Some(Rect::spanning_spec(origin, second)),
        _ => None,
    }
}

/// The box a release draws: the rubber band, when it is at least two cells
/// wide and high.
pub open spec fn box_drawn(op: Option<Operation>) -> Option<Rect> {
    match band(op) {
        Some(r) => if r.width > 1 && r.height > 1 {
            Some(r)
        } else {
            None
        },
        None => None,
    }
}

/// The line a release draws: the routed rubber band, when it moved.
pub open spec fn line_drawn(op: Option<Operation>) -> Option<StraightLine> {
    match op {
        Some(Operation::Selection { origin, second }) => StraightLine::classified(origin, second),
        _ => None,
    }
}

/// A new element `s` is on top of the canvas, alone selected, and the
/// cursor tool is back.
pub open spec fn added_and_selected(a: Home, b: Home, s: Shape) -> bool {
    &&& b.shapes() == a.shapes().push(s)
    &&& b.canvas.buffer == a.canvas.buffer
    &&& b.current_tool == Tool::Cursor
    &&& b.selected_elements@ == set![a.shapes().len() as usize]
    &&& b.scroll_offset == a.scroll_offset
}

/// A release with the box tool draws the box of the rubber band.
pub open spec fn release_box_spec(a: Home, b: Home, r: Option<Action>) -> bool {
    &&& match box_drawn(a.current_operation) {
        Some(area) => added_and_selected(a, b, Shape::Box { area }),
        None => same_canvas(a, b) && b.selected_elements@ == a.selected_elements@,
    }
    &&& b.current_operation is None
    &&& r == Some(Action::RenderBuffer)
}

/// A release with the line tool draws the routed line of the rubber band.
pub open spec fn release_line_spec(a: Home, b: Home, r: Option<Action>) -> bool {
    &&& match line_drawn(a.current_operation) {
        Some(l) => added_and_selected(a, b, Shape::Line(l)),
        None => same_canvas(a, b) && b.selected_elements@ == a.selected_elements@,
    }
    &&& b.current_operation is None
    &&& r == Some(Action::RenderBuffer)
}

/// A release with the text tool: a click on a text edits it; a band two or
/// more cells wide adds an empty text and edits it; anything smaller goes
/// back to the cursor tool.
pub open spec fn release_text_spec(a: Home, b: Home, r: Option<Action>) -> bool {
    match band(a.current_operation) {
        Some(area) => {
            let hit = first_text_from(a.shapes(), Position { x: area.x, y: area.y }, 0);
            if area.width == 1 && area.height == 1 && hit is Some {
                &&& same_canvas(a, b)
                &&& b.selected_elements@ == set![hit->0]
                &&& b.current_operation matches Some(Operation::EditText { buffer })
                    && a.shapes()[hit->0 as int] matches Shape::Text { content, .. }
                    && buffer@ == content
                &&& r == Some(Action::EditText)
            } else if area.width > 1 {
                &&& b.shapes() == a.shapes().push(Shape::Text { area, content: Seq::empty() })
                &&& b.canvas.buffer == a.canvas.buffer
                &&& b.current_tool == a.current_tool
                &&& b.scroll_offset == a.scroll_offset
                &&& b.selected_elements@ == a.selected_elements@.insert(a.shapes().len() as usize)
                &&& b.current_operation matches Some(Operation::EditText { buffer })
                    && buffer@ == Seq::<char>::empty()
                &&& r == Some(Action::EditText)
            } else {
                &&& b.canvas == a.canvas
                &&& b.scroll_offset == a.scroll_offset
                &&& b.current_tool == Tool::Cursor
                &&& b.selected_elements@ == Set::<usize>::empty()
                &&& b.current_operation is None
                &&& r == Some(Action::RenderBuffer)
            }
        },
        None => {
            &&& same_canvas(a, b)
            &&& b.selected_elements@ == a.selected_elements@
            &&& b.current_operation is None
            &&& r is None
        },
    }
}

/// A release with the cursor tool commits the operation: every selected
/// element becomes its preview.
pub open spec fn release_cursor_spec(a: Home, b: Home, r: Option<Action>) -> bool {
    &&& match a.current_operation {
        Some(op) => {
            &&& b.shapes() == committed(a.shapes(), a.selected_elements@, op)
            &&& b.canvas.buffer == a.canvas.buffer
        },
        None => b.canvas == a.canvas,
    }
    &&& b.current_tool == a.current_tool
    &&& b.scroll_offset == a.scroll_offset
    &&& b.selected_elements@ == a.selected_elements@
    &&& b.current_operation is None
    &&& r == Some(Action::RenderBuffer)
}

/// Replaces each selected element by its preview under `op`.
fn commit(elements: &mut VecDeque<Element>, selected: &HashSet<usize>, op: &Operation)
    requires
        forall|i: int| 0 <= i < old(elements)@.len() ==> (#[trigger] old(elements)@[i])@.wf(),
    ensures
        final(elements)@.len() == old(elements)@.len(),
        forall|i: int| 0 <= i < final(elements)@.len() ==> (#[trigger] final(elements)@[i])@.wf(),
        final(elements)@.map_values(|e: Element| e@) == committed(
            old(elements)@.map_values(|e: Element| e@),
            selected@,
            *op,
        ),
{
    let ghost before = elements@.map_values(|e: Element| e@);
    let ghost target = committed(before, selected@, *op);
    let n = elements.len();
    for i in 0..n
        invariant
            n == elements@.len(),
            before.len() == n,
            target == committed(before, selected@, *op),
            forall|j: int| 0 <= j < n ==> (#[trigger] elements@[j])@.wf(),
            forall|j: int| 0 <= j < n ==> (#[trigger] elements@[j])@ == if j < i {
                target[j]
            } else {
                before[j]
            },
    {
        if selected.contains(&i) {
            if let Some(t) = op.apply_transform(&elements[i]) {
                replace_element(elements, i, t);
            }
        }
    }
    assert(elements@.map_values(|e: Element| e@) =~= target);
}

impl Home {
    fn cursor_down(&mut self, p: Position, additive: bool) -> (r: Option<Action>)
        requires
            old(self).wf(),
        ensures
            final(self).wf(),
            cursor_down_spec(*old(self), *final(self), p, additive, r),
    {
        if self.selection_hit(p) {
            self.current_operation = Some(Operation::Move { origin: p, second: p });
            return None;
        }
        let n = self.canvas.elements.len();
        proof {
            lemma_first_selected(self.selected_elements@, 0, n as int);
            lemma_topmost(self.shapes(), p, self.shapes().len() as int);
        }
        if let Some(i) = self.only_selected() {
            assert(self.selected_elements@.contains(i));
            assert(self.shapes()[i as int] == self.canvas.elements@[i as int]@);
            match &self.canvas.elements[i] {
                Element::Line(line) => {
                    if let Some(handle) = line_handle_at_exec(line, p) {
                        self.current_operation = Some(Operation::MoveLineHandle { handle, pos: p });
                        return Some(Action::RenderBuffer);
                    }
                },
                element => {
                    let area = element.area();
                    if let Some(direction) = corner_at_exec(&area, p) {
                        self.current_operation = Some(
                            Operation::Resize { direction, origin: p, second: p },
                        );
                        return Some(Action::RenderBuffer);
                    }
                },
            }
        }
        self.current_operation = Some(Operation::Selection { origin: p, second: p });
        if !additive {
            self.selected_elements.clear();
        }
        let ghost kept_sel = self.selected_elements@;
        if let Some(x) = self.topmost_at(p) {
            self.selected_elements.insert(x);
        }
        assert(self.selected_elements@ =~= kept_sel.union(
            set_of(topmost_at(self.shapes(), p, self.shapes().len() as int)),
        ));
        Some(Action::RenderBuffer)
    }

    fn tool_down(&mut self, p: Position) -> (r: Option<Action>)
        requires
            old(self).wf(),
            old(self).current_tool != Tool::Cursor,
        ensures
            final(self).wf(),
            tool_down_spec(*old(self), *final(self), p, r),
    {
        if self.current_tool == Tool::Text {
            if let Some(Operation::EditText { .. }) = &self.current_operation {
                return Some(Action::CommitText);
            }
        }
        self.selected_elements.clear();
        self.current_operation = Some(Operation::Selection { origin: p, second: p });
        None
    }

    fn drag(&mut self, p: Position) -> (r: Option<Action>)
        requires
            old(self).wf(),
        ensures
            final(self).wf(),
            drag_spec(*old(self), *final(self), p, r),
    {
        if self.current_tool != Tool::Cursor {
            if let Some(Operation::Selection { origin, .. }) = &self.current_operation {
                let origin = *origin;
                self.current_operation = Some(Operation::Selection { origin, second: p });
            }
            return Some(Action::RenderBuffer);
        }
        match &self.current_operation {
            Some(Operation::Selection { origin, .. }) => {
                let origin = *origin;
                self.current_operation = Some(Operation::Selection { origin, second: p });
                let band = Rect::spanning(origin, p);
                self.selected_elements = self.intersecting(&band);
                Some(Action::RenderBuffer)
            },
            Some(Operation::Move { origin, .. }) => {
                let origin = *origin;
                self.current_operation = Some(Operation::Move { origin, second: p });
                Some(Action::RenderBuffer)
            },
            Some(Operation::Resize { direction, origin, .. }) => {
                let (direction, origin) = (*direction, *origin);
                self.current_operation = Some(Operation::Resize { direction, origin, second: p });
                Some(Action::RenderBuffer)
            },
            Some(Operation::MoveLineHandle { handle, .. }) => {
                let handle = *handle;
                self.current_operation = Some(Operation::MoveLineHandle { handle, pos: p });
                Some(Action::RenderBuffer)
            },
            _ => None,
        }
    }

    /// The rubber band of the operation under way.
    fn band(&self) -> (r: Option<Rect>)
        ensures
            r == band(self.current_operation),
    {
        match &self.current_operation {
            Some(Operation::Selection { origin, second }) => Some(Rect::spanning(*origin, *second)),
            _ => None,
        }
    }

    /// Puts `element` on top, alone selected, with the cursor tool.
    fn add_and_select(&mut self, element: Element)
        requires
            old(self).wf(),
            element@.wf(),
        ensures
            final(self).wf(),
            added_and_selected(*old(self), *final(self), element@),
            old(self).current_tool != Tool::Cursor ==> final(self).current_operation is None,
    {
        let n = self.canvas.elements.len();
        self.canvas.elements.push_back(element);
        self.reset_tool();
        self.selected_elements.insert(n);
        assert(self.selected_elements@ =~= set![n]);
        assert(self.shapes() =~= old(self).shapes().push(element@));
    }

    fn release_box(&mut self) -> (r: Option<Action>)
        requires
            old(self).wf(),
        ensures
            final(self).wf(),
            release_box_spec(*old(self), *final(self), r),
    {
        if let Some(area) = self.band() {
            if area.width > 1 && area.height > 1 {
                self.add_and_select(Element::Box { area });
            }
        }
        self.current_operation = None;
        Some(Action::RenderBuffer)
    }

    fn release_line(&mut self) -> (r: Option<Action>)
        requires
            old(self).wf(),
        ensures
            final(self).wf(),
            release_line_spec(*old(self), *final(self), r),
    {
        if let Some(Operation::Selection { origin, second }) = &self.current_operation {
            if let Some(line) = StraightLine::new(*origin, *second) {
                self.add_and_select(Element::Line(line));
            }
        }
        self.current_operation = None;
        Some(Action::RenderBuffer)
    }

    fn release_text(&mut self) -> (r: Option<Action>)
        requires
            old(self).wf(),
            old(self).current_tool == Tool::Text,
        ensures
            final(self).wf(),
            release_text_spec(*old(self), *final(self), r),
    {
        let area = match self.band() {
            Some(area) => area,
            None => {
                self.current_operation = None;
                return None;
            },
        };
        if area.width == 1 && area.height == 1 {
            if let Some(i) = self.first_text_at(Position { x: area.x, y: area.y }) {
                let n = self.canvas.elements.len();
                proof {
                    assert(self.shapes().len() == n);
                    lemma_first_text(self.shapes(), Position { x: area.x, y: area.y }, 0);
                }
                assert(self.shapes()[i as int] == self.canvas.elements@[i as int]@);
                let buffer = match &self.canvas.elements[i] {
                    Element::Text { content, .. } => content.clone(),
                    _ => String::new(),
                };
                self.selected_elements.clear();
                self.selected_elements.insert(i);
                assert(self.selected_elements@ =~= set![i]);
                self.current_operation = Some(Operation::EditText { buffer });
                return Some(Action::EditText);
            }
        }
        if area.width > 1 {
            let n = self.canvas.elements.len();
            self.canvas.elements.push_back(Element::Text { area, content: String::new() });
            self.selected_elements.insert(n);
            self.current_operation = Some(Operation::EditText { buffer: String::new() });
            assert(self.shapes() =~= old(self).shapes().push(
                Shape::Text { area, content: Seq::empty() },
            ));
            Some(Action::EditText)
        } else {
            self.reset_tool();
            Some(Action::RenderBuffer)
        }
    }

    fn release_cursor(&mut self) -> (r: Option<Action>)
        requires
            old(self).wf(),
        ensures
            final(self).wf(),
            release_cursor_spec(*old(self), *final(self), r),
    {
        if let Some(op) = &self.current_operation {
            commit(&mut self.canvas.elements, &self.selected_elements, op);
        }
        self.current_operation = None;
        Some(Action::RenderBuffer)
    }
}

/// The text being edited, or nothing.
pub open spec fn edit_text(op: Option<Operation>) -> Seq<char> {
    match op {
        Some(Operation::EditText { buffer }) => buffer@,
        _ => Seq::empty(),
    }
}

/// `v - d`, or 0.
pub open spec fn sat_sub(v: u16, d: u16) -> u16 {
    if v >= d { (v - d) as u16 } else { 0 }
}

/// `v + d`, or the largest coordinate.
pub open spec fn sat_add(v: u16, d: u16) -> u16 {
    if v + d <= MAX_COORD { (v + d) as u16 } else { MAX_COORD }
}

/// The session scrolled to `s`, all else as it was.
pub open spec fn scrolled(a: Home, b: Home, s: Position) -> bool {
    &&& b.current_tool == a.current_tool
    &&& b.canvas == a.canvas
    &&& b.current_operation == a.current_operation
    &&& b.selected_elements@ == a.selected_elements@
    &&& b.scroll_offset == s
}

/// What `update` does with each action.
pub open spec fn update_spec(a: Home, b: Home, action: Action, r: Option<Action>) -> bool {
    let n = a.shapes().len();
    match action {
        Action::RenderBuffer => {
            &&& b.canvas.elements@ == a.canvas.elements@
            &&& b.canvas.buffer.cells() == crate::canvas::rendered(
                a.shapes(),
                a.selected_elements@,
                a.current_operation,
            )
            &&& b.canvas.buffer.width == crate::canvas::max_right(
                crate::canvas::previews(a.shapes(), a.selected_elements@, a.current_operation),
                a.shapes().len() as int,
            )
            &&& b.canvas.buffer.height == crate::canvas::max_bottom(
                crate::canvas::previews(a.shapes(), a.selected_elements@, a.current_operation),
                a.shapes().len() as int,
            )
            &&& b.current_tool == a.current_tool
            &&& b.current_operation == a.current_operation
            &&& b.selected_elements@ == a.selected_elements@
            &&& b.scroll_offset == a.scroll_offset
            &&& r is None
        },
        Action::SwitchTool(t) => {
            &&& b.current_tool == t
            &&& t == a.current_tool ==> b.current_operation == a.current_operation
            &&& t != a.current_tool ==> b.current_operation is None
            &&& b.canvas == a.canvas
            &&& b.selected_elements@ == a.selected_elements@
            &&& b.scroll_offset == a.scroll_offset
            &&& r is None
        },
        Action::EditText => unchanged(a, b) && r == Some(Action::RenderBuffer),
        Action::CommitText => {
            &&& match first_selected_from(a.selected_elements@, 0, n as int) {
                Some(i) => match a.shapes()[i as int] {
                    Shape::Text { area, .. } => {
                        &&& b.shapes() == a.shapes().update(
                            i as int,
                            Shape::Text { area, content: edit_text(a.current_operation) },
                        )
                        &&& b.canvas.buffer == a.canvas.buffer
                    },
                    _ => b.canvas == a.canvas,
                },
                None => b.canvas == a.canvas,
            }
            &&& b.current_tool == a.current_tool
            &&& b.selected_elements@ == a.selected_elements@
            &&& b.scroll_offset == a.scroll_offset
            &&& b.current_operation is None
            &&& r == Some(Action::RenderBuffer)
        },
        Action::SelectAll => {
            &&& b.current_tool == Tool::Cursor
            &&& a.current_tool == Tool::Cursor ==> b.current_operation == a.current_operation
            &&& a.current_tool != Tool::Cursor ==> b.current_operation is None
            &&& b.canvas == a.canvas
            &&& b.selected_elements@ == all_below(n as int)
            &&& b.scroll_offset == a.scroll_offset
            &&& r == Some(Action::RenderBuffer)
        },
        Action::SelectNone => {
            &&& same_canvas(a, b)
            &&& b.current_operation == a.current_operation
            &&& b.selected_elements@ == Set::<usize>::empty()
            &&& r == Some(Action::RenderBuffer)
        },
        Action::Delete => {
            &&& b.shapes() == kept(a.shapes(), a.selected_elements@, n as int)
            &&& b.canvas.buffer == a.canvas.buffer
            &&& b.current_tool == a.current_tool
            &&& b.current_operation == a.current_operation
            &&& b.scroll_offset == a.scroll_offset
            &&& b.selected_elements@ == Set::<usize>::empty()
            &&& r == Some(Action::SelectNone)
        },
        Action::OpenCommandPalette => {
            &&& same_canvas(a, b)
            &&& b.current_operation == a.current_operation
            &&& b.selected_elements@ == Set::<usize>::empty()
            &&& r is None
        },
        Action::ScrollUp => scrolled(
            a,
            b,
            Position { x: a.scroll_offset.x, y: sat_sub(a.scroll_offset.y, SCROLL_STEP) },
        ) && r == Some(Action::RenderBuffer),
        Action::ScrollDown => scrolled(
            a,
            b,
            Position { x: a.scroll_offset.x, y: sat_add(a.scroll_offset.y, SCROLL_STEP) },
        ) && r == Some(Action::RenderBuffer),
        Action::ScrollLeft => scrolled(
            a,
            b,
            Position { x: sat_sub(a.scroll_offset.x, (2 * SCROLL_STEP) as u16), y: a.scroll_offset.y },
        ) && r == Some(Action::RenderBuffer),
        Action::ScrollRight => scrolled(
            a,
            b,
            Position { x: sat_add(a.scroll_offset.x, (2 * SCROLL_STEP) as u16), y: a.scroll_offset.y },
        ) && r == Some(Action::RenderBuffer),
        _ => unchanged(a, b) && r is None,
    }
}

/// What `handle_mouse_event` does with a pointer event.
pub open spec fn mouse_spec(a: Home, b: Home, mouse: MouseEvent, r: Option<Action>) -> bool {
    if mouse.column < LIST_WIDTH {
        unchanged(a, b) && r is None
    } else {
        let p = pointer_spec(a.scroll_offset, mouse.column, mouse.row);
        match mouse.kind {
            MouseEventKind::Down => if a.current_tool == Tool::Cursor {
                cursor_down_spec(a, b, p, mouse.additive, r)
            } else {
                tool_down_spec(a, b, p, r)
            },
            MouseEventKind::Drag => drag_spec(a, b, p, r),
            MouseEventKind::Up => match a.current_tool {
                Tool::Box => release_box_spec(a, b, r),
                Tool::Line => release_line_spec(a, b, r),
                Tool::Text => release_text_spec(a, b, r),
                Tool::Cursor => release_cursor_spec(a, b, r),
            },
            MouseEventKind::ScrollDown => unchanged(a, b) && r == Some(Action::ScrollDown),
            MouseEventKind::ScrollUp => unchanged(a, b) && r == Some(Action::ScrollUp),
            MouseEventKind::ScrollRight => unchanged(a, b) && r == Some(Action::ScrollRight),
            MouseEventKind::ScrollLeft => unchanged(a, b) && r == Some(Action::ScrollLeft),
            MouseEventKind::Other => unchanged(a, b) && r is None,
        }
    }
}

impl Home {
    /// Interprets a pointer event at a screen cell; events over the layer
    /// list are ignored.
    pub fn handle_mouse_event(&mut self, mouse: MouseEvent) -> (r: Option<Action>)
        requires
            old(self).wf(),
        ensures
            final(self).wf(),
            mouse_spec(*old(self), *final(self), mouse, r),
    {
        if mouse.column < LIST_WIDTH {
            return None;
        }
        let p = self.pointer(mouse.column, mouse.row);
        match mouse.kind {
            MouseEventKind::Down => if self.current_tool == Tool::Cursor {
                self.cursor_down(p, mouse.additive)
            } else {
                self.tool_down(p)
            },
            MouseEventKind::Drag => self.drag(p),
            MouseEventKind::Up => match self.current_tool {
                Tool::Box => self.release_box(),
                Tool::Line => self.release_line(),
                Tool::Text => self.release_text(),
                Tool::Cursor => self.release_cursor(),
            },
            MouseEventKind::ScrollDown => Some(Action::ScrollDown),
            MouseEventKind::ScrollUp => Some(Action::ScrollUp),
            MouseEventKind::ScrollRight => Some(Action::ScrollRight),
            MouseEventKind::ScrollLeft => Some(Action::ScrollLeft),
            MouseEventKind::Other => None,
        }
    }

    /// Replaces the text being edited by `text`; does nothing when no text
    /// is being edited.
    pub fn set_edit_text(&mut self, text: String)
        ensures
            final(self).current_tool == old(self).current_tool,
            final(self).canvas == old(self).canvas,
            final(self).selected_elements == old(self).selected_elements,
            final(self).scroll_offset == old(self).scroll_offset,
            (old(self).current_operation matches Some(Operation::EditText { .. }))
                ==> final(self).current_operation == Some(Operation::EditText { buffer: text }),
            !(old(self).current_operation matches Some(Operation::EditText { .. }))
                ==> final(self).current_operation == old(self).current_operation,
    {
        if let Some(Operation::EditText { .. }) = &self.current_operation {
            self.current_operation = Some(Operation::EditText { buffer: text });
        }
    }

    /// Removes the selected elements, keeping the order of the others, and
    /// clears the selection, whose indices no longer hold.
    pub fn delete_selected(&mut self)
        requires
            old(self).wf(),
        ensures
            final(self).wf(),
            final(self).shapes() == kept(
                old(self).shapes(),
                old(self).selected_elements@,
                old(self).shapes().len() as int,
            ),
            final(self).canvas.buffer == old(self).canvas.buffer,
            final(self).current_tool == old(self).current_tool,
            final(self).current_operation == old(self).current_operation,
            final(self).scroll_offset == old(self).scroll_offset,
            final(self).selected_elements@ == Set::<usize>::empty(),
    {
        let ghost before = self.shapes();
        let n = self.canvas.elements.len();
        let mut remaining: VecDeque<Element> = VecDeque::new();
        for i in 0..n
            invariant
                n == self.canvas.elements@.len(),
                before == self.shapes(),
                self.wf(),
                remaining@.map_values(|e: Element| e@) == kept(
                    before,
                    self.selected_elements@,
                    i as int,
                ),
                forall|j: int| 0 <= j < remaining@.len() ==> (#[trigger] remaining@[j])@.wf(),
        {
            assert(before[i as int] == self.canvas.elements@[i as int]@);
            if !self.selected_elements.contains(&i) {
                remaining.push_back(self.canvas.elements[i].copied());
            }
            assert(remaining@.map_values(|e: Element| e@) =~= kept(
                before,
                self.selected_elements@,
                i + 1,
            ));
        }
        self.canvas.elements = remaining;
        self.selected_elements.clear();
    }

    /// Selects every element.
    fn select_all(&mut self)
        requires
            old(self).wf(),
        ensures
            final(self).wf(),
            final(self).selected_elements@ == all_below(old(self).shapes().len() as int),
            final(self).canvas == old(self).canvas,
            final(self).current_tool == old(self).current_tool,
            final(self).current_operation == old(self).current_operation,
            final(self).scroll_offset == old(self).scroll_offset,
    {
        let n = self.canvas.elements.len();
        let mut all: HashSet<usize> = HashSet::new();
        for i in 0..n
            invariant
                all@ == all_below(i as int),
        {
            all.insert(i);
            assert(all@ =~= all_below(i + 1));
        }
        assert(all@ =~= all_below(n as int));
        self.selected_elements = all;
    }

    /// Stores the edited text in the selected text element, if there is one,
    /// and ends the edit.
    fn commit_text(&mut self)
        requires
            old(self).wf(),
        ensures
            final(self).wf(),
            update_spec(*old(self), *final(self), Action::CommitText, Some(Action::RenderBuffer)),
    {
        let n = self.canvas.elements.len();
        proof {
            lemma_first_selected(self.selected_elements@, 0, n as int);
        }
        if let Some(i) = self.first_selected() {
            assert(self.shapes()[i as int] == self.canvas.elements@[i as int]@);
            if let Element::Text { area, .. } = &self.canvas.elements[i] {
                let area = *area;
                let content = match &self.current_operation {
                    Some(Operation::EditText { buffer }) => buffer.clone(),
                    _ => String::new(),
                };
                replace_element(&mut self.canvas.elements, i, Element::Text { area, content });
                assert(self.shapes() =~= old(self).shapes().update(
                    i as int,
                    Shape::Text { area, content: edit_text(old(self).current_operation) },
                ));
            }
        }
        self.current_operation = None;
    }

    /// Carries out an action meant for the editor.
    pub fn update(&mut self, action: Action) -> (r: Option<Action>)
        requires
            old(self).wf(),
        ensures
            final(self).wf(),
            update_spec(*old(self), *final(self), action, r),
    {
        match action {
            Action::RenderBuffer => {
                self.canvas.render(&self.selected_elements, &self.current_operation);
                None
            },
            Action::SwitchTool(tool) => {
                self.update_tool(tool);
                None
            },
            Action::EditText => Some(Action::RenderBuffer),
            Action::CommitText => {
                self.commit_text();
                Some(Action::RenderBuffer)
            },
            Action::SelectAll => {
                self.update_tool(Tool::Cursor);
                self.select_all();
                Some(Action::RenderBuffer)
            },
            Action::SelectNone => {
                self.selected_elements.clear();
                Some(Action::RenderBuffer)
            },
            Action::Delete => {
                self.delete_selected();
                Some(Action::SelectNone)
            },
            Action::OpenCommandPalette => {
                self.selected_elements.clear();
                None
            },
            Action::ScrollUp => {
                let y = self.scroll_offset.y;
                self.scroll_offset.y = if y >= SCROLL_STEP { y - SCROLL_STEP } else { 0 };
                Some(Action::RenderBuffer)
            },
            Action::ScrollDown => {
                let y = self.scroll_offset.y;
                self.scroll_offset.y = if y <= MAX_COORD - SCROLL_STEP {
                    y + SCROLL_STEP
                } else {
                    MAX_COORD
                };
                Some(Action::RenderBuffer)
            },
            Action::ScrollLeft => {
                let x = self.scroll_offset.x;
                self.scroll_offset.x = if x >= 2 * SCROLL_STEP { x - 2 * SCROLL_STEP } else { 0 };
                Some(Action::RenderBuffer)
            },
            Action::ScrollRight => {
                let x = self.scroll_offset.x;
                self.scroll_offset.x = if x <= MAX_COORD - 2 * SCROLL_STEP {
                    x + 2 * SCROLL_STEP
                } else {
                    MAX_COORD
                };
                Some(Action::RenderBuffer)
            },
            _ => None,
        }
    }

    /// The handles of the sole selected element, as shown while the operation
    /// is under way: a line's two end handles, or a rectangle's four corners.
    pub fn handles(&self) -> (r: Handles)
        requires
            self.wf(),
        ensures
            r == match self.sole_selected() {
                Some(i) => match preview(self.shapes()[i as int], true, self.current_operation) {
                    Shape::Line(l) => Handles::Line {
                        first: line_handle(l, LineHandle::First),
                        second: line_handle(l, LineHandle::Second),
                    },
                    s => Handles::Corners {
                        top_left: corner_handle(s.area(), Direction::TopLeft),
                        top_right: corner_handle(s.area(), Direction::TopRight),
                        bottom_left: corner_handle(s.area(), Direction::BottomLeft),
                        bottom_right: corner_handle(s.area(), Direction::BottomRight),
                    },
                },
                None => Handles::Nothing,
            },
    {
        let n = self.canvas.elements.len();
        proof {
            lemma_first_selected(self.selected_elements@, 0, n as int);
        }
        match self.only_selected() {
            Some(i) => {
                assert(self.shapes()[i as int] == self.canvas.elements@[i as int]@);
                let shown = crate::canvas::preview_element(
                    &self.canvas.elements[i],
                    true,
                    &self.current_operation,
                );
                match &shown {
                    Element::Line(l) => Handles::Line {
                        first: line_handle_exec(l, LineHandle::First),
                        second: line_handle_exec(l, LineHandle::Second),
                    },
                    element => {
                        let a = element.area();
                        Handles::Corners {
                            top_left: corner_handle_exec(&a, Direction::TopLeft),
                            top_right: corner_handle_exec(&a, Direction::TopRight),
                            bottom_left: corner_handle_exec(&a, Direction::BottomLeft),
                            bottom_right: corner_handle_exec(&a, Direction::BottomRight),
                        }
                    },
                }
            },
            None => Handles::Nothing,
        }
    }

    /// The rubber band of the operation under way, if it is one.
    pub fn selection_band(&self) -> (r: Option<Rect>)
        ensures
            r == band(self.current_operation),
    {
        self.band()
    }
}

} // verus!
