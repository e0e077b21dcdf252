use std::collections::{HashSet, VecDeque};

use vstd::prelude::*;
use vstd::utf8::encode_utf8;

use crate::elements::{Element, Shape};
use crate::geometry::{Rect, MAX_COORD};
use crate::glyphs::{
    bordered_block_glyphs, box_glyph, laid_width, paragraph_cells, paragraph_glyphs, TEXT_COLUMNS,
};
use crate::line::{glyph_of, StraightLine};
use crate::operation::Operation;
use crate::text::string_of_chars;

verus! {

broadcast use vstd::std_specs::hash::group_hash_axioms;

/// How a cell is drawn: untouched, as part of an element, or as part of a
/// selected element.
#[derive(Clone, Copy, Debug, PartialEq, Eq, Structural)]
pub enum CellStyle {
    Plain,
    Base,
    Selected,
}

/// One cell of the render buffer.
#[derive(Clone, Copy, Debug, PartialEq, Eq, Structural)]
pub struct Cell {
    pub symbol: char,
    pub style: CellStyle,
}

/// A `width × height` grid of cells, stored row by row.
#[derive(Clone, Debug)]
pub struct CellGrid {
    pub width: u32,
    pub height: u32,
    pub rows: Vec<Vec<Cell>>,
}

/// The ordered elements (later ones drawn over earlier ones) and the buffer
/// they were last rendered into.
#[derive(Clone, Debug)]
pub struct DrawingCanvas {
    pub elements: VecDeque<Element>,
    pub buffer: CellGrid,
}

pub open spec fn blank_cell() -> Cell {
    Cell { symbol: ' ', style: CellStyle::Plain }
}

pub open spec fn blank_grid(w: int, h: int) -> Seq<Seq<Cell>> {
    Seq::new(h as nat, |y: int| Seq::new(w as nat, |x: int| blank_cell()))
}

pub open spec fn style_for(selected: bool) -> CellStyle {
    if selected {
        CellStyle::Selected
    } else {
        CellStyle::Base
    }
}

/// Cell `(x, y)`, holding `c`, after the element `s` is drawn over it.
///
/// A box clears its rectangle and draws its border; a text draws its laid
/// out glyphs and keeps the symbols it does not write; a line draws its glyph
/// on the cells it steps on. Every cell drawn takes the element's style.
pub open spec fn paint_cell(c: Cell, s: Shape, style: CellStyle, x: int, y: int) -> Cell {
    let a = s.area();
    let inside = a.x <= x < a.right_spec() && a.y <= y < a.bottom_spec();
    match s {
        Shape::Box { area } => if inside {
            Cell {
                symbol: box_glyph(x - area.x, y - area.y, area.width as int, area.height as int),
                style,
            }
        } else {
            c
        },
        Shape::Text { area, content } => if inside && x - area.x < laid_width(area.width) {
            match paragraph_glyphs(content, laid_width(area.width), area.height)[y
                - area.y][x - area.x] {
                Some(g) => Cell { symbol: g, style },
                None => Cell { symbol: c.symbol, style },
            }
        } else if inside {
            Cell { symbol: c.symbol, style }
        } else {
            c
        },
        Shape::Line(l) => if l.covers(x, y) {
            Cell { symbol: glyph_of(l.direction), style }
        } else {
            c
        },
    }
}

/// The grid `g` with the element `s` drawn over it.
pub open spec fn paint(g: Seq<Seq<Cell>>, s: Shape, style: CellStyle) -> Seq<Seq<Cell>> {
    Seq::new(g.len(), |y: int| Seq::new(g[y].len(), |x: int| paint_cell(g[y][x], s, style, x, y)))
}

/// The rows an element can draw on: `lo .. hi`.
pub open spec fn row_span(s: Shape) -> (int, int) {
    match s {
        Shape::Line(l) => if l.from.y <= l.to.y {
            (l.from.y as int, l.to.y + 1)
        } else {
            (l.to.y as int, l.from.y + 1)
        },
        _ => (s.area().y as int, s.area().bottom_spec()),
    }
}

/// How an element is shown while `op` is under way: a selected element is
/// previewed through the operation, where it gives a result.
pub open spec fn preview(s: Shape, selected: bool, op: Option<Operation>) -> Shape {
    match op {
        Some(o) => if selected && o.apply(s) is Some {
            o.apply(s)->0
        } else {
            s
        },
        None => s,
    }
}

/// The shown form of each element.
pub open spec fn previews(els: Seq<Shape>, sel: Set<usize>, op: Option<Operation>) -> Seq<Shape> {
    Seq::new(els.len(), |i: int| preview(els[i], sel.contains(i as usize), op))
}

/// The first column right of the first `n` shapes (0 for none).
pub open spec fn max_right(ps: Seq<Shape>, n: int) -> int
    decreases n,
{
    if n <= 0 {
        0
    } else {
        let r = ps[n - 1].area().right_spec();
        let m = max_right(ps, n - 1);
        if r > m {
            r
        } else {
            m
        }
    }
}

/// The first row below the first `n` shapes (0 for none).
pub open spec fn max_bottom(ps: Seq<Shape>, n: int) -> int
    decreases n,
{
    if n <= 0 {
        0
    } else {
        let b = ps[n - 1].area().bottom_spec();
        let m = max_bottom(ps, n - 1);
        if b > m {
            b
        } else {
            m
        }
    }
}

/// The grid `g` with the first `n` shapes drawn over it in order.
pub open spec fn painted(
    g: Seq<Seq<Cell>>,
    ps: Seq<Shape>,
    sel: Set<usize>,
    n: int,
) -> Seq<Seq<Cell>>
    decreases n,
{
    if n <= 0 {
        g
    } else {
        paint(painted(g, ps, sel, n - 1), ps[n - 1], style_for(sel.contains((n - 1) as usize)))
    }
}

/// The buffer that rendering `els` with the selection `sel` and the
/// operation `op` gives: as large as the shown elements reach, blank, then
/// every element drawn in order.
pub open spec fn rendered(els: Seq<Shape>, sel: Set<usize>, op: Option<Operation>) -> Seq<
    Seq<Cell>,
> {
    let ps = previews(els, sel, op);
    painted(
        blank_grid(max_right(ps, ps.len() as int), max_bottom(ps, ps.len() as int)),
        ps,
        sel,
        ps.len() as int,
    )
}

/// The text of a row: its symbols and a newline.
pub open spec fn row_text(r: Seq<Cell>) -> Seq<char> {
    Seq::new(r.len(), |i: int| r[i].symbol).push('\n')
}

/// The text of the first `n` rows.
pub open spec fn grid_text(g: Seq<Seq<Cell>>, n: int) -> Seq<char>
    decreases n,
{
    if n <= 0 {
        Seq::empty()
    } else {
        grid_text(g, n - 1) + row_text(g[n - 1])
    }
}

impl CellGrid {
    pub open spec fn cells(self) -> Seq<Seq<Cell>> {
        self.rows@.map_values(|r: Vec<Cell>| r@)
    }

    pub open spec fn wf(self) -> bool {
        &&& self.rows@.len() == self.height
        &&& forall|j: int| 0 <= j < self.height ==> #[trigger] self.rows@[j]@.len() == self.width
        &&& self.width <= MAX_COORD + 1
        &&& self.height <= MAX_COORD + 1
    }

    /// A blank grid of `width × height` cells.
    pub fn blank(width: u32, height: u32) -> (r: CellGrid)
        requires
            width <= MAX_COORD + 1,
            height <= MAX_COORD + 1,
        ensures
            r.wf(),
            r.width == width,
            r.height == height,
            r.cells() == blank_grid(width as int, height as int),
    {
        let mut row: Vec<Cell> = Vec::new();
        let mut x: u32 = 0;
        while x < width
            invariant
                x <= width,
                row@ == Seq::new(x as nat, |i: int| blank_cell()),
            decreases width - x,
        {
            row.push(Cell { symbol: ' ', style: CellStyle::Plain });
            x += 1;
            assert(row@ =~= Seq::new(x as nat, |i: int| blank_cell()));
        }
        let mut rows: Vec<Vec<Cell>> = Vec::new();
        let mut y: u32 = 0;
        while y < height
            invariant
                y <= height,
                row@ == Seq::new(width as nat, |i: int| blank_cell()),
                rows@.len() == y,
                forall|j: int| 0 <= j < y ==> #[trigger] rows@[j]@ == row@,
            decreases height - y,
        {
            rows.push(row.clone());
            y += 1;
        }
        let r = CellGrid { width, height, rows };
        assert(r.cells() =~= blank_grid(width as int, height as int));
        r
    }

    /// The cell at `(x, y)`, if it lies on the grid.
    pub fn cell(&self, x: u32, y: u32) -> (r: Option<Cell>)
        requires
            self.wf(),
        ensures
            x < self.width && y < self.height ==> r == Some(self.cells()[y as int][x as int]),
            !(x < self.width && y < self.height) ==> r is None,
    {
        if x < self.width && y < self.height {
            Some(self.rows[y as usize][x as usize])
        } else {
            None
        }
    }
}

/// What ratatui laid out for an element, fetched once before drawing it.
enum Glyphs {
    Border(Vec<Vec<char>>),
    Laid(Vec<Vec<Option<char>>>),
    Stroke,
}

/// `gl` holds the glyphs of the element `s`.
spec fn glyphs_of(gl: Glyphs, s: Shape) -> bool {
    match s {
        Shape::Box { area } => gl matches Glyphs::Border(g) && {
            &&& g@.len() == area.height
            &&& forall|j: int|
                0 <= j < area.height ==> {
                    &&& #[trigger] g@[j]@.len() == area.width
                    &&& forall|i: int|
                        0 <= i < area.width ==> g@[j]@[i] == box_glyph(
                            i,
                            j,
                            area.width as int,
                            area.height as int,
                        )
                }
        },
        Shape::Text { area, content } => gl matches Glyphs::Laid(g) && {
            &&& g@.len() == area.height
            &&& forall|j: int|
                0 <= j < area.height ==> {
                    &&& #[trigger] g@[j]@.len() == laid_width(area.width)
                    &&& g@[j]@ == paragraph_glyphs(content, laid_width(area.width), area.height)[j]
                }
        },
        Shape::Line(_) => true,
    }
}

fn glyphs_for(e: &Element) -> (r: Glyphs)
    requires
        e@.wf(),
    ensures
        glyphs_of(r, e@),
{
    match e {
        Element::Box { area } => Glyphs::Border(bordered_block_glyphs(area.width, area.height)),
        Element::Text { area, content } => {
            let width = if area.width <= TEXT_COLUMNS {
                area.width
            } else {
                TEXT_COLUMNS
            };
            Glyphs::Laid(paragraph_cells(content.as_str(), width, area.height))
        },
        Element::Line(_) => Glyphs::Stroke,
    }
}

/// Cell `(x, y)`, holding `c`, after `e` is drawn over it.
fn painted_cell(c: Cell, e: &Element, gl: &Glyphs, style: CellStyle, x: u32, y: u32) -> (r: Cell)
    requires
        e@.wf(),
        glyphs_of(*gl, e@),
    ensures
        r == paint_cell(c, e@, style, x as int, y as int),
{
    match e {
        Element::Line(l) => if l.covers_cell(x, y) {
            Cell { symbol: l.direction.glyph(), style }
        } else {
            c
        },
        Element::Box { area } | Element::Text { area, .. } => {
            if x < area.x as u32 || x >= area.right() || y < area.y as u32 || y >= area.bottom() {
                return c;
            }
            let (i, j) = ((x - area.x as u32) as usize, (y - area.y as u32) as usize);
            assert(e@.area() == *area);
            match gl {
                Glyphs::Border(g) => {
                    assert(g@[j as int]@.len() == area.width);
                    Cell { symbol: g[j][i], style }
                },
                Glyphs::Laid(g) => {
                    assert(g@[j as int]@.len() == laid_width(area.width));
                    if i >= g[j].len() {
                        return Cell { symbol: c.symbol, style };
                    }
                    match g[j][i] {
                        Some(ch) => Cell { symbol: ch, style },
                        None => Cell { symbol: c.symbol, style },
                    }
                },
                Glyphs::Stroke => c,
            }
        },
    }
}

/// A cell outside an element's rows is left as it is.
proof fn lemma_paint_outside_rows(g: Seq<Seq<Cell>>, s: Shape, style: CellStyle, y: int)
    requires
        s.wf(),
        0 <= y < g.len(),
        !(row_span(s).0 <= y < row_span(s).1),
    ensures
        paint(g, s, style)[y] == g[y],
{
    assert forall|x: int| 0 <= x < g[y].len() implies paint_cell(g[y][x], s, style, x, y)
        == g[y][x] by {
        if let Shape::Line(l) = s {
            if l.covers(x, y) {
                l.lemma_covers_within(x, y);
            }
        }
    }
    assert(paint(g, s, style)[y] =~= g[y]);
}

impl CellGrid {
    /// Draws `e` over the grid.
    fn paint_element(&mut self, e: &Element, style: CellStyle)
        requires
            old(self).wf(),
            e@.wf(),
        ensures
            final(self).wf(),
            final(self).width == old(self).width,
            final(self).height == old(self).height,
            final(self).cells() == paint(old(self).cells(), e@, style),
    {
        let ghost g0 = self.cells();
        let ghost target = paint(g0, e@, style);
        let gl = glyphs_for(e);
        let (lo, hi): (u32, u32) = match e {
            Element::Line(l) => if l.from.y <= l.to.y {
                (l.from.y as u32, l.to.y as u32 + 1)
            } else {
                (l.to.y as u32, l.from.y as u32 + 1)
            },
            _ => {
                let a = e.area();
                (a.y as u32, a.bottom())
            },
        };
        let hi = if hi > self.height {
            self.height
        } else {
            hi
        };
        let mut y = lo;
        assert(g0.len() == self.height);
        while y < hi
            invariant
                self.wf(),
                self.width == old(self).width,
                self.height == old(self).height,
                g0 == old(self).cells(),
                g0.len() == self.height,
                target == paint(g0, e@, style),
                e@.wf(),
                glyphs_of(gl, e@),
                lo == row_span(e@).0,
                hi <= self.height,
                hi <= row_span(e@).1,
                lo <= y,
                forall|yy: int|
                    0 <= yy < self.height ==> #[trigger] self.cells()[yy] == if lo <= yy < y {
                        target[yy]
                    } else {
                        g0[yy]
                    },
            decreases hi - y,
        {
            let mut row: Vec<Cell> = Vec::new();
            let mut x: u32 = 0;
            assert(self.cells()[y as int] == g0[y as int]);
            assert(self.cells()[y as int] == self.rows@[y as int]@);
            while x < self.width
                invariant
                    self.wf(),
                    y < self.height,
                    g0.len() == self.height,
                    self.cells()[y as int] == g0[y as int],
                    x <= self.width,
                    e@.wf(),
                    glyphs_of(gl, e@),
                    row@ == Seq::new(
                        x as nat,
                        |i: int| paint_cell(g0[y as int][i], e@, style, i, y as int),
                    ),
                decreases self.width - x,
            {
                let c = self.rows[y as usize][x as usize];
                row.push(painted_cell(c, e, &gl, style, x, y));
                x += 1;
                assert(row@ =~= Seq::new(
                    x as nat,
                    |i: int| paint_cell(g0[y as int][i], e@, style, i, y as int),
                ));
            }
            assert(self.cells()[y as int] == self.rows@[y as int]@);
            assert(g0.len() == self.height);
            assert(g0[y as int].len() == self.width);
            assert(target[y as int] == Seq::new(
                g0[y as int].len(),
                |i: int| paint_cell(g0[y as int][i], e@, style, i, y as int),
            ));
            assert(row@ =~= target[y as int]);
            let ghost prev = self.cells();
            self.rows.set(y as usize, row);
            assert(self.cells() =~= prev.update(y as int, target[y as int]));
            y += 1;
        }
        assert forall|yy: int| 0 <= yy < self.height implies #[trigger] self.cells()[yy]
            == target[yy] by {
            if !(lo <= yy < y) {
                lemma_paint_outside_rows(g0, e@, style, yy);
            }
        }
        assert(self.cells() =~= target);
    }
}

/// A blank `width × height` grid with `elements` drawn over it in order,
/// the selected ones previewed through `operation` and in the selection style.
fn paint_all(
    elements: &VecDeque<Element>,
    selected_elements: &HashSet<usize>,
    operation: &Option<Operation>,
    width: u32,
    height: u32,
) -> (r: CellGrid)
    requires
        width <= MAX_COORD + 1,
        height <= MAX_COORD + 1,
        forall|j: int| 0 <= j < elements@.len() ==> (#[trigger] elements@[j])@.wf(),
    ensures
        r.wf(),
        r.width == width,
        r.height == height,
        r.cells() == painted(
            blank_grid(width as int, height as int),
            previews(elements@.map_values(|e: Element| e@), selected_elements@, *operation),
            selected_elements@,
            elements@.len() as int,
        ),
{
    let ghost ps = previews(elements@.map_values(|e: Element| e@), selected_elements@, *operation);
    let mut grid = CellGrid::blank(width, height);
    let ghost g0 = grid.cells();
    let n = elements.len();
    for i in 0..n
        invariant
            n == elements@.len(),
            ps == previews(elements@.map_values(|e: Element| e@), selected_elements@, *operation),
            forall|j: int| 0 <= j < n ==> (#[trigger] elements@[j])@.wf(),
            grid.wf(),
            grid.width == width,
            grid.height == height,
            g0 == blank_grid(width as int, height as int),
            grid.cells() == painted(g0, ps, selected_elements@, i as int),
    {
        let selected = selected_elements.contains(&i);
        assert(ps[i as int] == preview(elements@[i as int]@, selected, *operation));
        elements[i].draw_to(&mut grid, selected, operation);
    }
    grid
}

impl Element {
    /// Draws the element over `buffer`: previewed through `operation` and in
    /// the selection style when `selected`.
    pub fn draw_to(&self, buffer: &mut CellGrid, selected: bool, operation: &Option<Operation>)
        requires
            old(buffer).wf(),
            self@.wf(),
        ensures
            final(buffer).wf(),
            final(buffer).width == old(buffer).width,
            final(buffer).height == old(buffer).height,
            final(buffer).cells() == paint(
                old(buffer).cells(),
                preview(self@, selected, *operation),
                style_for(selected),
            ),
    {
        let shown = preview_element(self, selected, operation);
        let style = if selected {
            CellStyle::Selected
        } else {
            CellStyle::Base
        };
        buffer.paint_element(&shown, style);
    }
}

impl StraightLine {
    /// Draws the line's glyph over the cells it steps on that lie in `buffer`.
    pub fn render_to(&self, buffer: &mut CellGrid, style: CellStyle)
        requires
            old(buffer).wf(),
            self.wf(),
        ensures
            final(buffer).wf(),
            final(buffer).width == old(buffer).width,
            final(buffer).height == old(buffer).height,
            final(buffer).cells() == paint(old(buffer).cells(), Shape::Line(*self), style),
    {
        buffer.paint_element(&Element::Line(*self), style);
    }
}

/// How `element` is shown while `operation` is under way.
pub(crate) fn preview_element(element: &Element, selected: bool, operation: &Option<Operation>) -> (r: Element)
    requires
        element@.wf(),
    ensures
        r@ == preview(element@, selected, *operation),
        r@.wf(),
{
    match operation {
        Some(op) => if selected {
            match op.apply_transform(element) {
                Some(t) => t,
                None => element.copied(),
            }
        } else {
            element.copied()
        },
        None => element.copied(),
    }
}

/// Puts `element` in place of the element at `i`.
pub(crate) fn replace_element(elements: &mut VecDeque<Element>, i: usize, element: Element)
    requires
        i < old(elements)@.len(),
    ensures
        final(elements)@ == old(elements)@.update(i as int, element),
{
    let ghost before = elements@;
    elements.remove(i);
    elements.insert(i, element);
    assert(elements@ =~= before.update(i as int, element));
}

impl DrawingCanvas {
    /// The elements as values.
    pub open spec fn shapes(self) -> Seq<Shape> {
        self.elements@.map_values(|e: Element| e@)
    }

    pub open spec fn wf(self) -> bool {
        &&& forall|i: int| 0 <= i < self.elements@.len() ==> (#[trigger] self.elements@[i])@.wf()
        &&& self.buffer.wf()
    }

    /// An empty canvas.
    pub fn new() -> (r: DrawingCanvas)
        ensures
            r.wf(),
            r.elements@.len() == 0,
            r.buffer.cells() == blank_grid(0, 0),
    {
        DrawingCanvas { elements: VecDeque::new(), buffer: CellGrid::blank(0, 0) }
    }

    /// How far right and down the elements reach as shown.
    fn extent(&self, selected_elements: &HashSet<usize>, operation: &Option<Operation>) -> (r: (
        u32,
        u32,
    ))
        requires
            self.wf(),
        ensures
            ({
                let ps = previews(self.shapes(), selected_elements@, *operation);
                &&& r.0 == max_right(ps, ps.len() as int)
                &&& r.1 == max_bottom(ps, ps.len() as int)
                &&& r.0 <= MAX_COORD + 1
                &&& r.1 <= MAX_COORD + 1
            }),
    {
        let ghost ps = previews(self.shapes(), selected_elements@, *operation);
        let n = self.elements.len();
        let mut width: u32 = 0;
        let mut height: u32 = 0;
        for i in 0..n
            invariant
                n == self.elements@.len(),
                self.wf(),
                ps == previews(self.shapes(), selected_elements@, *operation),
                width == max_right(ps, i as int),
                height == max_bottom(ps, i as int),
                width <= MAX_COORD + 1,
                height <= MAX_COORD + 1,
        {
            let element = &self.elements[i];
            assert(element@ == self.shapes()[i as int]);
            let selected = selected_elements.contains(&i);
            let a = preview_element(element, selected, operation).area();
            if a.right() > width {
                width = a.right();
            }
            if a.bottom() > height {
                height = a.bottom();
            }
        }
        (width, height)
    }

    /// Redraws the buffer: it becomes exactly as large as the elements reach,
    /// selected ones shown through `operation`, and holds them drawn in order.
    pub fn render(&mut self, selected_elements: &HashSet<usize>, operation: &Option<Operation>)
        requires
            old(self).wf(),
        ensures
            final(self).wf(),
            final(self).elements@ == old(self).elements@,
            final(self).buffer.cells() == rendered(
                old(self).shapes(),
                selected_elements@,
                *operation,
            ),
            final(self).buffer.width == max_right(
                previews(old(self).shapes(), selected_elements@, *operation),
                old(self).shapes().len() as int,
            ),
            final(self).buffer.height == max_bottom(
                previews(old(self).shapes(), selected_elements@, *operation),
                old(self).shapes().len() as int,
            ),
    {
        let (width, height) = self.extent(selected_elements, operation);
        let grid = paint_all(&self.elements, selected_elements, operation, width, height);
        self.buffer = grid;
    }

    /// The buffer as text: each row's symbols followed by a newline.
    pub fn to_string(&self) -> (r: Vec<u8>)
        requires
            self.buffer.wf(),
        ensures
            r@ == encode_utf8(grid_text(self.buffer.cells(), self.buffer.height as int)),
    {
        let ghost g = self.buffer.cells();
        let mut chars: Vec<char> = Vec::new();
        for y in 0..self.buffer.height
            invariant
                self.buffer.wf(),
                g == self.buffer.cells(),
                chars@ == grid_text(g, y as int),
        {
            let row = &self.buffer.rows[y as usize];
            assert(g[y as int] == row@);
            for x in 0..self.buffer.width
                invariant
                    self.buffer.wf(),
                    row@ == g[y as int],
                    row@.len() == self.buffer.width,
                    chars@ == grid_text(g, y as int) + Seq::new(x as nat, |i: int| g[y as int][i].symbol),
            {
                chars.push(row[x as usize].symbol);
                assert(chars@ =~= grid_text(g, y as int) + Seq::new(
                    (x + 1) as nat,
                    |i: int| g[y as int][i].symbol,
                ));
            }
            chars.push('\n');
            assert(chars@ =~= grid_text(g, y + 1));
        }
        let text = string_of_chars(&chars);
        text.as_str().as_bytes_vec()
    }
}

/// Rendering is idempotent: once a canvas has been rendered with a selection
/// and an operation, rendering it again with the same ones gives the buffer
/// it already holds, whatever the buffer held before the first time.
pub proof fn lemma_render_idempotent(
    before: DrawingCanvas,
    after: DrawingCanvas,
    selected: Set<usize>,
    operation: Option<Operation>,
)
    requires
        after.elements@ == before.elements@,
        after.buffer.cells() == rendered(before.shapes(), selected, operation),
    ensures
        rendered(after.shapes(), selected, operation) == after.buffer.cells(),
{
}

} // verus!
