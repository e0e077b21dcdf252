use vstd::prelude::*;

use ratatui::widgets::Widget;

verus! {

/// Glyph of cell `(i, j)` of a bordered block `w` cells wide and `h` high:
/// plain single-line corners and edges, blanks inside. Where edges overlap on
/// a block one cell wide or high, the corner drawn last wins: top-left, then
/// bottom-left, then top-right.
pub open spec fn box_glyph(i: int, j: int, w: int, h: int) -> char {
    if i == 0 && j == 0 {
        '┌'
    } else if i == 0 && j == h - 1 {
        '└'
    } else if i == w - 1 && j == 0 {
        '┐'
    } else if i == w - 1 && j == h - 1 {
        '┘'
    } else if i == 0 || i == w - 1 {
        '│'
    } else if j == 0 || j == h - 1 {
        '─'
    } else {
        ' '
    }
}

/// What ratatui's `Paragraph` writes when it lays `content` out over a
/// `width × height` area: by row, then by column, the first char of the
/// symbol written to each cell, or none for a cell it leaves alone.
pub uninterp spec fn paragraph_glyphs(content: Seq<char>, width: u16, height: u16) -> Seq<
    Seq<Option<char>>,
>;

/// Relies on ratatui's `Block::bordered` widget: drawn over a blank buffer
/// of `width × height` cells it writes the plain border set on the edges,
/// corners last, and leaves the inside blank.
#[verifier::external_body]
pub(crate) fn bordered_block_glyphs(width: u16, height: u16) -> (r: Vec<Vec<char>>)
    requires
        width >= 1,
        height >= 1,
    ensures
        r@.len() == height,
        forall|j: int|
            0 <= j < height ==> {
                &&& #[trigger] r@[j]@.len() == width
                &&& forall|i: int| 0 <= i < width ==> r@[j]@[i] == box_glyph(i, j, width as int, height as int)
            },
{
    let area = ratatui::layout::Rect { x: 0, y: 0, width, height };
    let mut buf = ratatui::buffer::Buffer::empty(area);
    ratatui::widgets::Block::bordered().render(area, &mut buf);
    (0..height).map(|y| {
        (0..width).map(|x| buf[(x, y)].symbol().chars().next().unwrap_or(' ')).collect()
    }).collect()
}

/// Widest area a text is laid out over. ratatui's line truncator adds a
/// line's width and the next symbol's width as `u16`s; within this width the
/// sum cannot overflow.
pub const TEXT_COLUMNS: u16 = 32767;

/// The columns of a text `width` cells wide that are laid out.
pub open spec fn laid_width(width: u16) -> u16 {
    if width <= TEXT_COLUMNS {
        width
    } else {
        TEXT_COLUMNS
    }
}

/// Relies on ratatui's `Paragraph` widget: lays `content` out line by line
/// over a `width × height` area, each line cut at the right edge. Starting
/// from cells with an empty symbol, a cell left empty is one it did not write.
#[verifier::external_body]
pub(crate) fn paragraph_cells(content: &str, width: u16, height: u16) -> (r: Vec<Vec<Option<char>>>)
    requires
        width <= TEXT_COLUMNS,
    ensures
        r@.len() == height,
        forall|j: int|
            0 <= j < height ==> {
                &&& #[trigger] r@[j]@.len() == width
                &&& r@[j]@ == paragraph_glyphs(content@, width, height)[j]
            },
{
    let area = ratatui::layout::Rect { x: 0, y: 0, width, height };
    let mut buf = ratatui::buffer::Buffer::filled(area, ratatui::buffer::Cell::new(""));
    ratatui::widgets::Paragraph::new(content).render(area, &mut buf);
    (0..height).map(|y| {
        (0..width).map(|x| buf[(x, y)].symbol().chars().next()).collect()
    }).collect()
}

} // verus!
