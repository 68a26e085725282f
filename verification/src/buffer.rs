//! The terminal buffer that a frame is painted into.
//!
//! The buffer is `tui`'s. This module says what the library relies on: where
//! the buffer keeps the cell of a column and line, when it can hand that cell
//! out, and what setting a cell's background does to it and to the rest.

use crate::layout::Rect;
use crate::style::CellColor;
use crate::style::Color;
use tui::buffer::Buffer;
use vstd::arithmetic::div_mod::lemma_fundamental_div_mod;
use vstd::arithmetic::div_mod::lemma_fundamental_div_mod_converse;
use vstd::prelude::*;

verus! {

/// What a cell of the buffer holds.
pub struct CellContent {
    /// The characters that the cell shows.
    pub symbol: Seq<char>,
    /// The colour of the characters.
    pub foreground: CellColor,
    /// The colour behind the characters.
    pub background: CellColor,
    /// The bits of the cell's modifiers: bold, italic and so on.
    pub modifier: u16,
}

impl CellContent {
    /// The cell with `color` as its background and all else as it is.
    pub open spec fn with_background(self, color: Color) -> CellContent {
        CellContent {
            symbol: self.symbol,
            foreground: self.foreground,
            background: color.in_cell(),
            modifier: self.modifier,
        }
    }
}

/// `Buffer` of `tui`: a grid of cells, one for each column and line of an
/// area of the terminal. The library sees it through the two names below.
#[verifier::external_type_specification]
#[verifier::external_body]
pub struct ExBuffer(tui::buffer::Buffer);

/// The area of the terminal that the buffer stands for: its field `area`.
pub uninterp spec fn buffer_area(buffer: Buffer) -> Rect;

/// The buffer's cells, in the order of its field `content`: of each cell its
/// symbol's characters, its foreground and its background under the names
/// that `tui` gives those colours, and the bits of its modifiers.
pub uninterp spec fn buffer_cells(buffer: Buffer) -> Seq<CellContent>;

/// The place in the buffer's content of the cell in column `x` of line `y`:
/// the content holds the area's lines one after the other, from the top.
pub open spec fn cell_index(area: Rect, x: int, y: int) -> int {
    (y - area.y) * area.width + (x - area.x)
}

/// The column of the cell at `index` of the content.
pub open spec fn cell_column(area: Rect, index: int) -> int {
    area.x + index % (area.width as int)
}

/// The line of the cell at `index` of the content.
pub open spec fn cell_line(area: Rect, index: int) -> int {
    area.y + index / (area.width as int)
}

/// Whether a buffer of area `area` with `cells` cells can hand out the cell in
/// column `x` of line `y`: the cell is in the area, its place in the content
/// is a `u16` number, and the content is long enough to hold it.
pub open spec fn cell_in_reach(area: Rect, cells: nat, x: int, y: int) -> bool {
    &&& area.has_cell(x, y)
    &&& x < u16::MAX
    &&& y < u16::MAX
    &&& cell_index(area, x, y) <= u16::MAX
    &&& cell_index(area, x, y) < cells
}

/// `Buffer::area` of `tui`, field by field: the result is the buffer's area.
#[verifier::external_body]
pub(crate) fn area_of(buffer: &Buffer) -> (area: Rect)
    ensures
        area == buffer_area(*buffer),
{
    let area = buffer.area();
    Rect { x: area.x, y: area.y, width: area.width, height: area.height }
}

/// `Buffer::content` of `tui`, measured: the result is the number of cells
/// that the buffer holds.
#[verifier::external_body]
pub(crate) fn cells_of(buffer: &Buffer) -> (cells: usize)
    ensures
        cells == buffer_cells(*buffer).len(),
{
    buffer.content().len()
}

/// `Buffer::get_mut` of `tui`, then `Cell::set_bg` on the cell it hands out.
///
/// `get_mut` looks the cell up at `cell_index` in the content, and panics
/// unless the cell is in reach; `set_bg` stores the colour as that cell's
/// background and leaves the cell's symbol, foreground and modifiers alone.
/// No other cell changes, and neither does the area.
#[verifier::external_body]
pub(crate) fn set_background(buffer: &mut Buffer, x: u16, y: u16, color: Color)
    requires
        cell_in_reach(
            buffer_area(*old(buffer)),
            buffer_cells(*old(buffer)).len(),
            x as int,
            y as int,
        ),
    ensures
        buffer_area(*final(buffer)) == buffer_area(*old(buffer)),
        buffer_cells(*final(buffer)) == buffer_cells(*old(buffer)).update(
            cell_index(buffer_area(*old(buffer)), x as int, y as int),
            buffer_cells(*old(buffer))[cell_index(
                buffer_area(*old(buffer)),
                x as int,
                y as int,
            )].with_background(color),
        ),
{
    let background = match color {
        Color::Reset => tui::style::Color::Reset,
        Color::Red => tui::style::Color::Red,
        Color::Yellow => tui::style::Color::Yellow,
        Color::Green => tui::style::Color::Green,
        Color::Blue => tui::style::Color::Blue,
    };
    buffer.get_mut(x, y).set_bg(background);
}

/// The cells after the cell in column `x` of line `y` was painted: that cell
/// has `color` as its background if the buffer can hand it out, and nothing
/// changes if it cannot.
pub open spec fn with_painted_cell(
    area: Rect,
    cells: Seq<CellContent>,
    x: int,
    y: int,
    color: Color,
) -> Seq<CellContent> {
    if cell_in_reach(area, cells.len(), x, y) {
        cells.update(cell_index(area, x, y), cells[cell_index(area, x, y)].with_background(color))
    } else {
        cells
    }
}

/// Paints the background of the cell in column `x` of line `y`, if the buffer
/// has that cell. Returns whether it has.
pub fn paint_cell(buffer: &mut Buffer, x: u16, y: u16, color: Color) -> (painted: bool)
    ensures
        painted == cell_in_reach(
            buffer_area(*old(buffer)),
            buffer_cells(*old(buffer)).len(),
            x as int,
            y as int,
        ),
        buffer_area(*final(buffer)) == buffer_area(*old(buffer)),
        buffer_cells(*final(buffer)) == with_painted_cell(
            buffer_area(*old(buffer)),
            buffer_cells(*old(buffer)),
            x as int,
            y as int,
            color,
        ),
{
    let area = area_of(buffer);
    let cells = cells_of(buffer);
    if x < area.x || y < area.y || x == u16::MAX || y == u16::MAX {
        return false;
    }
    let column = (x - area.x) as u64;
    let line = (y - area.y) as u64;
    if column >= area.width as u64 || line >= area.height as u64 {
        return false;
    }
    assert(line * area.width <= 0xffff * 0xffff) by (nonlinear_arith)
        requires
            0 <= line <= 0xffff,
            0 <= area.width <= 0xffff,
    ;
    let index = line * area.width as u64 + column;
    if index > u16::MAX as u64 || index >= cells as u64 {
        return false;
    }
    set_background(buffer, x, y, color);
    true
}

/// The cell at a place of the content is the cell that is kept at that place.
pub proof fn lemma_cell_of_index(area: Rect, index: int)
    requires
        area.width > 0,
        0 <= index,
    ensures
        cell_index(area, cell_column(area, index), cell_line(area, index)) == index,
        area.x <= cell_column(area, index) < area.x + area.width,
        area.y <= cell_line(area, index),
{
    lemma_fundamental_div_mod(index, area.width as int);
    assert((index / (area.width as int)) * area.width == area.width * (index / (area.width as int)))
        by (nonlinear_arith);
    assert(index / (area.width as int) >= 0) by (nonlinear_arith)
        requires
            index >= 0,
            area.width > 0,
    ;
}

/// A cell of the area is kept at one place of the content, and no other cell
/// of the area is kept there.
pub proof fn lemma_index_of_cell(area: Rect, x: int, y: int)
    requires
        area.has_cell(x, y),
    ensures
        0 <= cell_index(area, x, y),
        cell_column(area, cell_index(area, x, y)) == x,
        cell_line(area, cell_index(area, x, y)) == y,
{
    assert((y - area.y) * area.width >= 0) by (nonlinear_arith)
        requires
            y - area.y >= 0,
            area.width >= 0,
    ;
    lemma_fundamental_div_mod_converse(
        cell_index(area, x, y),
        area.width as int,
        y - area.y,
        x - area.x,
    );
}

} // verus!
