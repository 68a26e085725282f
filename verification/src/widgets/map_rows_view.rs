//! The scrolling lane: a window of the spaced rows, painted cell by cell.

use crate::buffer::buffer_area;
use crate::buffer::buffer_cells;
use crate::buffer::cell_column;
use crate::buffer::cell_in_reach;
use crate::buffer::cell_index;
use crate::buffer::cell_line;
use crate::buffer::lemma_cell_of_index;
use crate::buffer::lemma_index_of_cell;
use crate::buffer::paint_cell;
use crate::buffer::with_painted_cell;
use crate::buffer::CellContent;
use crate::chart::Row;
use crate::chart::LANES;
use crate::layout::Rect;
use crate::style::Color;
use tui::buffer::Buffer;
use vstd::prelude::*;

verus! {

/// A window of the spaced rows: the rows, the index of the window's first
/// row, the direction in which the rows move, and the colour of each lane.
pub struct MapRowsView<'a> {
    /// The spaced rows, earliest first.
    pub rows: Vec<&'a Row>,
    /// The index in `rows` of the first row of the window.
    pub shift: usize,
    /// Whether the rows fall: the window's first row is then at the bottom.
    pub going_down: bool,
    /// The colour of a note in each lane.
    pub column_colors: [Color; LANES],
}

impl<'a> MapRowsView<'a> {
    /// The place in the window of the row that is shown on `line` of an area
    /// of `height` lines, lines counted from the top: the window's first row is
    /// on the top line where the rows rise, on the bottom line where they fall.
    pub open spec fn window_row(&self, height: int, line: int) -> int {
        if self.going_down {
            height - 1 - line
        } else {
            line
        }
    }

    /// The index in `rows` of the row that is shown on `line` of an area of
    /// `height` lines, or `None` where the line is not in the area or the
    /// window has passed the end of the rows there.
    pub open spec fn row_on_line(&self, height: int, line: int) -> Option<int> {
        if 0 <= line < height && self.shift + self.window_row(height, line) < self.rows@.len() {
            Some(self.shift + self.window_row(height, line))
        } else {
            None
        }
    }

    /// The colour that is painted in `column` of `line` of an area of `height`
    /// lines: the lane's colour where the row on that line has a note in the
    /// lane, the terminal's own background where it has none, and `None`, for
    /// a cell that is left as it is, where the line shows no row or the column
    /// is no lane.
    pub open spec fn lane_cell(&self, height: int, line: int, column: int) -> Option<Color> {
        match self.row_on_line(height, line) {
            Some(row) if 0 <= column < LANES => Some(
                if self.rows@[row]@[column] {
                    self.column_colors@[column]
                } else {
                    Color::Reset
                },
            ),
            _ => None,
        }
    }

    /// The colour that is painted in column `x` of line `y` of the terminal
    /// when the view is rendered into `area`, or `None` for a cell that is
    /// left as it is. The lanes are the `LANES` columns from the area's left
    /// edge on, however wide the area is; the lines are the area's.
    pub open spec fn cell(&self, area: Rect, x: int, y: int) -> Option<Color> {
        if area.x <= x < area.x + LANES && area.y <= y < area.y + area.height {
            self.lane_cell(area.height as int, y - area.y, x - area.x)
        } else {
            None
        }
    }

    /// The cells of a buffer of area `frame`, after the view was rendered
    /// into `area` over `cells`: each cell that the buffer can hand out and
    /// that the view paints has the view's colour as its background and is
    /// otherwise as it was, and every other cell is as it was.
    pub open spec fn painted(&self, area: Rect, frame: Rect, cells: Seq<CellContent>) -> Seq<
        CellContent,
    > {
        Seq::new(
            cells.len(),
            |index: int|
                {
                    let x = cell_column(frame, index);
                    let y = cell_line(frame, index);
                    if cell_in_reach(frame, cells.len(), x, y) && self.cell(area, x, y) is Some {
                        cells[index].with_background(self.cell(area, x, y)->0)
                    } else {
                        cells[index]
                    }
                },
        )
    }

    /// The cells when the rows of the window before `rows_done` are painted,
    /// and of the row at `rows_done` the lanes before `lanes_done`.
    spec fn painted_so_far(
        &self,
        area: Rect,
        frame: Rect,
        cells: Seq<CellContent>,
        rows_done: int,
        lanes_done: int,
    ) -> Seq<CellContent> {
        Seq::new(
            cells.len(),
            |index: int|
                {
                    let x = cell_column(frame, index);
                    let y = cell_line(frame, index);
                    let row = self.window_row(area.height as int, y - area.y);
                    let done = row < rows_done || (row == rows_done && x - area.x < lanes_done);
                    if done && cell_in_reach(frame, cells.len(), x, y) && self.cell(area, x, y)
                        is Some {
                        cells[index].with_background(self.cell(area, x, y)->0)
                    } else {
                        cells[index]
                    }
                },
        )
    }

    /// Painting the next cell, or passing over it where the view leaves it as
    /// it is, moves the painting on by one lane.
    proof fn lemma_paint_step(
        &self,
        area: Rect,
        frame: Rect,
        cells: Seq<CellContent>,
        row: int,
        lane: int,
        x: int,
        y: int,
        after: Seq<CellContent>,
    )
        requires
            x == area.x + lane,
            row == self.window_row(area.height as int, y - area.y),
            after == match self.cell(area, x, y) {
                Some(color) => with_painted_cell(
                    frame,
                    self.painted_so_far(area, frame, cells, row, lane),
                    x,
                    y,
                    color,
                ),
                None => self.painted_so_far(area, frame, cells, row, lane),
            },
        ensures
            after == self.painted_so_far(area, frame, cells, row, lane + 1),
    {
        let next = self.painted_so_far(area, frame, cells, row, lane + 1);
        assert forall|index: int| 0 <= index < cells.len() implies after[index] == next[index] by {
            if frame.width > 0 {
                lemma_cell_of_index(frame, index);
            }
            if frame.has_cell(x, y) {
                lemma_index_of_cell(frame, x, y);
            }
        }
    }

    /// After a rendering, a cell that the buffer can hand out has the colour
    /// that the view paints there as its background, and is as it was where
    /// the view paints nothing there. Its symbol, its foreground and its
    /// modifiers are as they were in either case.
    pub proof fn lemma_painted_cell(
        &self,
        area: Rect,
        frame: Rect,
        cells: Seq<CellContent>,
        x: int,
        y: int,
    )
        requires
            cell_in_reach(frame, cells.len(), x, y),
        ensures
            0 <= cell_index(frame, x, y) < cells.len(),
            self.painted(area, frame, cells)[cell_index(frame, x, y)] == match self.cell(
                area,
                x,
                y,
            ) {
                Some(color) => cells[cell_index(frame, x, y)].with_background(color),
                None => cells[cell_index(frame, x, y)],
            },
            self.painted(area, frame, cells)[cell_index(frame, x, y)].symbol
                == cells[cell_index(frame, x, y)].symbol,
            self.painted(area, frame, cells)[cell_index(frame, x, y)].foreground
                == cells[cell_index(frame, x, y)].foreground,
            self.painted(area, frame, cells)[cell_index(frame, x, y)].modifier
                == cells[cell_index(frame, x, y)].modifier,
    {
        lemma_index_of_cell(frame, x, y);
    }

    /// A rendering changes backgrounds only, and only in the lanes: every cell
    /// keeps its symbol, its foreground and its modifiers, and a cell that
    /// the buffer can hand out and that is left of the lanes, right of them,
    /// above the area or below it is as it was.
    pub proof fn lemma_only_lane_backgrounds_change(
        &self,
        area: Rect,
        frame: Rect,
        cells: Seq<CellContent>,
    )
        ensures
            self.painted(area, frame, cells).len() == cells.len(),
            forall|index: int|
                0 <= index < cells.len() ==> {
                    &&& (#[trigger] self.painted(area, frame, cells)[index]).symbol
                        == cells[index].symbol
                    &&& self.painted(area, frame, cells)[index].foreground
                        == cells[index].foreground
                    &&& self.painted(area, frame, cells)[index].modifier == cells[index].modifier
                },
            forall|x: int, y: int|
                cell_in_reach(frame, cells.len(), x, y) && !(area.x <= x < area.x + LANES && area.y
                    <= y < area.y + area.height) ==> self.painted(area, frame, cells)[#[trigger] cell_index(
                    frame,
                    x,
                    y,
                )] == cells[cell_index(frame, x, y)],
    {
        assert forall|x: int, y: int|
            cell_in_reach(frame, cells.len(), x, y) && !(area.x <= x < area.x + LANES && area.y
                <= y < area.y + area.height) implies self.painted(area, frame, cells)[#[trigger] cell_index(
            frame,
            x,
            y,
        )] == cells[cell_index(frame, x, y)] by {
            self.lemma_painted_cell(area, frame, cells, x, y);
        }
    }

    /// A line on which the window has passed the end of the rows is left as it
    /// was: no cell of it changes.
    pub proof fn lemma_line_past_the_rows_is_left(
        &self,
        area: Rect,
        frame: Rect,
        cells: Seq<CellContent>,
        x: int,
        y: int,
    )
        requires
            cell_in_reach(frame, cells.len(), x, y),
            self.shift + self.window_row(area.height as int, y - area.y) >= self.rows@.len(),
        ensures
            self.cell(area, x, y) is None,
            self.painted(area, frame, cells)[cell_index(frame, x, y)] == cells[cell_index(
                frame,
                x,
                y,
            )],
    {
        self.lemma_painted_cell(area, frame, cells, x, y);
    }

    /// Every lane of every row in the window is painted, in either direction:
    /// the row at place `row` of the window, where the rows reach that far,
    /// gives each of the `LANES` cells of its line the lane's colour or the
    /// terminal's own background.
    pub proof fn lemma_rows_in_the_window_are_painted(&self, area: Rect, row: int, lane: int)
        requires
            0 <= row < area.height,
            0 <= lane < LANES,
            self.shift + row < self.rows@.len(),
        ensures
            self.cell(
                area,
                area.x + lane,
                area.y + self.window_row(area.height as int, row),
            ) == Some(
                if self.rows@[self.shift + row]@[lane] {
                    self.column_colors@[lane]
                } else {
                    Color::Reset
                },
            ),
    {
    }

    /// The direction only mirrors the window: what a falling view shows on a
    /// line, the rising view of the same rows shows on the line as far from
    /// the bottom as that line is from the top.
    pub proof fn lemma_direction_mirrors(
        &self,
        rising: &MapRowsView<'a>,
        area: Rect,
        line: int,
        column: int,
    )
        requires
            self.going_down,
            !rising.going_down,
            rising.rows@ == self.rows@,
            rising.shift == self.shift,
            rising.column_colors == self.column_colors,
            0 <= line < area.height,
        ensures
            self.lane_cell(area.height as int, line, column) == rising.lane_cell(
                area.height as int,
                area.height - 1 - line,
                column,
            ),
            self.cell(area, area.x + column, area.y + line) == rising.cell(
                area,
                area.x + column,
                area.y + (area.height - 1 - line),
            ),
    {
    }

    /// In the buffer, too, the direction only mirrors the window: where the
    /// buffer can hand out a cell of a lane and the cell of that lane on the
    /// mirrored line, and the window has a row for them, the falling view
    /// gives the one the background that the rising view gives the other.
    pub proof fn lemma_rendering_mirrors(
        &self,
        rising: &MapRowsView<'a>,
        area: Rect,
        frame: Rect,
        cells: Seq<CellContent>,
        line: int,
        lane: int,
    )
        requires
            self.going_down,
            !rising.going_down,
            rising.rows@ == self.rows@,
            rising.shift == self.shift,
            rising.column_colors == self.column_colors,
            0 <= line < area.height,
            0 <= lane < LANES,
            self.shift + (area.height - 1 - line) < self.rows@.len(),
            cell_in_reach(frame, cells.len(), area.x + lane, area.y + line),
            cell_in_reach(frame, cells.len(), area.x + lane, area.y + (area.height - 1 - line)),
        ensures
            self.painted(area, frame, cells)[cell_index(
                frame,
                area.x + lane,
                area.y + line,
            )].background == rising.painted(area, frame, cells)[cell_index(
                frame,
                area.x + lane,
                area.y + (area.height - 1 - line),
            )].background,
    {
        self.lemma_painted_cell(area, frame, cells, area.x + lane, area.y + line);
        rising.lemma_painted_cell(
            area,
            frame,
            cells,
            area.x + lane,
            area.y + (area.height - 1 - line),
        );
        self.lemma_direction_mirrors(rising, area, line, lane);
    }

    /// The index in `rows` of the row at place `row` of the window, or `None`
    /// where the window has passed the end of the rows there.
    pub fn row_index(&self, row: u16) -> (index: Option<usize>)
        ensures
            index is Some <==> self.shift + row < self.rows@.len(),
            index is Some ==> index->0 == self.shift + row,
    {
        let rows = self.rows.len();
        match self.shift.checked_add(row as usize) {
            Some(index) if index < rows => Some(index),
            _ => None,
        }
    }

    /// Paints the window into `area` of the buffer: for each line that shows a
    /// row, the background of the cell of each of the `LANES` lanes, from the
    /// area's left edge on. Cells that the buffer does not have stay out, and
    /// nothing but backgrounds changes.
    pub fn render(self, area: Rect, buf: &mut Buffer)
        ensures
            buffer_area(*final(buf)) == buffer_area(*old(buf)),
            buffer_cells(*final(buf)) == self.painted(
                area,
                buffer_area(*old(buf)),
                buffer_cells(*old(buf)),
            ),
    {
        let ghost frame = buffer_area(*buf);
        let ghost cells = buffer_cells(*buf);
        let height = area.height;
        let mut row: u16 = 0;
        while row < height
            invariant
                row <= height,
                height == area.height,
                buffer_area(*buf) == frame,
                buffer_cells(*buf) == self.painted_so_far(area, frame, cells, row as int, 0),
            decreases height - row,
        {
            let line: u16 = if self.going_down {
                height - 1 - row
            } else {
                row
            };
            let y: u32 = area.y as u32 + line as u32;
            let index = self.row_index(row);
            let mut lane: usize = 0;
            while lane < LANES
                invariant
                    row < height,
                    height == area.height,
                    lane <= LANES,
                    line == self.window_row(height as int, row as int),
                    row == self.window_row(height as int, line as int),
                    y == area.y + line,
                    index is Some <==> self.shift + row < self.rows@.len(),
                    index is Some ==> index->0 == self.shift + row,
                    buffer_area(*buf) == frame,
                    buffer_cells(*buf) == self.painted_so_far(
                        area,
                        frame,
                        cells,
                        row as int,
                        lane as int,
                    ),
                decreases LANES - lane,
            {
                let x: u32 = area.x as u32 + lane as u32;
                if let Some(index) = index {
                    if x <= u16::MAX as u32 && y <= u16::MAX as u32 {
                        let color = if self.rows[index][lane] {
                            self.column_colors[lane]
                        } else {
                            Color::Reset
                        };
                        paint_cell(buf, x as u16, y as u16, color);
                    }
                }
                proof {
                    self.lemma_paint_step(
                        area,
                        frame,
                        cells,
                        row as int,
                        lane as int,
                        x as int,
                        y as int,
                        buffer_cells(*buf),
                    );
                }
                lane = lane + 1;
            }
            row = row + 1;
        }
    }
}

} // verus!
