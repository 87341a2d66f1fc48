//! One grid: a rectangle of cells with a place on the drawing surface.

use crate::bridge::GridLineCell;
use crate::elements::{
    all_styled, expand, overwrite, segment_views, span, touched_segments, Cell, CellView, Line,
    Segment,
};
use crate::pos::Position;
use crate::rect::Rectangle;
use crate::textbuf::{
    blank_rows, rectangular, resized_rows, scrolled_down, scrolled_up, TextBuf,
};
use vstd::prelude::*;

verus! {

/// What a grid holds, as mathematical values.
pub struct GridView {
    pub win: u64,
    pub grid: u64,
    pub pos: Position,
    pub move_to: Option<Position>,
    pub width: usize,
    pub height: usize,
    pub is_float: bool,
    pub focusable: bool,
    pub visible: bool,
    pub rows: Seq<Seq<CellView>>,
}

/// Whether a grid has as many rows as its height says, each of as many
/// cells as its width says.
pub open spec fn shaped(g: GridView) -> bool {
    g.rows.len() == g.height && rectangular(g.rows, g.width as nat)
}

/// The grid as it is made: blank, shown, able to take the focus, not
/// floating, and with no move pending.
pub open spec fn fresh_grid(id: u64, winid: u64, pos: Position, rect: Rectangle) -> GridView {
    GridView {
        win: winid,
        grid: id,
        pos,
        move_to: None,
        width: rect.width,
        height: rect.height,
        is_float: false,
        focusable: true,
        visible: true,
        rows: blank_rows(rect.height as nat, rect.width as nat),
    }
}

/// The grid after a resize to `width` by `height` cells.
pub open spec fn grid_resized(g: GridView, width: usize, height: usize) -> GridView {
    GridView { width, height, rows: resized_rows(g.rows, height as nat, width as nat), ..g }
}

/// The grid after it was told to move to `pos`: it counts as standing
/// there, and the move is pending until the renderer takes it.
pub open spec fn grid_moved(g: GridView, pos: Position) -> GridView {
    GridView { pos, move_to: Some(pos), ..g }
}

/// The grid after `items` were written into row `row` from column `col`
/// on.
pub open spec fn grid_written(g: GridView, row: u64, col: u64, items: Seq<GridLineCell>) -> GridView {
    GridView {
        rows: g.rows.update(row as int, overwrite(g.rows[row as int], col as int, expand(items))),
        ..g
    }
}

/// Whether `items` can be written into row `row` of a grid from column
/// `col` on: the row is one of the grid's, the column lies in the row,
/// every item names its style, and the cells written end with the row or
/// before.
pub open spec fn grid_takes(g: GridView, row: u64, col: u64, items: Seq<GridLineCell>) -> bool {
    &&& row < g.height
    &&& col < g.width
    &&& all_styled(items)
    &&& col + span(items) <= g.width
}

/// A change to one grid.
#[derive(Clone, Copy, Debug, PartialEq, Eq, Structural)]
pub enum GridEdit {
    /// Give the grid this many cells.
    Resize { width: usize, height: usize },
    /// Tell the grid where to stand.
    Move { pos: Position },
    /// Show the grid.
    Show,
    /// Stop showing the grid.
    Conceal,
    /// Make every cell blank.
    Clear,
    /// Move the text up by so many rows.
    Up { rows: usize },
    /// Move the text down by so many rows.
    Down { rows: usize },
    /// Let the grid float, able to take the focus or not.
    Float { focusable: bool },
}

/// The grid after a change.
pub open spec fn edited(g: GridView, edit: GridEdit) -> GridView {
    match edit {
        GridEdit::Resize { width, height } => grid_resized(g, width, height),
        GridEdit::Move { pos } => grid_moved(g, pos),
        GridEdit::Show => GridView { visible: true, ..g },
        GridEdit::Conceal => GridView { visible: false, ..g },
        GridEdit::Clear => GridView { rows: blank_rows(g.height as nat, g.width as nat), ..g },
        GridEdit::Up { rows } => GridView {
            rows: scrolled_up(g.rows, g.width as nat, rows as nat),
            ..g
        },
        GridEdit::Down { rows } => GridView {
            rows: scrolled_down(g.rows, g.width as nat, rows as nat),
            ..g
        },
        GridEdit::Float { focusable } => GridView { is_float: true, focusable, ..g },
    }
}

/// A change leaves a grid in shape, and known under the id it had.
pub proof fn lemma_edited_shaped(g: GridView, edit: GridEdit)
    requires
        shaped(g),
    ensures
        shaped(edited(g, edit)),
        edited(g, edit).grid == g.grid,
{
    let after = edited(g, edit);
    assert forall|i: int| 0 <= i < after.rows.len() implies (#[trigger] after.rows[i]).len()
        == after.width by {
        match edit {
            GridEdit::Up { rows } => {
                if i + rows < g.rows.len() {
                    assert(after.rows[i] == g.rows[i + rows]);
                }
            },
            GridEdit::Down { rows } => {
                if i >= rows {
                    assert(after.rows[i] == g.rows[i - rows]);
                }
            },
            GridEdit::Resize { width, height } => {},
            GridEdit::Clear => {},
            _ => {
                assert(after.rows[i] == g.rows[i]);
            },
        }
    }
}

/// A line that a grid takes leaves the grid in shape.
pub proof fn lemma_written_shaped(g: GridView, row: u64, col: u64, items: Seq<GridLineCell>)
    requires
        shaped(g),
        grid_takes(g, row, col, items),
    ensures
        shaped(grid_written(g, row, col, items)),
        grid_written(g, row, col, items).grid == g.grid,
{
    let after = grid_written(g, row, col, items);
    assert forall|i: int| 0 <= i < after.rows.len() implies (#[trigger] after.rows[i]).len()
        == after.width by {
        if i != row {
            assert(after.rows[i] == g.rows[i]);
        }
        assert(g.rows[i].len() == g.width);
    }
}

/// One grid.
pub struct VimGrid {
    win: u64,
    grid: u64,
    pos: Position,
    move_to: Option<Position>,
    width: usize,
    height: usize,
    is_float: bool,
    focusable: bool,
    textbuf: TextBuf,
    visible: bool,
}

impl View for VimGrid {
    type V = GridView;

    closed spec fn view(&self) -> GridView {
        GridView {
            win: self.win,
            grid: self.grid,
            pos: self.pos,
            move_to: self.move_to,
            width: self.width,
            height: self.height,
            is_float: self.is_float,
            focusable: self.focusable,
            visible: self.visible,
            rows: self.textbuf@.rows,
        }
    }
}

impl VimGrid {
    /// The buffer is well formed and as large as the grid says.
    pub closed spec fn wf(&self) -> bool {
        &&& self.textbuf.wf()
        &&& self.textbuf@.cols == self.width
        &&& self.textbuf@.rows.len() == self.height
    }

    /// A well-formed grid has the shape that its width and height say.
    pub proof fn lemma_shaped(&self)
        requires
            self.wf(),
        ensures
            shaped(self@),
    {
        self.textbuf.lemma_rectangular();
    }

    /// Makes a blank grid.
    pub fn new(id: u64, winid: u64, pos: Position, rect: Rectangle) -> (grid: VimGrid)
        ensures
            grid.wf(),
            grid@ == fresh_grid(id, winid, pos, rect),
    {
        VimGrid {
            win: winid,
            grid: id,
            pos,
            move_to: None,
            width: rect.width,
            height: rect.height,
            is_float: false,
            focusable: true,
            textbuf: TextBuf::new(rect.height, rect.width),
            visible: true,
        }
    }

    /// The cells of the grid.
    pub fn textbuf(&self) -> (buf: &TextBuf)
        ensures
            buf@.rows == self@.rows,
            self.wf() ==> buf.wf() && buf@.cols == self@.width,
    {
        &self.textbuf
    }

    /// The id of the grid.
    pub fn grid(&self) -> (id: u64)
        ensures
            id == self@.grid,
    {
        self.grid
    }

    /// The window the grid was made for.
    pub fn win(&self) -> (winid: u64)
        ensures
            winid == self@.win,
    {
        self.win
    }

    pub fn height(&self) -> (height: usize)
        ensures
            height == self@.height,
    {
        self.height
    }

    pub fn width(&self) -> (width: usize)
        ensures
            width == self@.width,
    {
        self.width
    }

    /// Where the grid stands.
    pub fn pos(&self) -> (pos: &Position)
        ensures
            *pos == self@.pos,
    {
        &self.pos
    }

    pub fn is_float(&self) -> (is_float: bool)
        ensures
            is_float == self@.is_float,
    {
        self.is_float
    }

    pub fn focusable(&self) -> (focusable: bool)
        ensures
            focusable == self@.focusable,
    {
        self.focusable
    }

    /// Whether the grid is shown.
    pub fn visible(&self) -> (visible: bool)
        ensures
            visible == self@.visible,
    {
        self.visible
    }

    /// Hides the grid. Its cells stay.
    pub fn conceal(&mut self)
        ensures
            final(self).wf() == old(self).wf(),
            final(self)@ == (GridView { visible: false, ..old(self)@ }),
    {
        self.visible = false;
    }

    /// Shows the grid.
    pub fn show(&mut self)
        ensures
            final(self).wf() == old(self).wf(),
            final(self)@ == (GridView { visible: true, ..old(self)@ }),
    {
        self.visible = true;
    }

    /// Makes every cell blank.
    pub fn clear(&mut self)
        requires
            old(self).wf(),
        ensures
            final(self).wf(),
            final(self)@ == (GridView {
                rows: blank_rows(old(self)@.height as nat, old(self)@.width as nat),
                ..old(self)@
            }),
    {
        self.textbuf.clear();
    }

    /// Moves the text up by `rows` rows: the first rows go, and blank rows
    /// come in at the bottom.
    pub fn up(&mut self, rows: usize)
        requires
            old(self).wf(),
        ensures
            final(self).wf(),
            final(self)@ == (GridView {
                rows: scrolled_up(old(self)@.rows, old(self)@.width as nat, rows as nat),
                ..old(self)@
            }),
    {
        self.textbuf.up(rows);
    }

    /// Moves the text down by `rows` rows: the last rows go, and blank
    /// rows come in at the top.
    pub fn down(&mut self, rows: usize)
        requires
            old(self).wf(),
        ensures
            final(self).wf(),
            final(self)@ == (GridView {
                rows: scrolled_down(old(self)@.rows, old(self)@.width as nat, rows as nat),
                ..old(self)@
            }),
    {
        self.textbuf.down(rows);
    }

    /// Gives the grid `width` by `height` cells, keeping what lies in both
    /// the old and the new extent.
    pub fn resize(&mut self, width: usize, height: usize)
        requires
            old(self).wf(),
        ensures
            final(self).wf(),
            final(self)@ == grid_resized(old(self)@, width, height),
    {
        self.width = width;
        self.height = height;
        self.textbuf.resize(height, width);
    }

    /// Tells the grid where to stand. The move is pending until
    /// `take_move_to` hands it out.
    pub fn set_pos(&mut self, x: i64, y: i64)
        ensures
            final(self).wf() == old(self).wf(),
            final(self)@ == grid_moved(old(self)@, Position { x, y }),
    {
        self.pos = Position { x, y };
        self.move_to = Some(Position { x, y });
    }

    /// Hands out the pending move, if there is one, and forgets it.
    pub fn take_move_to(&mut self) -> (pending: Option<Position>)
        ensures
            final(self).wf() == old(self).wf(),
            pending == old(self)@.move_to,
            final(self)@ == (GridView { move_to: None, ..old(self)@ }),
    {
        let pending = self.move_to;
        self.move_to = None;
        pending
    }

    pub fn set_is_float(&mut self, is_float: bool)
        ensures
            final(self).wf() == old(self).wf(),
            final(self)@ == (GridView { is_float, ..old(self)@ }),
    {
        self.is_float = is_float;
    }

    pub fn set_focusable(&mut self, focusable: bool)
        ensures
            final(self).wf() == old(self).wf(),
            final(self)@ == (GridView { focusable, ..old(self)@ }),
    {
        self.focusable = focusable;
    }

    /// Makes a change to the grid.
    pub fn apply(&mut self, edit: GridEdit)
        requires
            old(self).wf(),
        ensures
            final(self).wf(),
            final(self)@ == edited(old(self)@, edit),
    {
        match edit {
            GridEdit::Resize { width, height } => self.resize(width, height),
            GridEdit::Move { pos } => self.set_pos(pos.x, pos.y),
            GridEdit::Show => self.show(),
            GridEdit::Conceal => self.conceal(),
            GridEdit::Clear => self.clear(),
            GridEdit::Up { rows } => self.up(rows),
            GridEdit::Down { rows } => self.down(rows),
            GridEdit::Float { focusable } => {
                self.set_is_float(true);
                self.set_focusable(focusable);
            },
        }
    }

    /// Tells whether `line` can be written into the grid.
    pub fn accepts(&self, line: &Line) -> (ok: bool)
        requires
            self.wf(),
        ensures
            ok == grid_takes(self@, line.row(), line.column_start(), line.cells()),
    {
        self.textbuf.accepts(line)
    }

    /// Writes `line` into the grid and reports the segments that the write
    /// touched.
    pub fn set_cells(&mut self, line: Line) -> (segs: Vec<Segment>)
        requires
            old(self).wf(),
            grid_takes(old(self)@, line.row(), line.column_start(), line.cells()),
        ensures
            final(self).wf(),
            final(self)@ == grid_written(
                old(self)@,
                line.row(),
                line.column_start(),
                line.cells(),
            ),
            segment_views(segs@) == touched_segments(
                old(self)@.rows[line.row() as int],
                final(self)@.rows[line.row() as int],
                line.column_start() as int,
                line.column_start() + span(line.cells()),
            ),
    {
        self.textbuf.set_cells(line)
    }

    /// The cell at a row and column, if the grid reaches that far.
    pub fn cell(&self, row: usize, col: usize) -> (cell: Option<Cell>)
        requires
            self.wf(),
        ensures
            row < self@.height && col < self@.width ==> cell is Some && cell.unwrap()@
                == self@.rows[row as int][col as int],
            !(row < self@.height && col < self@.width) ==> cell is None,
    {
        self.textbuf.cell(row, col)
    }
}

} // verus!
