//! The cells of one grid: rows of equal length.

use crate::elements::{
    blank_cells, overwrite, expand, resized, segment_views, span, touched_segments, Cell, CellView,
    Line, Row, Segment,
};
use vstd::prelude::*;

verus! {

/// What a text buffer holds: so many columns, and the cells row by row.
pub struct TextBufView {
    pub cols: usize,
    pub rows: Seq<Seq<CellView>>,
}

/// Whether every row has `cols` cells.
pub open spec fn rectangular(rows: Seq<Seq<CellView>>, cols: nat) -> bool {
    forall|i: int| 0 <= i < rows.len() ==> (#[trigger] rows[i]).len() == cols
}

/// `rows` rows of `cols` blank cells.
pub open spec fn blank_rows(rows: nat, cols: nat) -> Seq<Seq<CellView>> {
    Seq::new(rows, |i: int| blank_cells(cols))
}

/// The rows after the text moved up by `n` rows: each row holds what the
/// row `n` below held, and the last `n` rows are blank.
pub open spec fn scrolled_up(rows: Seq<Seq<CellView>>, cols: nat, n: nat) -> Seq<Seq<CellView>> {
    Seq::new(
        rows.len(),
        |i: int|
            if i + n < rows.len() {
                rows[i + n]
            } else {
                blank_cells(cols)
            },
    )
}

/// The rows after the text moved down by `n` rows: each row holds what
/// the row `n` above held, and the first `n` rows are blank.
pub open spec fn scrolled_down(rows: Seq<Seq<CellView>>, cols: nat, n: nat) -> Seq<Seq<CellView>> {
    Seq::new(
        rows.len(),
        |i: int|
            if i >= n {
                rows[i - n]
            } else {
                blank_cells(cols)
            },
    )
}

/// The rows after a resize to `height` rows of `width` cells: what lay in
/// both the old and the new extent stays, counted from the top left, and
/// the rest is blank.
pub open spec fn resized_rows(rows: Seq<Seq<CellView>>, height: nat, width: nat) -> Seq<
    Seq<CellView>,
> {
    Seq::new(
        height,
        |i: int|
            if i < rows.len() {
                resized(rows[i], width)
            } else {
                blank_cells(width)
            },
    )
}

/// Moving the text up by `n` rows and then down by `n` rows gives back
/// every row but the first `n`, which are blank.
pub proof fn lemma_scroll_up_then_down(rows: Seq<Seq<CellView>>, cols: nat, n: nat)
    ensures
        scrolled_down(scrolled_up(rows, cols, n), cols, n).len() == rows.len(),
        forall|i: int|
            0 <= i < rows.len() ==> #[trigger] scrolled_down(scrolled_up(rows, cols, n), cols, n)[i]
                == (if i >= n {
                rows[i]
            } else {
                blank_cells(cols)
            }),
{
}

/// Moving the text down by `n` rows and then up by `n` rows gives back
/// every row but the last `n`, which are blank.
pub proof fn lemma_scroll_down_then_up(rows: Seq<Seq<CellView>>, cols: nat, n: nat)
    ensures
        scrolled_up(scrolled_down(rows, cols, n), cols, n).len() == rows.len(),
        forall|i: int|
            0 <= i < rows.len() ==> #[trigger] scrolled_up(scrolled_down(rows, cols, n), cols, n)[i]
                == (if i + n < rows.len() {
                rows[i]
            } else {
                blank_cells(cols)
            }),
{
}

/// A resize to the size that rectangular rows have leaves them as they
/// are.
pub proof fn lemma_resize_to_same_size(rows: Seq<Seq<CellView>>, cols: nat)
    requires
        rectangular(rows, cols),
    ensures
        resized_rows(rows, rows.len(), cols) == rows,
{
    assert forall|i: int| 0 <= i < rows.len() implies #[trigger] resized_rows(
        rows,
        rows.len(),
        cols,
    )[i] == rows[i] by {
        assert(resized(rows[i], cols) =~= rows[i]);
    }
    assert(resized_rows(rows, rows.len(), cols) =~= rows);
}

/// A resize keeps what lies in both the old and the new extent.
pub proof fn lemma_resize_keeps_overlap(
    rows: Seq<Seq<CellView>>,
    height: nat,
    width: nat,
    row: int,
    col: int,
)
    requires
        0 <= row < height,
        row < rows.len(),
        0 <= col < width,
        col < rows[row].len(),
    ensures
        resized_rows(rows, height, width)[row][col] == rows[row][col],
{
}

/// The views of a sequence of rows.
pub open spec fn row_views(rows: Seq<Row>) -> Seq<Seq<CellView>> {
    rows.map_values(|r: Row| r@)
}

/// The cells of one grid.
pub struct TextBuf {
    rows: Vec<Row>,
    cols: usize,
}

impl View for TextBuf {
    type V = TextBufView;

    closed spec fn view(&self) -> TextBufView {
        TextBufView { cols: self.cols, rows: row_views(self.rows@) }
    }
}

impl TextBuf {
    /// Every row is well formed and has as many cells as the buffer has
    /// columns.
    pub closed spec fn wf(&self) -> bool {
        forall|i: int|
            0 <= i < self.rows@.len() ==> (#[trigger] self.rows@[i]).wf() && self.rows@[i]@.len()
                == self.cols
    }

    /// A well-formed buffer is rectangular.
    pub proof fn lemma_rectangular(&self)
        requires
            self.wf(),
        ensures
            rectangular(self@.rows, self@.cols as nat),
    {
    }

    /// A buffer of `rows` rows of `cols` blank cells.
    pub fn new(rows: usize, cols: usize) -> (buf: TextBuf)
        ensures
            buf.wf(),
            buf@ == (TextBufView { cols, rows: blank_rows(rows as nat, cols as nat) }),
    {
        let mut buf = TextBuf { rows: Vec::new(), cols };
        buf.grow(rows);
        assert(buf@.rows =~= blank_rows(rows as nat, cols as nat));
        buf
    }

    /// Appends blank rows until there are `rows` of them.
    fn grow(&mut self, rows: usize)
        requires
            old(self).wf(),
        ensures
            final(self).wf(),
            final(self).cols == old(self).cols,
            final(self).rows@.len() == (if old(self).rows@.len() < rows {
                rows as int
            } else {
                old(self).rows@.len() as int
            }),
            forall|i: int|
                0 <= i < old(self).rows@.len() ==> (#[trigger] final(self).rows@[i])
                    == old(self).rows@[i],
            forall|i: int|
                old(self).rows@.len() <= i < final(self).rows@.len()
                    ==> (#[trigger] final(self).rows@[i])@ == blank_cells(old(self).cols as nat),
    {
        let ghost before = self.rows@;
        while self.rows.len() < rows
            invariant
                self.wf(),
                self.cols == old(self).cols,
                before.len() <= self.rows@.len(),
                before.len() < rows ==> self.rows@.len() <= rows,
                before.len() >= rows ==> self.rows@.len() == before.len(),
                forall|i: int| 0 <= i < before.len() ==> (#[trigger] self.rows@[i]) == before[i],
                forall|i: int|
                    before.len() <= i < self.rows@.len() ==> (#[trigger] self.rows@[i])@
                        == blank_cells(self.cols as nat),
            decreases rows - self.rows@.len(),
        {
            self.rows.push(Row::new(self.cols));
        }
    }

    /// The number of rows.
    pub fn rows(&self) -> (rows: usize)
        ensures
            rows == self@.rows.len(),
    {
        self.rows.len()
    }

    /// The number of columns.
    pub fn cols(&self) -> (cols: usize)
        ensures
            cols == self@.cols,
    {
        self.cols
    }

    /// Makes rows `from` up to, not including, `to` blank.
    fn clear_rows(&mut self, from: usize, to: usize)
        requires
            old(self).wf(),
            from <= to <= old(self).rows@.len(),
        ensures
            final(self).wf(),
            final(self).cols == old(self).cols,
            final(self).rows@.len() == old(self).rows@.len(),
            forall|i: int|
                0 <= i < old(self).rows@.len() ==> (#[trigger] final(self).rows@[i])@ == (if from
                    <= i < to {
                    blank_cells(old(self).cols as nat)
                } else {
                    old(self).rows@[i]@
                }),
    {
        let ghost before = self.rows@;
        let mut i: usize = from;
        while i < to
            invariant
                self.wf(),
                self.cols == old(self).cols,
                from <= i <= to <= self.rows@.len(),
                self.rows@.len() == before.len(),
                forall|k: int|
                    0 <= k < before.len() ==> (#[trigger] self.rows@[k])@ == (if from <= k < i {
                        blank_cells(self.cols as nat)
                    } else {
                        before[k]@
                    }),
            decreases to - i,
        {
            self.rows[i].clear();
            i += 1;
        }
    }

    /// Makes every cell blank.
    pub fn clear(&mut self)
        requires
            old(self).wf(),
        ensures
            final(self).wf(),
            final(self)@ == (TextBufView {
                rows: blank_rows(old(self)@.rows.len(), old(self)@.cols as nat),
                ..old(self)@
            }),
    {
        let rows = self.rows.len();
        self.clear_rows(0, rows);
        assert(self@.rows =~= blank_rows(old(self)@.rows.len(), old(self)@.cols as nat));
    }

    /// Gives the buffer `rows` rows of `cols` cells, keeping what lies in
    /// both the old and the new extent.
    pub fn resize(&mut self, rows: usize, cols: usize)
        requires
            old(self).wf(),
        ensures
            final(self).wf(),
            final(self)@ == (TextBufView {
                cols,
                rows: resized_rows(old(self)@.rows, rows as nat, cols as nat),
            }),
    {
        let ghost before = self.rows@;
        if rows < self.rows.len() {
            self.rows.truncate(rows);
        }
        let kept = self.rows.len();
        let mut i: usize = 0;
        while i < kept
            invariant
                i <= kept,
                kept == self.rows@.len(),
                kept <= before.len(),
                kept <= rows,
                before.len() >= rows ==> kept == rows,
                before.len() < rows ==> kept == before.len(),
                forall|k: int|
                    0 <= k < kept ==> (#[trigger] self.rows@[k]).wf() && self.rows@[k]@ == (if k
                        < i {
                        resized(before[k]@, cols as nat)
                    } else {
                        before[k]@
                    }),
            decreases kept - i,
        {
            self.rows[i].resize(cols);
            i += 1;
        }
        self.cols = cols;
        self.grow(rows);
        assert(self@.rows =~= resized_rows(row_views(before), rows as nat, cols as nat));
    }

    /// Moves the text up by `n` rows.
    pub fn up(&mut self, n: usize)
        requires
            old(self).wf(),
        ensures
            final(self).wf(),
            final(self)@ == (TextBufView {
                rows: scrolled_up(old(self)@.rows, old(self)@.cols as nat, n as nat),
                ..old(self)@
            }),
    {
        let ghost before = self.rows@;
        let rows = self.rows.len();
        if n >= rows {
            self.clear_rows(0, rows);
        } else {
            let mut kept = self.rows.split_off(n);
            self.clear_rows(0, n);
            kept.append(&mut self.rows);
            self.rows = kept;
        }
        assert(self@.rows =~= scrolled_up(row_views(before), self.cols as nat, n as nat));
    }

    /// Moves the text down by `n` rows.
    pub fn down(&mut self, n: usize)
        requires
            old(self).wf(),
        ensures
            final(self).wf(),
            final(self)@ == (TextBufView {
                rows: scrolled_down(old(self)@.rows, old(self)@.cols as nat, n as nat),
                ..old(self)@
            }),
    {
        let ghost before = self.rows@;
        let rows = self.rows.len();
        if n >= rows {
            self.clear_rows(0, rows);
        } else {
            let mut dropped = self.rows.split_off(rows - n);
            std::mem::swap(&mut self.rows, &mut dropped);
            self.clear_rows(0, n);
            self.rows.append(&mut dropped);
        }
        assert(self@.rows =~= scrolled_down(row_views(before), self.cols as nat, n as nat));
    }

    /// Whether `line` can be written: its row is one of the buffer's, and
    /// that row takes it.
    pub open spec fn takes(&self, line: &Line) -> bool {
        &&& line.row() < self@.rows.len()
        &&& line.column_start() < self@.cols
        &&& crate::elements::all_styled(line.cells())
        &&& line.column_start() + span(line.cells()) <= self@.cols
    }

    /// Tells whether `line` can be written.
    pub fn accepts(&self, line: &Line) -> (ok: bool)
        requires
            self.wf(),
        ensures
            ok == self.takes(line),
    {
        if line.row() >= self.rows.len() as u64 {
            return false;
        }
        self.rows[line.row() as usize].accepts(line)
    }

    /// Writes `line` into its row and reports the segments that the write
    /// touched.
    pub fn set_cells(&mut self, line: Line) -> (segs: Vec<Segment>)
        requires
            old(self).wf(),
            old(self).takes(&line),
        ensures
            final(self).wf(),
            final(self)@ == (TextBufView {
                rows: old(self)@.rows.update(
                    line.row() as int,
                    overwrite(
                        old(self)@.rows[line.row() as int],
                        line.column_start() as int,
                        expand(line.cells()),
                    ),
                ),
                ..old(self)@
            }),
            segment_views(segs@) == touched_segments(
                old(self)@.rows[line.row() as int],
                final(self)@.rows[line.row() as int],
                line.column_start() as int,
                line.column_start() + span(line.cells()),
            ),
    {
        assert(self@.rows.len() == self.rows@.len());
        assert(line.row() < self.rows.len());
        let row = line.row() as usize;
        let ghost before = self.rows@;
        assert(row_views(before)[row as int] == before[row as int]@);
        let segs = self.rows[row].replace(line);
        proof {
            assert(forall|i: int| 0 <= i < before.len() && i != row ==> self.rows@[i] == before[i]);
            assert(self@.rows =~= row_views(before).update(row as int, self.rows@[row as int]@));
        }
        segs
    }

    /// The cell at a row and column, if the buffer reaches that far.
    pub fn cell(&self, row: usize, col: usize) -> (cell: Option<Cell>)
        requires
            self.wf(),
        ensures
            row < self@.rows.len() && col < self@.cols ==> cell is Some && cell.unwrap()@
                == self@.rows[row as int][col as int],
            !(row < self@.rows.len() && col < self@.cols) ==> cell is None,
    {
        if row >= self.rows.len() {
            return None;
        }
        match self.rows[row].at(col) {
            Some(cell) => Some(cell.clone()),
            None => None,
        }
    }
}

} // verus!
