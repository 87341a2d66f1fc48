//! Cells, rows and the style runs derived from them.

use crate::bridge::GridLineCell;
use vstd::prelude::*;
use vstd::string::StringExecFns;

verus! {

/// What one cell holds, as mathematical values.
pub struct CellView {
    pub text: Seq<char>,
    pub hl_id: u64,
    pub double_width: bool,
}

/// One cell of a grid.
#[derive(Debug)]
pub struct Cell {
    pub text: String,
    pub hl_id: u64,
    pub double_width: bool,
}

impl View for Cell {
    type V = CellView;

    open spec fn view(&self) -> CellView {
        CellView { text: self.text@, hl_id: self.hl_id, double_width: self.double_width }
    }
}

impl Clone for Cell {
    fn clone(&self) -> (copy: Cell)
        ensures
            copy@ == self@,
    {
        Cell { text: self.text.clone(), hl_id: self.hl_id, double_width: self.double_width }
    }
}

/// The cell a cleared position holds: one space in style 0, single width.
pub open spec fn blank_cell() -> CellView {
    CellView { text: seq![' '], hl_id: 0, double_width: false }
}

/// `n` blank cells.
pub open spec fn blank_cells(n: nat) -> Seq<CellView> {
    Seq::new(n, |i: int| blank_cell())
}

/// The views of a sequence of cells.
pub open spec fn cell_views(cells: Seq<Cell>) -> Seq<CellView> {
    cells.map_values(|c: Cell| c@)
}

impl Cell {
    /// A blank cell.
    pub fn blank() -> (cell: Cell)
        ensures
            cell@ == blank_cell(),
    {
        proof {
            reveal_strlit(" ");
        }
        let text = String::from_str(" ");
        assert(text@ =~= seq![' ']);
        Cell { text, hl_id: 0, double_width: false }
    }
}

/// A line update as the backend sends it: where it starts and the items
/// to write from there.
#[derive(Clone, Debug)]
pub struct Line {
    grid: u64,
    row: u64,
    column_start: u64,
    cells: Vec<GridLineCell>,
}

impl Line {
    pub fn new(grid: u64, row: u64, column_start: u64, cells: Vec<GridLineCell>) -> (line: Line)
        ensures
            line.grid() == grid,
            line.row() == row,
            line.column_start() == column_start,
            line.cells() == cells@,
    {
        Line { grid, row, column_start, cells }
    }

    /// The grid the line belongs to.
    pub closed spec fn spec_grid(&self) -> u64 {
        self.grid
    }

    /// The row of the grid that the line updates.
    pub closed spec fn spec_row(&self) -> u64 {
        self.row
    }

    /// The column at which the first item is written.
    pub closed spec fn spec_column_start(&self) -> u64 {
        self.column_start
    }

    /// The items, in the order in which they are written.
    pub closed spec fn cells(&self) -> Seq<GridLineCell> {
        self.cells@
    }

    #[verifier::when_used_as_spec(spec_grid)]
    pub fn grid(&self) -> (grid: u64)
        ensures
            grid == self.spec_grid(),
    {
        self.grid
    }

    #[verifier::when_used_as_spec(spec_row)]
    pub fn row(&self) -> (row: u64)
        ensures
            row == self.spec_row(),
    {
        self.row
    }

    #[verifier::when_used_as_spec(spec_column_start)]
    pub fn column_start(&self) -> (column_start: u64)
        ensures
            column_start == self.spec_column_start(),
    {
        self.column_start
    }

    /// The items, in the order in which they are written.
    pub fn items(&self) -> (items: &Vec<GridLineCell>)
        ensures
            items@ == self.cells(),
    {
        &self.cells
    }
}

/// How many cells a sequence of items fills.
pub open spec fn span(items: Seq<GridLineCell>) -> nat
    decreases items.len(),
{
    if items.len() == 0 {
        0
    } else {
        span(items.drop_last()) + items.last().times()
    }
}

/// Whether every item names its style.
pub open spec fn all_styled(items: Seq<GridLineCell>) -> bool {
    forall|i: int| 0 <= i < items.len() ==> (#[trigger] items[i]).highlight_id is Some
}

/// The cell that an item writes.
pub open spec fn written_cell(item: GridLineCell) -> CellView {
    CellView {
        text: item.text@,
        hl_id: item.highlight_id.unwrap(),
        double_width: item.double_width,
    }
}

/// The cells that a sequence of items writes, one after the other: each
/// item as many times as it repeats.
pub open spec fn expand(items: Seq<GridLineCell>) -> Seq<CellView>
    decreases items.len(),
{
    if items.len() == 0 {
        Seq::empty()
    } else {
        expand(items.drop_last()) + Seq::new(
            items.last().times(),
            |i: int| written_cell(items.last()),
        )
    }
}

/// The cells of `row` after `cells` were written over it from `at` on.
pub open spec fn overwrite(row: Seq<CellView>, at: int, cells: Seq<CellView>) -> Seq<CellView> {
    Seq::new(
        row.len(),
        |i: int|
            if at <= i < at + cells.len() {
                cells[i - at]
            } else {
                row[i]
            },
    )
}

/// Writing the same cells at the same place a second time changes
/// nothing.
pub proof fn lemma_overwrite_twice(row: Seq<CellView>, at: int, cells: Seq<CellView>)
    ensures
        overwrite(overwrite(row, at, cells), at, cells) == overwrite(row, at, cells),
{
    assert(overwrite(overwrite(row, at, cells), at, cells) =~= overwrite(row, at, cells));
}

/// A write leaves the row as long as it was, puts the cells written where
/// they belong, and leaves every other cell as it was.
pub proof fn lemma_overwrite(row: Seq<CellView>, at: int, cells: Seq<CellView>)
    ensures
        overwrite(row, at, cells).len() == row.len(),
        forall|i: int|
            0 <= i < row.len() && at <= i < at + cells.len() ==> #[trigger] overwrite(
                row,
                at,
                cells,
            )[i] == cells[i - at],
        forall|i: int|
            0 <= i < row.len() && !(at <= i < at + cells.len()) ==> #[trigger] overwrite(
                row,
                at,
                cells,
            )[i] == row[i],
{
}

/// `expand` has as many cells as `span` counts.
pub proof fn lemma_expand_len(items: Seq<GridLineCell>)
    ensures
        expand(items).len() == span(items),
    decreases items.len(),
{
    if items.len() > 0 {
        lemma_expand_len(items.drop_last());
    }
}


/// A prefix of the items fills no more cells than all of them.
pub proof fn lemma_span_prefix(items: Seq<GridLineCell>, k: int)
    requires
        0 <= k <= items.len(),
    ensures
        span(items.take(k)) <= span(items),
    decreases items.len(),
{
    if k == items.len() {
        assert(items.take(k) =~= items);
    } else {
        lemma_span_prefix(items.drop_last(), k);
        assert(items.drop_last().take(k) =~= items.take(k));
    }
}

/// What one more item adds to the cells written: the cells of the items
/// before it stay, and behind them the item's own cell stands as often as
/// the item repeats.
pub proof fn lemma_expand_step(items: Seq<GridLineCell>, k: int)
    requires
        0 <= k < items.len(),
    ensures
        span(items.take(k + 1)) == span(items.take(k)) + items[k].times(),
        span(items.take(k + 1)) <= span(items),
        expand(items.take(k)).len() == span(items.take(k)),
        expand(items.take(k + 1)).len() == span(items.take(k + 1)),
        forall|q: int|
            0 <= q < span(items.take(k)) ==> #[trigger] expand(items.take(k + 1))[q] == expand(
                items.take(k),
            )[q],
        forall|q: int|
            span(items.take(k)) <= q < span(items.take(k + 1)) ==> #[trigger] expand(
                items.take(k + 1),
            )[q] == written_cell(items[k]),
{
    assert(items.take(k + 1).drop_last() =~= items.take(k));
    assert(items.take(k + 1).last() == items[k]);
    lemma_span_prefix(items, k + 1);
    lemma_expand_len(items.take(k));
    lemma_expand_len(items.take(k + 1));
}

/// What a segment holds, as mathematical values.
pub struct SegmentView {
    pub text: Seq<char>,
    pub hl_id: u64,
    pub start: usize,
    pub len: usize,
}

/// A run of neighbouring cells of one style: its text, where it starts and
/// how many cells it covers.
#[derive(Debug, PartialEq)]
pub struct Segment {
    pub text: String,
    pub hl_id: u64,
    pub start: usize,
    pub len: usize,
}

impl View for Segment {
    type V = SegmentView;

    open spec fn view(&self) -> SegmentView {
        SegmentView { text: self.text@, hl_id: self.hl_id, start: self.start, len: self.len }
    }
}

/// The views of a sequence of segments.
pub open spec fn segment_views(segs: Seq<Segment>) -> Seq<SegmentView> {
    segs.map_values(|s: Segment| s@)
}

/// Where the run of equally styled cells that holds the cell at `at`
/// begins.
pub open spec fn run_start(cells: Seq<CellView>, at: int) -> int
    decreases at,
{
    if at <= 0 {
        0
    } else if cells[at - 1].hl_id != cells[at].hl_id {
        at
    } else {
        run_start(cells, at - 1)
    }
}

/// How many cells behind the one at `from`, short of `stop`, go on in its
/// style without a break.
pub open spec fn run_more(cells: Seq<CellView>, from: int, stop: int) -> nat
    decreases stop - from,
{
    if from + 1 >= stop || cells[from + 1].hl_id != cells[from].hl_id {
        0
    } else {
        1 + run_more(cells, from + 1, stop)
    }
}

/// A run does not reach `stop`.
pub proof fn lemma_run_more_bound(cells: Seq<CellView>, from: int, stop: int)
    requires
        from < stop,
    ensures
        from + 1 + run_more(cells, from, stop) <= stop,
    decreases stop - from,
{
    if !(from + 1 >= stop || cells[from + 1].hl_id != cells[from].hl_id) {
        lemma_run_more_bound(cells, from + 1, stop);
    }
}

/// The length of the run that begins at `from` and ends short of `stop`.
pub open spec fn run_len(cells: Seq<CellView>, from: int, stop: int) -> nat {
    1 + run_more(cells, from, stop)
}

/// The texts of the cells from `from` up to, not including, `to`, one
/// after the other.
pub open spec fn joined_text(cells: Seq<CellView>, from: int, to: int) -> Seq<char>
    decreases to - from,
{
    if to <= from {
        Seq::empty()
    } else {
        joined_text(cells, from, to - 1) + cells[to - 1].text
    }
}

/// The segment made of the `n` cells from `from` on.
pub open spec fn run_segment(cells: Seq<CellView>, from: int, n: nat) -> SegmentView {
    SegmentView {
        text: joined_text(cells, from, from + n),
        hl_id: cells[from].hl_id,
        start: from as usize,
        len: n as usize,
    }
}

/// The cells from `from` up to, not including, `stop`, cut into runs of
/// one style, each as long as it can be.
pub open spec fn segments(cells: Seq<CellView>, from: int, stop: int) -> Seq<SegmentView>
    decreases stop - from,
{
    if from >= stop {
        Seq::empty()
    } else {
        let more = run_more(cells, from, stop);
        proof {
            lemma_run_more_bound(cells, from, stop);
        }
        seq![run_segment(cells, from, 1 + more)] + segments(cells, from + 1 + more, stop)
    }
}

/// What `run_start` names: a place at or before `at` from which every cell
/// up to the one at `at` has that cell's style, and before which the
/// row begins or a cell of another style stands.
pub proof fn lemma_run_start(cells: Seq<CellView>, at: int)
    requires
        0 <= at < cells.len(),
    ensures
        0 <= run_start(cells, at) <= at,
        forall|i: int|
            run_start(cells, at) <= i <= at ==> (#[trigger] cells[i]).hl_id == cells[at].hl_id,
        run_start(cells, at) == 0 || cells[run_start(cells, at) - 1].hl_id != cells[at].hl_id,
    decreases at,
{
    if at > 0 && cells[at - 1].hl_id == cells[at].hl_id {
        lemma_run_start(cells, at - 1);
    }
}

/// What `run_more` counts: the cells of the run share the style of its
/// first cell, and behind the run the scan stops or a cell of another
/// style stands.
pub proof fn lemma_run_more(cells: Seq<CellView>, from: int, stop: int)
    requires
        0 <= from < stop <= cells.len(),
    ensures
        from + run_len(cells, from, stop) <= stop,
        forall|i: int|
            from <= i < from + run_len(cells, from, stop) ==> (#[trigger] cells[i]).hl_id
                == cells[from].hl_id,
        from + run_len(cells, from, stop) == stop || cells[from + run_len(
            cells,
            from,
            stop,
        )].hl_id != cells[from].hl_id,
    decreases stop - from,
{
    if !(from + 1 >= stop || cells[from + 1].hl_id != cells[from].hl_id) {
        lemma_run_more(cells, from + 1, stop);
    }
}

/// Whether `segs` cut the cells from `from` up to `stop` into runs of one
/// style, each as long as it can be: the segments follow one another
/// without a gap from `from` to `stop`, none is empty, each holds the
/// style and the joined text of its cells, and no two neighbours share a
/// style.
pub open spec fn cuts_into_runs(
    segs: Seq<SegmentView>,
    cells: Seq<CellView>,
    from: int,
    stop: int,
) -> bool {
    &&& from >= stop ==> segs.len() == 0
    &&& from < stop ==> segs.len() > 0 && segs[0].start == from && segs.last().start
        + segs.last().len == stop
    &&& forall|k: int|
        0 <= k < segs.len() ==> {
            let seg = #[trigger] segs[k];
            &&& seg.len > 0
            &&& from <= seg.start
            &&& seg.start + seg.len <= stop
            &&& seg.text == joined_text(cells, seg.start as int, seg.start + seg.len)
            &&& forall|i: int|
                seg.start <= i < seg.start + seg.len ==> (#[trigger] cells[i]).hl_id == seg.hl_id
        }
    &&& forall|k: int|
        0 <= k < segs.len() - 1 ==> (#[trigger] segs[k + 1]).start == segs[k].start + segs[k].len
            && segs[k + 1].hl_id != segs[k].hl_id
}

/// The segments of a scan cut the cells scanned into runs of one style,
/// each as long as it can be.
pub proof fn lemma_segments(cells: Seq<CellView>, from: int, stop: int)
    requires
        0 <= from,
        stop <= cells.len() <= usize::MAX,
    ensures
        cuts_into_runs(segments(cells, from, stop), cells, from, stop),
    decreases stop - from,
{
    if from < stop {
        let n = run_len(cells, from, stop);
        let first = run_segment(cells, from, n);
        let rest = segments(cells, from + n, stop);
        let segs = segments(cells, from, stop);
        lemma_run_more(cells, from, stop);
        lemma_segments(cells, from + n, stop);
        assert(segs =~= seq![first] + rest);
        assert(segs[0] == first);
        assert forall|k: int| 0 <= k < segs.len() implies {
            let seg = #[trigger] segs[k];
            &&& seg.len > 0
            &&& from <= seg.start
            &&& seg.start + seg.len <= stop
            &&& seg.text == joined_text(cells, seg.start as int, seg.start + seg.len)
            &&& forall|i: int|
                seg.start <= i < seg.start + seg.len ==> (#[trigger] cells[i]).hl_id == seg.hl_id
        } by {
            if k > 0 {
                assert(segs[k] == rest[k - 1]);
            }
        }
        assert forall|k: int| 0 <= k < segs.len() - 1 implies (#[trigger] segs[k + 1]).start
            == segs[k].start + segs[k].len && segs[k + 1].hl_id != segs[k].hl_id by {
            assert(segs[k + 1] == rest[k]);
            if k > 0 {
                assert(segs[k] == rest[k - 1]);
                assert(rest[(k - 1) + 1].start == rest[k - 1].start + rest[k - 1].len);
            } else {
                assert(rest.len() > 0);
                assert(from + n < stop);
                assert(rest[0].start == from + n);
                assert(rest[0].len > 0);
                assert(cells[from + n].hl_id == rest[0].hl_id);
            }
        }
        if rest.len() > 0 {
            assert(segs.last() == rest.last());
        }
    }
}

/// A scan that begins at the start of a run reports that run whole: its
/// first segment begins where the row begins or behind a cell of another
/// style.
pub proof fn lemma_first_segment_is_whole(cells: Seq<CellView>, at: int, stop: int)
    requires
        0 <= at < cells.len() <= usize::MAX,
        run_start(cells, at) < stop <= cells.len(),
    ensures
        segments(cells, run_start(cells, at), stop).len() > 0,
        segments(cells, run_start(cells, at), stop)[0].start == run_start(cells, at),
        segments(cells, run_start(cells, at), stop)[0].hl_id == cells[at].hl_id,
        run_start(cells, at) == 0 || cells[run_start(cells, at) - 1].hl_id != segments(
            cells,
            run_start(cells, at),
            stop,
        )[0].hl_id,
{
    lemma_run_start(cells, at);
    lemma_segments(cells, run_start(cells, at), stop);
}

/// Where a scan that takes in the cell at `end` stops, in a row of `len`
/// cells: behind `end`, or at the row's end if that comes first.
pub open spec fn scan_stop(len: int, end: int) -> int {
    if end < len {
        end + 1
    } else {
        len
    }
}

/// The segments that a write reports. `before` and `after` are the row
/// before and after the write, which began at `col` and ended short of
/// `end`. The report begins where the run that held the cell at `col`
/// began, or earlier if the write made that run part of a longer one, and
/// takes in the cell at `end`.
pub open spec fn touched_segments(
    before: Seq<CellView>,
    after: Seq<CellView>,
    col: int,
    end: int,
) -> Seq<SegmentView> {
    segments(after, run_start(after, run_start(before, col)), scan_stop(after.len() as int, end))
}

/// One row of a grid.
pub struct Row {
    cells: Vec<Cell>,
    pub len: usize,
}

impl View for Row {
    type V = Seq<CellView>;

    closed spec fn view(&self) -> Seq<CellView> {
        cell_views(self.cells@)
    }
}

impl Clone for Row {
    fn clone(&self) -> (copy: Row)
        ensures
            copy@ == self@,
            copy.wf() == self.wf(),
    {
        let mut cells: Vec<Cell> = Vec::new();
        let mut i: usize = 0;
        while i < self.cells.len()
            invariant
                i <= self.cells.len(),
                cells@.len() == i,
                cell_views(cells@) == cell_views(self.cells@).take(i as int),
            decreases self.cells.len() - i,
        {
            cells.push(self.cells[i].clone());
            assert(cell_views(cells@) =~= cell_views(self.cells@).take(i + 1));
            i += 1;
        }
        assert(cell_views(self.cells@).take(i as int) =~= cell_views(self.cells@));
        assert(cells@.len() == cell_views(cells@).len());
        Row { cells, len: self.len }
    }
}

impl Row {
    /// The row holds as many cells as its field `len` says.
    pub closed spec fn wf(&self) -> bool {
        self.cells@.len() == self.len
    }

    /// Creates a row of `len` blank cells.
    pub fn new(len: usize) -> (row: Row)
        ensures
            row.wf(),
            row@ == blank_cells(len as nat),
    {
        Row { cells: Row::empty_cells(len), len }
    }

    fn empty_cells(len: usize) -> (cells: Vec<Cell>)
        ensures
            cells@.len() == len,
            cell_views(cells@) == blank_cells(len as nat),
    {
        let mut cells: Vec<Cell> = Vec::new();
        let mut i: usize = 0;
        while i < len
            invariant
                i <= len,
                cells@.len() == i,
                forall|k: int| 0 <= k < i ==> (#[trigger] cells@[k])@ == blank_cell(),
            decreases len - i,
        {
            cells.push(Cell::blank());
            i += 1;
        }
        assert(cell_views(cells@) =~= blank_cells(len as nat));
        cells
    }

    /// The cell at a position, if the row reaches that far.
    pub fn at(&self, at: usize) -> (cell: Option<&Cell>)
        ensures
            at < self@.len() ==> cell is Some && cell.unwrap()@ == self@[at as int],
            at >= self@.len() ==> cell is None,
    {
        if at < self.cells.len() {
            Some(&self.cells[at])
        } else {
            None
        }
    }

    /// The number of cells.
    pub fn len(&self) -> (len: usize)
        ensures
            self.wf() ==> len == self@.len(),
    {
        self.len
    }

    /// Makes every cell blank.
    pub fn clear(&mut self)
        requires
            old(self).wf(),
        ensures
            final(self).wf(),
            final(self)@ == blank_cells(old(self)@.len()),
    {
        self.cells = Row::empty_cells(self.len);
    }

    /// Gives the row `new_size` cells: the first cells stay as they are,
    /// cells beyond the new size go, and new cells are blank.
    pub fn resize(&mut self, new_size: usize)
        ensures
            final(self).wf(),
            final(self)@ == resized(old(self)@, new_size as nat),
    {
        let ghost before = self.cells@;
        if new_size < self.cells.len() {
            self.cells.truncate(new_size);
        }
        while self.cells.len() < new_size
            invariant
                self.cells@.len() <= new_size,
                before.len() <= new_size ==> self.cells@.len() >= before.len(),
                before.len() > new_size ==> self.cells@.len() == new_size,
                forall|k: int|
                    0 <= k < self.cells@.len() ==> (#[trigger] self.cells@[k])@ == (if k
                        < before.len() {
                        before[k]@
                    } else {
                        blank_cell()
                    }),
            decreases new_size - self.cells@.len(),
        {
            self.cells.push(Cell::blank());
        }
        self.len = self.cells.len();
        assert(self@ =~= resized(cell_views(before), new_size as nat));
    }

    /// Makes the cells from `from` up to, not including, `to` blank.
    pub fn clear_range(&mut self, from: usize, to: usize)
        requires
            old(self).wf(),
            from < to ==> to <= old(self)@.len(),
        ensures
            final(self).wf(),
            final(self)@ == overwrite(
                old(self)@,
                from as int,
                blank_cells(if from < to { (to - from) as nat } else { 0 }),
            ),
    {
        let ghost before = self.cells@;
        let mut i: usize = from;
        while i < to
            invariant
                from <= i,
                from < to ==> i <= to && to <= self.len,
                from >= to ==> i == from,
                self.len == before.len(),
                self.cells@.len() == self.len,
                forall|k: int|
                    0 <= k < self.len ==> (#[trigger] self.cells@[k])@ == (if from <= k < i {
                        blank_cell()
                    } else {
                        before[k]@
                    }),
            decreases to - i,
        {
            self.cells[i] = Cell::blank();
            i += 1;
        }
        if from < to {
            assert(self@ =~= overwrite(
                cell_views(before),
                from as int,
                blank_cells((to - from) as nat),
            ));
        } else {
            assert(self@ =~= overwrite(cell_views(before), from as int, blank_cells(0)));
        }
    }

    /// Copies the cells from `from` up to, not including, `to`.
    pub fn copy_range(&self, from: usize, to: usize) -> (cells: Vec<Cell>)
        requires
            from <= to <= self@.len(),
        ensures
            cell_views(cells@) == self@.subrange(from as int, to as int),
    {
        let mut cells: Vec<Cell> = Vec::new();
        let mut i: usize = from;
        while i < to
            invariant
                from <= i <= to <= self.cells@.len(),
                cells@.len() == i - from,
                cell_views(cells@) == self@.subrange(from as int, i as int),
            decreases to - i,
        {
            cells.push(self.cells[i].clone());
            assert(cell_views(cells@) =~= self@.subrange(from as int, i + 1));
            i += 1;
        }
        cells
    }

    /// Puts `cells` into the row from `at` on, in place of what was there.
    pub fn insert_at(&mut self, at: usize, cells: Vec<Cell>)
        requires
            old(self).wf(),
            cells@.len() > 0 ==> at + cells@.len() <= old(self)@.len(),
        ensures
            final(self).wf(),
            final(self)@ == overwrite(old(self)@, at as int, cell_views(cells@)),
    {
        let ghost before = self.cells@;
        let ghost given = cells@;
        let mut rest = cells;
        let mut n: usize = rest.len();
        while n > 0
            invariant
                n == rest@.len(),
                n <= given.len(),
                given.len() > 0 ==> at + given.len() <= self.len,
                forall|k: int| 0 <= k < n ==> (#[trigger] rest@[k]) == given[k],
                self.len == before.len(),
                self.cells@.len() == self.len,
                forall|k: int|
                    0 <= k < self.len ==> (#[trigger] self.cells@[k])@ == (if at + n <= k < at
                        + given.len() {
                        given[k - at]@
                    } else {
                        before[k]@
                    }),
            decreases n,
        {
            let cell = rest.pop().unwrap();
            n -= 1;
            self.cells[at + n] = cell;
        }
        assert(self@ =~= overwrite(cell_views(before), at as int, cell_views(given)));
    }

    /// Whether `line` can be written into the row: its first column lies
    /// in the row, every item names its style, and the cells written end
    /// with the row or before.
    pub open spec fn takes(&self, line: &Line) -> bool {
        &&& line.column_start() < self@.len()
        &&& all_styled(line.cells())
        &&& line.column_start() + span(line.cells()) <= self@.len()
    }

    /// Tells whether `line` can be written into the row.
    pub fn accepts(&self, line: &Line) -> (ok: bool)
        ensures
            ok == self.takes(line),
    {
        let len = self.cells.len();
        if line.column_start >= len as u64 {
            return false;
        }
        let room: usize = len - line.column_start as usize;
        let ghost items = line.cells@;
        let mut used: usize = 0;
        let mut k: usize = 0;
        proof {
            assert(items.take(0) =~= Seq::<GridLineCell>::empty());
        }
        while k < line.cells.len()
            invariant
                k <= items.len(),
                items == line.cells@,
                used == span(items.take(k as int)),
                used <= room,
                len == self@.len(),
                room == len - line.column_start,
                forall|i: int| 0 <= i < k ==> (#[trigger] items[i]).highlight_id is Some,
            decreases items.len() - k,
        {
            let item = &line.cells[k];
            proof {
                lemma_expand_step(items, k as int);
            }
            if item.highlight_id.is_none() {
                assert(!(items[k as int].highlight_id is Some));
                return false;
            }
            let times: u64 = match item.repeat {
                Some(n) => n,
                None => 1,
            };
            if times > (room - used) as u64 {
                return false;
            }
            used = used + times as usize;
            k += 1;
        }
        proof {
            assert(items.take(k as int) =~= items);
        }
        true
    }

    /// Where the run of equally styled cells that holds the cell at `at`
    /// begins.
    fn run_start_of(&self, at: usize) -> (start: usize)
        requires
            at < self@.len(),
        ensures
            start == run_start(self@, at as int),
            start <= at,
    {
        let hl = self.cells[at].hl_id;
        let mut base: usize = at;
        while base > 0 && self.cells[base - 1].hl_id == hl
            invariant
                base <= at < self.cells@.len(),
                self.cells@[base as int].hl_id == hl,
                run_start(self@, at as int) == run_start(self@, base as int),
            decreases base,
        {
            base -= 1;
        }
        base
    }

    /// Writes the items of `line` into the row, from the line's first
    /// column on, each item as often as it repeats, and reports the
    /// segments that the write touched.
    pub fn replace(&mut self, line: Line) -> (segs: Vec<Segment>)
        requires
            old(self).wf(),
            old(self).takes(&line),
        ensures
            final(self).wf(),
            final(self)@ == overwrite(
                old(self)@,
                line.column_start() as int,
                expand(line.cells()),
            ),
            segment_views(segs@) == touched_segments(
                old(self)@,
                final(self)@,
                line.column_start() as int,
                line.column_start() + span(line.cells()),
            ),
    {
        let col_start = line.column_start as usize;
        let range_start = self.run_start_of(col_start);
        let ghost before = self.cells@;
        let ghost items = line.cells@;
        let mut offset: usize = col_start;
        let mut k: usize = 0;
        proof {
            assert(items.take(0) =~= Seq::<GridLineCell>::empty());
        }
        while k < line.cells.len()
            invariant
                k <= items.len(),
                items == line.cells@,
                all_styled(items),
                col_start + span(items) <= self.len,
                offset == col_start + span(items.take(k as int)),
                offset <= self.len,
                expand(items.take(k as int)).len() == span(items.take(k as int)),
                self.len == before.len(),
                self.cells@.len() == self.len,
                forall|p: int|
                    0 <= p < self.len ==> (#[trigger] self.cells@[p])@ == (if col_start <= p
                        < offset {
                        expand(items.take(k as int))[p - col_start]
                    } else {
                        before[p]@
                    }),
            decreases items.len() - k,
        {
            let item = &line.cells[k];
            proof {
                lemma_expand_step(items, k as int);
            }
            let repeation: usize = match item.repeat {
                Some(n) => n as usize,
                None => 1,
            };
            let hl_id = item.highlight_id.unwrap();
            let mut r: usize = 0;
            while r < repeation
                invariant
                    r <= repeation,
                    offset + repeation <= self.len,
                    self.len == before.len(),
                    self.cells@.len() == self.len,
                    *item == items[k as int],
                    item.highlight_id == Some(hl_id),
                    forall|p: int|
                        0 <= p < self.len ==> (#[trigger] self.cells@[p])@ == (if col_start <= p
                            < offset {
                            expand(items.take(k as int))[p - col_start]
                        } else if offset <= p < offset + r {
                            written_cell(items[k as int])
                        } else {
                            before[p]@
                        }),
                decreases repeation - r,
            {
                self.cells[offset + r] = Cell {
                    text: item.text.clone(),
                    hl_id,
                    double_width: item.double_width,
                };
                r += 1;
            }
            offset += repeation;
            k += 1;
        }
        proof {
            assert(items.take(k as int) =~= items);
            assert(self@ =~= overwrite(cell_views(before), col_start as int, expand(items)));
        }
        self.to_segments(range_start, offset)
    }

    /// The segments from the start of the run that holds the cell at
    /// `cell_start` up to and including the cell at `end`, or up to the
    /// row's end if that comes first.
    pub fn to_segments(&self, cell_start: usize, end: usize) -> (segs: Vec<Segment>)
        requires
            cell_start < self@.len(),
        ensures
            segment_views(segs@) == segments(
                self@,
                run_start(self@, cell_start as int),
                scan_stop(self@.len() as int, end as int),
            ),
    {
        let base = self.run_start_of(cell_start);
        let stop: usize = if end < self.cells.len() {
            end + 1
        } else {
            self.cells.len()
        };
        let mut segs: Vec<Segment> = Vec::new();
        let mut i: usize = base;
        while i < stop
            invariant
                base <= i,
                i <= stop || i == base,
                stop <= self.cells@.len(),
                segment_views(segs@) + segments(self@, i as int, stop as int) == segments(
                    self@,
                    base as int,
                    stop as int,
                ),
            decreases stop - i,
        {
            let hl = self.cells[i].hl_id;
            let mut text = self.cells[i].text.clone();
            let mut j: usize = i + 1;
            assert(text@ =~= joined_text(self@, i as int, i + 1)) by {
                assert(joined_text(self@, i as int, i as int) =~= Seq::<char>::empty());
            }
            while j < stop && self.cells[j].hl_id == hl
                invariant
                    i < j <= stop <= self.cells@.len(),
                    self.cells@[i as int].hl_id == hl,
                    self.cells@[j - 1].hl_id == hl,
                    text@ == joined_text(self@, i as int, j as int),
                    run_more(self@, i as int, stop as int) == (j - 1 - i) + run_more(
                        self@,
                        j - 1,
                        stop as int,
                    ),
                decreases stop - j,
            {
                text.append(self.cells[j].text.as_str());
                j += 1;
            }
            let ghost found = segs@;
            segs.push(Segment { text, hl_id: hl, start: i, len: j - i });
            proof {
                assert(run_more(self@, i as int, stop as int) == j - 1 - i);
                assert(segment_views(segs@) =~= segment_views(found).push(
                    run_segment(self@, i as int, (j - i) as nat),
                ));
                assert(segment_views(segs@) + segments(self@, j as int, stop as int)
                    =~= segment_views(found) + segments(self@, i as int, stop as int));
            }
            i = j;
        }
        assert(segment_views(segs@) =~= segment_views(segs@) + segments(
            self@,
            i as int,
            stop as int,
        ));
        segs
    }
}

/// The cells of a row resized to `n` cells: the first cells as they were,
/// blank cells where the row grew.
pub open spec fn resized(row: Seq<CellView>, n: nat) -> Seq<CellView> {
    Seq::new(
        n,
        |i: int|
            if i < row.len() {
                row[i]
            } else {
                blank_cell()
            },
    )
}

} // verus!
