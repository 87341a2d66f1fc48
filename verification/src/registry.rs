//! The grids that are live, and the window that each of them shows.

use crate::bridge::GridLineCell;
use crate::elements::{segment_views, span, touched_segments, Cell, Line, Segment, SegmentView};
use crate::grid::{
    edited, fresh_grid, grid_takes, grid_written, shaped, GridEdit, GridView, VimGrid,
};
use crate::pos::Position;
use crate::rect::Rectangle;
use crate::relations::{
    no_windows, table_get, table_insert, table_new, table_remove, window_of, GridWindow,
};
use rustc_hash::FxHashMap;
use std::collections::HashMap;
use vstd::prelude::*;

verus! {

/// What a registry holds: the live grids by id, and for each the window
/// that it shows.
#[verifier::ext_equal]
pub struct RegistryView {
    pub grids: Map<u64, GridView>,
    pub windows: Map<u64, GridWindow>,
}

/// What holds of every registry: the grids that are live are those that
/// have a window entry, and each is known under its own id and has the
/// shape that its size says.
pub open spec fn consistent(r: RegistryView) -> bool {
    &&& forall|id: u64| r.grids.contains_key(id) <==> r.windows.contains_key(id)
    &&& forall|id: u64| #[trigger]
        r.grids.contains_key(id) ==> r.grids[id].grid == id && shaped(r.grids[id])
}

/// The registry with no grid in it.
pub open spec fn no_grids() -> RegistryView {
    RegistryView { grids: Map::empty(), windows: no_windows() }
}

/// The registry after a grid was made, in place of any grid that was
/// known under its id.
pub open spec fn with_grid(
    r: RegistryView,
    id: u64,
    winid: u64,
    pos: Position,
    rect: Rectangle,
) -> RegistryView {
    RegistryView {
        grids: r.grids.insert(id, fresh_grid(id, winid, pos, rect)),
        windows: r.windows.insert(id, GridWindow { winid }),
    }
}

/// The registry without a grid and its window entry.
pub open spec fn without_grid(r: RegistryView, id: u64) -> RegistryView {
    RegistryView { grids: r.grids.remove(id), windows: r.windows.remove(id) }
}

/// The registry after a change to one of its grids; the registry itself
/// where the grid is not live.
pub open spec fn with_edit(r: RegistryView, id: u64, edit: GridEdit) -> RegistryView {
    if r.grids.contains_key(id) {
        RegistryView { grids: r.grids.insert(id, edited(r.grids[id], edit)), ..r }
    } else {
        r
    }
}

/// The registry after a live grid was given to a window; the registry
/// itself where the grid is not live.
pub open spec fn with_window(r: RegistryView, id: u64, winid: u64) -> RegistryView {
    if r.grids.contains_key(id) {
        RegistryView { windows: r.windows.insert(id, GridWindow { winid }), ..r }
    } else {
        r
    }
}

/// Whether a line can be written: its grid is live and takes it.
pub open spec fn takes(
    r: RegistryView,
    id: u64,
    row: u64,
    col: u64,
    items: Seq<GridLineCell>,
) -> bool {
    r.grids.contains_key(id) && grid_takes(r.grids[id], row, col, items)
}

/// The registry after a line was written into its grid.
pub open spec fn with_line(
    r: RegistryView,
    id: u64,
    row: u64,
    col: u64,
    items: Seq<GridLineCell>,
) -> RegistryView {
    RegistryView { grids: r.grids.insert(id, grid_written(r.grids[id], row, col, items)), ..r }
}

/// The segments that a write into a grid reports.
pub open spec fn line_segments(
    before: RegistryView,
    after: RegistryView,
    id: u64,
    row: u64,
    col: u64,
    items: Seq<GridLineCell>,
) -> Seq<SegmentView> {
    touched_segments(
        before.grids[id].rows[row as int],
        after.grids[id].rows[row as int],
        col as int,
        col + span(items),
    )
}

/// Every change that the registry knows leaves a consistent registry
/// consistent: making a grid of some size, taking a grid out, a change to
/// a grid, giving a grid to a window, and writing a line that its grid
/// takes.
pub proof fn lemma_edits_consistent()
    ensures
        forall|r: RegistryView, id: u64, winid: u64, pos: Position, rect: Rectangle|
            consistent(r) ==> consistent(#[trigger] with_grid(r, id, winid, pos, rect)),
        forall|r: RegistryView, id: u64| consistent(r) ==> consistent(#[trigger] without_grid(r, id)),
        forall|r: RegistryView, id: u64, edit: GridEdit|
            consistent(r) ==> consistent(#[trigger] with_edit(r, id, edit)),
        forall|r: RegistryView, id: u64, winid: u64|
            consistent(r) ==> consistent(#[trigger] with_window(r, id, winid)),
        forall|r: RegistryView, id: u64, row: u64, col: u64, items: Seq<GridLineCell>|
            consistent(r) && takes(r, id, row, col, items) ==> consistent(
                #[trigger] with_line(r, id, row, col, items),
            ),
{
    assert forall|r: RegistryView, id: u64, winid: u64, pos: Position, rect: Rectangle|
        consistent(r) implies consistent(#[trigger] with_grid(r, id, winid, pos, rect)) by {
        let after = with_grid(r, id, winid, pos, rect);
        assert forall|k: u64| #[trigger] after.grids.contains_key(k) implies after.grids[k].grid
            == k && shaped(after.grids[k]) by {
            if k != id {
                assert(r.grids.contains_key(k));
            }
        }
    }
    assert forall|r: RegistryView, id: u64| consistent(r) implies consistent(
        #[trigger] without_grid(r, id),
    ) by {
        let after = without_grid(r, id);
        assert forall|k: u64| #[trigger] after.grids.contains_key(k) implies after.grids[k].grid
            == k && shaped(after.grids[k]) by {
            assert(r.grids.contains_key(k));
        }
    }
    assert forall|r: RegistryView, id: u64, edit: GridEdit| consistent(r) implies consistent(
        #[trigger] with_edit(r, id, edit),
    ) by {
        let after = with_edit(r, id, edit);
        assert forall|k: u64| #[trigger] after.grids.contains_key(k) implies after.grids[k].grid
            == k && shaped(after.grids[k]) by {
            assert(r.grids.contains_key(k));
            if k == id {
                crate::grid::lemma_edited_shaped(r.grids[id], edit);
            }
        }
    }
    assert forall|r: RegistryView, id: u64, winid: u64| consistent(r) implies consistent(
        #[trigger] with_window(r, id, winid),
    ) by {
        let after = with_window(r, id, winid);
        assert forall|k: u64| #[trigger] after.grids.contains_key(k) implies after.grids[k].grid
            == k && shaped(after.grids[k]) by {
            assert(r.grids.contains_key(k));
        }
    }
    assert forall|r: RegistryView, id: u64, row: u64, col: u64, items: Seq<GridLineCell>|
        consistent(r) && takes(r, id, row, col, items) implies consistent(
        #[trigger] with_line(r, id, row, col, items),
    ) by {
        let after = with_line(r, id, row, col, items);
        assert forall|k: u64| #[trigger] after.grids.contains_key(k) implies after.grids[k].grid
            == k && shaped(after.grids[k]) by {
            assert(r.grids.contains_key(k));
            if k == id {
                crate::grid::lemma_written_shaped(r.grids[id], row, col, items);
            }
        }
    }
}

/// The live grids and their windows.
pub struct GridRegistry {
    vgrids: HashMap<u64, VimGrid>,
    relationships: FxHashMap<u64, GridWindow>,
}

impl View for GridRegistry {
    type V = RegistryView;

    closed spec fn view(&self) -> RegistryView {
        RegistryView {
            grids: Map::new(|id: u64| self.vgrids@.contains_key(id), |id: u64| self.vgrids@[id]@),
            windows: self.relationships@,
        }
    }
}

impl GridRegistry {
    /// Every grid is well formed and known under its own id, and the
    /// grids are those that have a window entry.
    pub closed spec fn wf(&self) -> bool {
        &&& forall|id: u64| #[trigger]
            self.vgrids@.contains_key(id) ==> self.vgrids@[id].wf() && self.vgrids@[id]@.grid == id
        &&& forall|id: u64| self.vgrids@.contains_key(id) <==> self.relationships@.contains_key(id)
    }

    /// A well-formed registry is consistent.
    pub proof fn lemma_consistent(&self)
        requires
            self.wf(),
        ensures
            consistent(self@),
    {
        assert forall|id: u64| #[trigger] self@.grids.contains_key(id) implies self@.grids[id].grid
            == id && shaped(self@.grids[id]) by {
            self.vgrids@[id].lemma_shaped();
        }
    }

    /// A registry with no grid in it.
    pub fn new() -> (registry: GridRegistry)
        ensures
            registry.wf(),
            registry@ == no_grids(),
    {
        let registry = GridRegistry { vgrids: HashMap::new(), relationships: table_new() };
        assert(registry@ =~= no_grids());
        registry
    }

    /// Whether a grid is live.
    pub fn contains(&self, id: u64) -> (live: bool)
        ensures
            live == self@.grids.contains_key(id),
    {
        self.vgrids.contains_key(&id)
    }

    /// A live grid.
    pub fn get(&self, id: u64) -> (found: Option<&VimGrid>)
        ensures
            self@.grids.contains_key(id) ==> found is Some && found.unwrap()@ == self@.grids[id],
            !self@.grids.contains_key(id) ==> found is None,
            self.wf() && found is Some ==> found.unwrap().wf(),
    {
        self.vgrids.get(&id)
    }

    /// The window that a live grid shows.
    pub fn window(&self, id: u64) -> (found: Option<GridWindow>)
        ensures
            found == window_of(self@.windows, id),
    {
        table_get(&self.relationships, id)
    }

    /// Makes a blank grid and gives it to a window. A grid that was known
    /// under the id is gone.
    pub fn create(&mut self, id: u64, winid: u64, pos: Position, rect: Rectangle)
        requires
            old(self).wf(),
        ensures
            final(self).wf(),
            final(self)@ == with_grid(old(self)@, id, winid, pos, rect),
    {
        self.vgrids.insert(id, VimGrid::new(id, winid, pos, rect));
        table_insert(&mut self.relationships, id, GridWindow { winid });
        assert(self@ =~= with_grid(old(self)@, id, winid, pos, rect));
    }

    /// Takes a grid and its window entry out, and tells whether the grid
    /// was live.
    pub fn remove(&mut self, id: u64) -> (was_live: bool)
        requires
            old(self).wf(),
        ensures
            final(self).wf(),
            final(self)@ == without_grid(old(self)@, id),
            was_live == old(self)@.grids.contains_key(id),
    {
        let was_live = self.vgrids.remove(&id).is_some();
        table_remove(&mut self.relationships, id);
        assert(self@ =~= without_grid(old(self)@, id));
        was_live
    }

    /// Makes a change to a live grid, and tells whether the grid is live.
    pub fn edit(&mut self, id: u64, edit: GridEdit) -> (live: bool)
        requires
            old(self).wf(),
        ensures
            final(self).wf(),
            final(self)@ == with_edit(old(self)@, id, edit),
            live == old(self)@.grids.contains_key(id),
    {
        match self.vgrids.remove(&id) {
            None => {
                assert(self.vgrids@ =~= old(self).vgrids@);
                assert(self@ =~= old(self)@);
                false
            },
            Some(mut grid) => {
                grid.apply(edit);
                self.vgrids.insert(id, grid);
                assert(self@ =~= with_edit(old(self)@, id, edit));
                true
            },
        }
    }

    /// Gives a live grid to a window, and tells whether the grid is live.
    pub fn set_window(&mut self, id: u64, winid: u64) -> (live: bool)
        requires
            old(self).wf(),
        ensures
            final(self).wf(),
            final(self)@ == with_window(old(self)@, id, winid),
            live == old(self)@.grids.contains_key(id),
    {
        if self.vgrids.contains_key(&id) {
            table_insert(&mut self.relationships, id, GridWindow { winid });
            assert(self@ =~= with_window(old(self)@, id, winid));
            true
        } else {
            false
        }
    }

    /// Tells whether a line can be written.
    pub fn accepts(&self, line: &Line) -> (ok: bool)
        requires
            self.wf(),
        ensures
            ok == takes(self@, line.grid(), line.row(), line.column_start(), line.cells()),
    {
        match self.vgrids.get(&line.grid()) {
            Some(grid) => grid.accepts(line),
            None => false,
        }
    }

    /// Writes a line into its grid and reports the segments that the
    /// write touched.
    pub fn set_cells(&mut self, line: Line) -> (segs: Vec<Segment>)
        requires
            old(self).wf(),
            takes(old(self)@, line.grid(), line.row(), line.column_start(), line.cells()),
        ensures
            final(self).wf(),
            final(self)@ == with_line(
                old(self)@,
                line.grid(),
                line.row(),
                line.column_start(),
                line.cells(),
            ),
            segment_views(segs@) == line_segments(
                old(self)@,
                final(self)@,
                line.grid(),
                line.row(),
                line.column_start(),
                line.cells(),
            ),
    {
        let id = line.grid();
        let ghost written = grid_written(
            self@.grids[id],
            line.row(),
            line.column_start(),
            line.cells(),
        );
        let mut grid = self.vgrids.remove(&id).unwrap();
        let segs = grid.set_cells(line);
        self.vgrids.insert(id, grid);
        assert(self@ =~= (RegistryView {
            grids: old(self)@.grids.insert(id, written),
            ..old(self)@
        }));
        segs
    }

    /// The cell of a live grid at a row and column, if the grid reaches
    /// that far.
    pub fn cell(&self, id: u64, row: usize, col: usize) -> (cell: Option<Cell>)
        requires
            self.wf(),
        ensures
            cell is Some <==> self@.grids.contains_key(id) && row < self@.grids[id].height && col
                < self@.grids[id].width,
            cell is Some ==> cell.unwrap()@ == self@.grids[id].rows[row as int][col as int],
    {
        match self.vgrids.get(&id) {
            Some(grid) => grid.cell(row, col),
            None => None,
        }
    }
}

} // verus!
