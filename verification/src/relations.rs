//! The table that ties each grid to the window it shows.

use rustc_hash::FxHashMap;
use rustc_hash::FxHasher;
use std::hash::BuildHasherDefault;
use vstd::prelude::*;

verus! {

/// `rustc_hash::FxHasher`, the hasher of the table. Nothing is said of
/// what it holds.
#[verifier::external_type_specification]
#[verifier::external_body]
pub struct ExFxHasher(FxHasher);

/// `std::hash::BuildHasherDefault`, which makes the table's hashers.
/// Nothing is said of what it holds.
#[verifier::external_type_specification]
#[verifier::external_body]
#[verifier::reject_recursive_types(H)]
pub struct ExBuildHasherDefault<H>(BuildHasherDefault<H>);

/// The window that a grid shows.
#[derive(Clone, Copy, Debug, PartialEq, Eq, Structural)]
pub struct GridWindow {
    pub winid: u64,
}

impl Default for GridWindow {
    /// No window: the window of a grid that was not given to one.
    fn default() -> (window: GridWindow)
        ensures
            window == (GridWindow { winid: 0 }),
    {
        GridWindow { winid: 0 }
    }
}

/// The table in which no grid has a window.
pub open spec fn no_windows() -> Map<u64, GridWindow> {
    Map::empty()
}

/// What a grid's entry is in a table: its window, if it has one.
pub open spec fn window_of(table: Map<u64, GridWindow>, grid: u64) -> Option<GridWindow> {
    if table.contains_key(grid) {
        Some(table[grid])
    } else {
        None
    }
}

/// `FxHashMap::default`: the map it makes is empty.
#[verifier::external_body]
pub(crate) fn table_new() -> (table: FxHashMap<u64, GridWindow>)
    ensures
        table@ == no_windows(),
{
    FxHashMap::default()
}

/// `HashMap::insert` on a map hashed by `FxHasher`: the key maps to the
/// new value, the other keys keep theirs, and what the key mapped to
/// before is handed back.
#[verifier::external_body]
pub(crate) fn table_insert(
    table: &mut FxHashMap<u64, GridWindow>,
    grid: u64,
    window: GridWindow,
) -> (previous: Option<GridWindow>)
    ensures
        final(table)@ == old(table)@.insert(grid, window),
        previous == window_of(old(table)@, grid),
{
    table.insert(grid, window)
}

/// `HashMap::remove` on a map hashed by `FxHasher`: the key is gone, the
/// other keys keep their values, and what the key mapped to is handed
/// back.
#[verifier::external_body]
pub(crate) fn table_remove(table: &mut FxHashMap<u64, GridWindow>, grid: u64) -> (previous: Option<
    GridWindow,
>)
    ensures
        final(table)@ == old(table)@.remove(grid),
        previous == window_of(old(table)@, grid),
{
    table.remove(&grid)
}

/// `HashMap::get` on a map hashed by `FxHasher`: the value that the key
/// maps to, if it maps to one.
#[verifier::external_body]
pub(crate) fn table_get(table: &FxHashMap<u64, GridWindow>, grid: u64) -> (found: Option<GridWindow>)
    ensures
        found == window_of(table@, grid),
{
    table.get(&grid).copied()
}

} // verus!
