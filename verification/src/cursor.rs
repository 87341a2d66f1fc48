//! The cursor: where it stands, what it covers and how it is drawn.

use crate::elements::{blank_cell, Cell, CellView};
use crate::highlight::{no_colors, plain, resolved, Colors, HighlightDefinitions, Style, StylesView};
use crate::pos::Position;
use vstd::prelude::*;

verus! {

/// The outline of the cursor.
#[derive(Clone, Copy, Debug, PartialEq, Eq, Structural)]
pub enum CursorShape {
    Block,
    Horizontal,
    Vertical,
    Unknown,
}

/// How the cursor looks in one mode of the editor.
#[derive(Clone, Copy, Debug, PartialEq, Eq, Structural)]
pub struct CursorMode {
    pub shape: CursorShape,
    pub style_id: Option<u64>,
    pub cell_percentage: u64,
    pub blinkwait: u64,
    pub blinkon: u64,
    pub blinkoff: u64,
}

impl CursorMode {
    /// The part of the cell that the cursor covers is a percentage.
    pub open spec fn wf(&self) -> bool {
        self.cell_percentage <= 100
    }

    /// The id of the style in which the cursor is drawn: the mode's own,
    /// or 0 where it names none.
    pub open spec fn style(&self) -> u64 {
        match self.style_id {
            Some(id) => id,
            None => 0,
        }
    }
}

/// Whether every mode of a table is well formed.
pub open spec fn modes_wf(modes: Seq<CursorMode>) -> bool {
    forall|i: int| 0 <= i < modes.len() ==> (#[trigger] modes[i]).wf()
}

/// What a cursor holds, as mathematical values.
pub struct CursorView {
    pub pos: Position,
    pub cell: CellView,
    pub shape: CursorShape,
    pub style: Style,
    pub cell_percentage: u64,
    pub blinkwait: u64,
    pub blinkon: u64,
    pub blinkoff: u64,
}

/// The cursor before anything was said of it: a block over a blank cell at
/// the origin, in the plain style, steady.
pub open spec fn initial_cursor() -> CursorView {
    CursorView {
        pos: Position { x: 0, y: 0 },
        cell: blank_cell(),
        shape: CursorShape::Block,
        style: plain(no_colors()),
        cell_percentage: 100,
        blinkwait: 0,
        blinkon: 0,
        blinkoff: 0,
    }
}

/// The cursor after it took the looks of `mode`, its style resolved
/// through `styles`. Where it stands and what it covers stay.
pub open spec fn in_mode(cursor: CursorView, mode: CursorMode, styles: StylesView) -> CursorView {
    CursorView {
        shape: mode.shape,
        style: resolved(styles, mode.style()),
        cell_percentage: mode.cell_percentage,
        blinkwait: mode.blinkwait,
        blinkon: mode.blinkon,
        blinkoff: mode.blinkoff,
        ..cursor
    }
}

/// The cursor.
pub struct Cursor {
    pos: Position,
    cell: Cell,
    shape: CursorShape,
    style: Style,
    cell_percentage: u64,
    blinkwait: u64,
    blinkon: u64,
    blinkoff: u64,
}

impl View for Cursor {
    type V = CursorView;

    closed spec fn view(&self) -> CursorView {
        CursorView {
            pos: self.pos,
            cell: self.cell@,
            shape: self.shape,
            style: self.style,
            cell_percentage: self.cell_percentage,
            blinkwait: self.blinkwait,
            blinkon: self.blinkon,
            blinkoff: self.blinkoff,
        }
    }
}

impl Cursor {
    pub fn new() -> (cursor: Cursor)
        ensures
            cursor@ == initial_cursor(),
    {
        Cursor {
            pos: Position { x: 0, y: 0 },
            cell: Cell::blank(),
            shape: CursorShape::Block,
            style: Style::new(Colors { foreground: None, background: None, special: None }),
            cell_percentage: 100,
            blinkwait: 0,
            blinkon: 0,
            blinkoff: 0,
        }
    }

    /// Moves the cursor.
    pub fn set_pos(&mut self, x: i64, y: i64)
        ensures
            final(self)@ == (CursorView { pos: Position { x, y }, ..old(self)@ }),
    {
        self.pos = Position { x, y };
    }

    /// Records the cell that the cursor covers.
    pub fn set_cell(&mut self, cell: Cell)
        ensures
            final(self)@ == (CursorView { cell: cell@, ..old(self)@ }),
    {
        self.cell = cell;
    }

    /// Gives the cursor the looks of a mode.
    pub fn change_mode(&mut self, mode: &CursorMode, styles: &HighlightDefinitions)
        ensures
            final(self)@ == in_mode(old(self)@, *mode, styles@),
    {
        let id = match mode.style_id {
            Some(id) => id,
            None => 0,
        };
        self.shape = mode.shape;
        self.style = styles.resolve(id);
        self.cell_percentage = mode.cell_percentage;
        self.blinkwait = mode.blinkwait;
        self.blinkon = mode.blinkon;
        self.blinkoff = mode.blinkoff;
    }

    /// Where the cursor stands.
    pub fn pos(&self) -> (pos: (i64, i64))
        ensures
            pos == (self@.pos.x, self@.pos.y),
    {
        (self.pos.x, self.pos.y)
    }

    /// The cell that the cursor covers.
    pub fn cell(&self) -> (cell: &Cell)
        ensures
            cell@ == self@.cell,
    {
        &self.cell
    }

    /// The outline of the cursor.
    pub fn shape(&self) -> (shape: CursorShape)
        ensures
            shape == self@.shape,
    {
        self.shape
    }

    /// The style in which the cursor is drawn.
    pub fn style(&self) -> (style: Style)
        ensures
            style == self@.style,
    {
        self.style
    }

    /// The part of its cell that the cursor covers, in percent.
    pub fn cell_percentage(&self) -> (part: u64)
        ensures
            part == self@.cell_percentage,
    {
        self.cell_percentage
    }

    /// The blink timings: the wait before blinking, then the time shown
    /// and the time hidden.
    pub fn blink(&self) -> (timings: (u64, u64, u64))
        ensures
            timings == (self@.blinkwait, self@.blinkon, self@.blinkoff),
    {
        (self.blinkwait, self.blinkon, self.blinkoff)
    }
}

} // verus!
