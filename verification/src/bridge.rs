//! The values that travel between the editor backend and the screen model.

use crate::cursor::CursorMode;
use crate::highlight::{Colors, Style};
use vstd::prelude::*;

verus! {

/// One item of a line update: a text, its style, and how many cells in a
/// row take it.
#[derive(Clone, Debug)]
pub struct GridLineCell {
    pub text: String,
    pub highlight_id: Option<u64>,
    pub repeat: Option<u64>,
    pub double_width: bool,
}

impl GridLineCell {
    /// How many cells the item fills: its repeat count, or one where none
    /// is given.
    pub open spec fn times(&self) -> nat {
        match self.repeat {
            Some(n) => n as nat,
            None => 1,
        }
    }
}


/// The corner of a floating grid that is pinned to its anchor.
#[derive(Clone, Copy, Debug, PartialEq, Eq, Structural)]
pub enum WindowAnchor {
    NorthWest,
    NorthEast,
    SouthWest,
    SouthEast,
}

/// The mode the editor is in.
#[derive(Clone, Copy, Debug, PartialEq, Eq, Structural)]
pub enum EditorMode {
    Normal,
    Insert,
    Visual,
    Replace,
    CmdLine,
    Unknown,
}

/// An option of the user interface that the backend sets.
#[derive(Clone, Debug)]
pub enum GuiOption {
    AmbiWidth(String),
    ArabicShape(bool),
    Emoji(bool),
    GuiFont(String),
    GuiFontSet(String),
    GuiFontWide(String),
    LineSpace(u64),
    Pumblend(u64),
    ShowTabLine(u64),
    TermGuiColors(bool),
    Unknown(String),
}

/// Where a window of the backend lies on the drawing surface, and how many
/// cells it has.
#[derive(Clone, Copy, Debug, PartialEq, Eq, Structural)]
pub struct WindowRectangle {
    pub x: i64,
    pub y: i64,
    pub width: usize,
    pub height: usize,
}

/// What kind of message the backend shows.
#[derive(Clone, Copy, Debug, PartialEq, Eq, Structural)]
pub enum MessageKind {
    Unknown,
    Confirm,
    ConfirmSubstitute,
    Error,
    Echo,
    EchoMessage,
    EchoError,
    LuaError,
    RpcError,
    ReturnPrompt,
    QuickFix,
    SearchCount,
    Warning,
}

/// A piece of a message: a text and the id of its style.
#[derive(Clone, Debug)]
pub struct StyledContent {
    pub style: u64,
    pub text: String,
}

/// One change of the screen, as the backend reports it.
///
/// An event that names a window carries what the backend answered when it
/// was asked about that window: `None` where the question failed.
#[derive(Clone, Debug)]
pub enum RedrawEvent {
    SetTitle { title: String },
    OptionSet { gui_option: GuiOption },
    DefaultColorsSet { colors: Colors },
    HighlightAttributesDefine { id: u64, style: Style },
    Clear { grid: u64 },
    GridLine { grid: u64, row: u64, column_start: u64, cells: Vec<GridLineCell> },
    Scroll { grid: u64, top: u64, bottom: u64, left: u64, right: u64, rows: i64, columns: i64 },
    Resize { grid: u64, width: u64, height: u64 },
    WindowPosition {
        grid: u64,
        window: Option<u64>,
        start_row: u64,
        start_column: u64,
        width: u64,
        height: u64,
    },
    WindowViewport {
        grid: u64,
        window: Option<u64>,
        rectangle: Option<WindowRectangle>,
        top_line: u64,
        bottom_line: u64,
        current_line: u64,
        current_column: u64,
        line_count: u64,
    },
    WindowHide { grid: u64 },
    WindowClose { grid: u64 },
    Destroy { grid: u64 },
    Flush,
    CursorGoto { grid: u64, row: u64, column: u64 },
    ModeInfoSet { cursor_modes: Vec<CursorMode> },
    ModeChange { mode: EditorMode, mode_index: u64 },
    BusyStart,
    BusyStop,
    MouseOn,
    MouseOff,
    WindowFloatPosition {
        grid: u64,
        anchor: WindowAnchor,
        anchor_grid: u64,
        anchor_row: i64,
        anchor_column: i64,
        focusable: bool,
        sort_order: Option<u64>,
    },
    MessageShow { kind: MessageKind, content: Vec<StyledContent>, replace_last: bool },
    /// Any other event: the screen model has no part in it.
    Unhandled,
}

/// A button of the mouse.
#[derive(Clone, Copy, Debug, PartialEq, Eq, Structural)]
pub enum MouseButton {
    Left,
    Right,
    Middle,
    Wheel,
}

/// The button that a pointer device reports under a number, if it is one
/// of the three that the backend knows by name.
pub open spec fn button_numbered(number: u32) -> Option<MouseButton> {
    if number == 1 {
        Some(MouseButton::Left)
    } else if number == 2 {
        Some(MouseButton::Middle)
    } else if number == 3 {
        Some(MouseButton::Right)
    } else {
        None
    }
}

impl MouseButton {
    /// The button that a pointer device reports under a number.
    pub fn from_number(number: u32) -> (button: Option<MouseButton>)
        ensures
            button == button_numbered(number),
    {
        match number {
            1 => Some(MouseButton::Left),
            2 => Some(MouseButton::Middle),
            3 => Some(MouseButton::Right),
            _ => None,
        }
    }
}

/// What a button did.
#[derive(Clone, Copy, Debug, PartialEq, Eq, Structural)]
pub enum MouseAction {
    Press,
    Drag,
    Release,
}

/// A cell of a grid, by column and row.
#[derive(Clone, Copy, Debug, PartialEq, Eq, Structural)]
pub struct CellPosition {
    pub column: u32,
    pub row: u32,
}

/// A command that the backend takes in the order in which it was given.
#[derive(Clone, Debug)]
pub enum SerialCommand {
    Keyboard(String),
    MouseButton {
        action: MouseAction,
        button: MouseButton,
        modifier: u32,
        grid_id: u64,
        position: CellPosition,
    },
    Scroll { direction: String, grid_id: u64, position: CellPosition, modifier: u32 },
    Drag { button: MouseButton, modifier: u32, grid_id: u64, position: CellPosition },
}

/// A command that the backend takes in any order.
#[derive(Clone, Debug)]
pub enum ParallelCommand {
    Quit,
    Resize { width: u64, height: u64 },
    FocusLost,
    FocusGained,
}

/// A command for the backend.
#[derive(Clone, Debug)]
pub enum UiCommand {
    Serial(SerialCommand),
    Parallel(ParallelCommand),
}

} // verus!
