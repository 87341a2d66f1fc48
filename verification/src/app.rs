//! The screen model and the applier that keeps it in step with the
//! backend's events.

use crate::bridge::{
    EditorMode, GridLineCell, GuiOption, MessageKind, RedrawEvent, StyledContent, UiCommand,
    WindowAnchor, WindowRectangle,
};
use crate::cursor::{modes_wf, Cursor, CursorMode};
use crate::elements::{segment_views, Line, Segment, SegmentView};
use crate::grid::GridEdit;
use crate::highlight::{HighlightDefinitions, Style};
use crate::metrics::Metrics;
use crate::model::{
    answer, applied, column_x, consistent, initial_model, live, next, next_model, outcome_of,
    row_y, settled, text_of, without, ModelView,
};
use crate::pos::{holdable, shift, Position};
use crate::rect::Rectangle;
use crate::registry::{with_edit, GridRegistry};
use crate::text::{show_title, trim};
use vstd::prelude::*;

verus! {

/// The grid that has the focus where no other has it.
pub const DEFAULT_GRID: u64 = 1;

/// What the model is started with.
#[derive(Clone, Debug)]
pub struct Opts {
    pub title: String,
    pub width: i32,
    pub height: i32,
}

/// What the applier takes: the order to stop, a command on its way to the
/// backend, or a change of the screen.
#[derive(Clone, Debug)]
pub enum AppMessage {
    Quit,
    UiCommand(UiCommand),
    RedrawEvent(RedrawEvent),
}

impl From<UiCommand> for AppMessage {
    fn from(cmd: UiCommand) -> (message: AppMessage) {
        AppMessage::UiCommand(cmd)
    }
}

impl vstd::std_specs::convert::FromSpecImpl<UiCommand> for AppMessage {
    open spec fn obeys_from_spec() -> bool {
        true
    }

    open spec fn from_spec(cmd: UiCommand) -> AppMessage {
        AppMessage::UiCommand(cmd)
    }
}

/// A message that the backend shows.
#[derive(Clone, Debug)]
pub struct VimMessage {
    pub kind: MessageKind,
    pub content: Vec<StyledContent>,
}

impl VimMessage {
    pub fn new(kind: MessageKind, content: Vec<StyledContent>) -> (message: VimMessage)
        ensures
            message == (VimMessage { kind, content }),
    {
        VimMessage { kind, content }
    }

    pub fn kind(&self) -> (kind: MessageKind)
        ensures
            kind == self.kind,
    {
        self.kind
    }
}

/// Why an event was turned down.
#[derive(Clone, Copy, Debug, PartialEq, Eq, Structural)]
pub enum Fault {
    /// The event names a grid that is not live.
    UnknownGrid,
    /// A floating grid is to be placed by an anchor grid that is not live.
    MissingAnchor,
    /// A line does not fit the row it is meant for, or leaves a style out.
    BadLine,
    /// The cursor is sent to a cell that its grid does not have.
    OutOfBounds,
    /// The backend could not say which window is meant, or where it lies.
    QueryFailed,
    /// A scroll that moves neither rows nor columns, or both.
    MalformedScroll,
    /// A scroll that moves columns.
    HorizontalScroll,
    /// A size of zero, or a size or place that cannot be held.
    MalformedGeometry,
    /// A mode that the table of cursor modes does not have.
    BadModeIndex,
    /// A cursor mode that covers more than the whole cell.
    BadCursorMode,
}

/// What the applier made of a message, and what is left for the caller to
/// do.
#[derive(Debug)]
pub enum Outcome {
    /// Stop.
    Quit,
    /// Send the command on to the backend as it is.
    Forward(UiCommand),
    /// The model took the event.
    Applied,
    /// The model took a line; these are the segments to draw anew.
    Drawn(Vec<Segment>),
    /// The model took a new font: measure it and hand in the metrics.
    FontChanged,
    /// The events since the last flush make a whole: paint.
    Flush,
    /// The model has no part in the event.
    Ignored,
    /// The model turned the event down and is as it was.
    Rejected(Fault),
}

/// An outcome, as mathematical values.
pub enum OutcomeView {
    Quit,
    Forward(UiCommand),
    Applied,
    Drawn(Seq<SegmentView>),
    FontChanged,
    Flush,
    Ignored,
    Rejected(Fault),
}

impl View for Outcome {
    type V = OutcomeView;

    open spec fn view(&self) -> OutcomeView {
        match self {
            Outcome::Quit => OutcomeView::Quit,
            Outcome::Forward(command) => OutcomeView::Forward(*command),
            Outcome::Applied => OutcomeView::Applied,
            Outcome::Drawn(segs) => OutcomeView::Drawn(segment_views(segs@)),
            Outcome::FontChanged => OutcomeView::FontChanged,
            Outcome::Flush => OutcomeView::Flush,
            Outcome::Ignored => OutcomeView::Ignored,
            Outcome::Rejected(fault) => OutcomeView::Rejected(*fault),
        }
    }
}

/// The screen model.
pub struct AppModel {
    title: String,
    default_width: i32,
    default_height: i32,
    guifont: Option<String>,
    guifontset: Option<String>,
    guifontwide: Option<String>,
    metrics: Metrics,
    show_tab_line: Option<u64>,
    font_changed: bool,
    mode: EditorMode,
    mouse_on: bool,
    cursor: Cursor,
    cursor_mode: usize,
    cursor_modes: Vec<CursorMode>,
    cursor_redraw: bool,
    hldefs: HighlightDefinitions,
    focused: u64,
    background_changed: bool,
    vgrids: GridRegistry,
    messages: Vec<VimMessage>,
    active_grid: u64,
}

impl View for AppModel {
    type V = ModelView;

    closed spec fn view(&self) -> ModelView {
        ModelView {
            title: self.title@,
            default_width: self.default_width,
            default_height: self.default_height,
            guifont: text_of(self.guifont),
            guifontset: text_of(self.guifontset),
            guifontwide: text_of(self.guifontwide),
            metrics: self.metrics,
            show_tab_line: self.show_tab_line,
            font_changed: self.font_changed,
            mode: self.mode,
            mouse_on: self.mouse_on,
            cursor: self.cursor@,
            cursor_mode: self.cursor_mode,
            cursor_modes: self.cursor_modes@,
            cursor_redraw: self.cursor_redraw,
            styles: self.hldefs@,
            focused: self.focused,
            background_changed: self.background_changed,
            registry: self.vgrids@,
            messages: self.messages@,
            active_grid: self.active_grid,
        }
    }
}

impl AppModel {
    /// The registry is well formed, and so is every cursor mode.
    pub closed spec fn wf(&self) -> bool {
        self.vgrids.wf() && modes_wf(self.cursor_modes@)
    }

    /// A well-formed model is consistent.
    pub proof fn lemma_consistent(&self)
        requires
            self.wf(),
        ensures
            consistent(self@),
    {
        self.vgrids.lemma_consistent();
    }

    /// Makes a model with no grid in it.
    pub fn new(opts: Opts) -> (model: AppModel)
        ensures
            model.wf(),
            model@ == initial_model(opts),
    {
        let model = AppModel {
            title: opts.title,
            default_width: opts.width,
            default_height: opts.height,
            guifont: None,
            guifontset: None,
            guifontwide: None,
            metrics: Metrics::new(),
            show_tab_line: None,
            font_changed: false,
            mode: EditorMode::Normal,
            mouse_on: false,
            cursor: Cursor::new(),
            cursor_mode: 0,
            cursor_modes: Vec::new(),
            cursor_redraw: false,
            hldefs: HighlightDefinitions::new(),
            focused: DEFAULT_GRID,
            background_changed: false,
            vgrids: GridRegistry::new(),
            messages: Vec::new(),
            active_grid: 0,
        };
        assert(model@ =~= initial_model(opts));
        model
    }

    /// The live grids.
    pub fn vgrids(&self) -> (grids: &GridRegistry)
        ensures
            grids@ == self@.registry,
            self.wf() ==> grids.wf(),
    {
        &self.vgrids
    }

    /// The table of styles.
    pub fn hldefs(&self) -> (styles: &HighlightDefinitions)
        ensures
            styles@ == self@.styles,
    {
        &self.hldefs
    }

    /// The cursor.
    pub fn cursor(&self) -> (cursor: &Cursor)
        ensures
            cursor@ == self@.cursor,
    {
        &self.cursor
    }

    /// The size of a cell.
    pub fn metrics(&self) -> (metrics: Metrics)
        ensures
            metrics == self@.metrics,
    {
        self.metrics
    }

    /// The title of the window.
    pub fn title(&self) -> (title: &String)
        ensures
            title@ == self@.title,
    {
        &self.title
    }

    /// The grid that has the focus.
    pub fn focused(&self) -> (grid: u64)
        ensures
            grid == self@.focused,
    {
        self.focused
    }

    /// The mode the editor is in.
    pub fn mode(&self) -> (mode: EditorMode)
        ensures
            mode == self@.mode,
    {
        self.mode
    }

    /// Whether the backend takes the mouse.
    pub fn mouse_on(&self) -> (on: bool)
        ensures
            on == self@.mouse_on,
    {
        self.mouse_on
    }

    /// The cursor mode in use, as an index into the table of modes.
    pub fn cursor_mode(&self) -> (index: usize)
        ensures
            index == self@.cursor_mode,
    {
        self.cursor_mode
    }

    /// The table of cursor modes.
    pub fn cursor_modes(&self) -> (modes: &Vec<CursorMode>)
        ensures
            modes@ == self@.cursor_modes,
    {
        &self.cursor_modes
    }

    /// The grid that the pointer is over, or 0 while it has not entered
    /// one.
    pub fn active_grid(&self) -> (grid: u64)
        ensures
            grid == self@.active_grid,
    {
        self.active_grid
    }

    /// Takes note that the pointer entered a grid.
    pub fn set_active_grid(&mut self, grid: u64)
        ensures
            final(self).wf() == old(self).wf(),
            final(self)@ == (ModelView { active_grid: grid, ..old(self)@ }),
    {
        self.active_grid = grid;
    }

    /// The messages that are shown, the latest last.
    pub fn messages(&self) -> (messages: &Vec<VimMessage>)
        ensures
            messages@ == self@.messages,
    {
        &self.messages
    }

    /// The font that the backend asked for, if it asked for one.
    pub fn guifont(&self) -> (font: &Option<String>)
        ensures
            text_of(*font) == self@.guifont,
    {
        &self.guifont
    }

    /// The fonts that the backend asked for in place of missing glyphs,
    /// if it asked for any.
    pub fn guifontset(&self) -> (font: &Option<String>)
        ensures
            text_of(*font) == self@.guifontset,
    {
        &self.guifontset
    }

    /// The font that the backend asked for for wide characters, if it
    /// asked for one.
    pub fn guifontwide(&self) -> (font: &Option<String>)
        ensures
            text_of(*font) == self@.guifontwide,
    {
        &self.guifontwide
    }

    /// The width that the window is made with.
    pub fn default_width(&self) -> (width: i32)
        ensures
            width == self@.default_width,
    {
        self.default_width
    }

    /// The height that the window is made with.
    pub fn default_height(&self) -> (height: i32)
        ensures
            height == self@.default_height,
    {
        self.default_height
    }

    /// Whether the tab line is shown, as the backend set it.
    pub fn show_tab_line(&self) -> (show: Option<u64>)
        ensures
            show == self@.show_tab_line,
    {
        self.show_tab_line
    }

    /// Whether an event that shows a window in a grid needs to know where
    /// the window lies: it does where the grid is not live.
    pub fn needs_rectangle(&self, grid: u64) -> (needed: bool)
        ensures
            needed == !live(self@, grid),
    {
        !self.vgrids.contains(grid)
    }

    /// Takes in what a measured font makes of a cell. The line space
    /// stays.
    pub fn set_metrics(&mut self, charwidth: u32, charheight: u32)
        ensures
            final(self).wf() == old(self).wf(),
            final(self)@ == (ModelView {
                metrics: Metrics { charwidth, charheight, ..old(self)@.metrics },
                ..old(self)@
            }),
    {
        self.metrics = Metrics { charwidth, charheight, linespace: self.metrics.linespace };
    }

    /// Tells whether the background changed since this was last asked.
    pub fn take_background_changed(&mut self) -> (changed: bool)
        ensures
            final(self).wf() == old(self).wf(),
            changed == old(self)@.background_changed,
            final(self)@ == (ModelView { background_changed: false, ..old(self)@ }),
    {
        let changed = self.background_changed;
        self.background_changed = false;
        changed
    }

    /// Tells whether the cursor is to be drawn anew since this was last
    /// asked.
    pub fn take_cursor_redraw(&mut self) -> (changed: bool)
        ensures
            final(self).wf() == old(self).wf(),
            changed == old(self)@.cursor_redraw,
            final(self)@ == (ModelView { cursor_redraw: false, ..old(self)@ }),
    {
        let changed = self.cursor_redraw;
        self.cursor_redraw = false;
        changed
    }

    /// Tells whether the font changed since this was last asked.
    pub fn take_font_changed(&mut self) -> (changed: bool)
        ensures
            final(self).wf() == old(self).wf(),
            changed == old(self)@.font_changed,
            final(self)@ == (ModelView { font_changed: false, ..old(self)@ }),
    {
        let changed = self.font_changed;
        self.font_changed = false;
        changed
    }
}


impl AppModel {
    /// Sets the font that the backend asked for, unless its name is
    /// blank. `is_blank` says whether it is.
    pub fn set_guifont(&mut self, guifont: String, is_blank: bool) -> (outcome: Outcome)
        ensures
            final(self).wf() == old(self).wf(),
            is_blank ==> final(self)@ == old(self)@ && outcome@ == OutcomeView::Ignored,
            !is_blank ==> final(self)@ == (ModelView {
                guifont: Some(guifont@),
                font_changed: true,
                ..old(self)@
            }) && outcome@ == OutcomeView::FontChanged,
    {
        if is_blank {
            Outcome::Ignored
        } else {
            self.guifont = Some(guifont);
            self.font_changed = true;
            Outcome::FontChanged
        }
    }

    fn on_option(&mut self, gui_option: GuiOption) -> (outcome: Outcome)
        requires
            old(self).wf(),
        ensures
            final(self).wf(),
            settled(old(self)@, final(self)@, outcome@, RedrawEvent::OptionSet { gui_option }),
    {
        match gui_option {
            GuiOption::GuiFont(guifont) => {
                let is_blank = trim(guifont.as_str()).is_empty();
                self.set_guifont(guifont, is_blank)
            },
            GuiOption::GuiFontSet(guifontset) => {
                self.guifontset = Some(guifontset);
                Outcome::Applied
            },
            GuiOption::GuiFontWide(guifontwide) => {
                self.guifontwide = Some(guifontwide);
                Outcome::Applied
            },
            GuiOption::LineSpace(linespace) => {
                if linespace > u32::MAX as u64 {
                    Outcome::Rejected(Fault::MalformedGeometry)
                } else {
                    self.metrics = Metrics {
                        charwidth: self.metrics.charwidth,
                        charheight: self.metrics.charheight,
                        linespace: linespace as u32,
                    };
                    Outcome::Applied
                }
            },
            GuiOption::ShowTabLine(show_tab_line) => {
                self.show_tab_line = Some(show_tab_line);
                Outcome::Applied
            },
            GuiOption::AmbiWidth(_) => Outcome::Ignored,
            GuiOption::ArabicShape(_) => Outcome::Ignored,
            GuiOption::Emoji(_) => Outcome::Ignored,
            GuiOption::TermGuiColors(_) => Outcome::Ignored,
            GuiOption::Pumblend(_) => Outcome::Ignored,
            GuiOption::Unknown(_) => Outcome::Ignored,
        }
    }

    fn on_edit(&mut self, grid: u64, edit: GridEdit) -> (outcome: Outcome)
        requires
            old(self).wf(),
        ensures
            final(self).wf(),
            live(old(self)@, grid) ==> outcome@ == OutcomeView::Applied && final(self)@ == (ModelView {
                registry: with_edit(old(self)@.registry, grid, edit),
                ..old(self)@
            }),
            !live(old(self)@, grid) ==> outcome@ == OutcomeView::Rejected(Fault::UnknownGrid)
                && final(self)@ == old(self)@,
    {
        if self.vgrids.edit(grid, edit) {
            Outcome::Applied
        } else {
            Outcome::Rejected(Fault::UnknownGrid)
        }
    }

    fn on_grid_line(&mut self, grid: u64, row: u64, column_start: u64, cells: Vec<GridLineCell>) -> (outcome: Outcome)
        requires
            old(self).wf(),
        ensures
            final(self).wf(),
            settled(
                old(self)@,
                final(self)@,
                outcome@,
                RedrawEvent::GridLine { grid, row, column_start, cells },
            ),
    {
        if !self.vgrids.contains(grid) {
            return Outcome::Rejected(Fault::UnknownGrid);
        }
        let line = Line::new(grid, row, column_start, cells);
        if !self.vgrids.accepts(&line) {
            return Outcome::Rejected(Fault::BadLine);
        }
        Outcome::Drawn(self.vgrids.set_cells(line))
    }

    fn on_scroll(&mut self, grid: u64, rows: i64, columns: i64) -> (outcome: Outcome)
        requires
            old(self).wf(),
        ensures
            final(self).wf(),
            forall|top: u64, bottom: u64, left: u64, right: u64|
                #[trigger] settled(
                    old(self)@,
                    final(self)@,
                    outcome@,
                    RedrawEvent::Scroll { grid, top, bottom, left, right, rows, columns },
                ),
    {
        if !self.vgrids.contains(grid) {
            return Outcome::Rejected(Fault::UnknownGrid);
        }
        if (rows == 0) == (columns == 0) {
            return Outcome::Rejected(Fault::MalformedScroll);
        }
        if rows == 0 {
            return Outcome::Rejected(Fault::HorizontalScroll);
        }
        let size: u64 = if rows > 0 {
            rows as u64
        } else {
            (-(rows + 1)) as u64 + 1
        };
        let amount: usize = if size > usize::MAX as u64 {
            usize::MAX
        } else {
            size as usize
        };
        if rows > 0 {
            self.on_edit(grid, GridEdit::Up { rows: amount })
        } else {
            self.on_edit(grid, GridEdit::Down { rows: amount })
        }
    }

    fn on_resize(&mut self, grid: u64, width: u64, height: u64) -> (outcome: Outcome)
        requires
            old(self).wf(),
        ensures
            final(self).wf(),
            settled(old(self)@, final(self)@, outcome@, RedrawEvent::Resize { grid, width, height }),
    {
        if width == 0 || height == 0 || width > usize::MAX as u64 || height > usize::MAX as u64 {
            return Outcome::Rejected(Fault::MalformedGeometry);
        }
        self.focused = grid;
        let edit = GridEdit::Resize { width: width as usize, height: height as usize };
        if !self.vgrids.edit(grid, edit) {
            self.vgrids.create(
                grid,
                0,
                Position::new(0, 0),
                Rectangle::new(width as usize, height as usize),
            );
        }
        Outcome::Applied
    }

    /// The device position of a cell that lies `column` columns and `row`
    /// rows from `origin`, where it can be held.
    fn device_position(&self, origin: Position, column: i128, row: i128) -> (pos: Option<Position>)
        requires
            -0x4_0000_0000_0000_0000 <= column <= 0x4_0000_0000_0000_0000,
            -0x4_0000_0000_0000_0000 <= row <= 0x4_0000_0000_0000_0000,
        ensures
            holdable(column_x(self@, origin.x as int, column as int)) && holdable(
                row_y(self@, origin.y as int, row as int),
            ) ==> pos == Some(
                Position {
                    x: column_x(self@, origin.x as int, column as int) as i64,
                    y: row_y(self@, origin.y as int, row as int) as i64,
                },
            ),
            !(holdable(column_x(self@, origin.x as int, column as int)) && holdable(
                row_y(self@, origin.y as int, row as int),
            )) ==> pos is None,
    {
        let x = shift(origin.x, column, self.metrics.width());
        let y = shift(origin.y, row, self.metrics.height());
        match (x, y) {
            (Some(x), Some(y)) => Some(Position { x, y }),
            _ => None,
        }
    }

    fn on_window_position(
        &mut self,
        grid: u64,
        window: Option<u64>,
        start_row: u64,
        start_column: u64,
        width: u64,
        height: u64,
    ) -> (outcome: Outcome)
        requires
            old(self).wf(),
        ensures
            final(self).wf(),
            settled(
                old(self)@,
                final(self)@,
                outcome@,
                RedrawEvent::WindowPosition { grid, window, start_row, start_column, width, height },
            ),
    {
        let winid = match window {
            Some(winid) => winid,
            None => {
                return Outcome::Rejected(Fault::QueryFailed);
            },
        };
        if width == 0 || height == 0 || width > usize::MAX as u64 || height > usize::MAX as u64 {
            return Outcome::Rejected(Fault::MalformedGeometry);
        }
        let origin = Position::new(0, 0);
        let pos = match self.device_position(origin, start_column as i128, start_row as i128) {
            Some(pos) => pos,
            None => {
                return Outcome::Rejected(Fault::MalformedGeometry);
            },
        };
        self.focused = grid;
        let edit = GridEdit::Resize { width: width as usize, height: height as usize };
        if self.vgrids.edit(grid, edit) {
            self.vgrids.edit(grid, GridEdit::Move { pos });
            self.vgrids.edit(grid, GridEdit::Show);
            self.vgrids.set_window(grid, winid);
        } else {
            self.vgrids.create(grid, winid, pos, Rectangle::new(width as usize, height as usize));
        }
        Outcome::Applied
    }

    fn on_window_viewport(
        &mut self,
        grid: u64,
        window: Option<u64>,
        rectangle: Option<WindowRectangle>,
    ) -> (outcome: Outcome)
        requires
            old(self).wf(),
        ensures
            final(self).wf(),
            forall|
                top_line: u64,
                bottom_line: u64,
                current_line: u64,
                current_column: u64,
                line_count: u64,
            |
                #[trigger] settled(
                    old(self)@,
                    final(self)@,
                    outcome@,
                    RedrawEvent::WindowViewport {
                        grid,
                        window,
                        rectangle,
                        top_line,
                        bottom_line,
                        current_line,
                        current_column,
                        line_count,
                    },
                ),
    {
        let winid = match window {
            Some(winid) => winid,
            None => {
                return Outcome::Rejected(Fault::QueryFailed);
            },
        };
        if self.vgrids.edit(grid, GridEdit::Show) {
            self.vgrids.set_window(grid, winid);
            return Outcome::Applied;
        }
        let rect = match rectangle {
            Some(rect) => rect,
            None => {
                return Outcome::Rejected(Fault::QueryFailed);
            },
        };
        if rect.width == 0 || rect.height == 0 {
            return Outcome::Rejected(Fault::MalformedGeometry);
        }
        self.vgrids.create(
            grid,
            winid,
            Position::new(rect.x, rect.y),
            Rectangle::new(rect.width, rect.height),
        );
        Outcome::Applied
    }

    fn on_remove(&mut self, grid: u64) -> (outcome: Outcome)
        requires
            old(self).wf(),
        ensures
            final(self).wf(),
            live(old(self)@, grid) ==> outcome@ == OutcomeView::Applied && final(self)@ == without(
                old(self)@,
                grid,
            ),
            !live(old(self)@, grid) ==> outcome@ == OutcomeView::Rejected(Fault::UnknownGrid)
                && final(self)@ == old(self)@,
    {
        if !self.vgrids.contains(grid) {
            return Outcome::Rejected(Fault::UnknownGrid);
        }
        if self.focused == grid {
            self.focused = DEFAULT_GRID;
        }
        self.vgrids.remove(grid);
        Outcome::Applied
    }

    fn on_cursor_goto(&mut self, grid: u64, row: u64, column: u64) -> (outcome: Outcome)
        requires
            old(self).wf(),
        ensures
            final(self).wf(),
            settled(old(self)@, final(self)@, outcome@, RedrawEvent::CursorGoto { grid, row, column }),
    {
        let origin = match self.vgrids.get(grid) {
            Some(vgrid) => *vgrid.pos(),
            None => {
                return Outcome::Rejected(Fault::UnknownGrid);
            },
        };
        if row > usize::MAX as u64 || column > usize::MAX as u64 {
            return Outcome::Rejected(Fault::OutOfBounds);
        }
        let cell = match self.vgrids.cell(grid, row as usize, column as usize) {
            Some(cell) => cell,
            None => {
                return Outcome::Rejected(Fault::OutOfBounds);
            },
        };
        let pos = match self.device_position(origin, column as i128, row as i128) {
            Some(pos) => pos,
            None => {
                return Outcome::Rejected(Fault::MalformedGeometry);
            },
        };
        self.cursor.set_pos(pos.x, pos.y);
        self.cursor.set_cell(cell);
        self.cursor_redraw = true;
        assert(self@ =~= applied(old(self)@, RedrawEvent::CursorGoto { grid, row, column }));
        Outcome::Applied
    }

    fn on_mode_info_set(&mut self, cursor_modes: Vec<CursorMode>) -> (outcome: Outcome)
        requires
            old(self).wf(),
        ensures
            final(self).wf(),
            settled(old(self)@, final(self)@, outcome@, RedrawEvent::ModeInfoSet { cursor_modes }),
    {
        let mut i: usize = 0;
        while i < cursor_modes.len()
            invariant
                i <= cursor_modes@.len(),
                forall|k: int| 0 <= k < i ==> (#[trigger] cursor_modes@[k]).wf(),
                self.wf(),
                self@ == old(self)@,
            decreases cursor_modes@.len() - i,
        {
            if cursor_modes[i].cell_percentage > 100 {
                assert(!cursor_modes@[i as int].wf());
                return Outcome::Rejected(Fault::BadCursorMode);
            }
            i += 1;
        }
        self.cursor_modes = cursor_modes;
        self.cursor_redraw = true;
        if self.cursor_mode < self.cursor_modes.len() {
            let mode = self.cursor_modes[self.cursor_mode];
            self.cursor.change_mode(&mode, &self.hldefs);
        }
        assert(self@ =~= applied(old(self)@, RedrawEvent::ModeInfoSet { cursor_modes }));
        Outcome::Applied
    }

    fn on_mode_change(&mut self, mode: EditorMode, mode_index: u64) -> (outcome: Outcome)
        requires
            old(self).wf(),
        ensures
            final(self).wf(),
            settled(old(self)@, final(self)@, outcome@, RedrawEvent::ModeChange { mode, mode_index }),
    {
        if mode_index >= self.cursor_modes.len() as u64 {
            return Outcome::Rejected(Fault::BadModeIndex);
        }
        self.mode = mode;
        self.cursor_mode = mode_index as usize;
        self.cursor_redraw = true;
        let cursor_mode = self.cursor_modes[self.cursor_mode];
        self.cursor.change_mode(&cursor_mode, &self.hldefs);
        Outcome::Applied
    }

    fn on_window_float_position(
        &mut self,
        grid: u64,
        anchor: WindowAnchor,
        anchor_grid: u64,
        anchor_row: i64,
        anchor_column: i64,
        focusable: bool,
    ) -> (outcome: Outcome)
        requires
            old(self).wf(),
        ensures
            final(self).wf(),
            forall|sort_order: Option<u64>|
                #[trigger] settled(
                    old(self)@,
                    final(self)@,
                    outcome@,
                    RedrawEvent::WindowFloatPosition {
                        grid,
                        anchor,
                        anchor_grid,
                        anchor_row,
                        anchor_column,
                        focusable,
                        sort_order,
                    },
                ),
    {
        let base = match self.vgrids.get(anchor_grid) {
            Some(vgrid) => *vgrid.pos(),
            None => {
                return Outcome::Rejected(Fault::MissingAnchor);
            },
        };
        let (width, height) = match self.vgrids.get(grid) {
            Some(vgrid) => (vgrid.width(), vgrid.height()),
            None => {
                return Outcome::Rejected(Fault::UnknownGrid);
            },
        };
        let column: i128 = match anchor {
            WindowAnchor::NorthWest => anchor_column as i128,
            WindowAnchor::NorthEast => anchor_column as i128 - width as i128,
            WindowAnchor::SouthWest => anchor_column as i128,
            WindowAnchor::SouthEast => anchor_column as i128 - width as i128,
        };
        let row: i128 = match anchor {
            WindowAnchor::NorthWest => anchor_row as i128,
            WindowAnchor::NorthEast => anchor_row as i128,
            WindowAnchor::SouthWest => anchor_row as i128 - height as i128,
            WindowAnchor::SouthEast => anchor_row as i128 - height as i128,
        };
        let pos = match self.device_position(base, column, row) {
            Some(pos) => pos,
            None => {
                return Outcome::Rejected(Fault::MalformedGeometry);
            },
        };
        self.vgrids.edit(grid, GridEdit::Move { pos });
        self.vgrids.edit(grid, GridEdit::Float { focusable });
        Outcome::Applied
    }

    /// Applies one event to the model.
    #[verifier::rlimit(50)]
    pub fn redraw(&mut self, event: RedrawEvent) -> (outcome: Outcome)
        requires
            old(self).wf(),
        ensures
            final(self).wf(),
            final(self)@ == next(old(self)@, event),
            outcome@ == answer(old(self)@, event),
    {
        let ghost given = event;
        match event {
            RedrawEvent::SetTitle { title } => {
                self.title = show_title(title.as_str());
                assert(self@ =~= applied(old(self)@, given));
                Outcome::Applied
            },
            RedrawEvent::OptionSet { gui_option } => {
                let outcome = self.on_option(gui_option);
                assert(settled(old(self)@, self@, outcome@, given));
                outcome
            },
            RedrawEvent::DefaultColorsSet { colors } => {
                self.background_changed = true;
                self.hldefs.set_defaults(Style::new(colors));
                assert(self@ =~= applied(old(self)@, given));
                Outcome::Applied
            },
            RedrawEvent::HighlightAttributesDefine { id, style } => {
                self.hldefs.set(id, style);
                assert(self@ =~= applied(old(self)@, given));
                Outcome::Applied
            },
            RedrawEvent::Clear { grid } => {
                let outcome = self.on_edit(grid, GridEdit::Clear);
                assert(settled(old(self)@, self@, outcome@, given));
                outcome
            },
            RedrawEvent::GridLine { grid, row, column_start, cells } => {
                let outcome = self.on_grid_line(grid, row, column_start, cells);
                assert(settled(old(self)@, self@, outcome@, given));
                outcome
            },
            RedrawEvent::Scroll { grid, top, bottom, left, right, rows, columns } => {
                let outcome = self.on_scroll(grid, rows, columns);
                assert(given == RedrawEvent::Scroll { grid, top, bottom, left, right, rows, columns });
                assert(settled(old(self)@, self@, outcome@, given));
                outcome
            },
            RedrawEvent::Resize { grid, width, height } => {
                let outcome = self.on_resize(grid, width, height);
                assert(settled(old(self)@, self@, outcome@, given));
                outcome
            },
            RedrawEvent::WindowPosition {
                grid,
                window,
                start_row,
                start_column,
                width,
                height,
            } => {
                let outcome = self.on_window_position(
                    grid,
                    window,
                    start_row,
                    start_column,
                    width,
                    height,
                );
                assert(settled(old(self)@, self@, outcome@, given));
                outcome
            },
            RedrawEvent::WindowViewport {
                grid,
                window,
                rectangle,
                top_line,
                bottom_line,
                current_line,
                current_column,
                line_count,
            } => {
                let outcome = self.on_window_viewport(grid, window, rectangle);
                assert(given == RedrawEvent::WindowViewport {
                    grid,
                    window,
                    rectangle,
                    top_line,
                    bottom_line,
                    current_line,
                    current_column,
                    line_count,
                });
                assert(settled(old(self)@, self@, outcome@, given));
                outcome
            },
            RedrawEvent::WindowHide { grid } => {
                let outcome = self.on_edit(grid, GridEdit::Conceal);
                assert(settled(old(self)@, self@, outcome@, given));
                outcome
            },
            RedrawEvent::WindowClose { grid } => {
                let outcome = self.on_remove(grid);
                assert(settled(old(self)@, self@, outcome@, given));
                outcome
            },
            RedrawEvent::Destroy { grid } => {
                let outcome = self.on_remove(grid);
                assert(settled(old(self)@, self@, outcome@, given));
                outcome
            },
            RedrawEvent::Flush => Outcome::Flush,
            RedrawEvent::CursorGoto { grid, row, column } => {
                let outcome = self.on_cursor_goto(grid, row, column);
                assert(settled(old(self)@, self@, outcome@, given));
                outcome
            },
            RedrawEvent::ModeInfoSet { cursor_modes } => {
                let outcome = self.on_mode_info_set(cursor_modes);
                assert(settled(old(self)@, self@, outcome@, given));
                outcome
            },
            RedrawEvent::ModeChange { mode, mode_index } => {
                let outcome = self.on_mode_change(mode, mode_index);
                assert(settled(old(self)@, self@, outcome@, given));
                outcome
            },
            RedrawEvent::BusyStart => Outcome::Ignored,
            RedrawEvent::BusyStop => Outcome::Ignored,
            RedrawEvent::MouseOn => {
                self.mouse_on = true;
                assert(self@ =~= applied(old(self)@, given));
                Outcome::Applied
            },
            RedrawEvent::MouseOff => {
                self.mouse_on = false;
                assert(self@ =~= applied(old(self)@, given));
                Outcome::Applied
            },
            RedrawEvent::WindowFloatPosition {
                grid,
                anchor,
                anchor_grid,
                anchor_row,
                anchor_column,
                focusable,
                sort_order,
            } => {
                let outcome = self.on_window_float_position(
                    grid,
                    anchor,
                    anchor_grid,
                    anchor_row,
                    anchor_column,
                    focusable,
                );
                assert(given == RedrawEvent::WindowFloatPosition {
                    grid,
                    anchor,
                    anchor_grid,
                    anchor_row,
                    anchor_column,
                    focusable,
                    sort_order,
                });
                assert(settled(old(self)@, self@, outcome@, given));
                outcome
            },
            RedrawEvent::MessageShow { kind, content, replace_last } => {
                if replace_last && self.messages.len() > 0 {
                    self.messages.pop();
                }
                self.messages.push(VimMessage::new(kind, content));
                assert(self@ =~= applied(old(self)@, given));
                Outcome::Applied
            },
            RedrawEvent::Unhandled => Outcome::Ignored,
        }
    }

    /// Takes one message: applies an event to the model, hands a command
    /// on, or says that it is time to stop.
    pub fn update(&mut self, message: AppMessage) -> (outcome: Outcome)
        requires
            old(self).wf(),
        ensures
            final(self).wf(),
            final(self)@ == next_model(old(self)@, message),
            outcome@ == outcome_of(old(self)@, message),
    {
        match message {
            AppMessage::Quit => Outcome::Quit,
            AppMessage::UiCommand(command) => Outcome::Forward(command),
            AppMessage::RedrawEvent(event) => self.redraw(event),
        }
    }
}


} // verus!
