//! What the screen model holds, and what each event makes of it.

use crate::app::{AppMessage, Fault, Opts, OutcomeView, VimMessage, DEFAULT_GRID};
use crate::bridge::{EditorMode, GuiOption, RedrawEvent, WindowAnchor};
use crate::cursor::{in_mode, initial_cursor, modes_wf, CursorMode, CursorView};
use crate::grid::{fresh_grid, GridEdit};
use crate::highlight::{no_colors, plain, StylesView};
use crate::metrics::Metrics;
use crate::pos::{holdable, shifted, Position};
use crate::rect::Rectangle;
use crate::registry::{
    lemma_edits_consistent, line_segments, no_grids, takes, with_edit, with_grid, with_line,
    with_window, without_grid, RegistryView,
};
use crate::relations::GridWindow;
use crate::text::{shown_title, trimmed};
use crate::textbuf::{blank_rows, lemma_resize_to_same_size, resized_rows};
use vstd::prelude::*;

verus! {

/// The messages after one more was shown, in place of the last one where
/// it is to replace it and there is one.
pub open spec fn with_message(
    messages: Seq<VimMessage>,
    message: VimMessage,
    replace_last: bool,
) -> Seq<VimMessage> {
    if replace_last && messages.len() > 0 {
        messages.drop_last().push(message)
    } else {
        messages.push(message)
    }
}

/// The text of a string that may be missing.
pub open spec fn text_of(text: Option<String>) -> Option<Seq<char>> {
    match text {
        Some(s) => Some(s@),
        None => None,
    }
}

/// What the model holds, as mathematical values.
#[verifier::ext_equal]
pub struct ModelView {
    pub title: Seq<char>,
    pub default_width: i32,
    pub default_height: i32,
    pub guifont: Option<Seq<char>>,
    pub guifontset: Option<Seq<char>>,
    pub guifontwide: Option<Seq<char>>,
    pub metrics: Metrics,
    pub show_tab_line: Option<u64>,
    pub font_changed: bool,
    pub mode: EditorMode,
    pub mouse_on: bool,
    pub cursor: CursorView,
    pub cursor_mode: usize,
    pub cursor_modes: Seq<CursorMode>,
    pub cursor_redraw: bool,
    pub styles: StylesView,
    pub focused: u64,
    pub background_changed: bool,
    pub registry: RegistryView,
    pub messages: Seq<VimMessage>,
    pub active_grid: u64,
}

/// The model as it is made: no grid, no style, the cursor as it is made,
/// no flag raised, the focus on the default grid, and the pointer over no
/// grid.
pub open spec fn initial_model(opts: Opts) -> ModelView {
    ModelView {
        title: opts.title@,
        default_width: opts.width,
        default_height: opts.height,
        guifont: None,
        guifontset: None,
        guifontwide: None,
        metrics: Metrics { charwidth: 0, charheight: 0, linespace: 0 },
        show_tab_line: None,
        font_changed: false,
        mode: EditorMode::Normal,
        mouse_on: false,
        cursor: initial_cursor(),
        cursor_mode: 0,
        cursor_modes: Seq::empty(),
        cursor_redraw: false,
        styles: StylesView { defaults: plain(no_colors()), defined: Map::empty() },
        focused: DEFAULT_GRID,
        background_changed: false,
        registry: no_grids(),
        messages: Seq::empty(),
        active_grid: 0,
    }
}

/// Whether a grid is live.
pub open spec fn live(m: ModelView, grid: u64) -> bool {
    m.registry.grids.contains_key(grid)
}

/// Whether a size in cells cannot be taken: it is empty, or too large to
/// be held.
pub open spec fn bad_size(width: u64, height: u64) -> bool {
    width == 0 || height == 0 || width > usize::MAX || height > usize::MAX
}

/// The size in cells as a rectangle.
pub open spec fn size_of(width: u64, height: u64) -> Rectangle {
    Rectangle { width: width as usize, height: height as usize }
}

/// The device coordinate of a column of a grid that stands at `origin`.
pub open spec fn column_x(m: ModelView, origin: int, column: int) -> int {
    shifted(origin, column, m.metrics.width() as int)
}

/// The device coordinate of a row of a grid that stands at `origin`.
pub open spec fn row_y(m: ModelView, origin: int, row: int) -> int {
    shifted(origin, row, m.metrics.height() as int)
}

/// The column of the top left cell of a floating grid of `width` cells
/// whose anchored corner is to stand at `column`.
pub open spec fn float_column(anchor: WindowAnchor, column: int, width: int) -> int {
    match anchor {
        WindowAnchor::NorthWest => column,
        WindowAnchor::NorthEast => column - width,
        WindowAnchor::SouthWest => column,
        WindowAnchor::SouthEast => column - width,
    }
}

/// The row of the top left cell of a floating grid of `height` cells
/// whose anchored corner is to stand at `row`.
pub open spec fn float_row(anchor: WindowAnchor, row: int, height: int) -> int {
    match anchor {
        WindowAnchor::NorthWest => row,
        WindowAnchor::NorthEast => row,
        WindowAnchor::SouthWest => row - height,
        WindowAnchor::SouthEast => row - height,
    }
}

/// Where a floating grid comes to stand, across.
pub open spec fn float_x(
    m: ModelView,
    grid: u64,
    anchor: WindowAnchor,
    anchor_grid: u64,
    anchor_column: i64,
) -> int {
    column_x(
        m,
        m.registry.grids[anchor_grid].pos.x as int,
        float_column(anchor, anchor_column as int, m.registry.grids[grid].width as int),
    )
}

/// Where a floating grid comes to stand, down.
pub open spec fn float_y(
    m: ModelView,
    grid: u64,
    anchor: WindowAnchor,
    anchor_grid: u64,
    anchor_row: i64,
) -> int {
    row_y(
        m,
        m.registry.grids[anchor_grid].pos.y as int,
        float_row(anchor, anchor_row as int, m.registry.grids[grid].height as int),
    )
}

/// By how many rows a scroll of `rows` moves the text: the size of
/// `rows`, or the largest count that can be held if that is less.
pub open spec fn scroll_amount(rows: i64) -> usize {
    let size = if rows < 0 {
        -rows
    } else {
        rows as int
    };
    if size > usize::MAX {
        usize::MAX
    } else {
        size as usize
    }
}

/// Whether a text holds nothing but white space.
pub open spec fn blank(text: Seq<char>) -> bool {
    trimmed(text).len() == 0
}

/// Why an option is turned down, if it is.
pub open spec fn option_fault(option: GuiOption) -> Option<Fault> {
    match option {
        GuiOption::LineSpace(space) => if space > u32::MAX {
            Some(Fault::MalformedGeometry)
        } else {
            None
        },
        _ => None,
    }
}

/// The model after an option was set.
pub open spec fn with_option(m: ModelView, option: GuiOption) -> ModelView {
    match option {
        GuiOption::GuiFont(font) => if blank(font@) {
            m
        } else {
            ModelView { guifont: Some(font@), font_changed: true, ..m }
        },
        GuiOption::GuiFontSet(font) => ModelView { guifontset: Some(font@), ..m },
        GuiOption::GuiFontWide(font) => ModelView { guifontwide: Some(font@), ..m },
        GuiOption::LineSpace(space) => ModelView {
            metrics: Metrics { linespace: space as u32, ..m.metrics },
            ..m
        },
        GuiOption::ShowTabLine(show) => ModelView { show_tab_line: Some(show), ..m },
        _ => m,
    }
}

/// What the applier answers when an option was set.
pub open spec fn option_reply(option: GuiOption) -> OutcomeView {
    match option {
        GuiOption::GuiFont(font) => if blank(font@) {
            OutcomeView::Ignored
        } else {
            OutcomeView::FontChanged
        },
        GuiOption::GuiFontSet(_) => OutcomeView::Applied,
        GuiOption::GuiFontWide(_) => OutcomeView::Applied,
        GuiOption::LineSpace(_) => OutcomeView::Applied,
        GuiOption::ShowTabLine(_) => OutcomeView::Applied,
        _ => OutcomeView::Ignored,
    }
}

/// Why an event is turned down, if it is.
pub open spec fn fault_of(m: ModelView, event: RedrawEvent) -> Option<Fault> {
    match event {
        RedrawEvent::OptionSet { gui_option } => option_fault(gui_option),
        RedrawEvent::Clear { grid } => if live(m, grid) {
            None
        } else {
            Some(Fault::UnknownGrid)
        },
        RedrawEvent::GridLine { grid, row, column_start, cells } => if !live(m, grid) {
            Some(Fault::UnknownGrid)
        } else if !takes(m.registry, grid, row, column_start, cells@) {
            Some(Fault::BadLine)
        } else {
            None
        },
        RedrawEvent::Scroll { grid, top, bottom, left, right, rows, columns } => if !live(
            m,
            grid,
        ) {
            Some(Fault::UnknownGrid)
        } else if (rows == 0) == (columns == 0) {
            Some(Fault::MalformedScroll)
        } else if rows == 0 {
            Some(Fault::HorizontalScroll)
        } else {
            None
        },
        RedrawEvent::Resize { grid, width, height } => if bad_size(width, height) {
            Some(Fault::MalformedGeometry)
        } else {
            None
        },
        RedrawEvent::WindowPosition { grid, window, start_row, start_column, width, height } => {
            if window is None {
                Some(Fault::QueryFailed)
            } else if bad_size(width, height) || !holdable(column_x(m, 0, start_column as int))
                || !holdable(row_y(m, 0, start_row as int)) {
                Some(Fault::MalformedGeometry)
            } else {
                None
            }
        },
        RedrawEvent::WindowViewport {
            grid,
            window,
            rectangle,
            top_line,
            bottom_line,
            current_line,
            current_column,
            line_count,
        } => if window is None {
            Some(Fault::QueryFailed)
        } else if live(m, grid) {
            None
        } else if rectangle is None {
            Some(Fault::QueryFailed)
        } else if rectangle.unwrap().width == 0 || rectangle.unwrap().height == 0 {
            Some(Fault::MalformedGeometry)
        } else {
            None
        },
        RedrawEvent::WindowHide { grid } => if live(m, grid) {
            None
        } else {
            Some(Fault::UnknownGrid)
        },
        RedrawEvent::WindowClose { grid } => if live(m, grid) {
            None
        } else {
            Some(Fault::UnknownGrid)
        },
        RedrawEvent::Destroy { grid } => if live(m, grid) {
            None
        } else {
            Some(Fault::UnknownGrid)
        },
        RedrawEvent::CursorGoto { grid, row, column } => if !live(m, grid) {
            Some(Fault::UnknownGrid)
        } else if !(row < m.registry.grids[grid].height && column < m.registry.grids[grid].width) {
            Some(Fault::OutOfBounds)
        } else if !holdable(column_x(m, m.registry.grids[grid].pos.x as int, column as int))
            || !holdable(row_y(m, m.registry.grids[grid].pos.y as int, row as int)) {
            Some(Fault::MalformedGeometry)
        } else {
            None
        },
        RedrawEvent::ModeInfoSet { cursor_modes } => if modes_wf(cursor_modes@) {
            None
        } else {
            Some(Fault::BadCursorMode)
        },
        RedrawEvent::ModeChange { mode, mode_index } => if mode_index < m.cursor_modes.len() {
            None
        } else {
            Some(Fault::BadModeIndex)
        },
        RedrawEvent::WindowFloatPosition {
            grid,
            anchor,
            anchor_grid,
            anchor_row,
            anchor_column,
            focusable,
            sort_order,
        } => if !live(m, anchor_grid) {
            Some(Fault::MissingAnchor)
        } else if !live(m, grid) {
            Some(Fault::UnknownGrid)
        } else if !holdable(float_x(m, grid, anchor, anchor_grid, anchor_column)) || !holdable(
            float_y(m, grid, anchor, anchor_grid, anchor_row),
        ) {
            Some(Fault::MalformedGeometry)
        } else {
            None
        },
        _ => None,
    }
}

/// The model after an event that is not turned down.
pub open spec fn applied(m: ModelView, event: RedrawEvent) -> ModelView {
    match event {
        RedrawEvent::SetTitle { title } => ModelView { title: shown_title(title@), ..m },
        RedrawEvent::OptionSet { gui_option } => with_option(m, gui_option),
        RedrawEvent::DefaultColorsSet { colors } => ModelView {
            background_changed: true,
            styles: StylesView { defaults: plain(colors), ..m.styles },
            ..m
        },
        RedrawEvent::HighlightAttributesDefine { id, style } => ModelView {
            styles: StylesView { defined: m.styles.defined.insert(id, style), ..m.styles },
            ..m
        },
        RedrawEvent::Clear { grid } => ModelView {
            registry: with_edit(m.registry, grid, GridEdit::Clear),
            ..m
        },
        RedrawEvent::GridLine { grid, row, column_start, cells } => ModelView {
            registry: with_line(m.registry, grid, row, column_start, cells@),
            ..m
        },
        RedrawEvent::Scroll { grid, top, bottom, left, right, rows, columns } => ModelView {
            registry: with_edit(
                m.registry,
                grid,
                if rows > 0 {
                    GridEdit::Up { rows: scroll_amount(rows) }
                } else {
                    GridEdit::Down { rows: scroll_amount(rows) }
                },
            ),
            ..m
        },
        RedrawEvent::Resize { grid, width, height } => ModelView {
            focused: grid,
            registry: if live(m, grid) {
                with_edit(
                    m.registry,
                    grid,
                    GridEdit::Resize { width: width as usize, height: height as usize },
                )
            } else {
                with_grid(m.registry, grid, 0, Position { x: 0, y: 0 }, size_of(width, height))
            },
            ..m
        },
        RedrawEvent::WindowPosition { grid, window, start_row, start_column, width, height } => {
            let pos = Position {
                x: column_x(m, 0, start_column as int) as i64,
                y: row_y(m, 0, start_row as int) as i64,
            };
            ModelView {
                focused: grid,
                registry: if live(m, grid) {
                    with_window(
                        with_edit(
                            with_edit(
                                with_edit(
                                    m.registry,
                                    grid,
                                    GridEdit::Resize {
                                        width: width as usize,
                                        height: height as usize,
                                    },
                                ),
                                grid,
                                GridEdit::Move { pos },
                            ),
                            grid,
                            GridEdit::Show,
                        ),
                        grid,
                        window.unwrap(),
                    )
                } else {
                    with_grid(m.registry, grid, window.unwrap(), pos, size_of(width, height))
                },
                ..m
            }
        },
        RedrawEvent::WindowViewport {
            grid,
            window,
            rectangle,
            top_line,
            bottom_line,
            current_line,
            current_column,
            line_count,
        } => ModelView {
            registry: if live(m, grid) {
                with_window(with_edit(m.registry, grid, GridEdit::Show), grid, window.unwrap())
            } else {
                with_grid(
                    m.registry,
                    grid,
                    window.unwrap(),
                    Position { x: rectangle.unwrap().x, y: rectangle.unwrap().y },
                    Rectangle {
                        width: rectangle.unwrap().width,
                        height: rectangle.unwrap().height,
                    },
                )
            },
            ..m
        },
        RedrawEvent::WindowHide { grid } => ModelView {
            registry: with_edit(m.registry, grid, GridEdit::Conceal),
            ..m
        },
        RedrawEvent::WindowClose { grid } => without(m, grid),
        RedrawEvent::Destroy { grid } => without(m, grid),
        RedrawEvent::CursorGoto { grid, row, column } => ModelView {
            cursor: CursorView {
                pos: Position {
                    x: column_x(m, m.registry.grids[grid].pos.x as int, column as int) as i64,
                    y: row_y(m, m.registry.grids[grid].pos.y as int, row as int) as i64,
                },
                cell: m.registry.grids[grid].rows[row as int][column as int],
                ..m.cursor
            },
            cursor_redraw: true,
            ..m
        },
        RedrawEvent::ModeInfoSet { cursor_modes } => ModelView {
            cursor_modes: cursor_modes@,
            cursor_redraw: true,
            cursor: if m.cursor_mode < cursor_modes@.len() {
                in_mode(m.cursor, cursor_modes@[m.cursor_mode as int], m.styles)
            } else {
                m.cursor
            },
            ..m
        },
        RedrawEvent::ModeChange { mode, mode_index } => ModelView {
            mode,
            cursor_mode: mode_index as usize,
            cursor_redraw: true,
            cursor: in_mode(m.cursor, m.cursor_modes[mode_index as int], m.styles),
            ..m
        },
        RedrawEvent::MouseOn => ModelView { mouse_on: true, ..m },
        RedrawEvent::MouseOff => ModelView { mouse_on: false, ..m },
        RedrawEvent::MessageShow { kind, content, replace_last } => ModelView {
            messages: with_message(m.messages, VimMessage { kind, content }, replace_last),
            ..m
        },
        RedrawEvent::WindowFloatPosition {
            grid,
            anchor,
            anchor_grid,
            anchor_row,
            anchor_column,
            focusable,
            sort_order,
        } => ModelView {
            registry: with_edit(
                with_edit(
                    m.registry,
                    grid,
                    GridEdit::Move {
                        pos: Position {
                            x: float_x(m, grid, anchor, anchor_grid, anchor_column) as i64,
                            y: float_y(m, grid, anchor, anchor_grid, anchor_row) as i64,
                        },
                    },
                ),
                grid,
                GridEdit::Float { focusable },
            ),
            ..m
        },
        _ => m,
    }
}

/// The model after a grid was closed or destroyed: the grid and its
/// window entry are gone, and the focus, if the grid had it, is back on
/// the default grid.
pub open spec fn without(m: ModelView, grid: u64) -> ModelView {
    ModelView {
        focused: if m.focused == grid {
            DEFAULT_GRID
        } else {
            m.focused
        },
        registry: without_grid(m.registry, grid),
        ..m
    }
}

/// What the applier answers to an event that is not turned down.
pub open spec fn reply(m: ModelView, event: RedrawEvent) -> OutcomeView {
    match event {
        RedrawEvent::OptionSet { gui_option } => option_reply(gui_option),
        RedrawEvent::GridLine { grid, row, column_start, cells } => OutcomeView::Drawn(
            line_segments(
                m.registry,
                with_line(m.registry, grid, row, column_start, cells@),
                grid,
                row,
                column_start,
                cells@,
            ),
        ),
        RedrawEvent::Flush => OutcomeView::Flush,
        RedrawEvent::BusyStart => OutcomeView::Ignored,
        RedrawEvent::BusyStop => OutcomeView::Ignored,
        RedrawEvent::Unhandled => OutcomeView::Ignored,
        _ => OutcomeView::Applied,
    }
}

/// The model after an event: as it was where the event is turned down.
pub open spec fn next(m: ModelView, event: RedrawEvent) -> ModelView {
    if fault_of(m, event) is Some {
        m
    } else {
        applied(m, event)
    }
}

/// What the applier answers to an event.
pub open spec fn answer(m: ModelView, event: RedrawEvent) -> OutcomeView {
    match fault_of(m, event) {
        Some(fault) => OutcomeView::Rejected(fault),
        None => reply(m, event),
    }
}

/// The model after a message.
pub open spec fn next_model(m: ModelView, message: AppMessage) -> ModelView {
    match message {
        AppMessage::RedrawEvent(event) => next(m, event),
        _ => m,
    }
}

/// What the applier answers to a message.
pub open spec fn outcome_of(m: ModelView, message: AppMessage) -> OutcomeView {
    match message {
        AppMessage::Quit => OutcomeView::Quit,
        AppMessage::UiCommand(command) => OutcomeView::Forward(command),
        AppMessage::RedrawEvent(event) => answer(m, event),
    }
}


/// What holds of every model: its registry is consistent and every
/// cursor mode is well formed.
pub open spec fn consistent(m: ModelView) -> bool {
    crate::registry::consistent(m.registry) && modes_wf(m.cursor_modes)
}

/// Whether the applier did what an event asks: the model is as it was and
/// the answer names the fault where the event is turned down, and else the
/// model and the answer are those that the event makes.
pub open spec fn settled(
    before: ModelView,
    after: ModelView,
    outcome: OutcomeView,
    event: RedrawEvent,
) -> bool {
    after == next(before, event) && outcome == answer(before, event)
}

/// A resize that names a grid that is not live makes a blank grid at the
/// origin, with no window, and gives it the focus.
pub proof fn lemma_resize_creates(m: ModelView, grid: u64, width: u64, height: u64)
    requires
        !live(m, grid),
        !bad_size(width, height),
    ensures
        ({
            let after = next(m, RedrawEvent::Resize { grid, width, height });
            &&& live(after, grid)
            &&& after.registry.grids[grid] == fresh_grid(
                grid,
                0,
                Position { x: 0, y: 0 },
                size_of(width, height),
            )
            &&& after.registry.windows[grid] == (GridWindow { winid: 0 })
            &&& after.focused == grid
        }),
{
}

/// A window position for a live grid gives the grid to the window and
/// keeps its cells: those that lie in both the old and the new extent
/// stay, and all of them where the size stays.
pub proof fn lemma_window_position_keeps_cells(
    m: ModelView,
    grid: u64,
    window: u64,
    start_row: u64,
    start_column: u64,
    width: u64,
    height: u64,
)
    requires
        consistent(m),
        live(m, grid),
        fault_of(
            m,
            RedrawEvent::WindowPosition {
                grid,
                window: Some(window),
                start_row,
                start_column,
                width,
                height,
            },
        ) is None,
    ensures
        ({
            let before = m.registry.grids[grid];
            let after = next(
                m,
                RedrawEvent::WindowPosition {
                    grid,
                    window: Some(window),
                    start_row,
                    start_column,
                    width,
                    height,
                },
            );
            &&& live(after, grid)
            &&& after.registry.windows[grid] == (GridWindow { winid: window })
            &&& after.registry.grids[grid].rows == resized_rows(
                before.rows,
                height as nat,
                width as nat,
            )
            &&& forall|row: int, col: int|
                0 <= row < height && row < before.height && 0 <= col < width && col < before.width
                    ==> #[trigger] after.registry.grids[grid].rows[row][col] == before.rows[row][col]
            &&& width == before.width && height == before.height ==> after.registry.grids[grid].rows
                == before.rows
        }),
{
    let before = m.registry.grids[grid];
    if width == before.width && height == before.height {
        lemma_resize_to_same_size(before.rows, before.width as nat);
    }
}

/// A grid that is destroyed and then named by a resize is a new grid:
/// blank, at the origin and with no window, whatever it held before.
pub proof fn lemma_destroyed_grid_comes_back_blank(
    m: ModelView,
    grid: u64,
    width: u64,
    height: u64,
)
    requires
        consistent(m),
        !bad_size(width, height),
    ensures
        ({
            let gone = next(m, RedrawEvent::Destroy { grid });
            let after = next(gone, RedrawEvent::Resize { grid, width, height });
            &&& !live(gone, grid)
            &&& !gone.registry.windows.contains_key(grid)
            &&& live(after, grid)
            &&& after.registry.grids[grid] == fresh_grid(
                grid,
                0,
                Position { x: 0, y: 0 },
                size_of(width, height),
            )
            &&& after.registry.grids[grid].rows == blank_rows(height as nat, width as nat)
            &&& after.registry.windows[grid] == (GridWindow { winid: 0 })
        }),
{
}

/// An event that is turned down leaves the model as it was.
pub proof fn lemma_rejected_changes_nothing(m: ModelView, event: RedrawEvent)
    requires
        fault_of(m, event) is Some,
    ensures
        next(m, event) == m,
        answer(m, event) == OutcomeView::Rejected(fault_of(m, event).unwrap()),
{
}

/// Every event leaves a consistent model consistent.
pub proof fn lemma_next_consistent(m: ModelView, event: RedrawEvent)
    requires
        consistent(m),
    ensures
        consistent(next(m, event)),
{
    lemma_edits_consistent();
    let r = m.registry;
    let after = next(m, event).registry;
    match event {
        RedrawEvent::WindowPosition { grid, window, start_row, start_column, width, height } => {
            if live(m, grid) && fault_of(m, event) is None {
                let r1 = with_edit(
                    r,
                    grid,
                    GridEdit::Resize { width: width as usize, height: height as usize },
                );
                let pos = Position {
                    x: column_x(m, 0, start_column as int) as i64,
                    y: row_y(m, 0, start_row as int) as i64,
                };
                let r2 = with_edit(r1, grid, GridEdit::Move { pos });
                let r3 = with_edit(r2, grid, GridEdit::Show);
                assert(crate::registry::consistent(r1));
                assert(crate::registry::consistent(r2));
                assert(crate::registry::consistent(r3));
            }
        },
        RedrawEvent::WindowViewport {
            grid,
            window,
            rectangle,
            top_line,
            bottom_line,
            current_line,
            current_column,
            line_count,
        } => {
            if live(m, grid) && fault_of(m, event) is None {
                let r1 = with_edit(r, grid, GridEdit::Show);
                assert(crate::registry::consistent(r1));
            }
        },
        RedrawEvent::WindowFloatPosition {
            grid,
            anchor,
            anchor_grid,
            anchor_row,
            anchor_column,
            focusable,
            sort_order,
        } => {
            if fault_of(m, event) is None {
                let pos = Position {
                    x: float_x(m, grid, anchor, anchor_grid, anchor_column) as i64,
                    y: float_y(m, grid, anchor, anchor_grid, anchor_row) as i64,
                };
                let r1 = with_edit(r, grid, GridEdit::Move { pos });
                assert(crate::registry::consistent(r1));
            }
        },
        _ => {},
    }
}

} // verus!
