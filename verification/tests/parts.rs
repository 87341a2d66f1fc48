use vimview::bridge::GridLineCell;
use vimview::cursor::{Cursor, CursorMode, CursorShape};
use vimview::elements::{Cell, Line, Row};
use vimview::grid::{GridEdit, VimGrid};
use vimview::highlight::{Colors, HighlightDefinitions, Style};
use vimview::pos::{shift, Position};
use vimview::rect::Rectangle;
use vimview::registry::GridRegistry;
use vimview::relations::GridWindow;
use vimview::textbuf::TextBuf;

fn item(text: &str, hl_id: u64, repeat: u64) -> GridLineCell {
    GridLineCell {
        text: String::from(text),
        highlight_id: Some(hl_id),
        repeat: Some(repeat),
        double_width: false,
    }
}

fn buf_rows(buf: &TextBuf) -> Vec<String> {
    (0..buf.rows())
        .map(|row| (0..buf.cols()).map(|col| buf.cell(row, col).unwrap().text).collect())
        .collect()
}

fn lettered(rows: usize, cols: usize) -> TextBuf {
    let mut buf = TextBuf::new(rows, cols);
    for row in 0..rows {
        let letter = ((b'a' + row as u8) as char).to_string();
        let line = Line::new(0, row as u64, 0, vec![item(&letter, 1, cols as u64)]);
        assert!(buf.accepts(&line));
        buf.set_cells(line);
    }
    buf
}

#[test]
fn shift_holds_what_fits() {
    assert_eq!(shift(100, 10, 8), Some(180));
    assert_eq!(shift(50, -3, 16), Some(2));
    assert_eq!(shift(i64::MAX, 0, 5), Some(i64::MAX));
    assert_eq!(shift(i64::MAX, 1, 1), None);
    assert_eq!(shift(i64::MIN, -1, 1), None);
    assert_eq!(shift(i64::MIN, 1, 1), Some(i64::MIN + 1));
    assert_eq!(shift(0, 1 << 70, 1 << 40), None);
    assert_eq!(shift(7, 1 << 70, 0), Some(7));
}

#[test]
fn text_buffer_starts_blank() {
    let buf = TextBuf::new(2, 3);
    assert_eq!(buf_rows(&buf), vec!["   ", "   "]);
    assert!(buf.cell(2, 0).is_none());
    assert!(buf.cell(0, 3).is_none());
    assert_eq!(TextBuf::new(0, 5).rows(), 0);
    assert_eq!(TextBuf::new(0, 5).cols(), 5);
}

#[test]
fn text_buffer_scrolls() {
    let mut buf = lettered(4, 2);
    buf.up(1);
    assert_eq!(buf_rows(&buf), vec!["bb", "cc", "dd", "  "]);
    buf.down(2);
    assert_eq!(buf_rows(&buf), vec!["  ", "  ", "bb", "cc"]);
    buf.up(0);
    assert_eq!(buf_rows(&buf), vec!["  ", "  ", "bb", "cc"]);
    buf.down(0);
    assert_eq!(buf_rows(&buf), vec!["  ", "  ", "bb", "cc"]);
    buf.down(4);
    assert_eq!(buf_rows(&buf), vec!["  ", "  ", "  ", "  "]);
    let mut buf = lettered(3, 1);
    buf.up(usize::MAX);
    assert_eq!(buf_rows(&buf), vec![" ", " ", " "]);
}

#[test]
fn text_buffer_resizes_from_the_top_left() {
    let mut buf = lettered(3, 3);
    buf.resize(2, 4);
    assert_eq!(buf_rows(&buf), vec!["aaa ", "bbb "]);
    buf.resize(3, 2);
    assert_eq!(buf_rows(&buf), vec!["aa", "bb", "  "]);
    buf.resize(0, 0);
    assert_eq!(buf.rows(), 0);
    buf.resize(1, 1);
    assert_eq!(buf_rows(&buf), vec![" "]);
}

#[test]
fn text_buffer_checks_lines() {
    let buf = TextBuf::new(2, 3);
    assert!(buf.accepts(&Line::new(0, 1, 2, vec![item("a", 0, 1)])));
    assert!(!buf.accepts(&Line::new(0, 2, 0, vec![item("a", 0, 1)])));
    assert!(!buf.accepts(&Line::new(0, 0, 3, vec![])));
    assert!(!buf.accepts(&Line::new(0, 0, 2, vec![item("a", 0, 2)])));
    assert!(buf.accepts(&Line::new(0, 0, 2, vec![])));
    let line = Line::new(9, 1, 2, vec![item("a", 0, 1)]);
    assert_eq!((line.grid(), line.row(), line.column_start()), (9, 1, 2));
    assert_eq!(line.items().len(), 1);
    let row = Row::new(3);
    assert!(row.accepts(&Line::new(0, 0, 0, vec![item("a", 0, 3)])));
    assert!(!row.accepts(&Line::new(0, 0, 0, vec![item("a", 0, 4)])));
}

#[test]
fn grid_edits() {
    let mut g = VimGrid::new(3, 4, Position::new(1, 2), Rectangle::new(2, 2));
    g.set_cells(Line::new(3, 0, 0, vec![item("x", 1, 2)]));
    g.apply(GridEdit::Down { rows: 1 });
    assert_eq!(g.cell(1, 0).unwrap().text, "x");
    assert_eq!(g.cell(0, 0).unwrap().text, " ");
    g.apply(GridEdit::Up { rows: 1 });
    assert_eq!(g.cell(0, 1).unwrap().text, "x");
    g.apply(GridEdit::Resize { width: 3, height: 1 });
    assert_eq!((g.width(), g.height()), (3, 1));
    assert_eq!(g.cell(0, 1).unwrap().text, "x");
    assert_eq!(g.cell(0, 2).unwrap().text, " ");
    g.apply(GridEdit::Conceal);
    assert!(!g.visible());
    g.apply(GridEdit::Show);
    assert!(g.visible());
    g.conceal();
    assert!(!g.visible());
    g.show();
    assert!(g.visible());
    g.apply(GridEdit::Float { focusable: false });
    assert!(g.is_float());
    assert!(!g.focusable());
    g.set_is_float(false);
    g.set_focusable(true);
    assert!(!g.is_float());
    assert!(g.focusable());
    g.apply(GridEdit::Move { pos: Position::new(9, 8) });
    assert_eq!(*g.pos(), Position { x: 9, y: 8 });
    assert_eq!(g.take_move_to(), Some(Position { x: 9, y: 8 }));
    g.apply(GridEdit::Clear);
    assert_eq!(g.cell(0, 1).unwrap().text, " ");
    g.up(1);
    g.down(1);
    g.resize(1, 1);
    g.clear();
    assert_eq!(g.textbuf().rows(), 1);
    assert!(g.accepts(&Line::new(3, 0, 0, vec![item("x", 1, 1)])));
    assert!(!g.accepts(&Line::new(3, 0, 0, vec![item("x", 1, 2)])));
}

#[test]
fn registry_keeps_grids_and_windows() {
    assert_eq!(GridWindow::default(), GridWindow { winid: 0 });
    let mut r = GridRegistry::new();
    assert!(!r.contains(1));
    assert!(r.get(1).is_none());
    assert_eq!(r.window(1), None);
    assert!(!r.edit(1, GridEdit::Show));
    assert!(!r.set_window(1, 5));
    assert_eq!(r.window(1), None);
    assert!(!r.remove(1));

    r.create(1, 10, Position::new(4, 5), Rectangle::new(3, 2));
    r.create(2, 20, Position::new(0, 0), Rectangle::new(1, 1));
    assert!(r.contains(1));
    assert_eq!(r.window(1), Some(GridWindow { winid: 10 }));
    assert_eq!(r.window(2), Some(GridWindow { winid: 20 }));
    assert_eq!(*r.get(1).unwrap().pos(), Position { x: 4, y: 5 });

    assert!(r.set_window(1, 30));
    assert_eq!(r.window(1), Some(GridWindow { winid: 30 }));
    assert_eq!(r.window(2), Some(GridWindow { winid: 20 }));
    assert_eq!(r.get(1).unwrap().win(), 10);

    assert!(r.edit(1, GridEdit::Conceal));
    assert!(!r.get(1).unwrap().visible());
    assert!(r.get(2).unwrap().visible());

    let line = Line::new(1, 1, 1, vec![item("w", 2, 2)]);
    assert!(r.accepts(&line));
    assert!(!r.accepts(&Line::new(3, 0, 0, vec![])));
    assert!(!r.accepts(&Line::new(2, 0, 0, vec![item("w", 2, 2)])));
    let segments = r.set_cells(line);
    assert_eq!(segments.len(), 2);
    assert_eq!(segments[1].text, "ww");
    assert_eq!(r.cell(1, 1, 2).unwrap().text, "w");
    assert!(r.cell(1, 2, 0).is_none());
    assert!(r.cell(3, 0, 0).is_none());
    assert_eq!(r.cell(2, 0, 0).unwrap().text, " ");

    r.create(1, 11, Position::new(0, 0), Rectangle::new(3, 2));
    assert_eq!(r.cell(1, 1, 2).unwrap().text, " ");
    assert_eq!(r.window(1), Some(GridWindow { winid: 11 }));

    assert!(r.remove(1));
    assert!(!r.contains(1));
    assert_eq!(r.window(1), None);
    assert!(r.contains(2));
    assert_eq!(r.window(2), Some(GridWindow { winid: 20 }));
}

#[test]
fn highlight_table_resolves() {
    let mut table = HighlightDefinitions::new();
    let none = Colors { foreground: None, background: None, special: None };
    assert_eq!(table.resolve(0), Style::new(none));
    assert_eq!(table.resolve(3), Style::new(none));
    let green = Style::new(Colors { foreground: Some(0x00ff00), background: None, special: None });
    table.set(3, green);
    assert_eq!(table.resolve(3), green);
    assert_eq!(table.resolve(4), Style::new(none));
    let dark = Style::new(Colors { foreground: None, background: Some(0x101010), special: None });
    table.set_defaults(dark);
    assert_eq!(table.defaults(), dark);
    assert_eq!(table.resolve(0), dark);
    assert_eq!(table.resolve(4), dark);
    assert_eq!(table.resolve(3), green);
    table.set(0, green);
    assert_eq!(table.resolve(0), dark);
}

#[test]
fn cursor_takes_position_cell_and_mode() {
    let mut cursor = Cursor::new();
    cursor.set_pos(3, -4);
    cursor.set_cell(Cell { text: String::from("x"), hl_id: 2, double_width: true });
    assert_eq!(cursor.pos(), (3, -4));
    assert!(cursor.cell().double_width);

    let mut table = HighlightDefinitions::new();
    let green = Style::new(Colors { foreground: Some(0x00ff00), background: None, special: None });
    table.set(3, green);
    let mode = CursorMode {
        shape: CursorShape::Horizontal,
        style_id: Some(3),
        cell_percentage: 20,
        blinkwait: 700,
        blinkon: 400,
        blinkoff: 250,
    };
    cursor.change_mode(&mode, &table);
    assert_eq!(cursor.shape(), CursorShape::Horizontal);
    assert_eq!(cursor.style(), green);
    assert_eq!(cursor.cell_percentage(), 20);
    assert_eq!(cursor.blink(), (700, 400, 250));
    assert_eq!(cursor.pos(), (3, -4));
    assert_eq!(cursor.cell().text, "x");
}
