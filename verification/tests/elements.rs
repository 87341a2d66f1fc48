use vimview::bridge::GridLineCell;
use vimview::elements::{Cell, Line, Row, Segment};

fn cell(text: &str, hl_id: u64) -> Cell {
    Cell {
        text: text.to_string(),
        hl_id,
        double_width: false,
    }
}

fn cells_of(texts: &[&str]) -> Vec<Cell> {
    texts.iter().map(|t| cell(t, 0)).collect()
}

fn item(text: &str, hl_id: u64, repeat: u64) -> GridLineCell {
    GridLineCell {
        text: String::from(text),
        highlight_id: Some(hl_id),
        repeat: Some(repeat),
        double_width: false,
    }
}

fn text_of(row: &Row) -> String {
    row.copy_range(0, row.len)
        .iter()
        .map(|c| c.text.clone())
        .collect::<String>()
}

fn styles_of(row: &Row) -> Vec<u64> {
    row.copy_range(0, row.len).iter().map(|c| c.hl_id).collect()
}

fn digits() -> Vec<Cell> {
    cells_of(&["0", "1", "2", "3", "4", "5", "6", "7", "8", "9"])
}

#[test]
fn test_row_update() {
    let mut row = Row::new(10);
    row.insert_at(0, digits());

    row.replace(Line::new(0, 0, 3, vec![item("1", 1, 3), item("2", 1, 3)]));

    assert_eq!(text_of(&row), "0121112229")
}

#[test]
fn test_row_update2() {
    let mut row = Row::new(5);
    row.insert_at(
        0,
        vec![
            cell(" ", 0),
            cell(" ", 0),
            cell("=", 1),
            cell("=", 1),
            cell("=", 1),
        ],
    );

    let segments = row.replace(Line::new(0, 0, 4, vec![item(" ", 2, 1)]));

    assert_eq!(text_of(&row), "  == ");

    assert_eq!(
        segments,
        vec![
            Segment {
                text: "==".to_string(),
                hl_id: 1,
                start: 2,
                len: 2,
            },
            Segment {
                text: " ".to_string(),
                hl_id: 2,
                start: 4,
                len: 1,
            }
        ],
    );
}

#[test]
fn test_row_copy_range() {
    let mut row = Row::new(30);
    row.insert_at(
        0,
        cells_of(&["f", "i", "r", "s", "t", "s", "e", "c", "o", "n", "d"]),
    );

    let range = row.copy_range(2, 10);
    assert_eq!(
        range.iter().map(|c| c.text.clone()).collect::<String>(),
        "rstsecon"
    )
}

#[test]
fn test_row_insert_rope_at() {
    let mut row = Row::new(30);
    row.insert_at(
        5,
        cells_of(&[
            "f", "i", "r", "s", "t", "s", "e", "c", "o", "n", "d", "t", "h", "i", "r", "d",
        ]),
    );

    assert_eq!(text_of(&row), "     firstsecondthird         ");
}

#[test]
fn test_row_clear_range() {
    let mut row = Row::new(10);
    row.insert_at(0, digits());

    row.clear_range(2, 5);

    assert_eq!(text_of(&row), "01   56789");
}

#[test]
fn test_row_as_segments() {
    let mut row = Row::new(4);
    row.insert_at(
        0,
        vec![cell("1", 1), cell("1", 1), cell("2", 2), cell("3", 3)],
    );

    let segments = row.to_segments(0, row.len);

    let first = &segments[0];
    assert_eq!(first.text, "11");
    assert_eq!(first.start, 0);
    assert_eq!(first.len, 2);

    let second = &segments[1];
    assert_eq!(second.text, "2");
    assert_eq!(second.start, 2);
    assert_eq!(second.len, 1);

    let third = &segments[2];
    assert_eq!(third.text, "3");
    assert_eq!(third.start, 3);
    assert_eq!(third.len, 1);
}

#[test]
fn test_row_as_segments_with_cell_start() {
    let mut row = Row::new(10);
    row.insert_at(
        0,
        vec![
            cell("1", 1),
            cell("1", 1),
            cell("2", 2),
            cell("2", 2),
            cell("2", 2),
            cell(" ", 2),
            cell("3", 3),
            cell("3", 3),
            cell("3", 3),
            cell("3", 3),
        ],
    );

    let segments = row.to_segments(5, row.len);

    let first = &segments[0];
    assert_eq!(first.text, "222 ");
    assert_eq!(first.start, 2);
    assert_eq!(first.len, 4);

    let second = &segments[1];
    assert_eq!(second.text, "3333");
    assert_eq!(second.start, 6);
    assert_eq!(second.len, 4);
}

#[test]
fn test_row_grow() {
    let mut row = Row::new(10);
    row.resize(15);

    assert_eq!(row.len, 15);
    assert_eq!(text_of(&row), String::from(" ").repeat(15));
}

#[test]
fn test_row_truncate() {
    let mut row = Row::new(10);
    row.resize(5);

    assert_eq!(row.len, 5);
    assert_eq!(text_of(&row), String::from(" ").repeat(5));
}

#[test]
fn write_expands_repeats() {
    let mut row = Row::new(10);
    row.replace(Line::new(0, 0, 2, vec![item("a", 1, 3)]));

    assert_eq!(text_of(&row), "  aaa     ");
    assert_eq!(styles_of(&row), vec![0, 0, 1, 1, 1, 0, 0, 0, 0, 0]);
}

#[test]
fn write_without_repeat_fills_one_cell() {
    let mut row = Row::new(4);
    let segments = row.replace(Line::new(
        0,
        0,
        1,
        vec![GridLineCell {
            text: String::from("x"),
            highlight_id: Some(7),
            repeat: None,
            double_width: true,
        }],
    ));

    assert_eq!(text_of(&row), " x  ");
    assert!(row.at(1).unwrap().double_width);
    assert_eq!(
        segments,
        vec![
            Segment { text: " ".to_string(), hl_id: 0, start: 0, len: 1 },
            Segment { text: "x".to_string(), hl_id: 7, start: 1, len: 1 },
            Segment { text: " ".to_string(), hl_id: 0, start: 2, len: 1 },
        ]
    );
}

#[test]
fn write_joining_a_run_reports_the_whole_run() {
    let mut row = Row::new(4);
    row.insert_at(
        0,
        vec![cell("a", 1), cell("b", 1), cell("c", 0), cell("d", 0)],
    );

    let segments = row.replace(Line::new(0, 0, 2, vec![item("x", 1, 1)]));

    assert_eq!(
        segments,
        vec![
            Segment { text: "abx".to_string(), hl_id: 1, start: 0, len: 3 },
            Segment { text: "d".to_string(), hl_id: 0, start: 3, len: 1 },
        ]
    );
}

#[test]
fn segments_stop_behind_end() {
    let mut row = Row::new(6);
    row.insert_at(
        0,
        vec![
            cell("a", 1),
            cell("b", 1),
            cell("c", 1),
            cell("d", 2),
            cell("e", 2),
            cell("f", 3),
        ],
    );

    let segments = row.to_segments(1, 3);
    assert_eq!(
        segments,
        vec![
            Segment { text: "abc".to_string(), hl_id: 1, start: 0, len: 3 },
            Segment { text: "d".to_string(), hl_id: 2, start: 3, len: 1 },
        ]
    );
    assert_eq!(row.to_segments(4, 0), vec![]);
}

#[test]
fn resize_preserves_overlap() {
    let mut row = Row::new(10);
    row.insert_at(0, digits());

    row.resize(5);
    assert_eq!(text_of(&row), "01234");

    row.resize(15);
    assert_eq!(text_of(&row), "01234          ");
    assert_eq!(row.len(), 15);
}

#[test]
fn clear_blanks_every_cell() {
    let mut row = Row::new(3);
    row.insert_at(0, vec![cell("a", 4), cell("b", 5), cell("c", 6)]);
    row.clear();

    assert_eq!(text_of(&row), "   ");
    assert_eq!(styles_of(&row), vec![0, 0, 0]);
    assert!(row.at(3).is_none());
}

#[test]
fn clone_keeps_the_cells() {
    let mut row = Row::new(3);
    row.insert_at(1, vec![cell("q", 9)]);
    let copy = row.clone();
    row.clear();

    assert_eq!(text_of(&copy), " q ");
    assert_eq!(copy.at(1).unwrap().hl_id, 9);
}
