use vimview::app::{AppModel, Opts, Outcome};
use vimview::bridge::{MessageKind, RedrawEvent, StyledContent};
use vimview::metrics::Metrics;
use vimview::text::{join_title, show_title};

fn titled(title: &str) -> String {
    let mut m = AppModel::new(Opts {
        title: String::from("   raw   "),
        width: 1,
        height: 1,
    });
    assert_eq!(m.title(), "   raw   ");
    let outcome = m.redraw(RedrawEvent::SetTitle { title: String::from(title) });
    assert!(matches!(outcome, Outcome::Applied));
    m.title().clone()
}

#[test]
fn title_parts_are_joined_by_two_spaces() {
    assert_eq!(titled("a     b"), "a  b");
    assert_eq!(titled("main.rs     ~/src     NVIM"), "main.rs  ~/src  NVIM");
    assert_eq!(show_title("a     b"), "a  b");
}

#[test]
fn title_parts_are_trimmed() {
    assert_eq!(titled("  x  "), "x");
    assert_eq!(titled("a      b"), "a  b");
    assert_eq!(titled("a \t     \u{a0}b\n"), "a  b");
    assert_eq!(titled("one two"), "one two");
}

#[test]
fn empty_title_parts_are_left_out() {
    assert_eq!(titled("a          b"), "a  b");
    assert_eq!(titled("     a"), "a");
    assert_eq!(titled("a     "), "a");
    assert_eq!(titled(""), "");
    assert_eq!(titled("     "), "");
}

#[test]
fn blank_title_parts_stay_as_empty_parts() {
    assert_eq!(titled("a        "), "a  ");
    assert_eq!(titled("a        b"), "a  b");
    assert_eq!(titled("a             b"), "a  b");
    assert_eq!(titled("   "), "");
}

#[test]
fn join_title_takes_the_parts_as_they_are_given() {
    let parts = vec![
        String::from(" a "),
        String::new(),
        String::from("b     c"),
        String::from(" "),
    ];
    assert_eq!(join_title(&parts), "a  b     c  ");
    assert_eq!(join_title(&vec![]), "");
    assert_eq!(join_title(&vec![String::new(), String::from("z")]), "z");
}

fn content(text: &str) -> Vec<StyledContent> {
    vec![StyledContent { style: 3, text: String::from(text) }]
}

fn show(m: &mut AppModel, kind: MessageKind, text: &str, replace_last: bool) {
    let event = RedrawEvent::MessageShow { kind, content: content(text), replace_last };
    assert!(matches!(m.redraw(event), Outcome::Applied));
}

fn shown(m: &AppModel) -> Vec<(MessageKind, String)> {
    m.messages()
        .iter()
        .map(|message| (message.kind(), message.content[0].text.clone()))
        .collect()
}

#[test]
fn messages_are_appended_or_replace_the_last() {
    let mut m = AppModel::new(Opts { title: String::new(), width: 1, height: 1 });
    show(&mut m, MessageKind::Echo, "first", true);
    assert_eq!(shown(&m), vec![(MessageKind::Echo, String::from("first"))]);

    show(&mut m, MessageKind::Error, "second", false);
    assert_eq!(
        shown(&m),
        vec![
            (MessageKind::Echo, String::from("first")),
            (MessageKind::Error, String::from("second")),
        ]
    );

    show(&mut m, MessageKind::Warning, "third", true);
    assert_eq!(
        shown(&m),
        vec![
            (MessageKind::Echo, String::from("first")),
            (MessageKind::Warning, String::from("third")),
        ]
    );
    assert_eq!(m.messages()[1].content[0].style, 3);
}

#[test]
fn cells_that_fit() {
    let metrics = Metrics { charwidth: 8, charheight: 16, linespace: 2 };
    assert_eq!(metrics.columns_in(800), Some(100));
    assert_eq!(metrics.columns_in(807), Some(100));
    assert_eq!(metrics.columns_in(7), Some(0));
    assert_eq!(metrics.rows_in(600), Some(33));
    assert_eq!(metrics.rows_in(18), Some(1));
    assert_eq!(Metrics::new().columns_in(800), None);
    assert_eq!(Metrics::new().rows_in(600), None);
    let tall = Metrics { charwidth: 1, charheight: u32::MAX, linespace: u32::MAX };
    assert_eq!(tall.height(), 2 * (u32::MAX as u64));
    assert_eq!(tall.rows_in(u64::MAX), Some(u64::MAX / (2 * (u32::MAX as u64))));
}
