use gitlog_view::record::Commit;
use gitlog_view::render::{record_line, redraw, window_lines, Span, Style, TermOp};
use gitlog_view::viewport::Viewport;

fn commit(h: &str) -> Commit {
    Commit {
        hash: h.to_string(),
        message: "Fix bug".to_string(),
        date: "2 hours ago".to_string(),
        author: "Alice".to_string(),
    }
}

fn parts(line: &[Span]) -> Vec<(String, Style)> {
    line.iter().map(|s| (s.text.clone(), s.style)).collect()
}

#[test]
fn record_line_has_seven_styled_parts() {
    let line = record_line(&commit("abc123"));
    let expected: Vec<(String, Style)> = vec![
        ("(abc123)".to_string(), Style::Dim),
        (" - ".to_string(), Style::Plain),
        ("Fix bug".to_string(), Style::Plain),
        (" (".to_string(), Style::Plain),
        ("2 hours ago".to_string(), Style::Green),
        (") ~ ".to_string(), Style::Plain),
        ("Alice".to_string(), Style::Blue),
    ];
    assert_eq!(parts(&line), expected);
    let text: String = line.iter().map(|s| s.text.as_str()).collect();
    assert_eq!(text, "(abc123) - Fix bug (2 hours ago) ~ Alice");
}

#[test]
fn first_frame_has_one_line_per_shown_record() {
    let v = Viewport::new(vec![commit("a"), commit("b"), commit("c")]);
    let lines = window_lines(&v);
    assert_eq!(lines.len(), 3);
    assert_eq!(lines[2][0].text, "(c)");
}

#[test]
fn redraw_moves_up_clears_and_writes_in_place() {
    let mut v = Viewport::new((0..8).map(|i| commit(&format!("h{}", i))).collect());
    v.scroll_down();
    let ops = redraw(&v);
    assert_eq!(ops.len(), 2 * 5 + 3);
    assert!(matches!(ops[0], TermOp::MoveUp(5)));
    assert!(matches!(ops[1], TermOp::ClearDown));
    for j in 0..5 {
        assert!(matches!(ops[2 + 2 * j], TermOp::ColumnStart));
        match &ops[3 + 2 * j] {
            TermOp::Line(spans) => assert_eq!(spans[0].text, format!("(h{})", j + 1)),
            _ => panic!("expected a line"),
        }
    }
    assert!(matches!(ops[12], TermOp::ColumnStart));
}

#[test]
fn redraw_of_short_log_still_moves_up_a_full_window() {
    let v = Viewport::new(vec![commit("a")]);
    let ops = redraw(&v);
    assert_eq!(ops.len(), 5);
    assert!(matches!(ops[0], TermOp::MoveUp(5)));
}
