use gitlog_view::record::Commit;
use gitlog_view::viewport::{Key, Step, Viewport, WINDOW_SIZE};

fn commits(n: usize) -> Vec<Commit> {
    (0..n)
        .map(|i| Commit {
            hash: format!("h{}", i),
            message: format!("message {}", i),
            date: format!("{} days ago", i),
            author: format!("author {}", i),
        })
        .collect()
}

fn hashes(v: &Viewport) -> Vec<String> {
    v.visible().iter().map(|c| c.hash.clone()).collect()
}

#[test]
fn twelve_records_scroll_to_six_and_stop() {
    let mut v = Viewport::new(commits(12));
    assert_eq!(WINDOW_SIZE, 5);
    assert_eq!(v.offset(), 0);
    assert_eq!(v.max_offset(), 6);
    for _ in 0..6 {
        v.scroll_down();
    }
    assert_eq!(v.offset(), 6);
    v.scroll_down();
    assert_eq!(v.offset(), 6);
    assert_eq!(hashes(&v), vec!["h6", "h7", "h8", "h9", "h10"]);
}

#[test]
fn three_records_never_scroll_down() {
    let mut v = Viewport::new(commits(3));
    assert_eq!(v.max_offset(), 0);
    for _ in 0..100 {
        v.scroll_down();
        assert_eq!(v.offset(), 0);
    }
    assert_eq!(hashes(&v), vec!["h0", "h1", "h2"]);
}

#[test]
fn scroll_up_at_top_is_a_no_op() {
    let mut v = Viewport::new(commits(12));
    v.scroll_up();
    assert_eq!(v.offset(), 0);
    v.scroll_down();
    v.scroll_down();
    v.scroll_up();
    assert_eq!(v.offset(), 1);
}

#[test]
fn window_holds_at_most_five_records() {
    for n in 0..15 {
        let mut v = Viewport::new(commits(n));
        for _ in 0..20 {
            assert!(v.visible().len() <= 5);
            v.scroll_down();
        }
        assert_eq!(v.visible().len(), n.min(5));
    }
}

#[test]
fn seven_records_reach_offset_one() {
    let mut v = Viewport::new(commits(7));
    assert_eq!(v.max_offset(), 1);
    v.scroll_down();
    v.scroll_down();
    assert_eq!(hashes(&v), vec!["h1", "h2", "h3", "h4", "h5"]);
}

#[test]
fn empty_viewport_shows_nothing() {
    let v = Viewport::new(Vec::new());
    assert_eq!(v.visible().len(), 0);
    assert_eq!(v.max_offset(), 0);
}

#[test]
fn keys_drive_the_loop() {
    let mut v = Viewport::new(commits(12));
    assert_eq!(v.handle_key(Key::Down), Step::Redraw);
    assert_eq!(v.offset(), 1);
    assert_eq!(v.handle_key(Key::Up), Step::Redraw);
    assert_eq!(v.offset(), 0);
    assert_eq!(v.handle_key(Key::Up), Step::Redraw);
    assert_eq!(v.offset(), 0);
    assert_eq!(v.handle_key(Key::Char('x')), Step::Wait);
    assert_eq!(v.handle_key(Key::Other), Step::Wait);
    assert_eq!(v.offset(), 0);
    assert_eq!(v.handle_key(Key::Char('q')), Step::Quit);
}
