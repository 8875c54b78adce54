use gitlog_view::query::{CommitHistoryOptions, QueryFilter, DEFAULT_LIMIT};
use gitlog_view::render::Style;

fn options(branch: Option<&str>, all: bool) -> CommitHistoryOptions {
    CommitHistoryOptions {
        limit: None,
        author: None,
        branch: branch.map(|b| b.to_string()),
        file: None,
        all,
    }
}

#[test]
fn missing_branch_is_the_current_one() {
    let o = options(None, false);
    assert!(o.needs_current_branch());
    let f = o.resolve("main".to_string());
    assert_eq!(f.branch, "main");
    assert_eq!(f.limit, DEFAULT_LIMIT);
    assert_eq!(f.limit, 10);
    assert_eq!(f.author, "");
    assert_eq!(f.path, "");
}

#[test]
fn empty_branch_is_the_current_one() {
    let o = options(Some(""), false);
    assert!(o.needs_current_branch());
    assert_eq!(o.resolve("dev".to_string()).branch, "dev");
}

#[test]
fn all_branches_leaves_branch_empty() {
    let o = options(None, true);
    assert!(!o.needs_current_branch());
    assert_eq!(o.resolve("main".to_string()).branch, "");
}

#[test]
fn named_branch_is_kept() {
    let o = options(Some("feature"), false);
    assert!(!o.needs_current_branch());
    assert_eq!(o.resolve("main".to_string()).branch, "feature");
}

#[test]
fn given_values_are_kept() {
    let o = CommitHistoryOptions {
        limit: Some(25),
        author: Some("Bob".to_string()),
        branch: Some("dev".to_string()),
        file: Some("src/a.rs".to_string()),
        all: false,
    };
    let f = o.resolve(String::new());
    assert_eq!((f.limit, f.author.as_str(), f.branch.as_str(), f.path.as_str()), (25, "Bob", "dev", "src/a.rs"));
}

fn filter(limit: u64, author: &str, branch: &str, path: &str) -> QueryFilter {
    QueryFilter {
        limit,
        author: author.to_string(),
        branch: branch.to_string(),
        path: path.to_string(),
    }
}

#[test]
fn log_args_without_path() {
    let args = filter(10, "", "main", "").log_args();
    assert_eq!(
        args,
        vec![
            "log",
            "--oneline",
            "--decorate",
            "--color",
            "--pretty=format:%h-_-%s-_-%cr-_-%an",
            "--full-history",
            "-10",
            "--author=",
            "main",
        ]
    );
}

#[test]
fn log_args_with_path_and_author() {
    let args = filter(1234567, "Alice", "", "README.md").log_args();
    assert_eq!(args.len(), 10);
    assert_eq!(args[6], "-1234567");
    assert_eq!(args[7], "--author=Alice");
    assert_eq!(args[8], "");
    assert_eq!(args[9], "README.md");
}

#[test]
fn log_args_limit_extremes() {
    assert_eq!(filter(0, "", "b", "").log_args()[6], "-0");
    assert_eq!(filter(u64::MAX, "", "b", "").log_args()[6], "-18446744073709551615");
}

fn header_parts(f: &QueryFilter) -> Vec<(String, Style)> {
    f.header().iter().map(|s| (s.text.clone(), s.style)).collect()
}

#[test]
fn header_names_branch_only() {
    assert_eq!(
        header_parts(&filter(10, "", "main", "")),
        vec![
            ("Showing commits".to_string(), Style::Plain),
            (" on ".to_string(), Style::Plain),
            ("main".to_string(), Style::Yellow),
        ]
    );
}

#[test]
fn header_names_path_and_author() {
    assert_eq!(
        header_parts(&filter(10, "Bob", "dev", "a.rs")),
        vec![
            ("Showing commits".to_string(), Style::Plain),
            (" for ".to_string(), Style::Plain),
            ("a.rs".to_string(), Style::Green),
            (" made by ".to_string(), Style::Plain),
            ("Bob".to_string(), Style::Blue),
            (" on ".to_string(), Style::Plain),
            ("dev".to_string(), Style::Yellow),
        ]
    );
}
