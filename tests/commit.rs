use gitlog_view::commit::{
    are_files_to_commit, handle_commit, is_top_level, is_valid_commit, matches_top_level,
    CommitCheckError, CommitFlow,
};

#[test]
fn modes_pick_workflows() {
    assert_eq!(handle_commit("commit"), CommitFlow::Menu);
    assert_eq!(handle_commit("c"), CommitFlow::Menu);
    assert_eq!(handle_commit("ca"), CommitFlow::AllFiles);
    assert_eq!(handle_commit("cf"), CommitFlow::SpecificFiles);
    assert_eq!(handle_commit("cx"), CommitFlow::Menu);
    assert_eq!(handle_commit(""), CommitFlow::Menu);
}

#[test]
fn commit_checks() {
    assert_eq!(is_valid_commit(false, true), Err(CommitCheckError::NotARepository));
    assert_eq!(is_valid_commit(false, false), Err(CommitCheckError::NotARepository));
    assert_eq!(is_valid_commit(true, false), Err(CommitCheckError::NothingToCommit));
    assert_eq!(is_valid_commit(true, true), Ok(()));
    assert_eq!(CommitCheckError::NotARepository.message(), "Not a git repository");
    assert_eq!(CommitCheckError::NothingToCommit.message(), "No files to commit");
}

#[test]
fn status_output_decides_files_to_commit() {
    assert!(!are_files_to_commit(b""));
    assert!(are_files_to_commit(b" M src/lib.rs\n"));
}

#[test]
fn top_level_compares_trimmed_output() {
    assert!(is_top_level(true, "/home/u/repo\n", "/home/u/repo"));
    assert!(is_top_level(true, "  /home/u/repo \n", "/home/u/repo"));
    assert!(!is_top_level(true, "/home/u/repo\n", "/home/u/repo/src"));
    assert!(!is_top_level(false, "/home/u/repo\n", "/home/u/repo"));
}

#[test]
fn top_level_on_trimmed_text() {
    assert!(matches_top_level(true, "/r", "/r"));
    assert!(!matches_top_level(true, "/r\n", "/r"));
    assert!(!matches_top_level(false, "/r", "/r"));
}
