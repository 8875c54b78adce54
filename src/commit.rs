//! Decisions around committing: which commit workflow a mode names, and
//! the checks on the repository's state made before one starts.

use vstd::prelude::*;

use crate::text::same_text;

verus! {

/// The commit workflows.
#[derive(Debug, Clone, Copy, PartialEq, Eq, Structural)]
pub enum CommitFlow {
    /// The interactive commit menu.
    Menu,
    /// Commit every changed file.
    AllFiles,
    /// Commit the files the user picks.
    SpecificFiles,
}

/// The workflow a mode names: `ca` every file, `cf` chosen files, anything
/// else (`commit`, `c` among them) the menu.
pub open spec fn flow_of(mode: Seq<char>) -> CommitFlow {
    if mode == "ca"@ {
        CommitFlow::AllFiles
    } else if mode == "cf"@ {
        CommitFlow::SpecificFiles
    } else {
        CommitFlow::Menu
    }
}

/// Picks the commit workflow for a mode.
pub fn handle_commit(mode: &str) -> (r: CommitFlow)
    ensures
        r == flow_of(mode@),
{
    if same_text(mode, "commit") || same_text(mode, "c") {
        proof {
            reveal_strlit("commit");
            reveal_strlit("c");
            reveal_strlit("ca");
            reveal_strlit("cf");
        }
        assert("commit"@.len() == 6 && "c"@.len() == 1);
        assert("ca"@.len() == 2 && "cf"@.len() == 2);
        CommitFlow::Menu
    } else if same_text(mode, "ca") {
        CommitFlow::AllFiles
    } else if same_text(mode, "cf") {
        CommitFlow::SpecificFiles
    } else {
        CommitFlow::Menu
    }
}

/// Why a commit cannot start.
#[derive(Debug, Clone, Copy, PartialEq, Eq, Structural)]
pub enum CommitCheckError {
    NotARepository,
    NothingToCommit,
}

impl CommitCheckError {
    /// The line shown to the user.
    pub fn message(&self) -> (r: &'static str)
        ensures
            *self == CommitCheckError::NotARepository ==> r@ == "Not a git repository"@,
            *self == CommitCheckError::NothingToCommit ==> r@ == "No files to commit"@,
    {
        match self {
            CommitCheckError::NotARepository => "Not a git repository",
            CommitCheckError::NothingToCommit => "No files to commit",
        }
    }
}

/// The status listing (short format) names at least one changed file.
pub fn are_files_to_commit(status_output: &[u8]) -> (r: bool)
    ensures
        r == (status_output@.len() > 0),
{
    status_output.len() != 0
}

/// A commit can start inside a repository with something to commit; the
/// repository is checked first.
pub fn is_valid_commit(is_repository: bool, files_to_commit: bool) -> (r: Result<(), CommitCheckError>)
    ensures
        !is_repository ==> r == Err::<(), CommitCheckError>(CommitCheckError::NotARepository),
        is_repository && !files_to_commit ==> r == Err::<(), CommitCheckError>(
            CommitCheckError::NothingToCommit,
        ),
        is_repository && files_to_commit ==> r is Ok,
{
    if !is_repository {
        return Err(CommitCheckError::NotARepository);
    }
    if !files_to_commit {
        return Err(CommitCheckError::NothingToCommit);
    }
    Ok(())
}

/// `s` without leading and trailing whitespace, as `str::trim` gives it.
pub uninterp spec fn trimmed(s: Seq<char>) -> Seq<char>;

/// Relies on `str::trim`: the result depends on the characters alone.
#[verifier::external_body]
fn trim_text(s: &str) -> (r: &str)
    ensures
        r@ == trimmed(s@),
{
    s.trim()
}

/// The top-level query succeeded and its answer, already trimmed, is the
/// working directory.
pub fn matches_top_level(query_ok: bool, trimmed_output: &str, current_dir: &str) -> (r: bool)
    ensures
        r == (query_ok && trimmed_output@ == current_dir@),
{
    if !query_ok {
        return false;
    }
    same_text(trimmed_output, current_dir)
}

/// Whether the working directory is the repository's top level, from the
/// success of the query that names the top level, its output and the
/// working directory.
pub fn is_top_level(query_ok: bool, output: &str, current_dir: &str) -> (r: bool)
    ensures
        r == (query_ok && trimmed(output@) == current_dir@),
{
    matches_top_level(query_ok, trim_text(output), current_dir)
}

} // verus!
