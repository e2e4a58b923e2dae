//! Commits of a repository: the paths of the commit API and the full view
//! of one file's change.
use vstd::prelude::*;

verus! {

/// The path of a project's commit list.
pub struct ProjectPath {
    pub namespace: String,
    pub project: String,
}

/// The path of one commit.
pub struct CommitPath {
    pub namespace: String,
    pub project: String,
    pub sha: String,
}

/// The path of one file's change in a commit.
pub struct FileDiffPath {
    pub namespace: String,
    pub project: String,
    pub sha: String,
    pub file_path: String,
}

/// A file before and after a commit.
pub struct FullFileDiff {
    pub original_content: Option<String>,
    pub modified_content: Option<String>,
    pub total_lines: u32,
}

} // verus!
