//! Pull requests as GitHub describes them, and merge commit descriptions in
//! the form GitHub merge scripts write them.
use vstd::prelude::*;
use crate::git::GitCommit;

pub mod merge_description;

verus! {

/// What `gh pr view --json commits,title,author,headRefOid,baseRefName`
/// says of a pull request.
pub struct PrInfo {
    /// The IDs of the pull request's commits, oldest first.
    pub commits: Vec<GitCommit>,
    pub title: String,
    /// The GitHub login of the author.
    pub author: String,
    /// The ID of the pull request's head commit.
    pub head_commit: GitCommit,
    /// The branch the pull request is to be merged into.
    pub base_ref: String,
}

impl PrInfo {
    /// The IDs of the pull request's commits, oldest first.
    pub fn commit_ids(&self) -> (r: &[GitCommit])
        ensures
            r@ == self.commits@,
    {
        self.commits.as_slice()
    }
}

} // verus!
