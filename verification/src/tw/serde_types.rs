//! The task record as Taskwarrior exports it, and the statuses it carries.
use vstd::prelude::*;
use crate::git::GitCommit;

verus! {

/// Where a commit stands in the CI pipeline.
#[derive(Copy, Debug, Clone, PartialEq, Eq, Structural)]
pub enum CiStatus {
    Unstarted,
    Started,
    Success,
    Failed,
}

/// Where a pull request stands on its way to being pushed.
#[derive(Copy, Debug, Clone, PartialEq, Eq, Structural)]
pub enum MergeStatus {
    Unstarted,
    NeedSig,
    Pushed,
}

/// The outcome of a human review.
#[derive(Copy, Debug, Clone, PartialEq, Eq, Structural)]
pub enum ReviewStatus {
    Unreviewed,
    NeedsChange,
    Nacked,
    Approved,
}

impl Default for CiStatus {
    fn default() -> (r: Self)
        ensures
            r == CiStatus::Unstarted,
    {
        CiStatus::Unstarted
    }
}

impl Default for MergeStatus {
    fn default() -> (r: Self)
        ensures
            r == MergeStatus::Unstarted,
    {
        MergeStatus::Unstarted
    }
}

impl Default for ReviewStatus {
    fn default() -> (r: Self)
        ensures
            r == ReviewStatus::Unreviewed,
    {
        ReviewStatus::Unreviewed
    }
}

impl CiStatus {
    /// The lower-case name under which Taskwarrior stores the status.
    pub open spec fn text(self) -> Seq<char> {
        match self {
            CiStatus::Unstarted => "unstarted"@,
            CiStatus::Started => "started"@,
            CiStatus::Success => "success"@,
            CiStatus::Failed => "failed"@,
        }
    }

    /// The stored name of the status.
    pub fn as_str(&self) -> (s: &'static str)
        ensures
            s@ == self.text(),
    {
        match self {
            CiStatus::Unstarted => "unstarted",
            CiStatus::Started => "started",
            CiStatus::Success => "success",
            CiStatus::Failed => "failed",
        }
    }
}

impl MergeStatus {
    /// The lower-case name under which Taskwarrior stores the status.
    pub open spec fn text(self) -> Seq<char> {
        match self {
            MergeStatus::Unstarted => "unstarted"@,
            MergeStatus::NeedSig => "needsig"@,
            MergeStatus::Pushed => "pushed"@,
        }
    }

    /// The stored name of the status.
    pub fn as_str(&self) -> (s: &'static str)
        ensures
            s@ == self.text(),
    {
        match self {
            MergeStatus::Unstarted => "unstarted",
            MergeStatus::NeedSig => "needsig",
            MergeStatus::Pushed => "pushed",
        }
    }
}

impl ReviewStatus {
    /// The lower-case name under which Taskwarrior stores the status.
    pub open spec fn text(self) -> Seq<char> {
        match self {
            ReviewStatus::Unreviewed => "unreviewed"@,
            ReviewStatus::NeedsChange => "needschange"@,
            ReviewStatus::Nacked => "nacked"@,
            ReviewStatus::Approved => "approved"@,
        }
    }

    /// The stored name of the status.
    pub fn as_str(&self) -> (s: &'static str)
        ensures
            s@ == self.text(),
    {
        match self {
            ReviewStatus::Unreviewed => "unreviewed",
            ReviewStatus::NeedsChange => "needschange",
            ReviewStatus::Nacked => "nacked",
            ReviewStatus::Approved => "approved",
        }
    }
}

/// Distinct statuses are stored under distinct names, so a status written to
/// Taskwarrior reads back as itself.
pub proof fn lemma_status_texts_distinct()
    ensures
        forall|a: CiStatus, b: CiStatus| a.text() == b.text() ==> a == b,
        forall|a: MergeStatus, b: MergeStatus| a.text() == b.text() ==> a == b,
        forall|a: ReviewStatus, b: ReviewStatus| a.text() == b.text() ==> a == b,
{
    reveal_strlit("unstarted");
    reveal_strlit("started");
    reveal_strlit("success");
    reveal_strlit("failed");
    reveal_strlit("needsig");
    reveal_strlit("pushed");
    reveal_strlit("unreviewed");
    reveal_strlit("needschange");
    reveal_strlit("nacked");
    reveal_strlit("approved");
    assert forall|a: CiStatus, b: CiStatus| a.text() == b.text() implies a == b by {
        if a != b {
            assert(a.text().len() != b.text().len() || a.text()[1] != b.text()[1]
                || a.text()[0] != b.text()[0]);
        }
    }
    assert forall|a: MergeStatus, b: MergeStatus| a.text() == b.text() implies a == b by {
        if a != b {
            assert(a.text().len() != b.text().len() || a.text()[0] != b.text()[0]);
        }
    }
    assert forall|a: ReviewStatus, b: ReviewStatus| a.text() == b.text() implies a == b by {
        if a != b {
            assert(a.text().len() != b.text().len() || a.text()[0] != b.text()[0]);
        }
    }
}

/// A task as Taskwarrior exports it, with the user-defined attributes this
/// tool keeps. UUIDs are held as their 128-bit values, paths as text.
pub struct Task {
    pub depends: Vec<u128>,
    pub tags: Vec<String>,
    pub project: String,
    pub repo_root: String,
    pub description: String,
    pub ci_status: CiStatus,
    pub merge_status: MergeStatus,
    pub review_status: ReviewStatus,
    pub review_notes: String,
    // Commit data
    pub commit_id: Option<GitCommit>,
    pub derivation: Option<String>,
    pub claimed_by: Option<String>,
    // PR data
    pub pr_title: Option<String>,
    pub pr_author: Option<String>,
    pub pr_number: Option<usize>,
    pub base_commit: Option<GitCommit>,
    pub merge_change_id: Option<String>,
    pub merge_uuid: Option<u128>,
    pub base_ref: Option<String>,
}

impl Task {
    /// Whether `tag` is among the task's tags.
    pub open spec fn tagged(&self, tag: Seq<char>) -> bool {
        exists|i: int| 0 <= i < self.tags@.len() && (#[trigger] self.tags@[i])@ == tag
    }

    /// Checks whether the tag exists in the task's tag list.
    ///
    /// Is case-sensitive, though I may change this if I learn
    /// that it shouldn't be.
    pub fn has_tag(&self, tag: &str) -> (r: bool)
        ensures
            r == self.tagged(tag@),
    {
        let mut i: usize = 0;
        while i < self.tags.len()
            invariant
                i <= self.tags@.len(),
                forall|j: int| 0 <= j < i ==> (#[trigger] self.tags@[j])@ != tag@,
            decreases self.tags@.len() - i,
        {
            if crate::text::str_eq(self.tags[i].as_str(), tag) {
                return true;
            }
            i = i + 1;
        }
        false
    }
}

} // verus!
