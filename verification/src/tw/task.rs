//! Pull-request and commit tasks, built from the exported task records.
use vstd::prelude::*;
use crate::git::GitCommit;
use crate::outside::{uuid_text, uuid_to_string};
use crate::text::path_is_absolute;
use crate::text::{opt_string_view, push_all, push_str, string_of};
use super::serde_types::{CiStatus, MergeStatus, ReviewStatus, Task};

verus! {

/// What a pull-request task records.
pub struct PrTaskView {
    pub uuid: u128,
    pub description: Seq<char>,
    pub tip_commit_uuid: u128,
    pub project: Seq<char>,
    pub repo_dir: Seq<char>,
    pub review_status: ReviewStatus,
    pub review_notes: Seq<char>,
    pub title: Seq<char>,
    pub author: Seq<char>,
    pub number: usize,
    pub merge_status: MergeStatus,
    pub base_commit: Seq<char>,
    pub merge_uuid: u128,
    pub merge_change_id: Seq<char>,
    pub base_ref: Option<Seq<char>>,
}

/// What a commit task records.
pub struct CommitTaskView {
    pub uuid: u128,
    pub description: Seq<char>,
    pub parent_commit_uuid: Option<u128>,
    pub project: Seq<char>,
    pub repo_dir: Seq<char>,
    pub review_status: ReviewStatus,
    pub review_notes: Seq<char>,
    pub commit_id: Seq<char>,
    pub is_tip: bool,
    pub ci_status: CiStatus,
    pub derivation: Option<Seq<char>>,
    pub claimed_by: Option<Seq<char>>,
    pub local_ci_commit_id: Option<Seq<char>>,
    pub is_merge_commit: bool,
    pub is_clean_merge: bool,
    pub prs: Seq<usize>,
}

/// A change of status recorded for a pull-request task.
pub enum PrUpdate {
    MergeStatus(MergeStatus),
    Review(ReviewStatus, String),
}

/// A change of status recorded for a commit task.
pub enum CommitUpdate {
    CiStatus(CiStatus),
    Review(ReviewStatus, String),
    Derivation(String),
    LocalCiCommitId(String),
}

/// A pull-request task after a change of status.
pub open spec fn pr_updated(p: PrTaskView, upd: PrUpdate) -> PrTaskView {
    match upd {
        PrUpdate::MergeStatus(s) => PrTaskView { merge_status: s, ..p },
        PrUpdate::Review(s, notes) => PrTaskView { review_status: s, review_notes: notes@, ..p },
    }
}

/// A commit task after a change of status.
pub open spec fn commit_updated(c: CommitTaskView, upd: CommitUpdate) -> CommitTaskView {
    match upd {
        CommitUpdate::CiStatus(s) => CommitTaskView { ci_status: s, ..c },
        CommitUpdate::Review(s, notes) => CommitTaskView {
            review_status: s,
            review_notes: notes@,
            ..c
        },
        CommitUpdate::Derivation(d) => CommitTaskView { derivation: Some(d@), ..c },
        CommitUpdate::LocalCiCommitId(id) => CommitTaskView { local_ci_commit_id: Some(id@), ..c },
    }
}

#[derive(Debug, Clone)]
pub struct PrTask {
    uuid: u128,
    description: String,
    tip_commit_uuid: u128,
    project: String,
    repo_dir: String,
    review_status: ReviewStatus,
    review_notes: String,
    title: String,
    author: String,
    number: usize,
    merge_status: MergeStatus,
    base_commit: GitCommit,
    merge_uuid: u128,
    merge_change_id: String,
    base_ref: Option<String>,
}

impl View for PrTask {
    type V = PrTaskView;

    closed spec fn view(&self) -> PrTaskView {
        PrTaskView {
            uuid: self.uuid,
            description: self.description@,
            tip_commit_uuid: self.tip_commit_uuid,
            project: self.project@,
            repo_dir: self.repo_dir@,
            review_status: self.review_status,
            review_notes: self.review_notes@,
            title: self.title@,
            author: self.author@,
            number: self.number,
            merge_status: self.merge_status,
            base_commit: self.base_commit@,
            merge_uuid: self.merge_uuid,
            merge_change_id: self.merge_change_id@,
            base_ref: opt_string_view(self.base_ref),
        }
    }
}


impl PrTask {
    /// Identifies the record.
    pub fn uuid(&self) -> (r: u128)
        ensures
            r == self@.uuid,
    {
        self.uuid
    }

    /// The project in the form `org.repo`. The taskwarrior project is this
    /// string prefixed by `local-ci.`.
    pub fn project(&self) -> (r: &str)
        ensures
            r@ == self@.project,
    {
        self.project.as_str()
    }

    /// The title of the pull request.
    pub fn title(&self) -> (r: &str)
        ensures
            r@ == self@.title,
    {
        self.title.as_str()
    }

    /// The GitHub login of the pull request's author.
    pub fn author(&self) -> (r: &str)
        ensures
            r@ == self@.author,
    {
        self.author.as_str()
    }

    /// The pull request's number.
    pub fn number(&self) -> (r: usize)
        ensures
            r == self@.number,
    {
        self.number
    }

    /// The path to the git toplevel directory of the project.
    pub fn repo_dir(&self) -> (r: &str)
        ensures
            r@ == self@.repo_dir,
    {
        self.repo_dir.as_str()
    }

    /// The review status of the pull request itself.
    pub fn review_status(&self) -> (r: ReviewStatus)
        ensures
            r == self@.review_status,
    {
        self.review_status
    }

    /// How far the pull request is on its way to being pushed.
    pub fn merge_status(&self) -> (r: MergeStatus)
        ensures
            r == self@.merge_status,
    {
        self.merge_status
    }

    /// The commit the pull request is to be merged onto.
    pub fn base_commit(&self) -> (r: &GitCommit)
        ensures
            r@ == self@.base_commit,
    {
        &self.base_commit
    }

    /// The UUID of the commit task of the merge commit.
    pub fn merge_uuid(&self) -> (r: u128)
        ensures
            r == self@.merge_uuid,
    {
        self.merge_uuid
    }

    /// The jj change ID of the merge commit.
    pub fn merge_change_id(&self) -> (r: &str)
        ensures
            r@ == self@.merge_change_id,
    {
        self.merge_change_id.as_str()
    }

    /// The branch the pull request is merged into, when recorded.
    pub fn base_ref(&self) -> (r: Option<&str>)
        ensures
            crate::forgejo::opt_str_view(r) == self@.base_ref,
    {
        match &self.base_ref {
            Some(b) => Some(b.as_str()),
            None => None,
        }
    }

    /// The task of the pull request's tip commit.
    pub fn dep_uuid(&self) -> (r: u128)
        ensures
            r == self@.tip_commit_uuid,
    {
        self.tip_commit_uuid
    }

    /// Applies a change of status to the task.
    pub(crate) fn apply_update(&mut self, upd: PrUpdate)
        ensures
            final(self)@ == pr_updated(old(self)@, upd),
    {
        match upd {
            PrUpdate::MergeStatus(status) => {
                self.merge_status = status;
            },
            PrUpdate::Review(status, notes) => {
                self.review_status = status;
                self.review_notes = notes;
            },
        }
    }

}

#[derive(Debug, Clone)]
pub struct CommitTask {
    uuid: u128,
    description: String,
    // For merge commits this will be the non-trunk parent.
    // If the PR itself contains merge commits it will just be rejected when
    // it's added.
    parent_commit_uuid: Option<u128>,
    project: String,
    repo_dir: String,
    review_status: ReviewStatus,
    review_notes: String,
    commit_id: GitCommit,
    is_tip: bool,
    ci_status: CiStatus,
    derivation: Option<String>,
    claimed_by: Option<String>,
    local_ci_commit_id: Option<String>,
    is_merge_commit: bool,
    is_clean_merge: bool,
    prs: Vec<usize>,
}

impl View for CommitTask {
    type V = CommitTaskView;

    closed spec fn view(&self) -> CommitTaskView {
        CommitTaskView {
            uuid: self.uuid,
            description: self.description@,
            parent_commit_uuid: self.parent_commit_uuid,
            project: self.project@,
            repo_dir: self.repo_dir@,
            review_status: self.review_status,
            review_notes: self.review_notes@,
            commit_id: self.commit_id@,
            is_tip: self.is_tip,
            ci_status: self.ci_status,
            derivation: opt_string_view(self.derivation),
            claimed_by: opt_string_view(self.claimed_by),
            local_ci_commit_id: opt_string_view(self.local_ci_commit_id),
            is_merge_commit: self.is_merge_commit,
            is_clean_merge: self.is_clean_merge,
            prs: self.prs@,
        }
    }
}

impl CommitTask {
    /// Identifies the record.
    pub fn uuid(&self) -> (r: u128)
        ensures
            r == self@.uuid,
    {
        self.uuid
    }

    /// The project in the form `org.repo`. The taskwarrior project is this
    /// string prefixed by `local-ci.`.
    pub fn project(&self) -> (r: &str)
        ensures
            r@ == self@.project,
    {
        self.project.as_str()
    }

    /// The path to the git toplevel directory of the project.
    pub fn repo_dir(&self) -> (r: &str)
        ensures
            r@ == self@.repo_dir,
    {
        self.repo_dir.as_str()
    }

    /// The description of the task.
    pub fn description(&self) -> (r: &str)
        ensures
            r@ == self@.description,
    {
        self.description.as_str()
    }

    /// The commit ID.
    pub fn commit_id(&self) -> (r: &GitCommit)
        ensures
            r@ == self@.commit_id,
    {
        &self.commit_id
    }

    /// The review status of the commit.
    pub fn review_status(&self) -> (r: ReviewStatus)
        ensures
            r == self@.review_status,
    {
        self.review_status
    }

    /// The CI status of the commit.
    pub fn ci_status(&self) -> (r: CiStatus)
        ensures
            r == self@.ci_status,
    {
        self.ci_status
    }

    /// Whether the commit is the tip of a pull request.
    pub fn is_tip(&self) -> (r: bool)
        ensures
            r == self@.is_tip,
    {
        self.is_tip
    }

    /// Whether the commit is a merge commit.
    pub fn is_merge_commit(&self) -> (r: bool)
        ensures
            r == self@.is_merge_commit,
    {
        self.is_merge_commit
    }

    /// Whether the commit is a merge commit whose merge needed no changes.
    pub fn is_clean_merge(&self) -> (r: bool)
        ensures
            r == self@.is_clean_merge,
    {
        self.is_clean_merge
    }

    /// The numbers of the pull requests that contain this commit.
    pub fn prs(&self) -> (r: &[usize])
        ensures
            r@ == self@.prs,
    {
        self.prs.as_slice()
    }

    /// The task of the parent commit, if any.
    pub fn dep_uuid(&self) -> (r: Option<u128>)
        ensures
            r == self@.parent_commit_uuid,
    {
        self.parent_commit_uuid
    }

    /// Applies a change of status to the task.
    pub(crate) fn apply_update(&mut self, upd: CommitUpdate)
        ensures
            final(self)@ == commit_updated(old(self)@, upd),
    {
        match upd {
            CommitUpdate::CiStatus(status) => {
                self.ci_status = status;
            },
            CommitUpdate::Review(status, notes) => {
                self.review_status = status;
                self.review_notes = notes;
            },
            CommitUpdate::Derivation(d) => {
                self.derivation = Some(d);
            },
            CommitUpdate::LocalCiCommitId(c) => {
                self.local_ci_commit_id = Some(c);
            },
        }
    }

    /// Notes that the pull request `number` contains this commit.
    pub(crate) fn push_pr(&mut self, number: usize)
        ensures
            final(self)@ == (CommitTaskView { prs: old(self)@.prs.push(number), ..old(self)@ }),
    {
        self.prs.push(number);
    }
}

/// Why a task record could not be turned into a task.
#[derive(Debug)]
pub enum TaskParseErrorInner {
    TaskWarriorParse(serde_json::Error),
    InvalidRepoRoot,
    PrMissingTipCommit,
    PrMultipleDependencies,
    CommitMultipleDependencies,
    MissingField { task_ty: &'static str, field: &'static str },
}

/// A task record that could not be turned into a task, with the UUID of the
/// task when it was known.
#[derive(Debug)]
pub struct TaskParseError {
    pub uuid: Option<u128>,
    pub error: TaskParseErrorInner,
}

impl TaskParseErrorInner {
    /// The message of the error, without the task it concerns.
    pub open spec fn message(&self) -> Seq<char> {
        match self {
            TaskParseErrorInner::TaskWarriorParse(_) => "failed to parse taskwarrior json"@,
            TaskParseErrorInner::InvalidRepoRoot => "Invalid repo_root path"@,
            TaskParseErrorInner::PrMissingTipCommit =>
                "PR task must have exactly one dependency (tip commit)"@,
            TaskParseErrorInner::PrMultipleDependencies =>
                "PR task has multiple dependencies, expected exactly one"@,
            TaskParseErrorInner::CommitMultipleDependencies =>
                "Commit task has multiple dependencies, expected at most one"@,
            TaskParseErrorInner::MissingField { task_ty, field } => "missing field "@ + field@
                + " for "@ + task_ty@,
        }
    }

    /// Tags the error with the task it concerns.
    pub fn with_uuid(self, uuid: u128) -> (r: TaskParseError)
        ensures
            r.uuid == Some(uuid),
            r.error == self,
    {
        TaskParseError { uuid: Some(uuid), error: self }
    }
}

impl TaskParseError {
    /// The message shown for this error.
    pub open spec fn message(&self) -> Seq<char> {
        match self.uuid {
            Some(u) => "[task "@ + uuid_text(u) + "] "@ + self.error.message(),
            None => self.error.message(),
        }
    }

    /// Renders the error message.
    pub fn to_string(&self) -> (s: String)
        ensures
            s@ == self.message(),
    {
        let mut v: Vec<char> = Vec::new();
        if let Some(u) = self.uuid {
            push_str(&mut v, "[task ");
            let us = uuid_to_string(u);
            push_str(&mut v, us.as_str());
            push_str(&mut v, "] ");
        }
        match &self.error {
            TaskParseErrorInner::TaskWarriorParse(_) => push_str(
                &mut v,
                "failed to parse taskwarrior json",
            ),
            TaskParseErrorInner::InvalidRepoRoot => push_str(&mut v, "Invalid repo_root path"),
            TaskParseErrorInner::PrMissingTipCommit => push_str(
                &mut v,
                "PR task must have exactly one dependency (tip commit)",
            ),
            TaskParseErrorInner::PrMultipleDependencies => push_str(
                &mut v,
                "PR task has multiple dependencies, expected exactly one",
            ),
            TaskParseErrorInner::CommitMultipleDependencies => push_str(
                &mut v,
                "Commit task has multiple dependencies, expected at most one",
            ),
            TaskParseErrorInner::MissingField { task_ty, field } => {
                push_str(&mut v, "missing field ");
                push_str(&mut v, field);
                push_str(&mut v, " for ");
                push_str(&mut v, task_ty);
            },
        }
        assert(v@ =~= self.message());
        string_of(v.as_slice())
    }
}

/// A task record turned into the kind of task it describes.
pub enum PrOrCommitTask {
    Pr(PrTask),
    Commit(CommitTask),
}

/// The project named by a Taskwarrior project: without the `local-ci.` prefix.
pub open spec fn project_of(p: Seq<char>) -> Seq<char> {
    if crate::text::starts_with(p, "local-ci."@) {
        p.skip(9)
    } else {
        p
    }
}

/// The reasons, other than its JSON, for which a record is refused, in the
/// order in which they are checked.
pub enum TaskFailure {
    InvalidRepoRoot,
    CommitMultipleDependencies,
    PrMissingTipCommit,
    PrMultipleDependencies,
    MissingField(Seq<char>),
}

/// The first reason for which a parsed record is refused, if any.
pub open spec fn task_failure(t: Task) -> Option<TaskFailure> {
    if !(t.repo_root@.len() > 0 && t.repo_root@[0] == '/') {
        Some(TaskFailure::InvalidRepoRoot)
    } else if t.commit_id is Some {
        if t.depends@.len() > 1 {
            Some(TaskFailure::CommitMultipleDependencies)
        } else {
            None
        }
    } else if t.depends@.len() == 0 {
        Some(TaskFailure::PrMissingTipCommit)
    } else if t.depends@.len() > 1 {
        Some(TaskFailure::PrMultipleDependencies)
    } else if t.pr_title is None {
        Some(TaskFailure::MissingField("pr_title"@))
    } else if t.pr_author is None {
        Some(TaskFailure::MissingField("pr_author"@))
    } else if t.pr_number is None {
        Some(TaskFailure::MissingField("pr_number"@))
    } else if t.base_commit is None {
        Some(TaskFailure::MissingField("base_commit"@))
    } else if t.merge_change_id is None {
        Some(TaskFailure::MissingField("merge_change_id"@))
    } else if t.merge_uuid is None {
        Some(TaskFailure::MissingField("merge_uuid"@))
    } else {
        None
    }
}

/// Whether an error is the one that reports a failure.
pub open spec fn reports(e: TaskParseErrorInner, f: TaskFailure) -> bool {
    match f {
        TaskFailure::InvalidRepoRoot => e is InvalidRepoRoot,
        TaskFailure::CommitMultipleDependencies => e is CommitMultipleDependencies,
        TaskFailure::PrMissingTipCommit => e is PrMissingTipCommit,
        TaskFailure::PrMultipleDependencies => e is PrMultipleDependencies,
        TaskFailure::MissingField(name) => e matches TaskParseErrorInner::MissingField {
            task_ty,
            field,
        } && task_ty@ == "pr"@ && field@ == name,
    }
}

/// The commit task a record describes.
pub open spec fn commit_view_of(uuid: u128, t: Task) -> CommitTaskView {
    CommitTaskView {
        uuid: uuid,
        description: t.description@,
        parent_commit_uuid: if t.depends@.len() == 0 {
            None
        } else {
            Some(t.depends@[0])
        },
        project: project_of(t.project@),
        repo_dir: t.repo_root@,
        review_status: t.review_status,
        review_notes: t.review_notes@,
        commit_id: t.commit_id.unwrap()@,
        is_tip: t.tagged("TIP_COMMIT"@),
        ci_status: t.ci_status,
        derivation: opt_string_view(t.derivation),
        claimed_by: opt_string_view(t.claimed_by),
        local_ci_commit_id: None,
        is_merge_commit: t.tagged("MERGE_COMMIT"@),
        is_clean_merge: t.tagged("CLEAN_MERGE"@),
        prs: seq![],
    }
}

/// The pull-request task a record describes.
pub open spec fn pr_view_of(uuid: u128, t: Task) -> PrTaskView {
    PrTaskView {
        uuid: uuid,
        description: t.description@,
        tip_commit_uuid: t.depends@[0],
        project: project_of(t.project@),
        repo_dir: t.repo_root@,
        review_status: t.review_status,
        review_notes: t.review_notes@,
        title: t.pr_title.unwrap()@,
        author: t.pr_author.unwrap()@,
        number: t.pr_number.unwrap(),
        merge_status: t.merge_status,
        base_commit: t.base_commit.unwrap()@,
        merge_uuid: t.merge_uuid.unwrap(),
        merge_change_id: t.merge_change_id.unwrap()@,
        base_ref: opt_string_view(t.base_ref),
    }
}

/// What turning a parsed record of task `uuid` into a task gives.
pub open spec fn task_built(
    uuid: u128,
    t: Task,
    r: Result<PrOrCommitTask, TaskParseError>,
) -> bool {
    match task_failure(t) {
        Some(f) => r matches Err(e) && e.uuid == Some(uuid) && reports(e.error, f),
        None => if t.commit_id is Some {
            r matches Ok(PrOrCommitTask::Commit(c)) && c@ == commit_view_of(uuid, t)
        } else {
            r matches Ok(PrOrCommitTask::Pr(p)) && p@ == pr_view_of(uuid, t)
        },
    }
}

fn strip_project_prefix(p: String) -> (r: String)
    ensures
        r@ == project_of(p@),
{
    let cs = crate::text::chars_of(p.as_str());
    let prefix = crate::text::chars_of("local-ci.");
    proof {
        reveal_strlit("local-ci.");
    }
    if crate::text::starts_with_chars(cs.as_slice(), prefix.as_slice()) {
        let rest = crate::text::slice_to_vec_range(cs.as_slice(), 9, cs.len());
        assert(rest@ =~= p@.skip(9));
        string_of(rest.as_slice())
    } else {
        p
    }
}

/// A task built from a record keeps what the record says: a pull request
/// its statuses, notes, tip commit, number, merge commit, title, author and
/// merge change; a commit its ID, statuses, notes and parent. Either keeps
/// the UUID it was given, the repository and the description.
pub proof fn lemma_built_task_keeps_record(uuid: u128, t: Task, r: Result<PrOrCommitTask, TaskParseError>)
    requires
        task_built(uuid, t, r),
    ensures
            r matches Ok(PrOrCommitTask::Pr(p)) ==> {
                &&& t.commit_id is None
                &&& p@.uuid == uuid
                &&& p@.merge_status == t.merge_status
                &&& p@.review_status == t.review_status
                &&& p@.review_notes == t.review_notes@
                &&& t.depends@.len() == 1 && p@.tip_commit_uuid == t.depends@[0]
                &&& t.pr_number == Some(p@.number)
                &&& t.merge_uuid == Some(p@.merge_uuid)
                &&& opt_string_view(t.pr_title) == Some(p@.title)
                &&& opt_string_view(t.pr_author) == Some(p@.author)
                &&& opt_string_view(t.merge_change_id) == Some(p@.merge_change_id)
                &&& p@.repo_dir == t.repo_root@
                &&& p@.description == t.description@
            },
            r matches Ok(PrOrCommitTask::Commit(c)) ==> {
                &&& t.commit_id is Some && c@.commit_id == t.commit_id->0@
                &&& c@.uuid == uuid
                &&& c@.ci_status == t.ci_status
                &&& c@.review_status == t.review_status
                &&& c@.review_notes == t.review_notes@
                &&& t.depends@.len() <= 1
                &&& c@.parent_commit_uuid == (if t.depends@.len() == 0 { None } else { Some(t.depends@[0]) })
                &&& c@.repo_dir == t.repo_root@
                &&& c@.description == t.description@
                &&& c@.prs.len() == 0
            },
{
}

impl PrOrCommitTask {
    /// Builds the task that a parsed record of task `uuid` describes.
    pub fn from_task(uuid: u128, task: Task) -> (r: Result<PrOrCommitTask, TaskParseError>)
        ensures
            task_built(uuid, task, r),
            r matches Ok(PrOrCommitTask::Pr(p)) ==> {
                &&& task.commit_id is None
                &&& p@.uuid == uuid
                &&& p@.merge_status == task.merge_status
                &&& p@.review_status == task.review_status
                &&& p@.review_notes == task.review_notes@
                &&& task.depends@.len() == 1 && p@.tip_commit_uuid == task.depends@[0]
                &&& task.pr_number == Some(p@.number)
                &&& task.merge_uuid == Some(p@.merge_uuid)
                &&& opt_string_view(task.pr_title) == Some(p@.title)
                &&& opt_string_view(task.pr_author) == Some(p@.author)
                &&& opt_string_view(task.merge_change_id) == Some(p@.merge_change_id)
                &&& p@.repo_dir == task.repo_root@
                &&& p@.description == task.description@
            },
            r matches Ok(PrOrCommitTask::Commit(c)) ==> {
                &&& task.commit_id is Some && c@.commit_id == task.commit_id->0@
                &&& c@.uuid == uuid
                &&& c@.ci_status == task.ci_status
                &&& c@.review_status == task.review_status
                &&& c@.review_notes == task.review_notes@
                &&& task.depends@.len() <= 1
                &&& c@.parent_commit_uuid == (if task.depends@.len() == 0 { None } else { Some(task.depends@[0]) })
                &&& c@.repo_dir == task.repo_root@
                &&& c@.description == task.description@
                &&& c@.prs.len() == 0
            },
    {
        let ghost t = task;
        if !path_is_absolute(task.repo_root.as_str()) {
            return Err(TaskParseErrorInner::InvalidRepoRoot.with_uuid(uuid));
        }
        let is_tip = task.has_tag("TIP_COMMIT");
        let is_merge_commit = task.has_tag("MERGE_COMMIT");
        let is_clean_merge = task.has_tag("CLEAN_MERGE");
        let Task {
            depends,
            tags: _,
            project,
            repo_root,
            description,
            ci_status,
            merge_status,
            review_status,
            review_notes,
            commit_id,
            derivation,
            claimed_by,
            pr_title,
            pr_author,
            pr_number,
            base_commit,
            merge_change_id,
            merge_uuid,
            base_ref,
        } = task;
        let project = strip_project_prefix(project);
        if let Some(commit_id) = commit_id {
            // This is a commit task - can have 0 or 1 dependencies (parent commit)
            if depends.len() > 1 {
                return Err(TaskParseErrorInner::CommitMultipleDependencies.with_uuid(uuid));
            }
            let parent_commit_uuid = if depends.len() == 0 {
                None
            } else {
                Some(depends[0])
            };
            let c = CommitTask {
                uuid,
                description,
                parent_commit_uuid,
                project,
                repo_dir: repo_root,
                review_status,
                review_notes,
                commit_id,
                is_tip,
                ci_status,
                derivation,
                claimed_by,
                local_ci_commit_id: None,
                is_merge_commit,
                is_clean_merge,
                prs: Vec::new(),
            };
            assert(c@ =~= commit_view_of(uuid, t));
            Ok(PrOrCommitTask::Commit(c))
        } else {
            // This is a PR task - must have exactly one dependency (tip commit)
            if depends.len() == 0 {
                return Err(TaskParseErrorInner::PrMissingTipCommit.with_uuid(uuid));
            }
            if depends.len() > 1 {
                return Err(TaskParseErrorInner::PrMultipleDependencies.with_uuid(uuid));
            }
            let title = match pr_title {
                Some(x) => x,
                None => {
                    return Err(
                        TaskParseErrorInner::MissingField { task_ty: "pr", field: "pr_title" }.with_uuid(uuid),
                    )
                },
            };
            let author = match pr_author {
                Some(x) => x,
                None => {
                    return Err(
                        TaskParseErrorInner::MissingField { task_ty: "pr", field: "pr_author" }.with_uuid(uuid),
                    )
                },
            };
            let number = match pr_number {
                Some(x) => x,
                None => {
                    return Err(
                        TaskParseErrorInner::MissingField { task_ty: "pr", field: "pr_number" }.with_uuid(uuid),
                    )
                },
            };
            let base_commit = match base_commit {
                Some(x) => x,
                None => {
                    return Err(
                        TaskParseErrorInner::MissingField { task_ty: "pr", field: "base_commit" }.with_uuid(uuid),
                    )
                },
            };
            let merge_change_id = match merge_change_id {
                Some(x) => x,
                None => {
                    return Err(
                        TaskParseErrorInner::MissingField {
                            task_ty: "pr",
                            field: "merge_change_id",
                        }.with_uuid(uuid),
                    )
                },
            };
            let merge_uuid = match merge_uuid {
                Some(x) => x,
                None => {
                    return Err(
                        TaskParseErrorInner::MissingField { task_ty: "pr", field: "merge_uuid" }.with_uuid(uuid),
                    )
                },
            };
            let p = PrTask {
                uuid,
                description,
                tip_commit_uuid: depends[0],
                project,
                repo_dir: repo_root,
                review_status,
                review_notes,
                title,
                author,
                number,
                merge_status,
                base_commit,
                merge_uuid,
                merge_change_id,
                base_ref,
            };
            assert(p@ =~= pr_view_of(uuid, t));
            Ok(PrOrCommitTask::Pr(p))
        }
    }

    /// Builds a task from the two parses of one exported line: the parse of
    /// its UUID alone, and the parse of the whole record. A failed parse is
    /// reported as such, tagged with the UUID once that is known.
    pub fn from_parsed(
        uuid: Result<u128, serde_json::Error>,
        task: Result<Task, serde_json::Error>,
    ) -> (r: Result<PrOrCommitTask, TaskParseError>)
        ensures
            uuid is Err ==> (r matches Err(e) && e.uuid is None && e.error is TaskWarriorParse),
            uuid matches Ok(u) ==> match task {
                Err(_) => r matches Err(e) && e.uuid == Some(u) && e.error is TaskWarriorParse,
                Ok(t) => task_built(u, t, r),
            },
    {
        let u = match uuid {
            Ok(u) => u,
            Err(e) => {
                return Err(
                    TaskParseError { uuid: None, error: TaskParseErrorInner::TaskWarriorParse(e) },
                );
            },
        };
        match task {
            Ok(t) => PrOrCommitTask::from_task(u, t),
            Err(e) => Err(TaskParseErrorInner::TaskWarriorParse(e).with_uuid(u)),
        }
    }
}

/// A Taskwarrior project is the tool's project prefixed by `local-ci.`.
pub proof fn lemma_project_prefix(p: Seq<char>)
    ensures
        project_of("local-ci."@ + p) == p,
{
    reveal_strlit("local-ci.");
    let s = "local-ci."@ + p;
    assert(s.subrange(0, 9) =~= "local-ci."@);
    assert(s.skip(9) =~= p);
}
} // verus!
