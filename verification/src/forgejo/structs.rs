//! The data types of the Forgejo API.
#![allow(non_camel_case_types)]
use vstd::prelude::*;
use std::collections::BTreeMap;
use super::headers::{header_bool, header_i64, header_text, read_bool, read_i64, read_text, HeaderMap};
use super::query::{
    each_int, each_text, each_wire, format_rfc3339, joined_text, joined_wire, opt_bool_text,
    opt_date_text, opt_entry, opt_int_text, opt_text, opt_time_text, opt_u32_text, opt_wire_text, pairs_view,
    push_each_i64, push_each_str, push_each_wire, push_entry, push_joined_str, push_joined_wire,
    push_opt_bool, push_opt_date, push_opt_i64, push_opt_str, push_opt_time, push_opt_u32, push_opt_wire,
    writable, QueryList, WireName,
};
use super::{opt_string_view, StructureError};

verus! {

/// APIError is an api error with a message
#[derive(Debug, Clone, PartialEq)]
pub struct APIError {
    pub message: Option<String>,
    pub url: Option<url::Url>,
}

#[derive(Debug, Clone, PartialEq)]
pub struct APIForbiddenError {
    pub message: Option<String>,
    pub url: Option<String>,
}

#[derive(Debug, Clone, PartialEq)]
pub struct APIInternalServerError {
    pub message: Option<String>,
    pub url: Option<String>,
}

#[derive(Debug, Clone, PartialEq)]
pub struct APIInvalidTopicsError {
    pub invalid_topics: Option<Vec<String>>,
    pub message: Option<String>,
}

#[derive(Debug, Clone, PartialEq)]
pub struct APINotFound {
    pub errors: Option<Vec<String>>,
    pub message: Option<String>,
    pub url: Option<String>,
}

#[derive(Debug, Clone, PartialEq)]
pub struct APIRepoArchivedError {
    pub message: Option<String>,
    pub url: Option<String>,
}

#[derive(Debug, Clone, PartialEq)]
pub struct APIUnauthorizedError {
    pub message: Option<String>,
    pub url: Option<String>,
}

#[derive(Debug, Clone, PartialEq)]
pub struct APIValidationError {
    pub message: Option<String>,
    pub url: Option<String>,
}

#[derive(Debug, Clone, PartialEq)]
pub struct AccessToken {
    pub id: Option<i64>,
    pub name: Option<String>,
    pub scopes: Option<Vec<String>>,
    pub sha1: Option<String>,
    pub token_last_eight: Option<String>,
}

/// ActionRun represents an action run
#[derive(Debug, Clone, PartialEq)]
pub struct ActionRun {
    /// the cron id for the schedule trigger
    pub schedule_id: Option<i64>,
    /// who approved this action run
    pub approved_by: Option<i64>,
    /// the commit sha the action run ran on
    pub commit_sha: Option<String>,
    /// when the action run was created
    pub created: Option<time::OffsetDateTime>,
    pub duration: Option<i64>,
    /// the webhook event that causes the workflow to run
    pub event: Option<String>,
    /// the payload of the webhook event that causes the workflow to run
    pub event_payload: Option<String>,
    /// the url of this action run
    pub html_url: Option<url::Url>,
    /// the action run id
    pub id: Option<i64>,
    /// a unique number for each run of a repository
    pub index_in_repo: Option<i64>,
    /// If this is triggered by a PR from a forked repository or an untrusted user, we need to check if it is approved and limit permissions when running the workflow.
    pub is_fork_pull_request: Option<bool>,
    /// has the commit/tag/… the action run ran on been deleted
    pub is_ref_deleted: Option<bool>,
    /// may need approval if it's a fork pull request
    pub need_approval: Option<bool>,
    /// the commit/tag/… the action run ran on
    pub prettyref: Option<String>,
    pub repository: Option<Repository>,
    /// when the action run was started
    pub started: Option<time::OffsetDateTime>,
    /// the current status of this run
    pub status: Option<String>,
    /// when the action run was stopped
    pub stopped: Option<time::OffsetDateTime>,
    /// the action run's title
    pub title: Option<String>,
    /// the trigger event defined in the `on` configuration of the triggered workflow
    pub trigger_event: Option<String>,
    pub trigger_user: Option<User>,
    /// when the action run was last updated
    pub updated: Option<time::OffsetDateTime>,
    /// the name of workflow file
    pub workflow_id: Option<String>,
}

/// ActionRunJob represents a job of a run
#[derive(Debug, Clone, PartialEq)]
pub struct ActionRunJob {
    /// the action run job id
    pub id: Option<i64>,
    /// the action run job name
    pub name: Option<String>,
    /// the action run job needed ids
    pub needs: Option<Vec<String>>,
    /// the owner id
    pub owner_id: Option<i64>,
    /// the repository id
    pub repo_id: Option<i64>,
    /// the action run job labels to run on
    pub runs_on: Option<Vec<String>>,
    /// the action run job status
    pub status: Option<String>,
    /// the action run job latest task id
    pub task_id: Option<i64>,
}

/// ActionTask represents a ActionTask
#[derive(Debug, Clone, PartialEq)]
pub struct ActionTask {
    pub created_at: Option<time::OffsetDateTime>,
    pub display_title: Option<String>,
    pub event: Option<String>,
    pub head_branch: Option<String>,
    pub head_sha: Option<String>,
    pub id: Option<i64>,
    pub name: Option<String>,
    pub run_number: Option<i64>,
    pub run_started_at: Option<time::OffsetDateTime>,
    pub status: Option<String>,
    pub updated_at: Option<time::OffsetDateTime>,
    pub url: Option<url::Url>,
    pub workflow_id: Option<String>,
}

/// ActionTaskResponse returns a ActionTask
#[derive(Debug, Clone, PartialEq)]
pub struct ActionTaskResponse {
    pub total_count: Option<i64>,
    pub workflow_runs: Option<Vec<ActionTask>>,
}

/// ActionVariable return value of the query API
#[derive(Debug, Clone, PartialEq)]
pub struct ActionVariable {
    /// the value of the variable
    pub data: Option<String>,
    /// the name of the variable
    pub name: Option<String>,
    /// the owner to which the variable belongs
    pub owner_id: Option<i64>,
    /// the repository to which the variable belongs
    pub repo_id: Option<i64>,
}

#[derive(Debug, Clone, PartialEq)]
pub struct Activity {
    pub act_user: Option<User>,
    pub act_user_id: Option<i64>,
    pub comment: Option<Comment>,
    pub comment_id: Option<i64>,
    pub content: Option<String>,
    pub created: Option<time::OffsetDateTime>,
    pub id: Option<i64>,
    pub is_private: Option<bool>,
    /// the type of action
    pub op_type: Option<ActivityOpType>,
    pub ref_name: Option<String>,
    pub repo: Option<Repository>,
    pub repo_id: Option<i64>,
    pub user_id: Option<i64>,
}

#[derive(Debug, Clone, Copy, PartialEq, Eq, Structural)]
pub enum ActivityOpType {
    CreateRepo,
    RenameRepo,
    StarRepo,
    WatchRepo,
    CommitRepo,
    CreateIssue,
    CreatePullRequest,
    TransferRepo,
    PushTag,
    CommentIssue,
    MergePullRequest,
    CloseIssue,
    ReopenIssue,
    ClosePullRequest,
    ReopenPullRequest,
    DeleteTag,
    DeleteBranch,
    MirrorSyncPush,
    MirrorSyncCreate,
    MirrorSyncDelete,
    ApprovePullRequest,
    RejectPullRequest,
    CommentPull,
    PublishRelease,
    PullReviewDismissed,
    PullRequestReadyForReview,
    AutoMergePullRequest,
}

/// ActivityPub type
#[derive(Debug, Clone, PartialEq)]
pub struct ActivityPub {
    pub context: Option<String>,
}

/// AddCollaboratorOption options when adding a user as a collaborator of a repository
#[derive(Debug, Clone, PartialEq)]
pub struct AddCollaboratorOption {
    pub permission: Option<AddCollaboratorOptionPermission>,
}

#[derive(Debug, Clone, Copy, PartialEq, Eq, Structural)]
pub enum AddCollaboratorOptionPermission {
    Read,
    Write,
    Admin,
}

/// AddTimeOption options for adding time to an issue
#[derive(Debug, Clone, PartialEq)]
pub struct AddTimeOption {
    pub created: Option<time::OffsetDateTime>,
    /// time in seconds
    pub time: i64,
    /// User who spent the time (optional)
    pub user_name: Option<String>,
}

/// AnnotatedTag represents an annotated tag
#[derive(Debug, Clone, PartialEq)]
pub struct AnnotatedTag {
    pub archive_download_count: Option<TagArchiveDownloadCount>,
    pub message: Option<String>,
    pub object: Option<AnnotatedTagObject>,
    pub sha: Option<String>,
    pub tag: Option<String>,
    pub tagger: Option<CommitUser>,
    pub url: Option<url::Url>,
    pub verification: Option<PayloadCommitVerification>,
}

/// AnnotatedTagObject contains meta information of the tag object
#[derive(Debug, Clone, PartialEq)]
pub struct AnnotatedTagObject {
    pub sha: Option<String>,
    pub type_: Option<String>,
    pub url: Option<url::Url>,
}

/// Attachment a generic attachment
#[derive(Debug, Clone, PartialEq)]
pub struct Attachment {
    pub browser_download_url: Option<url::Url>,
    pub created_at: Option<time::OffsetDateTime>,
    pub download_count: Option<i64>,
    pub id: Option<i64>,
    pub name: Option<String>,
    pub size: Option<i64>,
    pub type_: Option<AttachmentType>,
    pub uuid: Option<String>,
}

#[derive(Debug, Clone, Copy, PartialEq, Eq, Structural)]
pub enum AttachmentType {
    Attachment,
    External,
}

#[derive(Debug, Clone, PartialEq)]
pub struct BlockedUser {
    pub block_id: Option<i64>,
    pub created_at: Option<time::OffsetDateTime>,
}

/// Branch represents a repository branch
#[derive(Debug, Clone, PartialEq)]
pub struct Branch {
    pub commit: Option<PayloadCommit>,
    pub effective_branch_protection_name: Option<String>,
    pub enable_status_check: Option<bool>,
    pub name: Option<String>,
    pub protected: Option<bool>,
    pub required_approvals: Option<i64>,
    pub status_check_contexts: Option<Vec<String>>,
    pub user_can_merge: Option<bool>,
    pub user_can_push: Option<bool>,
}

/// BranchProtection represents a branch protection for a repository
#[derive(Debug, Clone, PartialEq)]
pub struct BranchProtection {
    pub apply_to_admins: Option<bool>,
    pub approvals_whitelist_teams: Option<Vec<String>>,
    pub approvals_whitelist_username: Option<Vec<String>>,
    pub block_on_official_review_requests: Option<bool>,
    pub block_on_outdated_branch: Option<bool>,
    pub block_on_rejected_reviews: Option<bool>,
    /// Deprecated: true
    pub branch_name: Option<String>,
    pub created_at: Option<time::OffsetDateTime>,
    pub dismiss_stale_approvals: Option<bool>,
    pub enable_approvals_whitelist: Option<bool>,
    pub enable_merge_whitelist: Option<bool>,
    pub enable_push: Option<bool>,
    pub enable_push_whitelist: Option<bool>,
    pub enable_status_check: Option<bool>,
    pub ignore_stale_approvals: Option<bool>,
    pub merge_whitelist_teams: Option<Vec<String>>,
    pub merge_whitelist_usernames: Option<Vec<String>>,
    pub protected_file_patterns: Option<String>,
    pub push_whitelist_deploy_keys: Option<bool>,
    pub push_whitelist_teams: Option<Vec<String>>,
    pub push_whitelist_usernames: Option<Vec<String>>,
    pub require_signed_commits: Option<bool>,
    pub required_approvals: Option<i64>,
    pub rule_name: Option<String>,
    pub status_check_contexts: Option<Vec<String>>,
    pub unprotected_file_patterns: Option<String>,
    pub updated_at: Option<time::OffsetDateTime>,
}

/// ChangeFileOperation for creating, updating or deleting a file
#[derive(Debug, Clone, PartialEq)]
pub struct ChangeFileOperation {
    /// new or updated file content, must be base64 encoded
    pub content: Option<String>,
    /// old path of the file to move
    pub from_path: Option<String>,
    /// indicates what to do with the file
    pub operation: ChangeFileOperationOperation,
    /// path to the existing or new file
    pub path: String,
    /// sha is the SHA for the file that already exists, required for update or delete
    pub sha: Option<String>,
}

#[derive(Debug, Clone, Copy, PartialEq, Eq, Structural)]
pub enum ChangeFileOperationOperation {
    Create,
    Update,
    Delete,
}

/// ChangeFilesOptions options for creating, updating or deleting multiple files
///
/// Note: `author` and `committer` are optional (if only one is given, it will be used for the other, otherwise the authenticated user will be used)
#[derive(Debug, Clone, PartialEq)]
pub struct ChangeFilesOptions {
    pub author: Option<Identity>,
    /// branch (optional) to base this file from. if not given, the default branch is used
    pub branch: Option<String>,
    pub committer: Option<Identity>,
    pub dates: Option<CommitDateOptions>,
    /// list of file operations
    pub files: Vec<ChangeFileOperation>,
    /// message (optional) for the commit of this file. if not supplied, a default message will be used
    pub message: Option<String>,
    /// new_branch (optional) will make a new branch from `branch` before creating the file
    pub new_branch: Option<String>,
    /// Add a Signed-off-by trailer by the committer at the end of the commit log message.
    pub signoff: Option<bool>,
}

/// ChangedFile store information about files affected by the pull request
#[derive(Debug, Clone, PartialEq)]
pub struct ChangedFile {
    pub additions: Option<i64>,
    pub changes: Option<i64>,
    pub contents_url: Option<url::Url>,
    pub deletions: Option<i64>,
    pub filename: Option<String>,
    pub html_url: Option<url::Url>,
    pub previous_filename: Option<String>,
    pub raw_url: Option<url::Url>,
    pub status: Option<String>,
}

/// CombinedStatus holds the combined state of several statuses for a single commit
#[derive(Debug, Clone, PartialEq)]
pub struct CombinedStatus {
    pub commit_url: Option<url::Url>,
    pub repository: Option<Repository>,
    pub sha: Option<String>,
    pub state: Option<CommitStatusState>,
    pub statuses: Option<Vec<CommitStatus>>,
    pub total_count: Option<i64>,
    pub url: Option<url::Url>,
}

impl CombinedStatus {
    /// The number of items on this page.
    pub fn page_size(&self) -> (n: usize)
        ensures
            n == match &self.statuses {
                Some(v) => v@.len(),
                None => 0,
            },
    {
        match &self.statuses {
            Some(v) => v.len(),
            None => 0,
        }
    }
}

/// Comment represents a comment on a commit or issue
#[derive(Debug, Clone, PartialEq)]
pub struct Comment {
    pub assets: Option<Vec<Attachment>>,
    pub body: Option<String>,
    pub created_at: Option<time::OffsetDateTime>,
    pub html_url: Option<url::Url>,
    pub id: Option<i64>,
    pub issue_url: Option<url::Url>,
    pub original_author: Option<String>,
    pub original_author_id: Option<i64>,
    pub pull_request_url: Option<url::Url>,
    pub updated_at: Option<time::OffsetDateTime>,
    pub user: Option<User>,
}

#[derive(Debug, Clone, PartialEq)]
pub struct Commit {
    pub author: Option<User>,
    pub commit: Option<RepoCommit>,
    pub committer: Option<User>,
    pub created: Option<time::OffsetDateTime>,
    pub files: Option<Vec<CommitAffectedFiles>>,
    pub html_url: Option<url::Url>,
    pub parents: Option<Vec<CommitMeta>>,
    pub sha: Option<String>,
    pub stats: Option<CommitStats>,
    pub url: Option<url::Url>,
}

/// CommitAffectedFiles store information about files affected by the commit
#[derive(Debug, Clone, PartialEq)]
pub struct CommitAffectedFiles {
    pub filename: Option<String>,
    pub status: Option<String>,
}

/// CommitDateOptions store dates for GIT_AUTHOR_DATE and GIT_COMMITTER_DATE
#[derive(Debug, Clone, PartialEq)]
pub struct CommitDateOptions {
    pub author: Option<time::OffsetDateTime>,
    pub committer: Option<time::OffsetDateTime>,
}

#[derive(Debug, Clone, PartialEq)]
pub struct CommitMeta {
    pub created: Option<time::OffsetDateTime>,
    pub sha: Option<String>,
    pub url: Option<url::Url>,
}

/// CommitStats is statistics for a RepoCommit
#[derive(Debug, Clone, PartialEq)]
pub struct CommitStats {
    pub additions: Option<i64>,
    pub deletions: Option<i64>,
    pub total: Option<i64>,
}

/// CommitStatus holds a single status of a single Commit
#[derive(Debug, Clone, PartialEq)]
pub struct CommitStatus {
    pub context: Option<String>,
    pub created_at: Option<time::OffsetDateTime>,
    pub creator: Option<User>,
    pub description: Option<String>,
    pub id: Option<i64>,
    pub status: Option<CommitStatusState>,
    pub target_url: Option<url::Url>,
    pub updated_at: Option<time::OffsetDateTime>,
    pub url: Option<url::Url>,
}

#[derive(Debug, Clone, Copy, PartialEq, Eq, Structural)]
pub enum CommitStatusState {
    Pending,
    Success,
    Error,
    Failure,
    Warning,
}

#[derive(Debug, Clone, PartialEq)]
pub struct CommitUser {
    pub date: Option<time::OffsetDateTime>,
    pub email: Option<String>,
    pub name: Option<String>,
}

#[derive(Debug, Clone, PartialEq)]
pub struct Compare {
    pub commits: Option<Vec<Commit>>,
    pub files: Option<Vec<CommitAffectedFiles>>,
    pub total_commits: Option<i64>,
}

/// ContentsResponse contains information about a repo's entry's (dir, file, symlink, submodule) metadata and content
#[derive(Debug, Clone, PartialEq)]
pub struct ContentsResponse {
    pub links: Option<FileLinksResponse>,
    /// `content` is populated when `type` is `file`, otherwise null
    pub content: Option<String>,
    pub download_url: Option<url::Url>,
    /// `encoding` is populated when `type` is `file`, otherwise null
    pub encoding: Option<String>,
    pub git_url: Option<url::Url>,
    pub html_url: Option<url::Url>,
    pub last_commit_sha: Option<String>,
    pub last_commit_when: Option<time::OffsetDateTime>,
    pub name: Option<String>,
    pub path: Option<String>,
    pub sha: Option<String>,
    pub size: Option<i64>,
    /// `submodule_git_url` is populated when `type` is `submodule`, otherwise null
    pub submodule_git_url: Option<url::Url>,
    /// `target` is populated when `type` is `symlink`, otherwise null
    pub target: Option<String>,
    /// `type` will be `file`, `dir`, `symlink`, or `submodule`
    pub type_: Option<String>,
    pub url: Option<url::Url>,
}

/// CreateAccessTokenOption options when create access token
#[derive(Debug, Clone, PartialEq)]
pub struct CreateAccessTokenOption {
    pub name: String,
    pub scopes: Option<Vec<String>>,
}

/// CreateBranchProtectionOption options for creating a branch protection
#[derive(Debug, Clone, PartialEq)]
pub struct CreateBranchProtectionOption {
    pub apply_to_admins: Option<bool>,
    pub approvals_whitelist_teams: Option<Vec<String>>,
    pub approvals_whitelist_username: Option<Vec<String>>,
    pub block_on_official_review_requests: Option<bool>,
    pub block_on_outdated_branch: Option<bool>,
    pub block_on_rejected_reviews: Option<bool>,
    /// Deprecated: true
    pub branch_name: Option<String>,
    pub dismiss_stale_approvals: Option<bool>,
    pub enable_approvals_whitelist: Option<bool>,
    pub enable_merge_whitelist: Option<bool>,
    pub enable_push: Option<bool>,
    pub enable_push_whitelist: Option<bool>,
    pub enable_status_check: Option<bool>,
    pub ignore_stale_approvals: Option<bool>,
    pub merge_whitelist_teams: Option<Vec<String>>,
    pub merge_whitelist_usernames: Option<Vec<String>>,
    pub protected_file_patterns: Option<String>,
    pub push_whitelist_deploy_keys: Option<bool>,
    pub push_whitelist_teams: Option<Vec<String>>,
    pub push_whitelist_usernames: Option<Vec<String>>,
    pub require_signed_commits: Option<bool>,
    pub required_approvals: Option<i64>,
    pub rule_name: Option<String>,
    pub status_check_contexts: Option<Vec<String>>,
    pub unprotected_file_patterns: Option<String>,
}

/// CreateBranchRepoOption options when creating a branch in a repository
#[derive(Debug, Clone, PartialEq)]
pub struct CreateBranchRepoOption {
    /// Name of the branch to create
    pub new_branch_name: String,
    /// Deprecated: true
    ///
    /// Name of the old branch to create from
    pub old_branch_name: Option<String>,
    /// Name of the old branch/tag/commit to create from
    pub old_ref_name: Option<String>,
}

/// CreateEmailOption options when creating email addresses
#[derive(Debug, Clone, PartialEq)]
pub struct CreateEmailOption {
    /// email addresses to add
    pub emails: Option<Vec<String>>,
}

/// CreateFileOptions options for creating files
///
/// Note: `author` and `committer` are optional (if only one is given, it will be used for the other, otherwise the authenticated user will be used)
#[derive(Debug, Clone, PartialEq)]
pub struct CreateFileOptions {
    pub author: Option<Identity>,
    /// branch (optional) to base this file from. if not given, the default branch is used
    pub branch: Option<String>,
    pub committer: Option<Identity>,
    /// content must be base64 encoded
    pub content: String,
    pub dates: Option<CommitDateOptions>,
    /// message (optional) for the commit of this file. if not supplied, a default message will be used
    pub message: Option<String>,
    /// new_branch (optional) will make a new branch from `branch` before creating the file
    pub new_branch: Option<String>,
    /// Add a Signed-off-by trailer by the committer at the end of the commit log message.
    pub signoff: Option<bool>,
}

/// CreateForkOption options for creating a fork
#[derive(Debug, Clone, PartialEq)]
pub struct CreateForkOption {
    /// name of the forked repository
    pub name: Option<String>,
    /// organization name, if forking into an organization
    pub organization: Option<String>,
}

/// CreateGPGKeyOption options create user GPG key
#[derive(Debug, Clone, PartialEq)]
pub struct CreateGPGKeyOption {
    /// An armored GPG key to add
    pub armored_public_key: String,
    pub armored_signature: Option<String>,
}

/// CreateHookOption options when create a hook
#[derive(Debug, Clone, PartialEq)]
pub struct CreateHookOption {
    pub active: Option<bool>,
    pub authorization_header: Option<String>,
    pub branch_filter: Option<String>,
    pub config: CreateHookOptionConfig,
    pub events: Option<Vec<String>>,
    pub type_: CreateHookOptionType,
}

#[derive(Debug, Clone, Copy, PartialEq, Eq, Structural)]
pub enum CreateHookOptionType {
    Forgejo,
    Dingtalk,
    Discord,
    Gitea,
    Gogs,
    Msteams,
    Slack,
    Telegram,
    Feishu,
    Wechatwork,
    Packagist,
}

/// CreateHookOptionConfig has all config options in it
///
/// required are "content_type" and "url" Required
#[derive(Debug, Clone, PartialEq)]
pub struct CreateHookOptionConfig {
    pub content_type: String,
    pub url: url::Url,
    pub additional: BTreeMap<String, String>,
}

/// CreateIssueCommentOption options for creating a comment on an issue
#[derive(Debug, Clone, PartialEq)]
pub struct CreateIssueCommentOption {
    pub body: String,
    pub updated_at: Option<time::OffsetDateTime>,
}

/// CreateIssueOption options to create one issue
#[derive(Debug, Clone, PartialEq)]
pub struct CreateIssueOption {
    /// deprecated
    pub assignee: Option<String>,
    pub assignees: Option<Vec<String>>,
    pub body: Option<String>,
    pub closed: Option<bool>,
    pub due_date: Option<time::OffsetDateTime>,
    /// list of label ids
    pub labels: Option<Vec<i64>>,
    /// milestone id
    pub milestone: Option<i64>,
    pub ref_: Option<String>,
    pub title: String,
}

/// CreateKeyOption options when creating a key
#[derive(Debug, Clone, PartialEq)]
pub struct CreateKeyOption {
    /// An armored SSH key to add
    pub key: String,
    /// Describe if the key has only read access or read/write
    pub read_only: Option<bool>,
    /// Title of the key to add
    pub title: String,
}

/// CreateLabelOption options for creating a label
#[derive(Debug, Clone, PartialEq)]
pub struct CreateLabelOption {
    pub color: String,
    pub description: Option<String>,
    pub exclusive: Option<bool>,
    pub is_archived: Option<bool>,
    pub name: String,
}

/// CreateMilestoneOption options for creating a milestone
#[derive(Debug, Clone, PartialEq)]
pub struct CreateMilestoneOption {
    pub description: Option<String>,
    pub due_on: Option<time::OffsetDateTime>,
    pub state: Option<CreateMilestoneOptionState>,
    pub title: Option<String>,
}

#[derive(Debug, Clone, Copy, PartialEq, Eq, Structural)]
pub enum CreateMilestoneOptionState {
    Open,
    Closed,
}

/// CreateOAuth2ApplicationOptions holds options to create an oauth2 application
#[derive(Debug, Clone, PartialEq)]
pub struct CreateOAuth2ApplicationOptions {
    pub confidential_client: Option<bool>,
    pub name: Option<String>,
    pub redirect_uris: Option<Vec<String>>,
}

/// CreateOrUpdateSecretOption options when creating or updating secret
#[derive(Debug, Clone, PartialEq)]
pub struct CreateOrUpdateSecretOption {
    /// Data of the secret to update
    pub data: String,
}

/// CreateOrgOption options for creating an organization
#[derive(Debug, Clone, PartialEq)]
pub struct CreateOrgOption {
    pub description: Option<String>,
    pub email: Option<String>,
    pub full_name: Option<String>,
    pub location: Option<String>,
    pub repo_admin_change_team_access: Option<bool>,
    pub username: String,
    /// possible values are `public` (default), `limited` or `private`
    pub visibility: Option<CreateOrgOptionVisibility>,
    pub website: Option<String>,
}

#[derive(Debug, Clone, Copy, PartialEq, Eq, Structural)]
pub enum CreateOrgOptionVisibility {
    Public,
    Limited,
    Private,
}

/// CreatePullRequestOption options when creating a pull request
#[derive(Debug, Clone, PartialEq)]
pub struct CreatePullRequestOption {
    pub assignee: Option<String>,
    pub assignees: Option<Vec<String>>,
    pub base: Option<String>,
    pub body: Option<String>,
    pub due_date: Option<time::OffsetDateTime>,
    pub head: Option<String>,
    pub labels: Option<Vec<i64>>,
    pub milestone: Option<i64>,
    pub title: Option<String>,
}

/// CreatePullReviewComment represent a review comment for creation api
#[derive(Debug, Clone, PartialEq)]
pub struct CreatePullReviewComment {
    pub body: Option<String>,
    /// if comment to new file line or 0
    pub new_position: Option<i64>,
    /// if comment to old file line or 0
    pub old_position: Option<i64>,
    /// the tree path
    pub path: Option<String>,
}

/// CreatePullReviewOptions are options to create a pull review
#[derive(Debug, Clone, PartialEq)]
pub struct CreatePullReviewOptions {
    pub body: Option<String>,
    pub comments: Option<Vec<CreatePullReviewComment>>,
    pub commit_id: Option<String>,
    pub event: Option<String>,
}

#[derive(Debug, Clone, PartialEq)]
pub struct CreatePushMirrorOption {
    pub branch_filter: Option<String>,
    pub interval: Option<String>,
    pub remote_address: Option<String>,
    pub remote_password: Option<String>,
    pub remote_username: Option<String>,
    pub sync_on_commit: Option<bool>,
    pub use_ssh: Option<bool>,
}

/// CreateQutaGroupOptions represents the options for creating a quota group
#[derive(Debug, Clone, PartialEq)]
pub struct CreateQuotaGroupOptions {
    /// Name of the quota group to create
    pub name: Option<String>,
    /// Rules to add to the newly created group.
    ///
    /// If a rule does not exist, it will be created.
    pub rules: Option<Vec<CreateQuotaRuleOptions>>,
}

/// CreateQuotaRuleOptions represents the options for creating a quota rule
#[derive(Debug, Clone, PartialEq)]
pub struct CreateQuotaRuleOptions {
    /// The limit set by the rule
    pub limit: Option<i64>,
    /// Name of the rule to create
    pub name: Option<String>,
    /// The subjects affected by the rule
    pub subjects: Option<Vec<CreateQuotaRuleOptionsSubjects>>,
}

#[derive(Debug, Clone, Copy, PartialEq, Eq, Structural)]
pub enum CreateQuotaRuleOptionsSubjects {
    NoneValue,
    SizeAll,
    SizeReposAll,
    SizeReposPublic,
    SizeReposPrivate,
    SizeGitAll,
    SizeGitLfs,
    SizeAssetsAll,
    SizeAssetsAttachmentsAll,
    SizeAssetsAttachmentsIssues,
    SizeAssetsAttachmentsReleases,
    SizeAssetsArtifacts,
    SizeAssetsPackagesAll,
    SizeAssetsWiki,
}

/// CreateReleaseOption options when creating a release
#[derive(Debug, Clone, PartialEq)]
pub struct CreateReleaseOption {
    pub body: Option<String>,
    pub draft: Option<bool>,
    pub hide_archive_links: Option<bool>,
    pub name: Option<String>,
    pub prerelease: Option<bool>,
    pub tag_name: String,
    pub target_commitish: Option<String>,
}

/// CreateRepoOption options when creating repository
#[derive(Debug, Clone, PartialEq)]
pub struct CreateRepoOption {
    /// Whether the repository should be auto-initialized?
    pub auto_init: Option<bool>,
    /// DefaultBranch of the repository (used when initializes and in template)
    pub default_branch: Option<String>,
    /// Description of the repository to create
    pub description: Option<String>,
    /// Gitignores to use
    pub gitignores: Option<String>,
    /// Label-Set to use
    pub issue_labels: Option<String>,
    /// License to use
    pub license: Option<String>,
    /// Name of the repository to create
    pub name: String,
    pub object_format_name: Option<ObjectFormatName>,
    /// Whether the repository is private
    pub private: Option<bool>,
    /// Readme of the repository to create
    pub readme: Option<String>,
    /// Whether the repository is template
    pub template: Option<bool>,
    /// TrustModel of the repository
    pub trust_model: Option<CreateRepoOptionTrustModel>,
}

#[derive(Debug, Clone, Copy, PartialEq, Eq, Structural)]
pub enum CreateRepoOptionTrustModel {
    Default,
    Collaborator,
    Committer,
    Collaboratorcommitter,
}

/// CreateStatusOption holds the information needed to create a new CommitStatus for a Commit
#[derive(Debug, Clone, PartialEq)]
pub struct CreateStatusOption {
    pub context: Option<String>,
    pub description: Option<String>,
    pub state: Option<CommitStatusState>,
    pub target_url: Option<url::Url>,
}

/// CreateTagOption options when creating a tag
#[derive(Debug, Clone, PartialEq)]
pub struct CreateTagOption {
    pub message: Option<String>,
    pub tag_name: String,
    pub target: Option<String>,
}

/// CreateTagProtectionOption options for creating a tag protection
#[derive(Debug, Clone, PartialEq)]
pub struct CreateTagProtectionOption {
    pub name_pattern: Option<String>,
    pub whitelist_teams: Option<Vec<String>>,
    pub whitelist_usernames: Option<Vec<String>>,
}

/// CreateTeamOption options for creating a team
#[derive(Debug, Clone, PartialEq)]
pub struct CreateTeamOption {
    pub can_create_org_repo: Option<bool>,
    pub description: Option<String>,
    pub includes_all_repositories: Option<bool>,
    pub name: String,
    pub permission: Option<CreateTeamOptionPermission>,
    pub units: Option<Vec<String>>,
    pub units_map: Option<BTreeMap<String, String>>,
}

#[derive(Debug, Clone, Copy, PartialEq, Eq, Structural)]
pub enum CreateTeamOptionPermission {
    Read,
    Write,
    Admin,
}

/// CreateUserOption create user options
#[derive(Debug, Clone, PartialEq)]
pub struct CreateUserOption {
    /// For explicitly setting the user creation timestamp. Useful when users are
    ///
    /// migrated from other systems. When omitted, the user's creation timestamp
    ///
    /// will be set to "now".
    pub created_at: Option<time::OffsetDateTime>,
    pub email: String,
    pub full_name: Option<String>,
    pub login_name: Option<String>,
    pub must_change_password: Option<bool>,
    pub password: Option<String>,
    pub restricted: Option<bool>,
    pub send_notify: Option<bool>,
    pub source_id: Option<i64>,
    pub username: String,
    pub visibility: Option<String>,
}

/// CreateVariableOption the option when creating variable
#[derive(Debug, Clone, PartialEq)]
pub struct CreateVariableOption {
    /// Value of the variable to create
    pub value: String,
}

/// CreateWikiPageOptions form for creating wiki
#[derive(Debug, Clone, PartialEq)]
pub struct CreateWikiPageOptions {
    /// content must be base64 encoded
    pub content_base64: Option<String>,
    /// optional commit message summarizing the change
    pub message: Option<String>,
    /// page title. leave empty to keep unchanged
    pub title: Option<String>,
}

/// Cron represents a Cron task
#[derive(Debug, Clone, PartialEq)]
pub struct Cron {
    pub exec_times: Option<i64>,
    pub name: Option<String>,
    pub next: Option<time::OffsetDateTime>,
    pub prev: Option<time::OffsetDateTime>,
    pub schedule: Option<String>,
}

#[derive(Debug, Clone, Copy, PartialEq, Eq, Structural)]
pub enum DefaultMergeStyle {
    Merge,
    Rebase,
    RebaseMerge,
    Squash,
    FastForwardOnly,
}

/// DeleteEmailOption options when deleting email addresses
#[derive(Debug, Clone, PartialEq)]
pub struct DeleteEmailOption {
    /// email addresses to delete
    pub emails: Option<Vec<String>>,
}

/// DeleteFileOptions options for deleting files (used for other File structs below)
///
/// Note: `author` and `committer` are optional (if only one is given, it will be used for the other, otherwise the authenticated user will be used)
#[derive(Debug, Clone, PartialEq)]
pub struct DeleteFileOptions {
    pub author: Option<Identity>,
    /// branch (optional) to base this file from. if not given, the default branch is used
    pub branch: Option<String>,
    pub committer: Option<Identity>,
    pub dates: Option<CommitDateOptions>,
    /// message (optional) for the commit of this file. if not supplied, a default message will be used
    pub message: Option<String>,
    /// new_branch (optional) will make a new branch from `branch` before creating the file
    pub new_branch: Option<String>,
    /// sha is the SHA for the file that already exists
    pub sha: String,
    /// Add a Signed-off-by trailer by the committer at the end of the commit log message.
    pub signoff: Option<bool>,
}

/// DeleteLabelOption options for deleting a label
#[derive(Debug, Clone, PartialEq)]
pub struct DeleteLabelsOption {
    pub updated_at: Option<time::OffsetDateTime>,
}

/// DeployKey a deploy key
#[derive(Debug, Clone, PartialEq)]
pub struct DeployKey {
    pub created_at: Option<time::OffsetDateTime>,
    pub fingerprint: Option<String>,
    pub id: Option<i64>,
    pub key: Option<String>,
    pub key_id: Option<i64>,
    pub read_only: Option<bool>,
    pub repository: Option<Repository>,
    pub title: Option<String>,
    pub url: Option<url::Url>,
}

/// DismissPullReviewOptions are options to dismiss a pull review
#[derive(Debug, Clone, PartialEq)]
pub struct DismissPullReviewOptions {
    pub message: Option<String>,
    pub priors: Option<bool>,
}

/// DispatchWorkflowOption options when dispatching a workflow
#[derive(Debug, Clone, PartialEq)]
pub struct DispatchWorkflowOption {
    /// Input keys and values configured in the workflow file.
    pub inputs: Option<BTreeMap<String, String>>,
    /// Git reference for the workflow
    pub ref_: String,
    /// Flag to return the run info
    pub return_run_info: Option<bool>,
}

/// DispatchWorkflowRun represents a workflow run
#[derive(Debug, Clone, PartialEq)]
pub struct DispatchWorkflowRun {
    /// the workflow run id
    pub id: Option<i64>,
    /// the jobs name
    pub jobs: Option<Vec<String>>,
    /// a unique number for each run of a repository
    pub run_number: Option<i64>,
}

/// EditAttachmentOptions options for editing attachments
#[derive(Debug, Clone, PartialEq)]
pub struct EditAttachmentOptions {
    /// (Can only be set if existing attachment is of external type)
    pub browser_download_url: Option<url::Url>,
    pub name: Option<String>,
}

/// EditBranchProtectionOption options for editing a branch protection
#[derive(Debug, Clone, PartialEq)]
pub struct EditBranchProtectionOption {
    pub apply_to_admins: Option<bool>,
    pub approvals_whitelist_teams: Option<Vec<String>>,
    pub approvals_whitelist_username: Option<Vec<String>>,
    pub block_on_official_review_requests: Option<bool>,
    pub block_on_outdated_branch: Option<bool>,
    pub block_on_rejected_reviews: Option<bool>,
    pub dismiss_stale_approvals: Option<bool>,
    pub enable_approvals_whitelist: Option<bool>,
    pub enable_merge_whitelist: Option<bool>,
    pub enable_push: Option<bool>,
    pub enable_push_whitelist: Option<bool>,
    pub enable_status_check: Option<bool>,
    pub ignore_stale_approvals: Option<bool>,
    pub merge_whitelist_teams: Option<Vec<String>>,
    pub merge_whitelist_usernames: Option<Vec<String>>,
    pub protected_file_patterns: Option<String>,
    pub push_whitelist_deploy_keys: Option<bool>,
    pub push_whitelist_teams: Option<Vec<String>>,
    pub push_whitelist_usernames: Option<Vec<String>>,
    pub require_signed_commits: Option<bool>,
    pub required_approvals: Option<i64>,
    pub status_check_contexts: Option<Vec<String>>,
    pub unprotected_file_patterns: Option<String>,
}

/// EditDeadlineOption options for creating a deadline
#[derive(Debug, Clone, PartialEq)]
pub struct EditDeadlineOption {
    pub due_date: time::OffsetDateTime,
}

/// EditGitHookOption options when modifying one Git hook
#[derive(Debug, Clone, PartialEq)]
pub struct EditGitHookOption {
    pub content: Option<String>,
}

/// EditHookOption options when modify one hook
#[derive(Debug, Clone, PartialEq)]
pub struct EditHookOption {
    pub active: Option<bool>,
    pub authorization_header: Option<String>,
    pub branch_filter: Option<String>,
    pub config: Option<BTreeMap<String, String>>,
    pub events: Option<Vec<String>>,
}

/// EditIssueCommentOption options for editing a comment
#[derive(Debug, Clone, PartialEq)]
pub struct EditIssueCommentOption {
    pub body: String,
    pub updated_at: Option<time::OffsetDateTime>,
}

/// EditIssueOption options for editing an issue
#[derive(Debug, Clone, PartialEq)]
pub struct EditIssueOption {
    /// deprecated
    pub assignee: Option<String>,
    pub assignees: Option<Vec<String>>,
    pub body: Option<String>,
    pub due_date: Option<time::OffsetDateTime>,
    pub milestone: Option<i64>,
    pub ref_: Option<String>,
    pub state: Option<String>,
    pub title: Option<String>,
    pub unset_due_date: Option<bool>,
    pub updated_at: Option<time::OffsetDateTime>,
}

/// EditLabelOption options for editing a label
#[derive(Debug, Clone, PartialEq)]
pub struct EditLabelOption {
    pub color: Option<String>,
    pub description: Option<String>,
    pub exclusive: Option<bool>,
    pub is_archived: Option<bool>,
    pub name: Option<String>,
}

/// EditMilestoneOption options for editing a milestone
#[derive(Debug, Clone, PartialEq)]
pub struct EditMilestoneOption {
    pub description: Option<String>,
    pub due_on: Option<time::OffsetDateTime>,
    pub state: Option<String>,
    pub title: Option<String>,
}

/// EditOrgOption options for editing an organization
#[derive(Debug, Clone, PartialEq)]
pub struct EditOrgOption {
    pub description: Option<String>,
    pub email: Option<String>,
    pub full_name: Option<String>,
    pub location: Option<String>,
    pub repo_admin_change_team_access: Option<bool>,
    /// possible values are `public`, `limited` or `private`
    pub visibility: Option<EditOrgOptionVisibility>,
    pub website: Option<String>,
}

#[derive(Debug, Clone, Copy, PartialEq, Eq, Structural)]
pub enum EditOrgOptionVisibility {
    Public,
    Limited,
    Private,
}

/// EditPullRequestOption options when modify pull request
#[derive(Debug, Clone, PartialEq)]
pub struct EditPullRequestOption {
    pub allow_maintainer_edit: Option<bool>,
    pub assignee: Option<String>,
    pub assignees: Option<Vec<String>>,
    pub base: Option<String>,
    pub body: Option<String>,
    pub due_date: Option<time::OffsetDateTime>,
    pub labels: Option<Vec<i64>>,
    pub milestone: Option<i64>,
    pub state: Option<String>,
    pub title: Option<String>,
    pub unset_due_date: Option<bool>,
}

/// EditQuotaRuleOptions represents the options for editing a quota rule
#[derive(Debug, Clone, PartialEq)]
pub struct EditQuotaRuleOptions {
    /// The limit set by the rule
    pub limit: Option<i64>,
    /// The subjects affected by the rule
    pub subjects: Option<Vec<String>>,
}

/// EditReactionOption contain the reaction type
#[derive(Debug, Clone, PartialEq)]
pub struct EditReactionOption {
    pub content: Option<String>,
}

/// EditReleaseOption options when editing a release
#[derive(Debug, Clone, PartialEq)]
pub struct EditReleaseOption {
    pub body: Option<String>,
    pub draft: Option<bool>,
    pub hide_archive_links: Option<bool>,
    pub name: Option<String>,
    pub prerelease: Option<bool>,
    pub tag_name: Option<String>,
    pub target_commitish: Option<String>,
}

/// EditRepoOption options when editing a repository's properties
#[derive(Debug, Clone, PartialEq)]
pub struct EditRepoOption {
    /// either `true` to allow fast-forward-only merging pull requests, or `false` to prevent fast-forward-only merging.
    pub allow_fast_forward_only_merge: Option<bool>,
    /// either `true` to allow mark pr as merged manually, or `false` to prevent it.
    pub allow_manual_merge: Option<bool>,
    /// either `true` to allow merging pull requests with a merge commit, or `false` to prevent merging pull requests with merge commits.
    pub allow_merge_commits: Option<bool>,
    /// either `true` to allow rebase-merging pull requests, or `false` to prevent rebase-merging.
    pub allow_rebase: Option<bool>,
    /// either `true` to allow rebase with explicit merge commits (--no-ff), or `false` to prevent rebase with explicit merge commits.
    pub allow_rebase_explicit: Option<bool>,
    /// either `true` to allow updating pull request branch by rebase, or `false` to prevent it.
    pub allow_rebase_update: Option<bool>,
    /// either `true` to allow squash-merging pull requests, or `false` to prevent squash-merging.
    pub allow_squash_merge: Option<bool>,
    /// set to `true` to archive this repository.
    pub archived: Option<bool>,
    /// either `true` to enable AutodetectManualMerge, or `false` to prevent it. Note: In some special cases, misjudgments can occur.
    pub autodetect_manual_merge: Option<bool>,
    /// set to `true` to allow edits from maintainers by default
    pub default_allow_maintainer_edit: Option<bool>,
    /// sets the default branch for this repository.
    pub default_branch: Option<String>,
    /// set to `true` to delete pr branch after merge by default
    pub default_delete_branch_after_merge: Option<bool>,
    pub default_merge_style: Option<DefaultMergeStyle>,
    /// set to a update style to be used by this repository: "rebase" or "merge"
    pub default_update_style: Option<String>,
    /// a short description of the repository.
    pub description: Option<String>,
    /// enable prune - remove obsolete remote-tracking references when mirroring
    pub enable_prune: Option<bool>,
    pub external_tracker: Option<ExternalTracker>,
    pub external_wiki: Option<ExternalWiki>,
    /// set the globally editable state of the wiki
    pub globally_editable_wiki: Option<bool>,
    /// either `true` to enable actions unit, or `false` to disable them.
    pub has_actions: Option<bool>,
    /// either `true` to enable issues for this repository or `false` to disable them.
    pub has_issues: Option<bool>,
    /// either `true` to enable packages unit, or `false` to disable them.
    pub has_packages: Option<bool>,
    /// either `true` to enable project unit, or `false` to disable them.
    pub has_projects: Option<bool>,
    /// either `true` to allow pull requests, or `false` to prevent pull request.
    pub has_pull_requests: Option<bool>,
    /// either `true` to enable releases unit, or `false` to disable them.
    pub has_releases: Option<bool>,
    /// either `true` to enable the wiki for this repository or `false` to disable it.
    pub has_wiki: Option<bool>,
    /// either `true` to ignore whitespace for conflicts, or `false` to not ignore whitespace.
    pub ignore_whitespace_conflicts: Option<bool>,
    pub internal_tracker: Option<InternalTracker>,
    /// set to a string like `8h30m0s` to set the mirror interval time
    pub mirror_interval: Option<String>,
    /// name of the repository
    pub name: Option<String>,
    /// either `true` to make the repository private or `false` to make it public.
    ///
    /// Note: you will get a 422 error if the organization restricts changing repository visibility to organization
    ///
    /// owners and a non-owner tries to change the value of private.
    pub private: Option<bool>,
    /// either `true` to make this repository a template or `false` to make it a normal repository
    pub template: Option<bool>,
    /// a URL with more information about the repository.
    pub website: Option<String>,
    /// sets the branch used for this repository's wiki.
    pub wiki_branch: Option<String>,
}

/// EditTagProtectionOption options for editing a tag protection
#[derive(Debug, Clone, PartialEq)]
pub struct EditTagProtectionOption {
    pub name_pattern: Option<String>,
    pub whitelist_teams: Option<Vec<String>>,
    pub whitelist_usernames: Option<Vec<String>>,
}

/// EditTeamOption options for editing a team
#[derive(Debug, Clone, PartialEq)]
pub struct EditTeamOption {
    pub can_create_org_repo: Option<bool>,
    pub description: Option<String>,
    pub includes_all_repositories: Option<bool>,
    pub name: String,
    pub permission: Option<EditTeamOptionPermission>,
    pub units: Option<Vec<String>>,
    pub units_map: Option<BTreeMap<String, String>>,
}

#[derive(Debug, Clone, Copy, PartialEq, Eq, Structural)]
pub enum EditTeamOptionPermission {
    Read,
    Write,
    Admin,
}

/// EditUserOption edit user options
#[derive(Debug, Clone, PartialEq)]
pub struct EditUserOption {
    pub active: Option<bool>,
    pub admin: Option<bool>,
    pub allow_create_organization: Option<bool>,
    pub allow_git_hook: Option<bool>,
    pub allow_import_local: Option<bool>,
    pub description: Option<String>,
    pub email: Option<String>,
    pub full_name: Option<String>,
    pub hide_email: Option<bool>,
    pub location: Option<String>,
    pub login_name: Option<String>,
    pub max_repo_creation: Option<i64>,
    pub must_change_password: Option<bool>,
    pub password: Option<String>,
    pub prohibit_login: Option<bool>,
    pub pronouns: Option<String>,
    pub restricted: Option<bool>,
    pub source_id: Option<i64>,
    pub visibility: Option<String>,
    pub website: Option<String>,
}

/// Email an email address belonging to a user
#[derive(Debug, Clone, PartialEq)]
pub struct Email {
    pub email: Option<String>,
    pub primary: Option<bool>,
    pub user_id: Option<i64>,
    pub username: Option<String>,
    pub verified: Option<bool>,
}

/// ExternalTracker represents settings for external tracker
#[derive(Debug, Clone, PartialEq)]
pub struct ExternalTracker {
    /// External Issue Tracker URL Format. Use the placeholders {user}, {repo} and {index} for the username, repository name and issue index.
    pub external_tracker_format: Option<String>,
    /// External Issue Tracker issue regular expression
    pub external_tracker_regexp_pattern: Option<String>,
    /// External Issue Tracker Number Format, either `numeric`, `alphanumeric`, or `regexp`
    pub external_tracker_style: Option<String>,
    /// URL of external issue tracker.
    pub external_tracker_url: Option<url::Url>,
}

/// ExternalWiki represents setting for external wiki
#[derive(Debug, Clone, PartialEq)]
pub struct ExternalWiki {
    /// URL of external wiki.
    pub external_wiki_url: Option<url::Url>,
}

#[derive(Debug, Clone, PartialEq)]
pub struct FileCommitResponse {
    pub author: Option<CommitUser>,
    pub committer: Option<CommitUser>,
    pub created: Option<time::OffsetDateTime>,
    pub html_url: Option<url::Url>,
    pub message: Option<String>,
    pub parents: Option<Vec<CommitMeta>>,
    pub sha: Option<String>,
    pub tree: Option<CommitMeta>,
    pub url: Option<url::Url>,
}

/// FileDeleteResponse contains information about a repo's file that was deleted
#[derive(Debug, Clone, PartialEq)]
pub struct FileDeleteResponse {
    pub commit: Option<FileCommitResponse>,
    pub content: Option<serde_json::Value>,
    pub verification: Option<PayloadCommitVerification>,
}

/// FileLinksResponse contains the links for a repo's file
#[derive(Debug, Clone, PartialEq)]
pub struct FileLinksResponse {
    pub git: Option<String>,
    pub html: Option<String>,
    pub this: Option<String>,
}

/// FileResponse contains information about a repo's file
#[derive(Debug, Clone, PartialEq)]
pub struct FileResponse {
    pub commit: Option<FileCommitResponse>,
    pub content: Option<ContentsResponse>,
    pub verification: Option<PayloadCommitVerification>,
}

/// FilesResponse contains information about multiple files from a repo
#[derive(Debug, Clone, PartialEq)]
pub struct FilesResponse {
    pub commit: Option<FileCommitResponse>,
    pub files: Option<Vec<ContentsResponse>>,
    pub verification: Option<PayloadCommitVerification>,
}

/// ForgeLike activity data type
#[derive(Debug, Clone, PartialEq)]
pub struct ForgeLike {}

/// ActivityStream OrderedCollection of activities
#[derive(Debug, Clone, PartialEq)]
pub struct ForgeOutbox {}

/// GPGKey a user GPG key to sign commit and tag in repository
#[derive(Debug, PartialEq)]
pub struct GPGKey {
    pub can_certify: Option<bool>,
    pub can_encrypt_comms: Option<bool>,
    pub can_encrypt_storage: Option<bool>,
    pub can_sign: Option<bool>,
    pub created_at: Option<time::OffsetDateTime>,
    pub emails: Option<Vec<GPGKeyEmail>>,
    pub expires_at: Option<time::OffsetDateTime>,
    pub id: Option<i64>,
    pub key_id: Option<String>,
    pub primary_key_id: Option<String>,
    pub public_key: Option<String>,
    pub subkeys: Option<Vec<GPGKey>>,
    pub verified: Option<bool>,
}

impl Clone for GPGKey {
    fn clone(&self) -> (r: Self)
        decreases self,
    {
        GPGKey {
            can_certify: self.can_certify.clone(),
            can_encrypt_comms: self.can_encrypt_comms.clone(),
            can_encrypt_storage: self.can_encrypt_storage.clone(),
            can_sign: self.can_sign.clone(),
            created_at: self.created_at.clone(),
            emails: self.emails.clone(),
            expires_at: self.expires_at.clone(),
            id: self.id.clone(),
            key_id: self.key_id.clone(),
            primary_key_id: self.primary_key_id.clone(),
            public_key: self.public_key.clone(),
            subkeys: match &self.subkeys {
                Some(v) => {
                    let mut out: Vec<GPGKey> = Vec::new();
                    let mut i: usize = 0;
                    while i < v.len()
                        invariant
                            self.subkeys is Some,
                            self.subkeys->0 == *v,
                        decreases v@.len() - i,
                    {
                        proof {
                            assert(decreases_to!(self => self.subkeys));
                            assert(decreases_to!(self.subkeys => self.subkeys->0));
                            assert(decreases_to!(self.subkeys->0 => self.subkeys->0@));
                            assert(decreases_to!(self.subkeys->0@ => v@[i as int]));
                        }
                        out.push(v[i].clone());
                        i = i + 1;
                    }
                    Some(out)
                },
                None => None,
            },
            verified: self.verified.clone(),
        }
    }
}

/// GPGKeyEmail an email attached to a GPGKey
#[derive(Debug, Clone, PartialEq)]
pub struct GPGKeyEmail {
    pub email: Option<String>,
    pub verified: Option<bool>,
}

/// GeneralAPISettings contains global api settings exposed by it
#[derive(Debug, Clone, PartialEq)]
pub struct GeneralAPISettings {
    pub default_git_trees_per_page: Option<i64>,
    pub default_max_blob_size: Option<i64>,
    pub default_paging_num: Option<i64>,
    pub max_response_items: Option<i64>,
}

/// GeneralAttachmentSettings contains global Attachment settings exposed by API
#[derive(Debug, Clone, PartialEq)]
pub struct GeneralAttachmentSettings {
    pub allowed_types: Option<String>,
    pub enabled: Option<bool>,
    pub max_files: Option<i64>,
    pub max_size: Option<i64>,
}

/// GeneralRepoSettings contains global repository settings exposed by API
#[derive(Debug, Clone, PartialEq)]
pub struct GeneralRepoSettings {
    pub forks_disabled: Option<bool>,
    pub http_git_disabled: Option<bool>,
    pub lfs_disabled: Option<bool>,
    pub migrations_disabled: Option<bool>,
    pub mirrors_disabled: Option<bool>,
    pub stars_disabled: Option<bool>,
    pub time_tracking_disabled: Option<bool>,
}

/// GeneralUISettings contains global ui settings exposed by API
#[derive(Debug, Clone, PartialEq)]
pub struct GeneralUISettings {
    pub allowed_reactions: Option<Vec<String>>,
    pub custom_emojis: Option<Vec<String>>,
    pub default_theme: Option<String>,
}

/// GenerateRepoOption options when creating repository using a template
#[derive(Debug, Clone, PartialEq)]
pub struct GenerateRepoOption {
    /// include avatar of the template repo
    pub avatar: Option<bool>,
    /// Default branch of the new repository
    pub default_branch: Option<String>,
    /// Description of the repository to create
    pub description: Option<String>,
    /// include git content of default branch in template repo
    pub git_content: Option<bool>,
    /// include git hooks in template repo
    pub git_hooks: Option<bool>,
    /// include labels in template repo
    pub labels: Option<bool>,
    /// Name of the repository to create
    pub name: String,
    /// The organization or person who will own the new repository
    pub owner: String,
    /// Whether the repository is private
    pub private: Option<bool>,
    /// include protected branches in template repo
    pub protected_branch: Option<bool>,
    /// include topics in template repo
    pub topics: Option<bool>,
    /// include webhooks in template repo
    pub webhooks: Option<bool>,
}

/// GitBlob represents a git blob
#[derive(Debug, Clone, PartialEq)]
pub struct GitBlob {
    pub content: Option<String>,
    pub encoding: Option<String>,
    pub sha: Option<String>,
    pub size: Option<i64>,
    pub url: Option<url::Url>,
}

/// GitEntry represents a git tree
#[derive(Debug, Clone, PartialEq)]
pub struct GitEntry {
    pub mode: Option<String>,
    pub path: Option<String>,
    pub sha: Option<String>,
    pub size: Option<i64>,
    pub type_: Option<String>,
    pub url: Option<url::Url>,
}

/// GitHook represents a Git repository hook
#[derive(Debug, Clone, PartialEq)]
pub struct GitHook {
    pub content: Option<String>,
    pub is_active: Option<bool>,
    pub name: Option<String>,
}

#[derive(Debug, Clone, PartialEq)]
pub struct GitObject {
    pub sha: Option<String>,
    pub type_: Option<String>,
    pub url: Option<url::Url>,
}

/// GitTreeResponse returns a git tree
#[derive(Debug, Clone, PartialEq)]
pub struct GitTreeResponse {
    pub page: Option<i64>,
    pub sha: Option<String>,
    pub total_count: Option<i64>,
    pub tree: Option<Vec<GitEntry>>,
    pub truncated: Option<bool>,
    pub url: Option<url::Url>,
}

/// GitignoreTemplateInfo name and text of a gitignore template
#[derive(Debug, Clone, PartialEq)]
pub struct GitignoreTemplateInfo {
    pub name: Option<String>,
    pub source: Option<String>,
}

/// Hook a hook is a web hook when one repository changed
#[derive(Debug, Clone, PartialEq)]
pub struct Hook {
    pub active: Option<bool>,
    pub authorization_header: Option<String>,
    pub branch_filter: Option<String>,
    /// Deprecated: use Metadata instead
    pub config: Option<BTreeMap<String, String>>,
    pub content_type: Option<String>,
    pub created_at: Option<time::OffsetDateTime>,
    pub events: Option<Vec<String>>,
    pub id: Option<i64>,
    pub metadata: Option<serde_json::Value>,
    pub type_: Option<String>,
    pub updated_at: Option<time::OffsetDateTime>,
    pub url: Option<url::Url>,
}

/// Identity for a person's identity like an author or committer
#[derive(Debug, Clone, PartialEq)]
pub struct Identity {
    pub email: Option<String>,
    pub name: Option<String>,
}

/// InternalTracker represents settings for internal tracker
#[derive(Debug, Clone, PartialEq)]
pub struct InternalTracker {
    /// Let only contributors track time (Built-in issue tracker)
    pub allow_only_contributors_to_track_time: Option<bool>,
    /// Enable dependencies for issues and pull requests (Built-in issue tracker)
    pub enable_issue_dependencies: Option<bool>,
    /// Enable time tracking (Built-in issue tracker)
    pub enable_time_tracker: Option<bool>,
}

/// Issue represents an issue in a repository
#[derive(Debug, Clone, PartialEq)]
pub struct Issue {
    pub assets: Option<Vec<Attachment>>,
    pub assignee: Option<User>,
    pub assignees: Option<Vec<User>>,
    pub body: Option<String>,
    pub closed_at: Option<time::OffsetDateTime>,
    pub comments: Option<i64>,
    pub created_at: Option<time::OffsetDateTime>,
    pub due_date: Option<time::OffsetDateTime>,
    pub html_url: Option<url::Url>,
    pub id: Option<i64>,
    pub is_locked: Option<bool>,
    pub labels: Option<Vec<Label>>,
    pub milestone: Option<Milestone>,
    pub number: Option<i64>,
    pub original_author: Option<String>,
    pub original_author_id: Option<i64>,
    pub pin_order: Option<i64>,
    pub pull_request: Option<PullRequestMeta>,
    pub ref_: Option<String>,
    pub repository: Option<RepositoryMeta>,
    pub state: Option<StateType>,
    pub title: Option<String>,
    pub updated_at: Option<time::OffsetDateTime>,
    pub url: Option<url::Url>,
    pub user: Option<User>,
}

#[derive(Debug, Clone, PartialEq)]
pub struct IssueConfig {
    pub blank_issues_enabled: Option<bool>,
    pub contact_links: Option<Vec<IssueConfigContactLink>>,
}

#[derive(Debug, Clone, PartialEq)]
pub struct IssueConfigContactLink {
    pub about: Option<String>,
    pub name: Option<String>,
    pub url: Option<url::Url>,
}

#[derive(Debug, Clone, PartialEq)]
pub struct IssueConfigValidation {
    pub message: Option<String>,
    pub valid: Option<bool>,
}

/// IssueDeadline represents an issue deadline
#[derive(Debug, Clone, PartialEq)]
pub struct IssueDeadline {
    pub due_date: Option<time::OffsetDateTime>,
}

/// IssueFormField represents a form field
#[derive(Debug, Clone, PartialEq)]
pub struct IssueFormField {
    pub attributes: Option<BTreeMap<String, serde_json::Value>>,
    pub id: Option<String>,
    pub type_: Option<IssueFormFieldType>,
    pub validations: Option<BTreeMap<String, serde_json::Value>>,
    pub visible: Option<Vec<String>>,
}

#[derive(Debug, Clone, Copy, PartialEq, Eq, Structural)]
pub enum IssueFormFieldType {
    Markdown,
    Textarea,
    Input,
    Dropdown,
    Checkboxes,
}

/// IssueLabelsOption a collection of labels
#[derive(Debug, Clone, PartialEq)]
pub struct IssueLabelsOption {
    /// Labels can be a list of integers representing label IDs
    ///
    /// or a list of strings representing label names
    pub labels: Option<Vec<serde_json::Value>>,
    pub updated_at: Option<time::OffsetDateTime>,
}

/// IssueMeta basic issue information
#[derive(Debug, Clone, PartialEq)]
pub struct IssueMeta {
    pub index: Option<i64>,
    pub owner: Option<String>,
    pub repo: Option<String>,
}

/// IssueTemplate represents an issue template for a repository
#[derive(Debug, Clone, PartialEq)]
pub struct IssueTemplate {
    pub about: Option<String>,
    pub body: Option<Vec<IssueFormField>>,
    pub content: Option<String>,
    pub file_name: Option<String>,
    pub labels: Option<Vec<String>>,
    pub name: Option<String>,
    pub ref_: Option<String>,
    pub title: Option<String>,
}

/// Label a label to an issue or a pr
#[derive(Debug, Clone, PartialEq)]
pub struct Label {
    pub color: Option<String>,
    pub description: Option<String>,
    pub exclusive: Option<bool>,
    pub id: Option<i64>,
    pub is_archived: Option<bool>,
    pub name: Option<String>,
    pub url: Option<url::Url>,
}

/// LabelTemplate info of a Label template
#[derive(Debug, Clone, PartialEq)]
pub struct LabelTemplate {
    pub color: Option<String>,
    pub description: Option<String>,
    pub exclusive: Option<bool>,
    pub name: Option<String>,
}

/// LicensesInfo contains information about a License
#[derive(Debug, Clone, PartialEq)]
pub struct LicenseTemplateInfo {
    pub body: Option<String>,
    pub implementation: Option<String>,
    pub key: Option<String>,
    pub name: Option<String>,
    pub url: Option<url::Url>,
}

/// LicensesListEntry is used for the API
#[derive(Debug, Clone, PartialEq)]
pub struct LicensesTemplateListEntry {
    pub key: Option<String>,
    pub name: Option<String>,
    pub url: Option<url::Url>,
}

/// ListActionRunResponse return a list of ActionRun
#[derive(Debug, Clone, PartialEq)]
pub struct ListActionRunResponse {
    pub total_count: Option<i64>,
    pub workflow_runs: Option<Vec<ActionRun>>,
}

/// MarkdownOption markdown options
#[derive(Debug, Clone, PartialEq)]
pub struct MarkdownOption {
    /// Context to render
    ///
    ///
    ///
    /// in: body
    pub context: Option<String>,
    /// Mode to render (comment, gfm, markdown)
    ///
    ///
    ///
    /// in: body
    pub mode: Option<String>,
    /// Text markdown to render
    ///
    ///
    ///
    /// in: body
    pub text: Option<String>,
    /// Is it a wiki page ?
    ///
    ///
    ///
    /// in: body
    pub wiki: Option<bool>,
}

/// MarkupOption markup options
#[derive(Debug, Clone, PartialEq)]
pub struct MarkupOption {
    /// The current branch path where the form gets posted
    ///
    ///
    ///
    /// in: body
    pub branch_path: Option<String>,
    /// Context to render
    ///
    ///
    ///
    /// in: body
    pub context: Option<String>,
    /// File path for detecting extension in file mode
    ///
    ///
    ///
    /// in: body
    pub file_path: Option<String>,
    /// Mode to render (comment, gfm, markdown, file)
    ///
    ///
    ///
    /// in: body
    pub mode: Option<String>,
    /// Text markup to render
    ///
    ///
    ///
    /// in: body
    pub text: Option<String>,
    /// Is it a wiki page ?
    ///
    ///
    ///
    /// in: body
    pub wiki: Option<bool>,
}

/// MergePullRequestForm form for merging Pull Request
#[derive(Debug, Clone, PartialEq)]
pub struct MergePullRequestOption {
    pub do_: MergePullRequestOptionDo,
    pub merge_commit_id: Option<String>,
    pub merge_message_field: Option<String>,
    pub merge_title_field: Option<String>,
    pub delete_branch_after_merge: Option<bool>,
    pub force_merge: Option<bool>,
    pub head_commit_id: Option<String>,
    pub merge_when_checks_succeed: Option<bool>,
}

#[derive(Debug, Clone, Copy, PartialEq, Eq, Structural)]
pub enum MergePullRequestOptionDo {
    Merge,
    Rebase,
    RebaseMerge,
    Squash,
    FastForwardOnly,
    ManuallyMerged,
}

/// MigrateRepoOptions options for migrating repository's
///
/// this is used to interact with api v1
#[derive(Debug, Clone, PartialEq)]
pub struct MigrateRepoOptions {
    pub auth_password: Option<String>,
    pub auth_token: Option<String>,
    pub auth_username: Option<String>,
    pub clone_addr: String,
    pub description: Option<String>,
    pub issues: Option<bool>,
    pub labels: Option<bool>,
    pub lfs: Option<bool>,
    pub lfs_endpoint: Option<String>,
    pub milestones: Option<bool>,
    pub mirror: Option<bool>,
    pub mirror_interval: Option<String>,
    pub private: Option<bool>,
    pub pull_requests: Option<bool>,
    pub releases: Option<bool>,
    pub repo_name: String,
    /// Name of User or Organisation who will own Repo after migration
    pub repo_owner: Option<String>,
    pub service: Option<MigrateRepoOptionsService>,
    /// deprecated (only for backwards compatibility)
    pub uid: Option<i64>,
    pub wiki: Option<bool>,
}

#[derive(Debug, Clone, Copy, PartialEq, Eq, Structural)]
pub enum MigrateRepoOptionsService {
    Git,
    Github,
    Gitea,
    Gitlab,
    Gogs,
    Onedev,
    Gitbucket,
    Codebase,
}

/// Milestone milestone is a collection of issues on one repository
#[derive(Debug, Clone, PartialEq)]
pub struct Milestone {
    pub closed_at: Option<time::OffsetDateTime>,
    pub closed_issues: Option<i64>,
    pub created_at: Option<time::OffsetDateTime>,
    pub description: Option<String>,
    pub due_on: Option<time::OffsetDateTime>,
    pub id: Option<i64>,
    pub open_issues: Option<i64>,
    pub state: Option<StateType>,
    pub title: Option<String>,
    pub updated_at: Option<time::OffsetDateTime>,
}

/// NewIssuePinsAllowed represents an API response that says if new Issue Pins are allowed
#[derive(Debug, Clone, PartialEq)]
pub struct NewIssuePinsAllowed {
    pub issues: Option<bool>,
    pub pull_requests: Option<bool>,
}

/// NodeInfo contains standardized way of exposing metadata about a server running one of the distributed social networks
#[derive(Debug, Clone, PartialEq)]
pub struct NodeInfo {
    pub metadata: Option<BTreeMap<String, serde_json::Value>>,
    pub open_registrations: Option<bool>,
    pub protocols: Option<Vec<String>>,
    pub services: Option<NodeInfoServices>,
    pub software: Option<NodeInfoSoftware>,
    pub usage: Option<NodeInfoUsage>,
    pub version: Option<String>,
}

/// NodeInfoServices contains the third party sites this server can connect to via their application API
#[derive(Debug, Clone, PartialEq)]
pub struct NodeInfoServices {
    pub inbound: Option<Vec<String>>,
    pub outbound: Option<Vec<String>>,
}

/// NodeInfoSoftware contains Metadata about server software in use
#[derive(Debug, Clone, PartialEq)]
pub struct NodeInfoSoftware {
    pub homepage: Option<String>,
    pub name: Option<String>,
    pub repository: Option<String>,
    pub version: Option<String>,
}

/// NodeInfoUsage contains usage statistics for this server
#[derive(Debug, Clone, PartialEq)]
pub struct NodeInfoUsage {
    pub local_comments: Option<i64>,
    pub local_posts: Option<i64>,
    pub users: Option<NodeInfoUsageUsers>,
}

/// NodeInfoUsageUsers contains statistics about the users of this server
#[derive(Debug, Clone, PartialEq)]
pub struct NodeInfoUsageUsers {
    pub active_halfyear: Option<i64>,
    pub active_month: Option<i64>,
    pub total: Option<i64>,
}

/// Note contains information related to a git note
#[derive(Debug, Clone, PartialEq)]
pub struct Note {
    pub commit: Option<Commit>,
    pub message: Option<String>,
}

#[derive(Debug, Clone, PartialEq)]
pub struct NoteOptions {
    pub message: Option<String>,
}

/// NotificationCount number of unread notifications
#[derive(Debug, Clone, PartialEq)]
pub struct NotificationCount {
    pub new: Option<i64>,
}

/// NotificationSubject contains the notification subject (Issue/Pull/Commit)
#[derive(Debug, Clone, PartialEq)]
pub struct NotificationSubject {
    pub html_url: Option<url::Url>,
    pub latest_comment_html_url: Option<url::Url>,
    pub latest_comment_url: Option<url::Url>,
    pub state: Option<StateType>,
    pub title: Option<String>,
    pub type_: Option<NotifySubjectType>,
    pub url: Option<url::Url>,
}

/// NotificationThread expose Notification on API
#[derive(Debug, Clone, PartialEq)]
pub struct NotificationThread {
    pub id: Option<i64>,
    pub pinned: Option<bool>,
    pub repository: Option<Repository>,
    pub subject: Option<NotificationSubject>,
    pub unread: Option<bool>,
    pub updated_at: Option<time::OffsetDateTime>,
    pub url: Option<url::Url>,
}

#[derive(Debug, Clone, Copy, PartialEq, Eq, Structural)]
pub enum NotifySubjectType {
    Issue,
    Pull,
    Commit,
    Repository,
}

#[derive(Debug, Clone, PartialEq)]
pub struct OAuth2Application {
    pub client_id: Option<String>,
    pub client_secret: Option<String>,
    pub confidential_client: Option<bool>,
    pub created: Option<time::OffsetDateTime>,
    pub id: Option<i64>,
    pub name: Option<String>,
    pub redirect_uris: Option<Vec<String>>,
}

#[derive(Debug, Clone, Copy, PartialEq, Eq, Structural)]
pub enum ObjectFormatName {
    Sha1,
    Sha256,
}

/// Organization represents an organization
#[derive(Debug, Clone, PartialEq)]
pub struct Organization {
    pub avatar_url: Option<url::Url>,
    pub description: Option<String>,
    pub email: Option<String>,
    pub full_name: Option<String>,
    pub id: Option<i64>,
    pub location: Option<String>,
    pub name: Option<String>,
    pub repo_admin_change_team_access: Option<bool>,
    /// deprecated
    pub username: Option<String>,
    pub visibility: Option<String>,
    pub website: Option<String>,
}

/// OrganizationPermissions list different users permissions on an organization
#[derive(Debug, Clone, PartialEq)]
pub struct OrganizationPermissions {
    pub can_create_repository: Option<bool>,
    pub can_read: Option<bool>,
    pub can_write: Option<bool>,
    pub is_admin: Option<bool>,
    pub is_owner: Option<bool>,
}

/// PRBranchInfo information about a branch
#[derive(Debug, Clone, PartialEq)]
pub struct PRBranchInfo {
    pub label: Option<String>,
    pub ref_: Option<String>,
    pub repo: Option<Repository>,
    pub repo_id: Option<i64>,
    pub sha: Option<String>,
}

/// Package represents a package
#[derive(Debug, Clone, PartialEq)]
pub struct Package {
    pub created_at: Option<time::OffsetDateTime>,
    pub creator: Option<User>,
    pub html_url: Option<url::Url>,
    pub id: Option<i64>,
    pub name: Option<String>,
    pub owner: Option<User>,
    pub repository: Option<Repository>,
    pub type_: Option<String>,
    pub version: Option<String>,
}

/// PackageFile represents a package file
#[derive(Debug, Clone, PartialEq)]
pub struct PackageFile {
    pub size: Option<i64>,
    pub id: Option<i64>,
    pub md5: Option<String>,
    pub name: Option<String>,
    pub sha1: Option<String>,
    pub sha256: Option<String>,
    pub sha512: Option<String>,
}

/// PayloadCommit represents a commit
#[derive(Debug, Clone, PartialEq)]
pub struct PayloadCommit {
    pub added: Option<Vec<String>>,
    pub author: Option<PayloadUser>,
    pub committer: Option<PayloadUser>,
    /// sha1 hash of the commit
    pub id: Option<String>,
    pub message: Option<String>,
    pub modified: Option<Vec<String>>,
    pub removed: Option<Vec<String>>,
    pub timestamp: Option<time::OffsetDateTime>,
    pub url: Option<url::Url>,
    pub verification: Option<PayloadCommitVerification>,
}

/// PayloadCommitVerification represents the GPG verification of a commit
#[derive(Debug, Clone, PartialEq)]
pub struct PayloadCommitVerification {
    pub payload: Option<String>,
    pub reason: Option<String>,
    pub signature: Option<String>,
    pub signer: Option<PayloadUser>,
    pub verified: Option<bool>,
}

/// PayloadUser represents the author or committer of a commit
#[derive(Debug, Clone, PartialEq)]
pub struct PayloadUser {
    pub email: Option<String>,
    /// Full name of the commit author
    pub name: Option<String>,
    pub username: Option<String>,
}

/// Permission represents a set of permissions
#[derive(Debug, Clone, PartialEq)]
pub struct Permission {
    pub admin: Option<bool>,
    pub pull: Option<bool>,
    pub push: Option<bool>,
}

/// PublicKey publickey is a user key to push code to repository
#[derive(Debug, Clone, PartialEq)]
pub struct PublicKey {
    pub created_at: Option<time::OffsetDateTime>,
    pub fingerprint: Option<String>,
    pub id: Option<i64>,
    pub key: Option<String>,
    pub key_type: Option<String>,
    pub read_only: Option<bool>,
    pub title: Option<String>,
    pub url: Option<url::Url>,
    pub user: Option<User>,
}

/// PullRequest represents a pull request
#[derive(Debug, Clone, PartialEq)]
pub struct PullRequest {
    pub additions: Option<i64>,
    pub allow_maintainer_edit: Option<bool>,
    pub assignee: Option<User>,
    pub assignees: Option<Vec<User>>,
    pub base: Option<PRBranchInfo>,
    pub body: Option<String>,
    pub changed_files: Option<i64>,
    pub closed_at: Option<time::OffsetDateTime>,
    pub comments: Option<i64>,
    pub created_at: Option<time::OffsetDateTime>,
    pub deletions: Option<i64>,
    pub diff_url: Option<url::Url>,
    pub draft: Option<bool>,
    pub due_date: Option<time::OffsetDateTime>,
    pub flow: Option<i64>,
    pub head: Option<PRBranchInfo>,
    pub html_url: Option<url::Url>,
    pub id: Option<i64>,
    pub is_locked: Option<bool>,
    pub labels: Option<Vec<Label>>,
    pub merge_base: Option<String>,
    pub merge_commit_sha: Option<String>,
    pub mergeable: Option<bool>,
    pub merged: Option<bool>,
    pub merged_at: Option<time::OffsetDateTime>,
    pub merged_by: Option<User>,
    pub milestone: Option<Milestone>,
    pub number: Option<i64>,
    pub patch_url: Option<url::Url>,
    pub pin_order: Option<i64>,
    pub requested_reviewers: Option<Vec<User>>,
    pub requested_reviewers_teams: Option<Vec<Team>>,
    /// number of review comments made on the diff of a PR review (not including comments on commits or issues in a PR)
    pub review_comments: Option<i64>,
    pub state: Option<StateType>,
    pub title: Option<String>,
    pub updated_at: Option<time::OffsetDateTime>,
    pub url: Option<url::Url>,
    pub user: Option<User>,
}

/// PullRequestMeta PR info if an issue is a PR
#[derive(Debug, Clone, PartialEq)]
pub struct PullRequestMeta {
    pub draft: Option<bool>,
    pub html_url: Option<url::Url>,
    pub merged: Option<bool>,
    pub merged_at: Option<time::OffsetDateTime>,
}

/// PullReview represents a pull request review
#[derive(Debug, Clone, PartialEq)]
pub struct PullReview {
    pub body: Option<String>,
    pub comments_count: Option<i64>,
    pub commit_id: Option<String>,
    pub dismissed: Option<bool>,
    pub html_url: Option<url::Url>,
    pub id: Option<i64>,
    pub official: Option<bool>,
    pub pull_request_url: Option<url::Url>,
    pub stale: Option<bool>,
    pub state: Option<String>,
    pub submitted_at: Option<time::OffsetDateTime>,
    pub team: Option<Team>,
    pub updated_at: Option<time::OffsetDateTime>,
    pub user: Option<User>,
}

/// PullReviewComment represents a comment on a pull request review
#[derive(Debug, Clone, PartialEq)]
pub struct PullReviewComment {
    pub body: Option<String>,
    pub commit_id: Option<String>,
    pub created_at: Option<time::OffsetDateTime>,
    pub diff_hunk: Option<String>,
    pub html_url: Option<url::Url>,
    pub id: Option<i64>,
    pub original_commit_id: Option<String>,
    pub original_position: Option<u64>,
    pub path: Option<String>,
    pub position: Option<u64>,
    pub pull_request_review_id: Option<i64>,
    pub pull_request_url: Option<url::Url>,
    pub resolver: Option<User>,
    pub updated_at: Option<time::OffsetDateTime>,
    pub user: Option<User>,
}

/// PullReviewRequestOptions are options to add or remove pull review requests
#[derive(Debug, Clone, PartialEq)]
pub struct PullReviewRequestOptions {
    pub reviewers: Option<Vec<String>>,
    pub team_reviewers: Option<Vec<String>>,
}

/// PushMirror represents information of a push mirror
#[derive(Debug, Clone, PartialEq)]
pub struct PushMirror {
    pub branch_filter: Option<String>,
    pub created: Option<time::OffsetDateTime>,
    pub interval: Option<String>,
    pub last_error: Option<String>,
    pub last_update: Option<time::OffsetDateTime>,
    pub public_key: Option<String>,
    pub remote_address: Option<String>,
    pub remote_name: Option<String>,
    pub repo_name: Option<String>,
    pub sync_on_commit: Option<bool>,
}

/// QuotaGroup represents a quota group
#[derive(Debug, Clone, PartialEq)]
pub struct QuotaGroup {
    /// Name of the group
    pub name: Option<String>,
    /// Rules associated with the group
    pub rules: Option<Vec<QuotaRuleInfo>>,
}

/// QuotaInfo represents information about a user's quota
#[derive(Debug, Clone, PartialEq)]
pub struct QuotaInfo {
    pub groups: Option<Vec<QuotaGroup>>,
    pub used: Option<QuotaUsed>,
}

/// QuotaRuleInfo contains information about a quota rule
#[derive(Debug, Clone, PartialEq)]
pub struct QuotaRuleInfo {
    /// The limit set by the rule
    pub limit: Option<i64>,
    /// Name of the rule (only shown to admins)
    pub name: Option<String>,
    /// Subjects the rule affects
    pub subjects: Option<Vec<String>>,
}

/// QuotaUsed represents the quota usage of a user
#[derive(Debug, Clone, PartialEq)]
pub struct QuotaUsed {
    pub size: Option<QuotaUsedSize>,
}

/// QuotaUsedArtifact represents an artifact counting towards a user's quota
#[derive(Debug, Clone, PartialEq)]
pub struct QuotaUsedArtifact {
    /// HTML URL to the action run containing the artifact
    pub html_url: Option<url::Url>,
    /// Name of the artifact
    pub name: Option<String>,
    /// Size of the artifact (compressed)
    pub size: Option<i64>,
}

/// QuotaUsedAttachment represents an attachment counting towards a user's quota
#[derive(Debug, Clone, PartialEq)]
pub struct QuotaUsedAttachment {
    /// API URL for the attachment
    pub api_url: Option<url::Url>,
    /// Context for the attachment: URLs to the containing object
    pub contained_in: Option<QuotaUsedAttachmentContainedIn>,
    /// Filename of the attachment
    pub name: Option<String>,
    /// Size of the attachment (in bytes)
    pub size: Option<i64>,
}

/// Context for the attachment: URLs to the containing object
#[derive(Debug, Clone, PartialEq)]
pub struct QuotaUsedAttachmentContainedIn {
    /// API URL for the object that contains this attachment
    pub api_url: Option<url::Url>,
    /// HTML URL for the object that contains this attachment
    pub html_url: Option<url::Url>,
}

/// QuotaUsedPackage represents a package counting towards a user's quota
#[derive(Debug, Clone, PartialEq)]
pub struct QuotaUsedPackage {
    /// HTML URL to the package version
    pub html_url: Option<url::Url>,
    /// Name of the package
    pub name: Option<String>,
    /// Size of the package version
    pub size: Option<i64>,
    /// Type of the package
    pub type_: Option<String>,
    /// Version of the package
    pub version: Option<String>,
}

/// QuotaUsedSize represents the size-based quota usage of a user
#[derive(Debug, Clone, PartialEq)]
pub struct QuotaUsedSize {
    pub assets: Option<QuotaUsedSizeAssets>,
    pub git: Option<QuotaUsedSizeGit>,
    pub repos: Option<QuotaUsedSizeRepos>,
}

/// QuotaUsedSizeAssets represents the size-based asset usage of a user
#[derive(Debug, Clone, PartialEq)]
pub struct QuotaUsedSizeAssets {
    /// Storage size used for the user's artifacts
    pub artifacts: Option<i64>,
    pub attachments: Option<QuotaUsedSizeAssetsAttachments>,
    pub packages: Option<QuotaUsedSizeAssetsPackages>,
}

/// QuotaUsedSizeAssetsAttachments represents the size-based attachment quota usage of a user
#[derive(Debug, Clone, PartialEq)]
pub struct QuotaUsedSizeAssetsAttachments {
    /// Storage size used for the user's issue & comment attachments
    pub issues: Option<i64>,
    /// Storage size used for the user's release attachments
    pub releases: Option<i64>,
}

/// QuotaUsedSizeAssetsPackages represents the size-based package quota usage of a user
#[derive(Debug, Clone, PartialEq)]
pub struct QuotaUsedSizeAssetsPackages {
    /// Storage suze used for the user's packages
    pub all: Option<i64>,
}

/// QuotaUsedSizeGit represents the size-based git (lfs) quota usage of a user
#[derive(Debug, Clone, PartialEq)]
pub struct QuotaUsedSizeGit {
    /// Storage size of the user's Git LFS objects
    pub lfs: Option<i64>,
}

/// QuotaUsedSizeRepos represents the size-based repository quota usage of a user
#[derive(Debug, Clone, PartialEq)]
pub struct QuotaUsedSizeRepos {
    /// Storage size of the user's private repositories
    pub private: Option<i64>,
    /// Storage size of the user's public repositories
    pub public: Option<i64>,
}

/// Reaction contain one reaction
#[derive(Debug, Clone, PartialEq)]
pub struct Reaction {
    pub content: Option<String>,
    pub created_at: Option<time::OffsetDateTime>,
    pub user: Option<User>,
}

#[derive(Debug, Clone, PartialEq)]
pub struct Reference {
    pub object: Option<GitObject>,
    pub ref_: Option<String>,
    pub url: Option<url::Url>,
}

/// RegistrationToken is a string used to register a runner with a server
#[derive(Debug, Clone, PartialEq)]
pub struct RegistrationToken {
    pub token: Option<String>,
}

/// Release represents a repository release
#[derive(Debug, Clone, PartialEq)]
pub struct Release {
    pub archive_download_count: Option<TagArchiveDownloadCount>,
    pub assets: Option<Vec<Attachment>>,
    pub author: Option<User>,
    pub body: Option<String>,
    pub created_at: Option<time::OffsetDateTime>,
    pub draft: Option<bool>,
    pub hide_archive_links: Option<bool>,
    pub html_url: Option<url::Url>,
    pub id: Option<i64>,
    pub name: Option<String>,
    pub prerelease: Option<bool>,
    pub published_at: Option<time::OffsetDateTime>,
    pub tag_name: Option<String>,
    pub tarball_url: Option<url::Url>,
    pub target_commitish: Option<String>,
    pub upload_url: Option<url::Url>,
    pub url: Option<url::Url>,
    pub zipball_url: Option<url::Url>,
}

/// RenameOrgOption options when renaming an organization
#[derive(Debug, Clone, PartialEq)]
pub struct RenameOrgOption {
    /// New username for this org. This name cannot be in use yet by any other user.
    pub new_name: String,
}

/// RenameUserOption options when renaming a user
#[derive(Debug, Clone, PartialEq)]
pub struct RenameUserOption {
    /// New username for this user. This name cannot be in use yet by any other user.
    pub new_username: String,
}

/// ReplaceFlagsOption options when replacing the flags of a repository
#[derive(Debug, Clone, PartialEq)]
pub struct ReplaceFlagsOption {
    pub flags: Option<Vec<String>>,
}

/// RepoCollaboratorPermission to get repository permission for a collaborator
#[derive(Debug, Clone, PartialEq)]
pub struct RepoCollaboratorPermission {
    pub permission: Option<String>,
    pub role_name: Option<String>,
    pub user: Option<User>,
}

#[derive(Debug, Clone, PartialEq)]
pub struct RepoCommit {
    pub author: Option<CommitUser>,
    pub committer: Option<CommitUser>,
    pub message: Option<String>,
    pub tree: Option<CommitMeta>,
    pub url: Option<url::Url>,
    pub verification: Option<PayloadCommitVerification>,
}

/// RepoTopicOptions a collection of repo topic names
#[derive(Debug, Clone, PartialEq)]
pub struct RepoTopicOptions {
    /// list of topic names
    pub topics: Option<Vec<String>>,
}

/// RepoTransfer represents a pending repo transfer
#[derive(Debug, Clone, PartialEq)]
pub struct RepoTransfer {
    pub doer: Option<User>,
    pub recipient: Option<User>,
    pub teams: Option<Vec<Team>>,
}

/// Repository represents a repository
#[derive(Debug, PartialEq)]
pub struct Repository {
    pub allow_fast_forward_only_merge: Option<bool>,
    pub allow_merge_commits: Option<bool>,
    pub allow_rebase: Option<bool>,
    pub allow_rebase_explicit: Option<bool>,
    pub allow_rebase_update: Option<bool>,
    pub allow_squash_merge: Option<bool>,
    pub archived: Option<bool>,
    pub archived_at: Option<time::OffsetDateTime>,
    pub avatar_url: Option<url::Url>,
    pub clone_url: Option<url::Url>,
    pub created_at: Option<time::OffsetDateTime>,
    pub default_allow_maintainer_edit: Option<bool>,
    pub default_branch: Option<String>,
    pub default_delete_branch_after_merge: Option<bool>,
    pub default_merge_style: Option<DefaultMergeStyle>,
    pub default_update_style: Option<String>,
    pub description: Option<String>,
    pub empty: Option<bool>,
    pub external_tracker: Option<ExternalTracker>,
    pub external_wiki: Option<ExternalWiki>,
    pub fork: Option<bool>,
    pub forks_count: Option<i64>,
    pub full_name: Option<String>,
    pub globally_editable_wiki: Option<bool>,
    pub has_actions: Option<bool>,
    pub has_issues: Option<bool>,
    pub has_packages: Option<bool>,
    pub has_projects: Option<bool>,
    pub has_pull_requests: Option<bool>,
    pub has_releases: Option<bool>,
    pub has_wiki: Option<bool>,
    pub html_url: Option<url::Url>,
    pub id: Option<i64>,
    pub ignore_whitespace_conflicts: Option<bool>,
    pub internal: Option<bool>,
    pub internal_tracker: Option<InternalTracker>,
    pub language: Option<String>,
    pub languages_url: Option<url::Url>,
    pub link: Option<String>,
    pub mirror: Option<bool>,
    pub mirror_interval: Option<String>,
    pub mirror_updated: Option<time::OffsetDateTime>,
    pub name: Option<String>,
    pub object_format_name: Option<ObjectFormatName>,
    pub open_issues_count: Option<i64>,
    pub open_pr_counter: Option<i64>,
    pub original_url: Option<url::Url>,
    pub owner: Option<User>,
    pub parent: Option<Box<Repository>>,
    pub permissions: Option<Permission>,
    pub private: Option<bool>,
    pub release_counter: Option<i64>,
    pub repo_transfer: Option<RepoTransfer>,
    pub size: Option<i64>,
    pub ssh_url: Option<url::Url>,
    pub stars_count: Option<i64>,
    pub template: Option<bool>,
    pub topics: Option<Vec<String>>,
    pub updated_at: Option<time::OffsetDateTime>,
    pub url: Option<url::Url>,
    pub watchers_count: Option<i64>,
    pub website: Option<String>,
    pub wiki_branch: Option<String>,
}

impl Clone for Repository {
    fn clone(&self) -> (r: Self)
        decreases self,
    {
        Repository {
            allow_fast_forward_only_merge: self.allow_fast_forward_only_merge.clone(),
            allow_merge_commits: self.allow_merge_commits.clone(),
            allow_rebase: self.allow_rebase.clone(),
            allow_rebase_explicit: self.allow_rebase_explicit.clone(),
            allow_rebase_update: self.allow_rebase_update.clone(),
            allow_squash_merge: self.allow_squash_merge.clone(),
            archived: self.archived.clone(),
            archived_at: self.archived_at.clone(),
            avatar_url: self.avatar_url.clone(),
            clone_url: self.clone_url.clone(),
            created_at: self.created_at.clone(),
            default_allow_maintainer_edit: self.default_allow_maintainer_edit.clone(),
            default_branch: self.default_branch.clone(),
            default_delete_branch_after_merge: self.default_delete_branch_after_merge.clone(),
            default_merge_style: self.default_merge_style.clone(),
            default_update_style: self.default_update_style.clone(),
            description: self.description.clone(),
            empty: self.empty.clone(),
            external_tracker: self.external_tracker.clone(),
            external_wiki: self.external_wiki.clone(),
            fork: self.fork.clone(),
            forks_count: self.forks_count.clone(),
            full_name: self.full_name.clone(),
            globally_editable_wiki: self.globally_editable_wiki.clone(),
            has_actions: self.has_actions.clone(),
            has_issues: self.has_issues.clone(),
            has_packages: self.has_packages.clone(),
            has_projects: self.has_projects.clone(),
            has_pull_requests: self.has_pull_requests.clone(),
            has_releases: self.has_releases.clone(),
            has_wiki: self.has_wiki.clone(),
            html_url: self.html_url.clone(),
            id: self.id.clone(),
            ignore_whitespace_conflicts: self.ignore_whitespace_conflicts.clone(),
            internal: self.internal.clone(),
            internal_tracker: self.internal_tracker.clone(),
            language: self.language.clone(),
            languages_url: self.languages_url.clone(),
            link: self.link.clone(),
            mirror: self.mirror.clone(),
            mirror_interval: self.mirror_interval.clone(),
            mirror_updated: self.mirror_updated.clone(),
            name: self.name.clone(),
            object_format_name: self.object_format_name.clone(),
            open_issues_count: self.open_issues_count.clone(),
            open_pr_counter: self.open_pr_counter.clone(),
            original_url: self.original_url.clone(),
            owner: self.owner.clone(),
            parent: match &self.parent {
                Some(p) => Some(Box::new((**p).clone())),
                None => None,
            },
            permissions: self.permissions.clone(),
            private: self.private.clone(),
            release_counter: self.release_counter.clone(),
            repo_transfer: self.repo_transfer.clone(),
            size: self.size.clone(),
            ssh_url: self.ssh_url.clone(),
            stars_count: self.stars_count.clone(),
            template: self.template.clone(),
            topics: self.topics.clone(),
            updated_at: self.updated_at.clone(),
            url: self.url.clone(),
            watchers_count: self.watchers_count.clone(),
            website: self.website.clone(),
            wiki_branch: self.wiki_branch.clone(),
        }
    }
}

/// RepositoryMeta basic repository information
#[derive(Debug, Clone, PartialEq)]
pub struct RepositoryMeta {
    pub full_name: Option<String>,
    pub id: Option<i64>,
    pub name: Option<String>,
    pub owner: Option<String>,
}

/// SearchResults results of a successful search
#[derive(Debug, Clone, PartialEq)]
pub struct SearchResults {
    pub data: Option<Vec<Repository>>,
    pub ok: Option<bool>,
}

/// Secret represents a secret
#[derive(Debug, Clone, PartialEq)]
pub struct Secret {
    pub created_at: Option<time::OffsetDateTime>,
    /// the secret's name
    pub name: Option<String>,
}

/// ServerVersion wraps the version of the server
#[derive(Debug, Clone, PartialEq)]
pub struct ServerVersion {
    pub version: Option<String>,
}

/// SetUserQuotaGroupsOptions represents the quota groups of a user
#[derive(Debug, Clone, PartialEq)]
pub struct SetUserQuotaGroupsOptions {
    /// Quota groups the user shall have
    pub groups: Vec<String>,
}

#[derive(Debug, Clone, Copy, PartialEq, Eq, Structural)]
pub enum StateType {
    Open,
    Closed,
}

/// StopWatch represent a running stopwatch
#[derive(Debug, Clone, PartialEq)]
pub struct StopWatch {
    pub created: Option<time::OffsetDateTime>,
    pub duration: Option<String>,
    pub issue_index: Option<i64>,
    pub issue_title: Option<String>,
    pub repo_name: Option<String>,
    pub repo_owner_name: Option<String>,
    pub seconds: Option<i64>,
}

/// SubmitPullReviewOptions are options to submit a pending pull review
#[derive(Debug, Clone, PartialEq)]
pub struct SubmitPullReviewOptions {
    pub body: Option<String>,
    pub event: Option<String>,
}

/// SyncForkInfo information about syncing a fork
#[derive(Debug, Clone, PartialEq)]
pub struct SyncForkInfo {
    pub allowed: Option<bool>,
    pub base_commit: Option<String>,
    pub commits_behind: Option<i64>,
    pub fork_commit: Option<String>,
}

/// Tag represents a repository tag
#[derive(Debug, Clone, PartialEq)]
pub struct Tag {
    pub archive_download_count: Option<TagArchiveDownloadCount>,
    pub commit: Option<CommitMeta>,
    pub id: Option<String>,
    pub message: Option<String>,
    pub name: Option<String>,
    pub tarball_url: Option<url::Url>,
    pub zipball_url: Option<url::Url>,
}

/// TagArchiveDownloadCount counts how many times a archive was downloaded
#[derive(Debug, Clone, PartialEq)]
pub struct TagArchiveDownloadCount {
    pub tar_gz: Option<i64>,
    pub zip: Option<i64>,
}

/// TagProtection represents a tag protection
#[derive(Debug, Clone, PartialEq)]
pub struct TagProtection {
    pub created_at: Option<time::OffsetDateTime>,
    pub id: Option<i64>,
    pub name_pattern: Option<String>,
    pub updated_at: Option<time::OffsetDateTime>,
    pub whitelist_teams: Option<Vec<String>>,
    pub whitelist_usernames: Option<Vec<String>>,
}

/// Team represents a team in an organization
#[derive(Debug, Clone, PartialEq)]
pub struct Team {
    pub can_create_org_repo: Option<bool>,
    pub description: Option<String>,
    pub id: Option<i64>,
    pub includes_all_repositories: Option<bool>,
    pub name: Option<String>,
    pub organization: Option<Organization>,
    pub permission: Option<TeamPermission>,
    pub units: Option<Vec<String>>,
    pub units_map: Option<BTreeMap<String, String>>,
}

#[derive(Debug, Clone, Copy, PartialEq, Eq, Structural)]
pub enum TeamPermission {
    NoneValue,
    Read,
    Write,
    Admin,
    Owner,
}

/// TimelineComment represents a timeline comment (comment of any type) on a commit or issue
#[derive(Debug, Clone, PartialEq)]
pub struct TimelineComment {
    pub assignee: Option<User>,
    pub assignee_team: Option<Team>,
    pub body: Option<String>,
    pub created_at: Option<time::OffsetDateTime>,
    pub dependent_issue: Option<Issue>,
    pub html_url: Option<url::Url>,
    pub id: Option<i64>,
    pub issue_url: Option<url::Url>,
    pub label: Option<Label>,
    pub milestone: Option<Milestone>,
    pub new_ref: Option<String>,
    pub new_title: Option<String>,
    pub old_milestone: Option<Milestone>,
    pub old_project_id: Option<i64>,
    pub old_ref: Option<String>,
    pub old_title: Option<String>,
    pub project_id: Option<i64>,
    pub pull_request_url: Option<url::Url>,
    pub ref_action: Option<String>,
    pub ref_comment: Option<Comment>,
    /// commit SHA where issue/PR was referenced
    pub ref_commit_sha: Option<String>,
    pub ref_issue: Option<Issue>,
    /// whether the assignees were removed or added
    pub removed_assignee: Option<bool>,
    pub resolve_doer: Option<User>,
    pub review_id: Option<i64>,
    pub tracked_time: Option<TrackedTime>,
    pub type_: Option<String>,
    pub updated_at: Option<time::OffsetDateTime>,
    pub user: Option<User>,
}

/// TopicName a list of repo topic names
#[derive(Debug, Clone, PartialEq)]
pub struct TopicName {
    pub topics: Option<Vec<String>>,
}

/// TopicResponse for returning topics
#[derive(Debug, Clone, PartialEq)]
pub struct TopicResponse {
    pub created: Option<time::OffsetDateTime>,
    pub id: Option<i64>,
    pub repo_count: Option<i64>,
    pub topic_name: Option<String>,
    pub updated: Option<time::OffsetDateTime>,
}

/// TrackedTime worked time for an issue / pr
#[derive(Debug, Clone, PartialEq)]
pub struct TrackedTime {
    pub created: Option<time::OffsetDateTime>,
    pub id: Option<i64>,
    pub issue: Option<Issue>,
    /// deprecated (only for backwards compatibility)
    pub issue_id: Option<i64>,
    /// Time in seconds
    pub time: Option<i64>,
    /// deprecated (only for backwards compatibility)
    pub user_id: Option<i64>,
    pub user_name: Option<String>,
}

/// TransferRepoOption options when transfer a repository's ownership
#[derive(Debug, Clone, PartialEq)]
pub struct TransferRepoOption {
    pub new_owner: String,
    /// ID of the team or teams to add to the repository. Teams can only be added to organization-owned repositories.
    pub team_ids: Option<Vec<i64>>,
}

/// UpdateBranchRepoOption options when updating a branch in a repository
#[derive(Debug, Clone, PartialEq)]
pub struct UpdateBranchRepoOption {
    /// New branch name
    pub name: String,
}

/// UpdateFileOptions options for updating files
///
/// Note: `author` and `committer` are optional (if only one is given, it will be used for the other, otherwise the authenticated user will be used)
#[derive(Debug, Clone, PartialEq)]
pub struct UpdateFileOptions {
    pub author: Option<Identity>,
    /// branch (optional) to base this file from. if not given, the default branch is used
    pub branch: Option<String>,
    pub committer: Option<Identity>,
    /// content must be base64 encoded
    pub content: String,
    pub dates: Option<CommitDateOptions>,
    /// from_path (optional) is the path of the original file which will be moved/renamed to the path in the URL
    pub from_path: Option<String>,
    /// message (optional) for the commit of this file. if not supplied, a default message will be used
    pub message: Option<String>,
    /// new_branch (optional) will make a new branch from `branch` before creating the file
    pub new_branch: Option<String>,
    /// sha is the SHA for the file that already exists
    pub sha: String,
    /// Add a Signed-off-by trailer by the committer at the end of the commit log message.
    pub signoff: Option<bool>,
}

/// UpdateRepoAvatarUserOption options when updating the repo avatar
#[derive(Debug, Clone, PartialEq)]
pub struct UpdateRepoAvatarOption {
    /// image must be base64 encoded
    pub image: Option<String>,
}

/// UpdateUserAvatarUserOption options when updating the user avatar
#[derive(Debug, Clone, PartialEq)]
pub struct UpdateUserAvatarOption {
    /// image must be base64 encoded
    pub image: Option<String>,
}

/// UpdateVariableOption the option when updating variable
#[derive(Debug, Clone, PartialEq)]
pub struct UpdateVariableOption {
    /// New name for the variable. If the field is empty, the variable name won't be updated.
    pub name: Option<String>,
    /// Value of the variable to update
    pub value: String,
}

/// User represents a user
#[derive(Debug, Clone, PartialEq)]
pub struct User {
    /// Is user active
    pub active: Option<bool>,
    /// URL to the user's avatar
    pub avatar_url: Option<url::Url>,
    pub created: Option<time::OffsetDateTime>,
    /// the user's description
    pub description: Option<String>,
    pub email: Option<String>,
    /// user counts
    pub followers_count: Option<i64>,
    pub following_count: Option<i64>,
    /// the user's full name
    pub full_name: Option<String>,
    /// URL to the user's profile page
    pub html_url: Option<url::Url>,
    /// the user's id
    pub id: Option<i64>,
    /// Is the user an administrator
    pub is_admin: Option<bool>,
    /// User locale
    pub language: Option<String>,
    pub last_login: Option<time::OffsetDateTime>,
    /// the user's location
    pub location: Option<String>,
    /// the user's username
    pub login: Option<String>,
    /// the user's authentication sign-in name.
    pub login_name: Option<String>,
    /// Is user login prohibited
    pub prohibit_login: Option<bool>,
    /// the user's pronouns
    pub pronouns: Option<String>,
    /// Is user restricted
    pub restricted: Option<bool>,
    /// The ID of the user's Authentication Source
    pub source_id: Option<i64>,
    pub starred_repos_count: Option<i64>,
    /// User visibility level option: public, limited, private
    pub visibility: Option<String>,
    /// the user's website
    pub website: Option<String>,
}

/// UserHeatmapData represents the data needed to create a heatmap
#[derive(Debug, Clone, PartialEq)]
pub struct UserHeatmapData {
    pub contributions: Option<i64>,
    pub timestamp: Option<i64>,
}

/// UserSettings represents user settings
#[derive(Debug, Clone, PartialEq)]
pub struct UserSettings {
    pub description: Option<String>,
    pub diff_view_style: Option<String>,
    pub enable_repo_unit_hints: Option<bool>,
    pub full_name: Option<String>,
    pub hide_activity: Option<bool>,
    /// Privacy
    pub hide_email: Option<bool>,
    pub hide_pronouns: Option<bool>,
    pub language: Option<String>,
    pub location: Option<String>,
    pub pronouns: Option<String>,
    pub theme: Option<String>,
    pub website: Option<String>,
}

/// UserSettingsOptions represents options to change user settings
#[derive(Debug, Clone, PartialEq)]
pub struct UserSettingsOptions {
    pub description: Option<String>,
    pub diff_view_style: Option<String>,
    pub enable_repo_unit_hints: Option<bool>,
    pub full_name: Option<String>,
    pub hide_activity: Option<bool>,
    /// Privacy
    pub hide_email: Option<bool>,
    pub hide_pronouns: Option<bool>,
    pub language: Option<String>,
    pub location: Option<String>,
    pub pronouns: Option<String>,
    pub theme: Option<String>,
    pub website: Option<String>,
}

/// VerifyGPGKeyOption options verifies user GPG key
#[derive(Debug, Clone, PartialEq)]
pub struct VerifyGPGKeyOption {
    pub armored_signature: Option<String>,
    /// An Signature for a GPG key token
    pub key_id: String,
}

/// WatchInfo represents an API watch status of one repository
#[derive(Debug, Clone, PartialEq)]
pub struct WatchInfo {
    pub created_at: Option<time::OffsetDateTime>,
    pub ignored: Option<bool>,
    pub reason: Option<serde_json::Value>,
    pub repository_url: Option<url::Url>,
    pub subscribed: Option<bool>,
    pub url: Option<url::Url>,
}

/// WikiCommit page commit/revision
#[derive(Debug, Clone, PartialEq)]
pub struct WikiCommit {
    pub author: Option<CommitUser>,
    pub commiter: Option<CommitUser>,
    pub message: Option<String>,
    pub sha: Option<String>,
}

/// WikiCommitList commit/revision list
#[derive(Debug, Clone, PartialEq)]
pub struct WikiCommitList {
    pub commits: Option<Vec<WikiCommit>>,
    pub count: Option<i64>,
}

/// WikiPage a wiki page
#[derive(Debug, Clone, PartialEq)]
pub struct WikiPage {
    pub commit_count: Option<i64>,
    /// Page content, base64 encoded
    pub content_base64: Option<String>,
    pub footer: Option<String>,
    pub html_url: Option<url::Url>,
    pub last_commit: Option<WikiCommit>,
    pub sidebar: Option<String>,
    pub sub_url: Option<String>,
    pub title: Option<String>,
}

/// WikiPageMetaData wiki page meta information
#[derive(Debug, Clone, PartialEq)]
pub struct WikiPageMetaData {
    pub html_url: Option<url::Url>,
    pub last_commit: Option<WikiCommit>,
    pub sub_url: Option<String>,
    pub title: Option<String>,
}

pub struct AccessTokenListHeaders {
    pub x_total_count: Option<i64>,
}

impl AccessTokenListHeaders {
    /// Reads the typed headers; the first header that is present but
    /// unreadable decides the error.
    pub fn try_from(map: &HeaderMap) -> (r: Result<Self, StructureError>)
        ensures
            match r {
                Ok(h) => {
                    &&& header_i64(map.value_of("x-total-count"@)) == Ok::<Option<i64>, StructureError>(h.x_total_count)
                },
                Err(e) => if header_i64(map.value_of("x-total-count"@)) is Err {
                    e == header_i64(map.value_of("x-total-count"@))->Err_0
                } else {
                    false
                },
            },
    {
        let x_total_count = match read_i64(map, "x-total-count") {
            Ok(v) => v,
            Err(e) => return Err(e),
        };
        Ok(AccessTokenListHeaders { x_total_count })
    }

    /// The total number of items, from `x-total-count`.
    pub fn count(&self) -> (r: Option<usize>)
        ensures
            r == match self.x_total_count {
                Some(x) => Some(x as usize),
                None => None::<usize>,
            },
    {
        match self.x_total_count {
            Some(x) => Some(x as usize),
            None => None,
        }
    }
}

pub struct ActivityFeedsListHeaders {
    pub x_total_count: Option<i64>,
}

impl ActivityFeedsListHeaders {
    /// Reads the typed headers; the first header that is present but
    /// unreadable decides the error.
    pub fn try_from(map: &HeaderMap) -> (r: Result<Self, StructureError>)
        ensures
            match r {
                Ok(h) => {
                    &&& header_i64(map.value_of("x-total-count"@)) == Ok::<Option<i64>, StructureError>(h.x_total_count)
                },
                Err(e) => if header_i64(map.value_of("x-total-count"@)) is Err {
                    e == header_i64(map.value_of("x-total-count"@))->Err_0
                } else {
                    false
                },
            },
    {
        let x_total_count = match read_i64(map, "x-total-count") {
            Ok(v) => v,
            Err(e) => return Err(e),
        };
        Ok(ActivityFeedsListHeaders { x_total_count })
    }

    /// The total number of items, from `x-total-count`.
    pub fn count(&self) -> (r: Option<usize>)
        ensures
            r == match self.x_total_count {
                Some(x) => Some(x as usize),
                None => None::<usize>,
            },
    {
        match self.x_total_count {
            Some(x) => Some(x as usize),
            None => None,
        }
    }
}

pub struct BlockedUserListHeaders {
    pub x_total_count: Option<i64>,
}

impl BlockedUserListHeaders {
    /// Reads the typed headers; the first header that is present but
    /// unreadable decides the error.
    pub fn try_from(map: &HeaderMap) -> (r: Result<Self, StructureError>)
        ensures
            match r {
                Ok(h) => {
                    &&& header_i64(map.value_of("x-total-count"@)) == Ok::<Option<i64>, StructureError>(h.x_total_count)
                },
                Err(e) => if header_i64(map.value_of("x-total-count"@)) is Err {
                    e == header_i64(map.value_of("x-total-count"@))->Err_0
                } else {
                    false
                },
            },
    {
        let x_total_count = match read_i64(map, "x-total-count") {
            Ok(v) => v,
            Err(e) => return Err(e),
        };
        Ok(BlockedUserListHeaders { x_total_count })
    }

    /// The total number of items, from `x-total-count`.
    pub fn count(&self) -> (r: Option<usize>)
        ensures
            r == match self.x_total_count {
                Some(x) => Some(x as usize),
                None => None::<usize>,
            },
    {
        match self.x_total_count {
            Some(x) => Some(x as usize),
            None => None,
        }
    }
}

pub struct BranchListHeaders {
    pub x_total_count: Option<i64>,
}

impl BranchListHeaders {
    /// Reads the typed headers; the first header that is present but
    /// unreadable decides the error.
    pub fn try_from(map: &HeaderMap) -> (r: Result<Self, StructureError>)
        ensures
            match r {
                Ok(h) => {
                    &&& header_i64(map.value_of("x-total-count"@)) == Ok::<Option<i64>, StructureError>(h.x_total_count)
                },
                Err(e) => if header_i64(map.value_of("x-total-count"@)) is Err {
                    e == header_i64(map.value_of("x-total-count"@))->Err_0
                } else {
                    false
                },
            },
    {
        let x_total_count = match read_i64(map, "x-total-count") {
            Ok(v) => v,
            Err(e) => return Err(e),
        };
        Ok(BranchListHeaders { x_total_count })
    }

    /// The total number of items, from `x-total-count`.
    pub fn count(&self) -> (r: Option<usize>)
        ensures
            r == match self.x_total_count {
                Some(x) => Some(x as usize),
                None => None::<usize>,
            },
    {
        match self.x_total_count {
            Some(x) => Some(x as usize),
            None => None,
        }
    }
}

pub struct ChangedFileListHeaders {
    pub x_total_count: Option<i64>,
}

impl ChangedFileListHeaders {
    /// Reads the typed headers; the first header that is present but
    /// unreadable decides the error.
    pub fn try_from(map: &HeaderMap) -> (r: Result<Self, StructureError>)
        ensures
            match r {
                Ok(h) => {
                    &&& header_i64(map.value_of("x-total-count"@)) == Ok::<Option<i64>, StructureError>(h.x_total_count)
                },
                Err(e) => if header_i64(map.value_of("x-total-count"@)) is Err {
                    e == header_i64(map.value_of("x-total-count"@))->Err_0
                } else {
                    false
                },
            },
    {
        let x_total_count = match read_i64(map, "x-total-count") {
            Ok(v) => v,
            Err(e) => return Err(e),
        };
        Ok(ChangedFileListHeaders { x_total_count })
    }

    /// The total number of items, from `x-total-count`.
    pub fn count(&self) -> (r: Option<usize>)
        ensures
            r == match self.x_total_count {
                Some(x) => Some(x as usize),
                None => None::<usize>,
            },
    {
        match self.x_total_count {
            Some(x) => Some(x as usize),
            None => None,
        }
    }
}

pub struct ChangedFileListWithPaginationHeaders {
    pub x_has_more: Option<bool>,
    pub x_page: Option<i64>,
    pub x_page_count: Option<i64>,
    pub x_per_page: Option<i64>,
    pub x_total_count: Option<i64>,
}

impl ChangedFileListWithPaginationHeaders {
    /// Reads the typed headers; the first header that is present but
    /// unreadable decides the error.
    pub fn try_from(map: &HeaderMap) -> (r: Result<Self, StructureError>)
        ensures
            match r {
                Ok(h) => {
                    &&& header_bool(map.value_of("x-hasmore"@)) == Ok::<Option<bool>, StructureError>(h.x_has_more)
                    &&& header_i64(map.value_of("x-page"@)) == Ok::<Option<i64>, StructureError>(h.x_page)
                    &&& header_i64(map.value_of("x-pagecount"@)) == Ok::<Option<i64>, StructureError>(h.x_page_count)
                    &&& header_i64(map.value_of("x-perpage"@)) == Ok::<Option<i64>, StructureError>(h.x_per_page)
                    &&& header_i64(map.value_of("x-total-count"@)) == Ok::<Option<i64>, StructureError>(h.x_total_count)
                },
                Err(e) => if header_bool(map.value_of("x-hasmore"@)) is Err {
                    e == header_bool(map.value_of("x-hasmore"@))->Err_0
                } else if header_i64(map.value_of("x-page"@)) is Err {
                    e == header_i64(map.value_of("x-page"@))->Err_0
                } else if header_i64(map.value_of("x-pagecount"@)) is Err {
                    e == header_i64(map.value_of("x-pagecount"@))->Err_0
                } else if header_i64(map.value_of("x-perpage"@)) is Err {
                    e == header_i64(map.value_of("x-perpage"@))->Err_0
                } else if header_i64(map.value_of("x-total-count"@)) is Err {
                    e == header_i64(map.value_of("x-total-count"@))->Err_0
                } else {
                    false
                },
            },
    {
        let x_has_more = match read_bool(map, "x-hasmore") {
            Ok(v) => v,
            Err(e) => return Err(e),
        };
        let x_page = match read_i64(map, "x-page") {
            Ok(v) => v,
            Err(e) => return Err(e),
        };
        let x_page_count = match read_i64(map, "x-pagecount") {
            Ok(v) => v,
            Err(e) => return Err(e),
        };
        let x_per_page = match read_i64(map, "x-perpage") {
            Ok(v) => v,
            Err(e) => return Err(e),
        };
        let x_total_count = match read_i64(map, "x-total-count") {
            Ok(v) => v,
            Err(e) => return Err(e),
        };
        Ok(ChangedFileListWithPaginationHeaders { x_has_more, x_page, x_page_count, x_per_page, x_total_count })
    }

    /// The total number of items, from `x-total-count`.
    pub fn count(&self) -> (r: Option<usize>)
        ensures
            r == match self.x_total_count {
                Some(x) => Some(x as usize),
                None => None::<usize>,
            },
    {
        match self.x_total_count {
            Some(x) => Some(x as usize),
            None => None,
        }
    }
}

pub struct CombinedStatusHeaders {
    pub x_total_count: Option<i64>,
}

impl CombinedStatusHeaders {
    /// Reads the typed headers; the first header that is present but
    /// unreadable decides the error.
    pub fn try_from(map: &HeaderMap) -> (r: Result<Self, StructureError>)
        ensures
            match r {
                Ok(h) => {
                    &&& header_i64(map.value_of("x-total-count"@)) == Ok::<Option<i64>, StructureError>(h.x_total_count)
                },
                Err(e) => if header_i64(map.value_of("x-total-count"@)) is Err {
                    e == header_i64(map.value_of("x-total-count"@))->Err_0
                } else {
                    false
                },
            },
    {
        let x_total_count = match read_i64(map, "x-total-count") {
            Ok(v) => v,
            Err(e) => return Err(e),
        };
        Ok(CombinedStatusHeaders { x_total_count })
    }

    /// The total number of items, from `x-total-count`.
    pub fn count(&self) -> (r: Option<usize>)
        ensures
            r == match self.x_total_count {
                Some(x) => Some(x as usize),
                None => None::<usize>,
            },
    {
        match self.x_total_count {
            Some(x) => Some(x as usize),
            None => None,
        }
    }
}

pub struct CommentListHeaders {
    pub x_total_count: Option<i64>,
}

impl CommentListHeaders {
    /// Reads the typed headers; the first header that is present but
    /// unreadable decides the error.
    pub fn try_from(map: &HeaderMap) -> (r: Result<Self, StructureError>)
        ensures
            match r {
                Ok(h) => {
                    &&& header_i64(map.value_of("x-total-count"@)) == Ok::<Option<i64>, StructureError>(h.x_total_count)
                },
                Err(e) => if header_i64(map.value_of("x-total-count"@)) is Err {
                    e == header_i64(map.value_of("x-total-count"@))->Err_0
                } else {
                    false
                },
            },
    {
        let x_total_count = match read_i64(map, "x-total-count") {
            Ok(v) => v,
            Err(e) => return Err(e),
        };
        Ok(CommentListHeaders { x_total_count })
    }

    /// The total number of items, from `x-total-count`.
    pub fn count(&self) -> (r: Option<usize>)
        ensures
            r == match self.x_total_count {
                Some(x) => Some(x as usize),
                None => None::<usize>,
            },
    {
        match self.x_total_count {
            Some(x) => Some(x as usize),
            None => None,
        }
    }
}

pub struct CommitListHeaders {
    pub x_has_more: Option<bool>,
    pub x_total_count: Option<i64>,
}

impl CommitListHeaders {
    /// Reads the typed headers; the first header that is present but
    /// unreadable decides the error.
    pub fn try_from(map: &HeaderMap) -> (r: Result<Self, StructureError>)
        ensures
            match r {
                Ok(h) => {
                    &&& header_bool(map.value_of("x-hasmore"@)) == Ok::<Option<bool>, StructureError>(h.x_has_more)
                    &&& header_i64(map.value_of("x-total-count"@)) == Ok::<Option<i64>, StructureError>(h.x_total_count)
                },
                Err(e) => if header_bool(map.value_of("x-hasmore"@)) is Err {
                    e == header_bool(map.value_of("x-hasmore"@))->Err_0
                } else if header_i64(map.value_of("x-total-count"@)) is Err {
                    e == header_i64(map.value_of("x-total-count"@))->Err_0
                } else {
                    false
                },
            },
    {
        let x_has_more = match read_bool(map, "x-hasmore") {
            Ok(v) => v,
            Err(e) => return Err(e),
        };
        let x_total_count = match read_i64(map, "x-total-count") {
            Ok(v) => v,
            Err(e) => return Err(e),
        };
        Ok(CommitListHeaders { x_has_more, x_total_count })
    }

    /// The total number of items, from `x-total-count`.
    pub fn count(&self) -> (r: Option<usize>)
        ensures
            r == match self.x_total_count {
                Some(x) => Some(x as usize),
                None => None::<usize>,
            },
    {
        match self.x_total_count {
            Some(x) => Some(x as usize),
            None => None,
        }
    }
}

pub struct CommitStatusListHeaders {
    pub x_total_count: Option<i64>,
}

impl CommitStatusListHeaders {
    /// Reads the typed headers; the first header that is present but
    /// unreadable decides the error.
    pub fn try_from(map: &HeaderMap) -> (r: Result<Self, StructureError>)
        ensures
            match r {
                Ok(h) => {
                    &&& header_i64(map.value_of("x-total-count"@)) == Ok::<Option<i64>, StructureError>(h.x_total_count)
                },
                Err(e) => if header_i64(map.value_of("x-total-count"@)) is Err {
                    e == header_i64(map.value_of("x-total-count"@))->Err_0
                } else {
                    false
                },
            },
    {
        let x_total_count = match read_i64(map, "x-total-count") {
            Ok(v) => v,
            Err(e) => return Err(e),
        };
        Ok(CommitStatusListHeaders { x_total_count })
    }

    /// The total number of items, from `x-total-count`.
    pub fn count(&self) -> (r: Option<usize>)
        ensures
            r == match self.x_total_count {
                Some(x) => Some(x as usize),
                None => None::<usize>,
            },
    {
        match self.x_total_count {
            Some(x) => Some(x as usize),
            None => None,
        }
    }
}

pub struct CronListHeaders {
    pub x_total_count: Option<i64>,
}

impl CronListHeaders {
    /// Reads the typed headers; the first header that is present but
    /// unreadable decides the error.
    pub fn try_from(map: &HeaderMap) -> (r: Result<Self, StructureError>)
        ensures
            match r {
                Ok(h) => {
                    &&& header_i64(map.value_of("x-total-count"@)) == Ok::<Option<i64>, StructureError>(h.x_total_count)
                },
                Err(e) => if header_i64(map.value_of("x-total-count"@)) is Err {
                    e == header_i64(map.value_of("x-total-count"@))->Err_0
                } else {
                    false
                },
            },
    {
        let x_total_count = match read_i64(map, "x-total-count") {
            Ok(v) => v,
            Err(e) => return Err(e),
        };
        Ok(CronListHeaders { x_total_count })
    }

    /// The total number of items, from `x-total-count`.
    pub fn count(&self) -> (r: Option<usize>)
        ensures
            r == match self.x_total_count {
                Some(x) => Some(x as usize),
                None => None::<usize>,
            },
    {
        match self.x_total_count {
            Some(x) => Some(x as usize),
            None => None,
        }
    }
}

pub struct DeployKeyListHeaders {
    pub x_total_count: Option<i64>,
}

impl DeployKeyListHeaders {
    /// Reads the typed headers; the first header that is present but
    /// unreadable decides the error.
    pub fn try_from(map: &HeaderMap) -> (r: Result<Self, StructureError>)
        ensures
            match r {
                Ok(h) => {
                    &&& header_i64(map.value_of("x-total-count"@)) == Ok::<Option<i64>, StructureError>(h.x_total_count)
                },
                Err(e) => if header_i64(map.value_of("x-total-count"@)) is Err {
                    e == header_i64(map.value_of("x-total-count"@))->Err_0
                } else {
                    false
                },
            },
    {
        let x_total_count = match read_i64(map, "x-total-count") {
            Ok(v) => v,
            Err(e) => return Err(e),
        };
        Ok(DeployKeyListHeaders { x_total_count })
    }

    /// The total number of items, from `x-total-count`.
    pub fn count(&self) -> (r: Option<usize>)
        ensures
            r == match self.x_total_count {
                Some(x) => Some(x as usize),
                None => None::<usize>,
            },
    {
        match self.x_total_count {
            Some(x) => Some(x as usize),
            None => None,
        }
    }
}

pub struct GpgKeyListHeaders {
    pub x_total_count: Option<i64>,
}

impl GpgKeyListHeaders {
    /// Reads the typed headers; the first header that is present but
    /// unreadable decides the error.
    pub fn try_from(map: &HeaderMap) -> (r: Result<Self, StructureError>)
        ensures
            match r {
                Ok(h) => {
                    &&& header_i64(map.value_of("x-total-count"@)) == Ok::<Option<i64>, StructureError>(h.x_total_count)
                },
                Err(e) => if header_i64(map.value_of("x-total-count"@)) is Err {
                    e == header_i64(map.value_of("x-total-count"@))->Err_0
                } else {
                    false
                },
            },
    {
        let x_total_count = match read_i64(map, "x-total-count") {
            Ok(v) => v,
            Err(e) => return Err(e),
        };
        Ok(GpgKeyListHeaders { x_total_count })
    }

    /// The total number of items, from `x-total-count`.
    pub fn count(&self) -> (r: Option<usize>)
        ensures
            r == match self.x_total_count {
                Some(x) => Some(x as usize),
                None => None::<usize>,
            },
    {
        match self.x_total_count {
            Some(x) => Some(x as usize),
            None => None,
        }
    }
}

pub struct HookListHeaders {
    pub x_total_count: Option<i64>,
}

impl HookListHeaders {
    /// Reads the typed headers; the first header that is present but
    /// unreadable decides the error.
    pub fn try_from(map: &HeaderMap) -> (r: Result<Self, StructureError>)
        ensures
            match r {
                Ok(h) => {
                    &&& header_i64(map.value_of("x-total-count"@)) == Ok::<Option<i64>, StructureError>(h.x_total_count)
                },
                Err(e) => if header_i64(map.value_of("x-total-count"@)) is Err {
                    e == header_i64(map.value_of("x-total-count"@))->Err_0
                } else {
                    false
                },
            },
    {
        let x_total_count = match read_i64(map, "x-total-count") {
            Ok(v) => v,
            Err(e) => return Err(e),
        };
        Ok(HookListHeaders { x_total_count })
    }

    /// The total number of items, from `x-total-count`.
    pub fn count(&self) -> (r: Option<usize>)
        ensures
            r == match self.x_total_count {
                Some(x) => Some(x as usize),
                None => None::<usize>,
            },
    {
        match self.x_total_count {
            Some(x) => Some(x as usize),
            None => None,
        }
    }
}

pub struct IssueListHeaders {
    pub x_total_count: Option<i64>,
}

impl IssueListHeaders {
    /// Reads the typed headers; the first header that is present but
    /// unreadable decides the error.
    pub fn try_from(map: &HeaderMap) -> (r: Result<Self, StructureError>)
        ensures
            match r {
                Ok(h) => {
                    &&& header_i64(map.value_of("x-total-count"@)) == Ok::<Option<i64>, StructureError>(h.x_total_count)
                },
                Err(e) => if header_i64(map.value_of("x-total-count"@)) is Err {
                    e == header_i64(map.value_of("x-total-count"@))->Err_0
                } else {
                    false
                },
            },
    {
        let x_total_count = match read_i64(map, "x-total-count") {
            Ok(v) => v,
            Err(e) => return Err(e),
        };
        Ok(IssueListHeaders { x_total_count })
    }

    /// The total number of items, from `x-total-count`.
    pub fn count(&self) -> (r: Option<usize>)
        ensures
            r == match self.x_total_count {
                Some(x) => Some(x as usize),
                None => None::<usize>,
            },
    {
        match self.x_total_count {
            Some(x) => Some(x as usize),
            None => None,
        }
    }
}

pub struct LabelListHeaders {
    pub x_total_count: Option<i64>,
}

impl LabelListHeaders {
    /// Reads the typed headers; the first header that is present but
    /// unreadable decides the error.
    pub fn try_from(map: &HeaderMap) -> (r: Result<Self, StructureError>)
        ensures
            match r {
                Ok(h) => {
                    &&& header_i64(map.value_of("x-total-count"@)) == Ok::<Option<i64>, StructureError>(h.x_total_count)
                },
                Err(e) => if header_i64(map.value_of("x-total-count"@)) is Err {
                    e == header_i64(map.value_of("x-total-count"@))->Err_0
                } else {
                    false
                },
            },
    {
        let x_total_count = match read_i64(map, "x-total-count") {
            Ok(v) => v,
            Err(e) => return Err(e),
        };
        Ok(LabelListHeaders { x_total_count })
    }

    /// The total number of items, from `x-total-count`.
    pub fn count(&self) -> (r: Option<usize>)
        ensures
            r == match self.x_total_count {
                Some(x) => Some(x as usize),
                None => None::<usize>,
            },
    {
        match self.x_total_count {
            Some(x) => Some(x as usize),
            None => None,
        }
    }
}

pub struct MilestoneListHeaders {
    pub x_total_count: Option<i64>,
}

impl MilestoneListHeaders {
    /// Reads the typed headers; the first header that is present but
    /// unreadable decides the error.
    pub fn try_from(map: &HeaderMap) -> (r: Result<Self, StructureError>)
        ensures
            match r {
                Ok(h) => {
                    &&& header_i64(map.value_of("x-total-count"@)) == Ok::<Option<i64>, StructureError>(h.x_total_count)
                },
                Err(e) => if header_i64(map.value_of("x-total-count"@)) is Err {
                    e == header_i64(map.value_of("x-total-count"@))->Err_0
                } else {
                    false
                },
            },
    {
        let x_total_count = match read_i64(map, "x-total-count") {
            Ok(v) => v,
            Err(e) => return Err(e),
        };
        Ok(MilestoneListHeaders { x_total_count })
    }

    /// The total number of items, from `x-total-count`.
    pub fn count(&self) -> (r: Option<usize>)
        ensures
            r == match self.x_total_count {
                Some(x) => Some(x as usize),
                None => None::<usize>,
            },
    {
        match self.x_total_count {
            Some(x) => Some(x as usize),
            None => None,
        }
    }
}

pub struct NotificationThreadListHeaders {
    pub x_total_count: Option<i64>,
}

impl NotificationThreadListHeaders {
    /// Reads the typed headers; the first header that is present but
    /// unreadable decides the error.
    pub fn try_from(map: &HeaderMap) -> (r: Result<Self, StructureError>)
        ensures
            match r {
                Ok(h) => {
                    &&& header_i64(map.value_of("x-total-count"@)) == Ok::<Option<i64>, StructureError>(h.x_total_count)
                },
                Err(e) => if header_i64(map.value_of("x-total-count"@)) is Err {
                    e == header_i64(map.value_of("x-total-count"@))->Err_0
                } else {
                    false
                },
            },
    {
        let x_total_count = match read_i64(map, "x-total-count") {
            Ok(v) => v,
            Err(e) => return Err(e),
        };
        Ok(NotificationThreadListHeaders { x_total_count })
    }

    /// The total number of items, from `x-total-count`.
    pub fn count(&self) -> (r: Option<usize>)
        ensures
            r == match self.x_total_count {
                Some(x) => Some(x as usize),
                None => None::<usize>,
            },
    {
        match self.x_total_count {
            Some(x) => Some(x as usize),
            None => None,
        }
    }
}

pub struct OAuth2ApplicationListHeaders {
    pub x_total_count: Option<i64>,
}

impl OAuth2ApplicationListHeaders {
    /// Reads the typed headers; the first header that is present but
    /// unreadable decides the error.
    pub fn try_from(map: &HeaderMap) -> (r: Result<Self, StructureError>)
        ensures
            match r {
                Ok(h) => {
                    &&& header_i64(map.value_of("x-total-count"@)) == Ok::<Option<i64>, StructureError>(h.x_total_count)
                },
                Err(e) => if header_i64(map.value_of("x-total-count"@)) is Err {
                    e == header_i64(map.value_of("x-total-count"@))->Err_0
                } else {
                    false
                },
            },
    {
        let x_total_count = match read_i64(map, "x-total-count") {
            Ok(v) => v,
            Err(e) => return Err(e),
        };
        Ok(OAuth2ApplicationListHeaders { x_total_count })
    }

    /// The total number of items, from `x-total-count`.
    pub fn count(&self) -> (r: Option<usize>)
        ensures
            r == match self.x_total_count {
                Some(x) => Some(x as usize),
                None => None::<usize>,
            },
    {
        match self.x_total_count {
            Some(x) => Some(x as usize),
            None => None,
        }
    }
}

pub struct OrganizationListHeaders {
    pub x_total_count: Option<i64>,
}

impl OrganizationListHeaders {
    /// Reads the typed headers; the first header that is present but
    /// unreadable decides the error.
    pub fn try_from(map: &HeaderMap) -> (r: Result<Self, StructureError>)
        ensures
            match r {
                Ok(h) => {
                    &&& header_i64(map.value_of("x-total-count"@)) == Ok::<Option<i64>, StructureError>(h.x_total_count)
                },
                Err(e) => if header_i64(map.value_of("x-total-count"@)) is Err {
                    e == header_i64(map.value_of("x-total-count"@))->Err_0
                } else {
                    false
                },
            },
    {
        let x_total_count = match read_i64(map, "x-total-count") {
            Ok(v) => v,
            Err(e) => return Err(e),
        };
        Ok(OrganizationListHeaders { x_total_count })
    }

    /// The total number of items, from `x-total-count`.
    pub fn count(&self) -> (r: Option<usize>)
        ensures
            r == match self.x_total_count {
                Some(x) => Some(x as usize),
                None => None::<usize>,
            },
    {
        match self.x_total_count {
            Some(x) => Some(x as usize),
            None => None,
        }
    }
}

pub struct PackageListHeaders {
    pub x_total_count: Option<i64>,
}

impl PackageListHeaders {
    /// Reads the typed headers; the first header that is present but
    /// unreadable decides the error.
    pub fn try_from(map: &HeaderMap) -> (r: Result<Self, StructureError>)
        ensures
            match r {
                Ok(h) => {
                    &&& header_i64(map.value_of("x-total-count"@)) == Ok::<Option<i64>, StructureError>(h.x_total_count)
                },
                Err(e) => if header_i64(map.value_of("x-total-count"@)) is Err {
                    e == header_i64(map.value_of("x-total-count"@))->Err_0
                } else {
                    false
                },
            },
    {
        let x_total_count = match read_i64(map, "x-total-count") {
            Ok(v) => v,
            Err(e) => return Err(e),
        };
        Ok(PackageListHeaders { x_total_count })
    }

    /// The total number of items, from `x-total-count`.
    pub fn count(&self) -> (r: Option<usize>)
        ensures
            r == match self.x_total_count {
                Some(x) => Some(x as usize),
                None => None::<usize>,
            },
    {
        match self.x_total_count {
            Some(x) => Some(x as usize),
            None => None,
        }
    }
}

pub struct PublicKeyListHeaders {
    pub x_total_count: Option<i64>,
}

impl PublicKeyListHeaders {
    /// Reads the typed headers; the first header that is present but
    /// unreadable decides the error.
    pub fn try_from(map: &HeaderMap) -> (r: Result<Self, StructureError>)
        ensures
            match r {
                Ok(h) => {
                    &&& header_i64(map.value_of("x-total-count"@)) == Ok::<Option<i64>, StructureError>(h.x_total_count)
                },
                Err(e) => if header_i64(map.value_of("x-total-count"@)) is Err {
                    e == header_i64(map.value_of("x-total-count"@))->Err_0
                } else {
                    false
                },
            },
    {
        let x_total_count = match read_i64(map, "x-total-count") {
            Ok(v) => v,
            Err(e) => return Err(e),
        };
        Ok(PublicKeyListHeaders { x_total_count })
    }

    /// The total number of items, from `x-total-count`.
    pub fn count(&self) -> (r: Option<usize>)
        ensures
            r == match self.x_total_count {
                Some(x) => Some(x as usize),
                None => None::<usize>,
            },
    {
        match self.x_total_count {
            Some(x) => Some(x as usize),
            None => None,
        }
    }
}

pub struct PullRequestListHeaders {
    pub x_total_count: Option<i64>,
}

impl PullRequestListHeaders {
    /// Reads the typed headers; the first header that is present but
    /// unreadable decides the error.
    pub fn try_from(map: &HeaderMap) -> (r: Result<Self, StructureError>)
        ensures
            match r {
                Ok(h) => {
                    &&& header_i64(map.value_of("x-total-count"@)) == Ok::<Option<i64>, StructureError>(h.x_total_count)
                },
                Err(e) => if header_i64(map.value_of("x-total-count"@)) is Err {
                    e == header_i64(map.value_of("x-total-count"@))->Err_0
                } else {
                    false
                },
            },
    {
        let x_total_count = match read_i64(map, "x-total-count") {
            Ok(v) => v,
            Err(e) => return Err(e),
        };
        Ok(PullRequestListHeaders { x_total_count })
    }

    /// The total number of items, from `x-total-count`.
    pub fn count(&self) -> (r: Option<usize>)
        ensures
            r == match self.x_total_count {
                Some(x) => Some(x as usize),
                None => None::<usize>,
            },
    {
        match self.x_total_count {
            Some(x) => Some(x as usize),
            None => None,
        }
    }
}

pub struct PullReviewListHeaders {
    pub x_total_count: Option<i64>,
}

impl PullReviewListHeaders {
    /// Reads the typed headers; the first header that is present but
    /// unreadable decides the error.
    pub fn try_from(map: &HeaderMap) -> (r: Result<Self, StructureError>)
        ensures
            match r {
                Ok(h) => {
                    &&& header_i64(map.value_of("x-total-count"@)) == Ok::<Option<i64>, StructureError>(h.x_total_count)
                },
                Err(e) => if header_i64(map.value_of("x-total-count"@)) is Err {
                    e == header_i64(map.value_of("x-total-count"@))->Err_0
                } else {
                    false
                },
            },
    {
        let x_total_count = match read_i64(map, "x-total-count") {
            Ok(v) => v,
            Err(e) => return Err(e),
        };
        Ok(PullReviewListHeaders { x_total_count })
    }

    /// The total number of items, from `x-total-count`.
    pub fn count(&self) -> (r: Option<usize>)
        ensures
            r == match self.x_total_count {
                Some(x) => Some(x as usize),
                None => None::<usize>,
            },
    {
        match self.x_total_count {
            Some(x) => Some(x as usize),
            None => None,
        }
    }
}

pub struct PushMirrorListHeaders {
    pub x_total_count: Option<i64>,
}

impl PushMirrorListHeaders {
    /// Reads the typed headers; the first header that is present but
    /// unreadable decides the error.
    pub fn try_from(map: &HeaderMap) -> (r: Result<Self, StructureError>)
        ensures
            match r {
                Ok(h) => {
                    &&& header_i64(map.value_of("x-total-count"@)) == Ok::<Option<i64>, StructureError>(h.x_total_count)
                },
                Err(e) => if header_i64(map.value_of("x-total-count"@)) is Err {
                    e == header_i64(map.value_of("x-total-count"@))->Err_0
                } else {
                    false
                },
            },
    {
        let x_total_count = match read_i64(map, "x-total-count") {
            Ok(v) => v,
            Err(e) => return Err(e),
        };
        Ok(PushMirrorListHeaders { x_total_count })
    }

    /// The total number of items, from `x-total-count`.
    pub fn count(&self) -> (r: Option<usize>)
        ensures
            r == match self.x_total_count {
                Some(x) => Some(x as usize),
                None => None::<usize>,
            },
    {
        match self.x_total_count {
            Some(x) => Some(x as usize),
            None => None,
        }
    }
}

pub struct QuotaUsedArtifactListHeaders {
    pub x_total_count: Option<i64>,
}

impl QuotaUsedArtifactListHeaders {
    /// Reads the typed headers; the first header that is present but
    /// unreadable decides the error.
    pub fn try_from(map: &HeaderMap) -> (r: Result<Self, StructureError>)
        ensures
            match r {
                Ok(h) => {
                    &&& header_i64(map.value_of("x-total-count"@)) == Ok::<Option<i64>, StructureError>(h.x_total_count)
                },
                Err(e) => if header_i64(map.value_of("x-total-count"@)) is Err {
                    e == header_i64(map.value_of("x-total-count"@))->Err_0
                } else {
                    false
                },
            },
    {
        let x_total_count = match read_i64(map, "x-total-count") {
            Ok(v) => v,
            Err(e) => return Err(e),
        };
        Ok(QuotaUsedArtifactListHeaders { x_total_count })
    }

    /// The total number of items, from `x-total-count`.
    pub fn count(&self) -> (r: Option<usize>)
        ensures
            r == match self.x_total_count {
                Some(x) => Some(x as usize),
                None => None::<usize>,
            },
    {
        match self.x_total_count {
            Some(x) => Some(x as usize),
            None => None,
        }
    }
}

pub struct QuotaUsedAttachmentListHeaders {
    pub x_total_count: Option<i64>,
}

impl QuotaUsedAttachmentListHeaders {
    /// Reads the typed headers; the first header that is present but
    /// unreadable decides the error.
    pub fn try_from(map: &HeaderMap) -> (r: Result<Self, StructureError>)
        ensures
            match r {
                Ok(h) => {
                    &&& header_i64(map.value_of("x-total-count"@)) == Ok::<Option<i64>, StructureError>(h.x_total_count)
                },
                Err(e) => if header_i64(map.value_of("x-total-count"@)) is Err {
                    e == header_i64(map.value_of("x-total-count"@))->Err_0
                } else {
                    false
                },
            },
    {
        let x_total_count = match read_i64(map, "x-total-count") {
            Ok(v) => v,
            Err(e) => return Err(e),
        };
        Ok(QuotaUsedAttachmentListHeaders { x_total_count })
    }

    /// The total number of items, from `x-total-count`.
    pub fn count(&self) -> (r: Option<usize>)
        ensures
            r == match self.x_total_count {
                Some(x) => Some(x as usize),
                None => None::<usize>,
            },
    {
        match self.x_total_count {
            Some(x) => Some(x as usize),
            None => None,
        }
    }
}

pub struct QuotaUsedPackageListHeaders {
    pub x_total_count: Option<i64>,
}

impl QuotaUsedPackageListHeaders {
    /// Reads the typed headers; the first header that is present but
    /// unreadable decides the error.
    pub fn try_from(map: &HeaderMap) -> (r: Result<Self, StructureError>)
        ensures
            match r {
                Ok(h) => {
                    &&& header_i64(map.value_of("x-total-count"@)) == Ok::<Option<i64>, StructureError>(h.x_total_count)
                },
                Err(e) => if header_i64(map.value_of("x-total-count"@)) is Err {
                    e == header_i64(map.value_of("x-total-count"@))->Err_0
                } else {
                    false
                },
            },
    {
        let x_total_count = match read_i64(map, "x-total-count") {
            Ok(v) => v,
            Err(e) => return Err(e),
        };
        Ok(QuotaUsedPackageListHeaders { x_total_count })
    }

    /// The total number of items, from `x-total-count`.
    pub fn count(&self) -> (r: Option<usize>)
        ensures
            r == match self.x_total_count {
                Some(x) => Some(x as usize),
                None => None::<usize>,
            },
    {
        match self.x_total_count {
            Some(x) => Some(x as usize),
            None => None,
        }
    }
}

pub struct ReactionListHeaders {
    pub x_total_count: Option<i64>,
}

impl ReactionListHeaders {
    /// Reads the typed headers; the first header that is present but
    /// unreadable decides the error.
    pub fn try_from(map: &HeaderMap) -> (r: Result<Self, StructureError>)
        ensures
            match r {
                Ok(h) => {
                    &&& header_i64(map.value_of("x-total-count"@)) == Ok::<Option<i64>, StructureError>(h.x_total_count)
                },
                Err(e) => if header_i64(map.value_of("x-total-count"@)) is Err {
                    e == header_i64(map.value_of("x-total-count"@))->Err_0
                } else {
                    false
                },
            },
    {
        let x_total_count = match read_i64(map, "x-total-count") {
            Ok(v) => v,
            Err(e) => return Err(e),
        };
        Ok(ReactionListHeaders { x_total_count })
    }

    /// The total number of items, from `x-total-count`.
    pub fn count(&self) -> (r: Option<usize>)
        ensures
            r == match self.x_total_count {
                Some(x) => Some(x as usize),
                None => None::<usize>,
            },
    {
        match self.x_total_count {
            Some(x) => Some(x as usize),
            None => None,
        }
    }
}

pub struct ReleaseListHeaders {
    pub x_total_count: Option<i64>,
}

impl ReleaseListHeaders {
    /// Reads the typed headers; the first header that is present but
    /// unreadable decides the error.
    pub fn try_from(map: &HeaderMap) -> (r: Result<Self, StructureError>)
        ensures
            match r {
                Ok(h) => {
                    &&& header_i64(map.value_of("x-total-count"@)) == Ok::<Option<i64>, StructureError>(h.x_total_count)
                },
                Err(e) => if header_i64(map.value_of("x-total-count"@)) is Err {
                    e == header_i64(map.value_of("x-total-count"@))->Err_0
                } else {
                    false
                },
            },
    {
        let x_total_count = match read_i64(map, "x-total-count") {
            Ok(v) => v,
            Err(e) => return Err(e),
        };
        Ok(ReleaseListHeaders { x_total_count })
    }

    /// The total number of items, from `x-total-count`.
    pub fn count(&self) -> (r: Option<usize>)
        ensures
            r == match self.x_total_count {
                Some(x) => Some(x as usize),
                None => None::<usize>,
            },
    {
        match self.x_total_count {
            Some(x) => Some(x as usize),
            None => None,
        }
    }
}

pub struct RepositoryListHeaders {
    pub x_total_count: Option<i64>,
}

impl RepositoryListHeaders {
    /// Reads the typed headers; the first header that is present but
    /// unreadable decides the error.
    pub fn try_from(map: &HeaderMap) -> (r: Result<Self, StructureError>)
        ensures
            match r {
                Ok(h) => {
                    &&& header_i64(map.value_of("x-total-count"@)) == Ok::<Option<i64>, StructureError>(h.x_total_count)
                },
                Err(e) => if header_i64(map.value_of("x-total-count"@)) is Err {
                    e == header_i64(map.value_of("x-total-count"@))->Err_0
                } else {
                    false
                },
            },
    {
        let x_total_count = match read_i64(map, "x-total-count") {
            Ok(v) => v,
            Err(e) => return Err(e),
        };
        Ok(RepositoryListHeaders { x_total_count })
    }

    /// The total number of items, from `x-total-count`.
    pub fn count(&self) -> (r: Option<usize>)
        ensures
            r == match self.x_total_count {
                Some(x) => Some(x as usize),
                None => None::<usize>,
            },
    {
        match self.x_total_count {
            Some(x) => Some(x as usize),
            None => None,
        }
    }
}

pub struct SecretListHeaders {
    pub x_total_count: Option<i64>,
}

impl SecretListHeaders {
    /// Reads the typed headers; the first header that is present but
    /// unreadable decides the error.
    pub fn try_from(map: &HeaderMap) -> (r: Result<Self, StructureError>)
        ensures
            match r {
                Ok(h) => {
                    &&& header_i64(map.value_of("x-total-count"@)) == Ok::<Option<i64>, StructureError>(h.x_total_count)
                },
                Err(e) => if header_i64(map.value_of("x-total-count"@)) is Err {
                    e == header_i64(map.value_of("x-total-count"@))->Err_0
                } else {
                    false
                },
            },
    {
        let x_total_count = match read_i64(map, "x-total-count") {
            Ok(v) => v,
            Err(e) => return Err(e),
        };
        Ok(SecretListHeaders { x_total_count })
    }

    /// The total number of items, from `x-total-count`.
    pub fn count(&self) -> (r: Option<usize>)
        ensures
            r == match self.x_total_count {
                Some(x) => Some(x as usize),
                None => None::<usize>,
            },
    {
        match self.x_total_count {
            Some(x) => Some(x as usize),
            None => None,
        }
    }
}

pub struct StopWatchListHeaders {
    pub x_total_count: Option<i64>,
}

impl StopWatchListHeaders {
    /// Reads the typed headers; the first header that is present but
    /// unreadable decides the error.
    pub fn try_from(map: &HeaderMap) -> (r: Result<Self, StructureError>)
        ensures
            match r {
                Ok(h) => {
                    &&& header_i64(map.value_of("x-total-count"@)) == Ok::<Option<i64>, StructureError>(h.x_total_count)
                },
                Err(e) => if header_i64(map.value_of("x-total-count"@)) is Err {
                    e == header_i64(map.value_of("x-total-count"@))->Err_0
                } else {
                    false
                },
            },
    {
        let x_total_count = match read_i64(map, "x-total-count") {
            Ok(v) => v,
            Err(e) => return Err(e),
        };
        Ok(StopWatchListHeaders { x_total_count })
    }

    /// The total number of items, from `x-total-count`.
    pub fn count(&self) -> (r: Option<usize>)
        ensures
            r == match self.x_total_count {
                Some(x) => Some(x as usize),
                None => None::<usize>,
            },
    {
        match self.x_total_count {
            Some(x) => Some(x as usize),
            None => None,
        }
    }
}

pub struct TagListHeaders {
    pub x_total_count: Option<i64>,
}

impl TagListHeaders {
    /// Reads the typed headers; the first header that is present but
    /// unreadable decides the error.
    pub fn try_from(map: &HeaderMap) -> (r: Result<Self, StructureError>)
        ensures
            match r {
                Ok(h) => {
                    &&& header_i64(map.value_of("x-total-count"@)) == Ok::<Option<i64>, StructureError>(h.x_total_count)
                },
                Err(e) => if header_i64(map.value_of("x-total-count"@)) is Err {
                    e == header_i64(map.value_of("x-total-count"@))->Err_0
                } else {
                    false
                },
            },
    {
        let x_total_count = match read_i64(map, "x-total-count") {
            Ok(v) => v,
            Err(e) => return Err(e),
        };
        Ok(TagListHeaders { x_total_count })
    }

    /// The total number of items, from `x-total-count`.
    pub fn count(&self) -> (r: Option<usize>)
        ensures
            r == match self.x_total_count {
                Some(x) => Some(x as usize),
                None => None::<usize>,
            },
    {
        match self.x_total_count {
            Some(x) => Some(x as usize),
            None => None,
        }
    }
}

pub struct TeamListHeaders {
    pub x_total_count: Option<i64>,
}

impl TeamListHeaders {
    /// Reads the typed headers; the first header that is present but
    /// unreadable decides the error.
    pub fn try_from(map: &HeaderMap) -> (r: Result<Self, StructureError>)
        ensures
            match r {
                Ok(h) => {
                    &&& header_i64(map.value_of("x-total-count"@)) == Ok::<Option<i64>, StructureError>(h.x_total_count)
                },
                Err(e) => if header_i64(map.value_of("x-total-count"@)) is Err {
                    e == header_i64(map.value_of("x-total-count"@))->Err_0
                } else {
                    false
                },
            },
    {
        let x_total_count = match read_i64(map, "x-total-count") {
            Ok(v) => v,
            Err(e) => return Err(e),
        };
        Ok(TeamListHeaders { x_total_count })
    }

    /// The total number of items, from `x-total-count`.
    pub fn count(&self) -> (r: Option<usize>)
        ensures
            r == match self.x_total_count {
                Some(x) => Some(x as usize),
                None => None::<usize>,
            },
    {
        match self.x_total_count {
            Some(x) => Some(x as usize),
            None => None,
        }
    }
}

pub struct TimelineListHeaders {
    pub x_total_count: Option<i64>,
}

impl TimelineListHeaders {
    /// Reads the typed headers; the first header that is present but
    /// unreadable decides the error.
    pub fn try_from(map: &HeaderMap) -> (r: Result<Self, StructureError>)
        ensures
            match r {
                Ok(h) => {
                    &&& header_i64(map.value_of("x-total-count"@)) == Ok::<Option<i64>, StructureError>(h.x_total_count)
                },
                Err(e) => if header_i64(map.value_of("x-total-count"@)) is Err {
                    e == header_i64(map.value_of("x-total-count"@))->Err_0
                } else {
                    false
                },
            },
    {
        let x_total_count = match read_i64(map, "x-total-count") {
            Ok(v) => v,
            Err(e) => return Err(e),
        };
        Ok(TimelineListHeaders { x_total_count })
    }

    /// The total number of items, from `x-total-count`.
    pub fn count(&self) -> (r: Option<usize>)
        ensures
            r == match self.x_total_count {
                Some(x) => Some(x as usize),
                None => None::<usize>,
            },
    {
        match self.x_total_count {
            Some(x) => Some(x as usize),
            None => None,
        }
    }
}

pub struct TrackedTimeListHeaders {
    pub x_total_count: Option<i64>,
}

impl TrackedTimeListHeaders {
    /// Reads the typed headers; the first header that is present but
    /// unreadable decides the error.
    pub fn try_from(map: &HeaderMap) -> (r: Result<Self, StructureError>)
        ensures
            match r {
                Ok(h) => {
                    &&& header_i64(map.value_of("x-total-count"@)) == Ok::<Option<i64>, StructureError>(h.x_total_count)
                },
                Err(e) => if header_i64(map.value_of("x-total-count"@)) is Err {
                    e == header_i64(map.value_of("x-total-count"@))->Err_0
                } else {
                    false
                },
            },
    {
        let x_total_count = match read_i64(map, "x-total-count") {
            Ok(v) => v,
            Err(e) => return Err(e),
        };
        Ok(TrackedTimeListHeaders { x_total_count })
    }

    /// The total number of items, from `x-total-count`.
    pub fn count(&self) -> (r: Option<usize>)
        ensures
            r == match self.x_total_count {
                Some(x) => Some(x as usize),
                None => None::<usize>,
            },
    {
        match self.x_total_count {
            Some(x) => Some(x as usize),
            None => None,
        }
    }
}

pub struct UserListHeaders {
    pub x_total_count: Option<i64>,
}

impl UserListHeaders {
    /// Reads the typed headers; the first header that is present but
    /// unreadable decides the error.
    pub fn try_from(map: &HeaderMap) -> (r: Result<Self, StructureError>)
        ensures
            match r {
                Ok(h) => {
                    &&& header_i64(map.value_of("x-total-count"@)) == Ok::<Option<i64>, StructureError>(h.x_total_count)
                },
                Err(e) => if header_i64(map.value_of("x-total-count"@)) is Err {
                    e == header_i64(map.value_of("x-total-count"@))->Err_0
                } else {
                    false
                },
            },
    {
        let x_total_count = match read_i64(map, "x-total-count") {
            Ok(v) => v,
            Err(e) => return Err(e),
        };
        Ok(UserListHeaders { x_total_count })
    }

    /// The total number of items, from `x-total-count`.
    pub fn count(&self) -> (r: Option<usize>)
        ensures
            r == match self.x_total_count {
                Some(x) => Some(x as usize),
                None => None::<usize>,
            },
    {
        match self.x_total_count {
            Some(x) => Some(x as usize),
            None => None,
        }
    }
}

pub struct VariableListHeaders {
    pub x_total_count: Option<i64>,
}

impl VariableListHeaders {
    /// Reads the typed headers; the first header that is present but
    /// unreadable decides the error.
    pub fn try_from(map: &HeaderMap) -> (r: Result<Self, StructureError>)
        ensures
            match r {
                Ok(h) => {
                    &&& header_i64(map.value_of("x-total-count"@)) == Ok::<Option<i64>, StructureError>(h.x_total_count)
                },
                Err(e) => if header_i64(map.value_of("x-total-count"@)) is Err {
                    e == header_i64(map.value_of("x-total-count"@))->Err_0
                } else {
                    false
                },
            },
    {
        let x_total_count = match read_i64(map, "x-total-count") {
            Ok(v) => v,
            Err(e) => return Err(e),
        };
        Ok(VariableListHeaders { x_total_count })
    }

    /// The total number of items, from `x-total-count`.
    pub fn count(&self) -> (r: Option<usize>)
        ensures
            r == match self.x_total_count {
                Some(x) => Some(x as usize),
                None => None::<usize>,
            },
    {
        match self.x_total_count {
            Some(x) => Some(x as usize),
            None => None,
        }
    }
}

pub struct WikiCommitListHeaders {
    pub x_total_count: Option<i64>,
}

impl WikiCommitListHeaders {
    /// Reads the typed headers; the first header that is present but
    /// unreadable decides the error.
    pub fn try_from(map: &HeaderMap) -> (r: Result<Self, StructureError>)
        ensures
            match r {
                Ok(h) => {
                    &&& header_i64(map.value_of("x-total-count"@)) == Ok::<Option<i64>, StructureError>(h.x_total_count)
                },
                Err(e) => if header_i64(map.value_of("x-total-count"@)) is Err {
                    e == header_i64(map.value_of("x-total-count"@))->Err_0
                } else {
                    false
                },
            },
    {
        let x_total_count = match read_i64(map, "x-total-count") {
            Ok(v) => v,
            Err(e) => return Err(e),
        };
        Ok(WikiCommitListHeaders { x_total_count })
    }

    /// The total number of items, from `x-total-count`.
    pub fn count(&self) -> (r: Option<usize>)
        ensures
            r == match self.x_total_count {
                Some(x) => Some(x as usize),
                None => None::<usize>,
            },
    {
        match self.x_total_count {
            Some(x) => Some(x as usize),
            None => None,
        }
    }
}

pub struct WikiPageListHeaders {
    pub x_total_count: Option<i64>,
}

impl WikiPageListHeaders {
    /// Reads the typed headers; the first header that is present but
    /// unreadable decides the error.
    pub fn try_from(map: &HeaderMap) -> (r: Result<Self, StructureError>)
        ensures
            match r {
                Ok(h) => {
                    &&& header_i64(map.value_of("x-total-count"@)) == Ok::<Option<i64>, StructureError>(h.x_total_count)
                },
                Err(e) => if header_i64(map.value_of("x-total-count"@)) is Err {
                    e == header_i64(map.value_of("x-total-count"@))->Err_0
                } else {
                    false
                },
            },
    {
        let x_total_count = match read_i64(map, "x-total-count") {
            Ok(v) => v,
            Err(e) => return Err(e),
        };
        Ok(WikiPageListHeaders { x_total_count })
    }

    /// The total number of items, from `x-total-count`.
    pub fn count(&self) -> (r: Option<usize>)
        ensures
            r == match self.x_total_count {
                Some(x) => Some(x as usize),
                None => None::<usize>,
            },
    {
        match self.x_total_count {
            Some(x) => Some(x as usize),
            None => None,
        }
    }
}

pub struct QuotaExceededHeaders {
    pub message: Option<String>,
    pub user_id: Option<i64>,
    pub username: Option<String>,
}

impl QuotaExceededHeaders {
    /// Reads the typed headers; the first header that is present but
    /// unreadable decides the error.
    pub fn try_from(map: &HeaderMap) -> (r: Result<Self, StructureError>)
        ensures
            match r {
                Ok(h) => {
                    &&& header_text(map.value_of("message"@)) == Ok::<Option<Seq<char>>, StructureError>(opt_string_view(h.message))
                    &&& header_i64(map.value_of("user_id"@)) == Ok::<Option<i64>, StructureError>(h.user_id)
                    &&& header_text(map.value_of("username"@)) == Ok::<Option<Seq<char>>, StructureError>(opt_string_view(h.username))
                },
                Err(e) => if header_text(map.value_of("message"@)) is Err {
                    e == header_text(map.value_of("message"@))->Err_0
                } else if header_i64(map.value_of("user_id"@)) is Err {
                    e == header_i64(map.value_of("user_id"@))->Err_0
                } else if header_text(map.value_of("username"@)) is Err {
                    e == header_text(map.value_of("username"@))->Err_0
                } else {
                    false
                },
            },
    {
        let message = match read_text(map, "message") {
            Ok(v) => v,
            Err(e) => return Err(e),
        };
        let user_id = match read_i64(map, "user_id") {
            Ok(v) => v,
            Err(e) => return Err(e),
        };
        let username = match read_text(map, "username") {
            Ok(v) => v,
            Err(e) => return Err(e),
        };
        Ok(QuotaExceededHeaders { message, user_id, username })
    }
}

#[derive(Debug, Clone, PartialEq, Default)]
pub struct AdminSearchEmailsQuery {
    /// keyword
    pub q: Option<String>,
}

impl AdminSearchEmailsQuery {
    /// The query parameters, in order.
    pub open spec fn query_pairs(&self) -> Seq<(Seq<char>, Seq<char>)> {
        seq![]
            + opt_entry("q"@, opt_text(self.q))
    }

    /// The query parameters, in order.
    pub fn into_list(self) -> (list: QueryList)
        ensures
            pairs_view(list@) == self.query_pairs(),
    {
        let mut list: QueryList = Vec::new();
        assert(pairs_view(list@) =~= Seq::<(Seq<char>, Seq<char>)>::empty());
        push_opt_str(&mut list, "q", self.q);
        list
    }
}

#[derive(Debug, Clone, PartialEq, Default)]
pub struct AdminSearchRunJobsQuery {
    /// a comma separated list of run job labels to search for
    pub labels: Option<String>,
}

impl AdminSearchRunJobsQuery {
    /// The query parameters, in order.
    pub open spec fn query_pairs(&self) -> Seq<(Seq<char>, Seq<char>)> {
        seq![]
            + opt_entry("labels"@, opt_text(self.labels))
    }

    /// The query parameters, in order.
    pub fn into_list(self) -> (list: QueryList)
        ensures
            pairs_view(list@) == self.query_pairs(),
    {
        let mut list: QueryList = Vec::new();
        assert(pairs_view(list@) =~= Seq::<(Seq<char>, Seq<char>)>::empty());
        push_opt_str(&mut list, "labels", self.labels);
        list
    }
}

#[derive(Debug, Clone, PartialEq, Default)]
pub struct AdminUnadoptedListQuery {
    /// pattern of repositories to search for
    pub pattern: Option<String>,
}

impl AdminUnadoptedListQuery {
    /// The query parameters, in order.
    pub open spec fn query_pairs(&self) -> Seq<(Seq<char>, Seq<char>)> {
        seq![]
            + opt_entry("pattern"@, opt_text(self.pattern))
    }

    /// The query parameters, in order.
    pub fn into_list(self) -> (list: QueryList)
        ensures
            pairs_view(list@) == self.query_pairs(),
    {
        let mut list: QueryList = Vec::new();
        assert(pairs_view(list@) =~= Seq::<(Seq<char>, Seq<char>)>::empty());
        push_opt_str(&mut list, "pattern", self.pattern);
        list
    }
}

#[derive(Debug, Clone, PartialEq, Default)]
pub struct AdminSearchUsersQuery {
    /// ID of the user's login source to search for
    pub source_id: Option<i64>,
    /// user's login name to search for
    pub login_name: Option<String>,
    /// sort order of results
    pub sort: Option<AdminSearchUsersQuerySort>,
}

impl AdminSearchUsersQuery {
    /// The query parameters, in order.
    pub open spec fn query_pairs(&self) -> Seq<(Seq<char>, Seq<char>)> {
        seq![]
            + opt_entry("source_id"@, opt_int_text(self.source_id))
            + opt_entry("login_name"@, opt_text(self.login_name))
            + opt_entry("sort"@, opt_wire_text(self.sort))
    }

    /// The query parameters, in order.
    pub fn into_list(self) -> (list: QueryList)
        ensures
            pairs_view(list@) == self.query_pairs(),
    {
        let mut list: QueryList = Vec::new();
        assert(pairs_view(list@) =~= Seq::<(Seq<char>, Seq<char>)>::empty());
        push_opt_i64(&mut list, "source_id", self.source_id);
        push_opt_str(&mut list, "login_name", self.login_name);
        push_opt_wire(&mut list, "sort", self.sort);
        list
    }
}

#[derive(Debug, Clone, Copy, PartialEq, Eq, Structural)]
pub enum AdminSearchUsersQuerySort {
    Oldest,
    Newest,
    Alphabetically,
    Reversealphabetically,
    Recentupdate,
    Leastupdate,
}

impl WireName for AdminSearchUsersQuerySort {
    open spec fn wire_name(&self) -> Seq<char> {
        match self {
            AdminSearchUsersQuerySort::Oldest => "oldest"@,
            AdminSearchUsersQuerySort::Newest => "newest"@,
            AdminSearchUsersQuerySort::Alphabetically => "alphabetically"@,
            AdminSearchUsersQuerySort::Reversealphabetically => "reversealphabetically"@,
            AdminSearchUsersQuerySort::Recentupdate => "recentupdate"@,
            AdminSearchUsersQuerySort::Leastupdate => "leastupdate"@,
        }
    }

    fn as_str(&self) -> (s: &'static str) {
        match self {
            AdminSearchUsersQuerySort::Oldest => "oldest",
            AdminSearchUsersQuerySort::Newest => "newest",
            AdminSearchUsersQuerySort::Alphabetically => "alphabetically",
            AdminSearchUsersQuerySort::Reversealphabetically => "reversealphabetically",
            AdminSearchUsersQuerySort::Recentupdate => "recentupdate",
            AdminSearchUsersQuerySort::Leastupdate => "leastupdate",
        }
    }
}

#[derive(Debug, Clone, PartialEq, Default)]
pub struct AdminDeleteUserQuery {
    /// purge the user from the system completely
    pub purge: Option<bool>,
}

impl AdminDeleteUserQuery {
    /// The query parameters, in order.
    pub open spec fn query_pairs(&self) -> Seq<(Seq<char>, Seq<char>)> {
        seq![]
            + opt_entry("purge"@, opt_bool_text(self.purge))
    }

    /// The query parameters, in order.
    pub fn into_list(self) -> (list: QueryList)
        ensures
            pairs_view(list@) == self.query_pairs(),
    {
        let mut list: QueryList = Vec::new();
        assert(pairs_view(list@) =~= Seq::<(Seq<char>, Seq<char>)>::empty());
        push_opt_bool(&mut list, "purge", self.purge);
        list
    }
}

#[derive(Debug, Clone, PartialEq, Default)]
pub struct NotifyGetListQuery {
    /// If true, show notifications marked as read. Default value is false
    pub all: Option<bool>,
    /// Show notifications with the provided status types. Options are: unread, read and/or pinned. Defaults to unread & pinned.
    pub status_types: Option<Vec<String>>,
    /// filter notifications by subject type
    pub subject_type: Option<Vec<NotifyGetListQuerySubjectType>>,
    /// Only show notifications updated after the given time. This is a timestamp in RFC 3339 format
    pub since: Option<time::OffsetDateTime>,
    /// Only show notifications updated before the given time. This is a timestamp in RFC 3339 format
    pub before: Option<time::OffsetDateTime>,
}

impl NotifyGetListQuery {
    /// The query parameters, in order.
    pub open spec fn query_pairs(&self) -> Seq<(Seq<char>, Seq<char>)> {
        seq![]
            + opt_entry("all"@, opt_bool_text(self.all))
            + each_text("status-types"@, self.status_types)
            + each_wire("subject-type"@, self.subject_type)
            + opt_entry("since"@, opt_time_text(self.since))
            + opt_entry("before"@, opt_time_text(self.before))
    }

    /// Every timestamp present can be written in RFC 3339.
    pub open spec fn timestamps_writable(&self) -> bool {
        writable(self.since) && writable(self.before)
    }

    /// The query parameters, in order.
    pub fn into_list(self) -> (list: QueryList)
        requires
            self.timestamps_writable(),
        ensures
            pairs_view(list@) == self.query_pairs(),
    {
        let mut list: QueryList = Vec::new();
        assert(pairs_view(list@) =~= Seq::<(Seq<char>, Seq<char>)>::empty());
        push_opt_bool(&mut list, "all", self.all);
        push_each_str(&mut list, "status-types", self.status_types);
        push_each_wire(&mut list, "subject-type", self.subject_type);
        push_opt_time(&mut list, "since", self.since);
        push_opt_time(&mut list, "before", self.before);
        list
    }

    /// The query parameters, in order, or `None` when a timestamp cannot be
    /// written in RFC 3339.
    pub fn try_into_list(self) -> (list: Option<QueryList>)
        ensures
            list is Some <==> self.timestamps_writable(),
            list matches Some(l) ==> pairs_view(l@) == self.query_pairs(),
    {
        if let Some(t) = &self.since {
            if format_rfc3339(t).is_none() {
                return None;
            }
        }
        if let Some(t) = &self.before {
            if format_rfc3339(t).is_none() {
                return None;
            }
        }
        Some(self.into_list())
    }
}

#[derive(Debug, Clone, Copy, PartialEq, Eq, Structural)]
pub enum NotifyGetListQuerySubjectType {
    Issue,
    Pull,
    Repository,
}

impl WireName for NotifyGetListQuerySubjectType {
    open spec fn wire_name(&self) -> Seq<char> {
        match self {
            NotifyGetListQuerySubjectType::Issue => "issue"@,
            NotifyGetListQuerySubjectType::Pull => "pull"@,
            NotifyGetListQuerySubjectType::Repository => "repository"@,
        }
    }

    fn as_str(&self) -> (s: &'static str) {
        match self {
            NotifyGetListQuerySubjectType::Issue => "issue",
            NotifyGetListQuerySubjectType::Pull => "pull",
            NotifyGetListQuerySubjectType::Repository => "repository",
        }
    }
}

#[derive(Debug, Clone, PartialEq, Default)]
pub struct NotifyReadListQuery {
    /// Describes the last point that notifications were checked. Anything updated since this time will not be updated.
    pub last_read_at: Option<time::OffsetDateTime>,
    /// If true, mark all notifications on this repo. Default value is false
    pub all: Option<bool>,
    /// Mark notifications with the provided status types. Options are: unread, read and/or pinned. Defaults to unread.
    pub status_types: Option<Vec<String>>,
    /// Status to mark notifications as, Defaults to read.
    pub to_status: Option<String>,
}

impl NotifyReadListQuery {
    /// The query parameters, in order.
    pub open spec fn query_pairs(&self) -> Seq<(Seq<char>, Seq<char>)> {
        seq![]
            + opt_entry("last_read_at"@, opt_time_text(self.last_read_at))
            + opt_entry("all"@, opt_bool_text(self.all))
            + each_text("status-types"@, self.status_types)
            + opt_entry("to-status"@, opt_text(self.to_status))
    }

    /// Every timestamp present can be written in RFC 3339.
    pub open spec fn timestamps_writable(&self) -> bool {
        writable(self.last_read_at)
    }

    /// The query parameters, in order.
    pub fn into_list(self) -> (list: QueryList)
        requires
            self.timestamps_writable(),
        ensures
            pairs_view(list@) == self.query_pairs(),
    {
        let mut list: QueryList = Vec::new();
        assert(pairs_view(list@) =~= Seq::<(Seq<char>, Seq<char>)>::empty());
        push_opt_time(&mut list, "last_read_at", self.last_read_at);
        push_opt_bool(&mut list, "all", self.all);
        push_each_str(&mut list, "status-types", self.status_types);
        push_opt_str(&mut list, "to-status", self.to_status);
        list
    }

    /// The query parameters, in order, or `None` when a timestamp cannot be
    /// written in RFC 3339.
    pub fn try_into_list(self) -> (list: Option<QueryList>)
        ensures
            list is Some <==> self.timestamps_writable(),
            list matches Some(l) ==> pairs_view(l@) == self.query_pairs(),
    {
        if let Some(t) = &self.last_read_at {
            if format_rfc3339(t).is_none() {
                return None;
            }
        }
        Some(self.into_list())
    }
}

#[derive(Debug, Clone, PartialEq, Default)]
pub struct NotifyReadThreadQuery {
    /// Status to mark notifications as
    pub to_status: Option<String>,
}

impl NotifyReadThreadQuery {
    /// The query parameters, in order.
    pub open spec fn query_pairs(&self) -> Seq<(Seq<char>, Seq<char>)> {
        seq![]
            + opt_entry("to-status"@, opt_text(self.to_status))
    }

    /// The query parameters, in order.
    pub fn into_list(self) -> (list: QueryList)
        ensures
            pairs_view(list@) == self.query_pairs(),
    {
        let mut list: QueryList = Vec::new();
        assert(pairs_view(list@) =~= Seq::<(Seq<char>, Seq<char>)>::empty());
        push_opt_str(&mut list, "to-status", self.to_status);
        list
    }
}

#[derive(Debug, Clone, PartialEq, Default)]
pub struct OrgSearchRunJobsQuery {
    /// a comma separated list of run job labels to search for
    pub labels: Option<String>,
}

impl OrgSearchRunJobsQuery {
    /// The query parameters, in order.
    pub open spec fn query_pairs(&self) -> Seq<(Seq<char>, Seq<char>)> {
        seq![]
            + opt_entry("labels"@, opt_text(self.labels))
    }

    /// The query parameters, in order.
    pub fn into_list(self) -> (list: QueryList)
        ensures
            pairs_view(list@) == self.query_pairs(),
    {
        let mut list: QueryList = Vec::new();
        assert(pairs_view(list@) =~= Seq::<(Seq<char>, Seq<char>)>::empty());
        push_opt_str(&mut list, "labels", self.labels);
        list
    }
}

#[derive(Debug, Clone, PartialEq, Default)]
pub struct OrgListActivityFeedsQuery {
    /// the date of the activities to be found
    pub date: Option<time::Date>,
}

impl OrgListActivityFeedsQuery {
    /// The query parameters, in order.
    pub open spec fn query_pairs(&self) -> Seq<(Seq<char>, Seq<char>)> {
        seq![]
            + opt_entry("date"@, opt_date_text(self.date))
    }

    /// The query parameters, in order.
    pub fn into_list(self) -> (list: QueryList)
        ensures
            pairs_view(list@) == self.query_pairs(),
    {
        let mut list: QueryList = Vec::new();
        assert(pairs_view(list@) =~= Seq::<(Seq<char>, Seq<char>)>::empty());
        push_opt_date(&mut list, "date", self.date);
        list
    }
}

#[derive(Debug, Clone, PartialEq, Default)]
pub struct OrgListLabelsQuery {
    /// Specifies the sorting method: mostissues, leastissues, or reversealphabetically.
    pub sort: Option<OrgListLabelsQuerySort>,
}

impl OrgListLabelsQuery {
    /// The query parameters, in order.
    pub open spec fn query_pairs(&self) -> Seq<(Seq<char>, Seq<char>)> {
        seq![]
            + opt_entry("sort"@, opt_wire_text(self.sort))
    }

    /// The query parameters, in order.
    pub fn into_list(self) -> (list: QueryList)
        ensures
            pairs_view(list@) == self.query_pairs(),
    {
        let mut list: QueryList = Vec::new();
        assert(pairs_view(list@) =~= Seq::<(Seq<char>, Seq<char>)>::empty());
        push_opt_wire(&mut list, "sort", self.sort);
        list
    }
}

#[derive(Debug, Clone, Copy, PartialEq, Eq, Structural)]
pub enum OrgListLabelsQuerySort {
    Mostissues,
    Leastissues,
    Reversealphabetically,
}

impl WireName for OrgListLabelsQuerySort {
    open spec fn wire_name(&self) -> Seq<char> {
        match self {
            OrgListLabelsQuerySort::Mostissues => "mostissues"@,
            OrgListLabelsQuerySort::Leastissues => "leastissues"@,
            OrgListLabelsQuerySort::Reversealphabetically => "reversealphabetically"@,
        }
    }

    fn as_str(&self) -> (s: &'static str) {
        match self {
            OrgListLabelsQuerySort::Mostissues => "mostissues",
            OrgListLabelsQuerySort::Leastissues => "leastissues",
            OrgListLabelsQuerySort::Reversealphabetically => "reversealphabetically",
        }
    }
}

#[derive(Debug, Clone, PartialEq)]
pub struct OrgCheckQuotaQuery {
    /// subject of the quota
    pub subject: String,
}

impl OrgCheckQuotaQuery {
    /// The query parameters, in order.
    pub open spec fn query_pairs(&self) -> Seq<(Seq<char>, Seq<char>)> {
        seq![]
            + seq![("subject"@, self.subject@)]
    }

    /// The query parameters, in order.
    pub fn into_list(self) -> (list: QueryList)
        ensures
            pairs_view(list@) == self.query_pairs(),
    {
        let mut list: QueryList = Vec::new();
        assert(pairs_view(list@) =~= Seq::<(Seq<char>, Seq<char>)>::empty());
        push_entry(&mut list, "subject", self.subject);
        list
    }
}

#[derive(Debug, Clone, PartialEq, Default)]
pub struct TeamSearchQuery {
    /// keywords to search
    pub q: Option<String>,
    /// include search within team description (defaults to true)
    pub include_desc: Option<bool>,
}

impl TeamSearchQuery {
    /// The query parameters, in order.
    pub open spec fn query_pairs(&self) -> Seq<(Seq<char>, Seq<char>)> {
        seq![]
            + opt_entry("q"@, opt_text(self.q))
            + opt_entry("include_desc"@, opt_bool_text(self.include_desc))
    }

    /// The query parameters, in order.
    pub fn into_list(self) -> (list: QueryList)
        ensures
            pairs_view(list@) == self.query_pairs(),
    {
        let mut list: QueryList = Vec::new();
        assert(pairs_view(list@) =~= Seq::<(Seq<char>, Seq<char>)>::empty());
        push_opt_str(&mut list, "q", self.q);
        push_opt_bool(&mut list, "include_desc", self.include_desc);
        list
    }
}

#[derive(Debug, Clone, PartialEq)]
pub struct TeamSearchResults {
    pub data: Option<Vec<Team>>,
    pub ok: Option<bool>,
}

#[derive(Debug, Clone, PartialEq, Default)]
pub struct ListPackagesQuery {
    /// package type filter
    pub type_: Option<ListPackagesQueryType>,
    /// name filter
    pub q: Option<String>,
}

impl ListPackagesQuery {
    /// The query parameters, in order.
    pub open spec fn query_pairs(&self) -> Seq<(Seq<char>, Seq<char>)> {
        seq![]
            + opt_entry("type"@, opt_wire_text(self.type_))
            + opt_entry("q"@, opt_text(self.q))
    }

    /// The query parameters, in order.
    pub fn into_list(self) -> (list: QueryList)
        ensures
            pairs_view(list@) == self.query_pairs(),
    {
        let mut list: QueryList = Vec::new();
        assert(pairs_view(list@) =~= Seq::<(Seq<char>, Seq<char>)>::empty());
        push_opt_wire(&mut list, "type", self.type_);
        push_opt_str(&mut list, "q", self.q);
        list
    }
}

#[derive(Debug, Clone, Copy, PartialEq, Eq, Structural)]
pub enum ListPackagesQueryType {
    Alpine,
    Cargo,
    Chef,
    Composer,
    Conan,
    Conda,
    Container,
    Cran,
    Debian,
    Generic,
    Go,
    Helm,
    Maven,
    Npm,
    Nuget,
    Pub,
    Pypi,
    Rpm,
    Rubygems,
    Swift,
    Vagrant,
}

impl WireName for ListPackagesQueryType {
    open spec fn wire_name(&self) -> Seq<char> {
        match self {
            ListPackagesQueryType::Alpine => "alpine"@,
            ListPackagesQueryType::Cargo => "cargo"@,
            ListPackagesQueryType::Chef => "chef"@,
            ListPackagesQueryType::Composer => "composer"@,
            ListPackagesQueryType::Conan => "conan"@,
            ListPackagesQueryType::Conda => "conda"@,
            ListPackagesQueryType::Container => "container"@,
            ListPackagesQueryType::Cran => "cran"@,
            ListPackagesQueryType::Debian => "debian"@,
            ListPackagesQueryType::Generic => "generic"@,
            ListPackagesQueryType::Go => "go"@,
            ListPackagesQueryType::Helm => "helm"@,
            ListPackagesQueryType::Maven => "maven"@,
            ListPackagesQueryType::Npm => "npm"@,
            ListPackagesQueryType::Nuget => "nuget"@,
            ListPackagesQueryType::Pub => "pub"@,
            ListPackagesQueryType::Pypi => "pypi"@,
            ListPackagesQueryType::Rpm => "rpm"@,
            ListPackagesQueryType::Rubygems => "rubygems"@,
            ListPackagesQueryType::Swift => "swift"@,
            ListPackagesQueryType::Vagrant => "vagrant"@,
        }
    }

    fn as_str(&self) -> (s: &'static str) {
        match self {
            ListPackagesQueryType::Alpine => "alpine",
            ListPackagesQueryType::Cargo => "cargo",
            ListPackagesQueryType::Chef => "chef",
            ListPackagesQueryType::Composer => "composer",
            ListPackagesQueryType::Conan => "conan",
            ListPackagesQueryType::Conda => "conda",
            ListPackagesQueryType::Container => "container",
            ListPackagesQueryType::Cran => "cran",
            ListPackagesQueryType::Debian => "debian",
            ListPackagesQueryType::Generic => "generic",
            ListPackagesQueryType::Go => "go",
            ListPackagesQueryType::Helm => "helm",
            ListPackagesQueryType::Maven => "maven",
            ListPackagesQueryType::Npm => "npm",
            ListPackagesQueryType::Nuget => "nuget",
            ListPackagesQueryType::Pub => "pub",
            ListPackagesQueryType::Pypi => "pypi",
            ListPackagesQueryType::Rpm => "rpm",
            ListPackagesQueryType::Rubygems => "rubygems",
            ListPackagesQueryType::Swift => "swift",
            ListPackagesQueryType::Vagrant => "vagrant",
        }
    }
}

#[derive(Debug, Clone, PartialEq, Default)]
pub struct IssueSearchIssuesQuery {
    /// State of the issue
    pub state: Option<IssueSearchIssuesQueryState>,
    /// Comma-separated list of label names. Fetch only issues that have any of these labels. Non existent labels are discarded.
    pub labels: Option<String>,
    /// Comma-separated list of milestone names. Fetch only issues that have any of these milestones. Non existent milestones are discarded.
    pub milestones: Option<String>,
    /// Search string
    pub q: Option<String>,
    /// Repository ID to prioritize in the results
    pub priority_repo_id: Option<i64>,
    /// Filter by issue type
    pub type_: Option<IssueSearchIssuesQueryType>,
    /// Only show issues updated after the given time (RFC 3339 format)
    pub since: Option<time::OffsetDateTime>,
    /// Only show issues updated before the given time (RFC 3339 format)
    pub before: Option<time::OffsetDateTime>,
    /// Filter issues or pulls assigned to the authenticated user
    pub assigned: Option<bool>,
    /// Filter issues or pulls created by the authenticated user
    pub created: Option<bool>,
    /// Filter issues or pulls mentioning the authenticated user
    pub mentioned: Option<bool>,
    /// Filter pull requests where the authenticated user's review was requested
    pub review_requested: Option<bool>,
    /// Filter pull requests reviewed by the authenticated user
    pub reviewed: Option<bool>,
    /// Filter by repository owner
    pub owner: Option<String>,
    /// Filter by team (requires organization owner parameter)
    pub team: Option<String>,
    /// Type of sort
    pub sort: Option<IssueSearchIssuesQuerySort>,
}

impl IssueSearchIssuesQuery {
    /// The query parameters, in order.
    pub open spec fn query_pairs(&self) -> Seq<(Seq<char>, Seq<char>)> {
        seq![]
            + opt_entry("state"@, opt_wire_text(self.state))
            + opt_entry("labels"@, opt_text(self.labels))
            + opt_entry("milestones"@, opt_text(self.milestones))
            + opt_entry("q"@, opt_text(self.q))
            + opt_entry("priority_repo_id"@, opt_int_text(self.priority_repo_id))
            + opt_entry("type"@, opt_wire_text(self.type_))
            + opt_entry("since"@, opt_time_text(self.since))
            + opt_entry("before"@, opt_time_text(self.before))
            + opt_entry("assigned"@, opt_bool_text(self.assigned))
            + opt_entry("created"@, opt_bool_text(self.created))
            + opt_entry("mentioned"@, opt_bool_text(self.mentioned))
            + opt_entry("review_requested"@, opt_bool_text(self.review_requested))
            + opt_entry("reviewed"@, opt_bool_text(self.reviewed))
            + opt_entry("owner"@, opt_text(self.owner))
            + opt_entry("team"@, opt_text(self.team))
            + opt_entry("sort"@, opt_wire_text(self.sort))
    }

    /// Every timestamp present can be written in RFC 3339.
    pub open spec fn timestamps_writable(&self) -> bool {
        writable(self.since) && writable(self.before)
    }

    /// The query parameters, in order.
    pub fn into_list(self) -> (list: QueryList)
        requires
            self.timestamps_writable(),
        ensures
            pairs_view(list@) == self.query_pairs(),
    {
        let mut list: QueryList = Vec::new();
        assert(pairs_view(list@) =~= Seq::<(Seq<char>, Seq<char>)>::empty());
        push_opt_wire(&mut list, "state", self.state);
        push_opt_str(&mut list, "labels", self.labels);
        push_opt_str(&mut list, "milestones", self.milestones);
        push_opt_str(&mut list, "q", self.q);
        push_opt_i64(&mut list, "priority_repo_id", self.priority_repo_id);
        push_opt_wire(&mut list, "type", self.type_);
        push_opt_time(&mut list, "since", self.since);
        push_opt_time(&mut list, "before", self.before);
        push_opt_bool(&mut list, "assigned", self.assigned);
        push_opt_bool(&mut list, "created", self.created);
        push_opt_bool(&mut list, "mentioned", self.mentioned);
        push_opt_bool(&mut list, "review_requested", self.review_requested);
        push_opt_bool(&mut list, "reviewed", self.reviewed);
        push_opt_str(&mut list, "owner", self.owner);
        push_opt_str(&mut list, "team", self.team);
        push_opt_wire(&mut list, "sort", self.sort);
        list
    }

    /// The query parameters, in order, or `None` when a timestamp cannot be
    /// written in RFC 3339.
    pub fn try_into_list(self) -> (list: Option<QueryList>)
        ensures
            list is Some <==> self.timestamps_writable(),
            list matches Some(l) ==> pairs_view(l@) == self.query_pairs(),
    {
        if let Some(t) = &self.since {
            if format_rfc3339(t).is_none() {
                return None;
            }
        }
        if let Some(t) = &self.before {
            if format_rfc3339(t).is_none() {
                return None;
            }
        }
        Some(self.into_list())
    }
}

#[derive(Debug, Clone, Copy, PartialEq, Eq, Structural)]
pub enum IssueSearchIssuesQueryState {
    Open,
    Closed,
    All,
}

impl WireName for IssueSearchIssuesQueryState {
    open spec fn wire_name(&self) -> Seq<char> {
        match self {
            IssueSearchIssuesQueryState::Open => "open"@,
            IssueSearchIssuesQueryState::Closed => "closed"@,
            IssueSearchIssuesQueryState::All => "all"@,
        }
    }

    fn as_str(&self) -> (s: &'static str) {
        match self {
            IssueSearchIssuesQueryState::Open => "open",
            IssueSearchIssuesQueryState::Closed => "closed",
            IssueSearchIssuesQueryState::All => "all",
        }
    }
}

#[derive(Debug, Clone, Copy, PartialEq, Eq, Structural)]
pub enum IssueSearchIssuesQueryType {
    Issues,
    Pulls,
}

impl WireName for IssueSearchIssuesQueryType {
    open spec fn wire_name(&self) -> Seq<char> {
        match self {
            IssueSearchIssuesQueryType::Issues => "issues"@,
            IssueSearchIssuesQueryType::Pulls => "pulls"@,
        }
    }

    fn as_str(&self) -> (s: &'static str) {
        match self {
            IssueSearchIssuesQueryType::Issues => "issues",
            IssueSearchIssuesQueryType::Pulls => "pulls",
        }
    }
}

#[derive(Debug, Clone, Copy, PartialEq, Eq, Structural)]
pub enum IssueSearchIssuesQuerySort {
    Relevance,
    Latest,
    Oldest,
    Recentupdate,
    Leastupdate,
    Mostcomment,
    Leastcomment,
    Nearduedate,
    Farduedate,
}

impl WireName for IssueSearchIssuesQuerySort {
    open spec fn wire_name(&self) -> Seq<char> {
        match self {
            IssueSearchIssuesQuerySort::Relevance => "relevance"@,
            IssueSearchIssuesQuerySort::Latest => "latest"@,
            IssueSearchIssuesQuerySort::Oldest => "oldest"@,
            IssueSearchIssuesQuerySort::Recentupdate => "recentupdate"@,
            IssueSearchIssuesQuerySort::Leastupdate => "leastupdate"@,
            IssueSearchIssuesQuerySort::Mostcomment => "mostcomment"@,
            IssueSearchIssuesQuerySort::Leastcomment => "leastcomment"@,
            IssueSearchIssuesQuerySort::Nearduedate => "nearduedate"@,
            IssueSearchIssuesQuerySort::Farduedate => "farduedate"@,
        }
    }

    fn as_str(&self) -> (s: &'static str) {
        match self {
            IssueSearchIssuesQuerySort::Relevance => "relevance",
            IssueSearchIssuesQuerySort::Latest => "latest",
            IssueSearchIssuesQuerySort::Oldest => "oldest",
            IssueSearchIssuesQuerySort::Recentupdate => "recentupdate",
            IssueSearchIssuesQuerySort::Leastupdate => "leastupdate",
            IssueSearchIssuesQuerySort::Mostcomment => "mostcomment",
            IssueSearchIssuesQuerySort::Leastcomment => "leastcomment",
            IssueSearchIssuesQuerySort::Nearduedate => "nearduedate",
            IssueSearchIssuesQuerySort::Farduedate => "farduedate",
        }
    }
}

#[derive(Debug, Clone, PartialEq, Default)]
pub struct RepoSearchQuery {
    /// keyword
    pub q: Option<String>,
    /// Limit search to repositories with keyword as topic
    pub topic: Option<bool>,
    /// include search of keyword within repository description
    pub include_desc: Option<bool>,
    /// search only for repos that the user with the given id owns or contributes to
    pub uid: Option<i64>,
    /// repo owner to prioritize in the results
    pub priority_owner_id: Option<i64>,
    /// search only for repos that belong to the given team id
    pub team_id: Option<i64>,
    /// search only for repos that the user with the given id has starred
    pub starred_by: Option<i64>,
    /// include private repositories this user has access to (defaults to true)
    pub private: Option<bool>,
    /// show only public, private or all repositories (defaults to all)
    pub is_private: Option<bool>,
    /// include template repositories this user has access to (defaults to true)
    pub template: Option<bool>,
    /// show only archived, non-archived or all repositories (defaults to all)
    pub archived: Option<bool>,
    /// type of repository to search for. Supported values are "fork", "source", "mirror" and "collaborative"
    pub mode: Option<String>,
    /// if `uid` is given, search only for repos that the user owns
    pub exclusive: Option<bool>,
    /// sort repos by attribute. Supported values are "alpha", "created", "updated", "size", "git_size", "lfs_size", "stars", "forks" and "id". Default is "alpha"
    pub sort: Option<RepoSearchQuerySort>,
    /// sort order, either "asc" (ascending) or "desc" (descending). Default is "asc", ignored if "sort" is not specified.
    pub order: Option<RepoSearchQueryOrder>,
}

impl RepoSearchQuery {
    /// The query parameters, in order.
    pub open spec fn query_pairs(&self) -> Seq<(Seq<char>, Seq<char>)> {
        seq![]
            + opt_entry("q"@, opt_text(self.q))
            + opt_entry("topic"@, opt_bool_text(self.topic))
            + opt_entry("includeDesc"@, opt_bool_text(self.include_desc))
            + opt_entry("uid"@, opt_int_text(self.uid))
            + opt_entry("priority_owner_id"@, opt_int_text(self.priority_owner_id))
            + opt_entry("team_id"@, opt_int_text(self.team_id))
            + opt_entry("starredBy"@, opt_int_text(self.starred_by))
            + opt_entry("private"@, opt_bool_text(self.private))
            + opt_entry("is_private"@, opt_bool_text(self.is_private))
            + opt_entry("template"@, opt_bool_text(self.template))
            + opt_entry("archived"@, opt_bool_text(self.archived))
            + opt_entry("mode"@, opt_text(self.mode))
            + opt_entry("exclusive"@, opt_bool_text(self.exclusive))
            + opt_entry("sort"@, opt_wire_text(self.sort))
            + opt_entry("order"@, opt_wire_text(self.order))
    }

    /// The query parameters, in order.
    pub fn into_list(self) -> (list: QueryList)
        ensures
            pairs_view(list@) == self.query_pairs(),
    {
        let mut list: QueryList = Vec::new();
        assert(pairs_view(list@) =~= Seq::<(Seq<char>, Seq<char>)>::empty());
        push_opt_str(&mut list, "q", self.q);
        push_opt_bool(&mut list, "topic", self.topic);
        push_opt_bool(&mut list, "includeDesc", self.include_desc);
        push_opt_i64(&mut list, "uid", self.uid);
        push_opt_i64(&mut list, "priority_owner_id", self.priority_owner_id);
        push_opt_i64(&mut list, "team_id", self.team_id);
        push_opt_i64(&mut list, "starredBy", self.starred_by);
        push_opt_bool(&mut list, "private", self.private);
        push_opt_bool(&mut list, "is_private", self.is_private);
        push_opt_bool(&mut list, "template", self.template);
        push_opt_bool(&mut list, "archived", self.archived);
        push_opt_str(&mut list, "mode", self.mode);
        push_opt_bool(&mut list, "exclusive", self.exclusive);
        push_opt_wire(&mut list, "sort", self.sort);
        push_opt_wire(&mut list, "order", self.order);
        list
    }
}

#[derive(Debug, Clone, Copy, PartialEq, Eq, Structural)]
pub enum RepoSearchQuerySort {
    Alpha,
    Created,
    Updated,
    Size,
    GitSize,
    LfsSize,
    Id,
    Stars,
    Forks,
}

impl WireName for RepoSearchQuerySort {
    open spec fn wire_name(&self) -> Seq<char> {
        match self {
            RepoSearchQuerySort::Alpha => "alpha"@,
            RepoSearchQuerySort::Created => "created"@,
            RepoSearchQuerySort::Updated => "updated"@,
            RepoSearchQuerySort::Size => "size"@,
            RepoSearchQuerySort::GitSize => "git_size"@,
            RepoSearchQuerySort::LfsSize => "lfs_size"@,
            RepoSearchQuerySort::Id => "id"@,
            RepoSearchQuerySort::Stars => "stars"@,
            RepoSearchQuerySort::Forks => "forks"@,
        }
    }

    fn as_str(&self) -> (s: &'static str) {
        match self {
            RepoSearchQuerySort::Alpha => "alpha",
            RepoSearchQuerySort::Created => "created",
            RepoSearchQuerySort::Updated => "updated",
            RepoSearchQuerySort::Size => "size",
            RepoSearchQuerySort::GitSize => "git_size",
            RepoSearchQuerySort::LfsSize => "lfs_size",
            RepoSearchQuerySort::Id => "id",
            RepoSearchQuerySort::Stars => "stars",
            RepoSearchQuerySort::Forks => "forks",
        }
    }
}

#[derive(Debug, Clone, Copy, PartialEq, Eq, Structural)]
pub enum RepoSearchQueryOrder {
    Asc,
    Desc,
}

impl WireName for RepoSearchQueryOrder {
    open spec fn wire_name(&self) -> Seq<char> {
        match self {
            RepoSearchQueryOrder::Asc => "asc"@,
            RepoSearchQueryOrder::Desc => "desc"@,
        }
    }

    fn as_str(&self) -> (s: &'static str) {
        match self {
            RepoSearchQueryOrder::Asc => "asc",
            RepoSearchQueryOrder::Desc => "desc",
        }
    }
}

#[derive(Debug, Clone, PartialEq, Default)]
pub struct RepoSearchRunJobsQuery {
    /// a comma separated list of run job labels to search for
    pub labels: Option<String>,
}

impl RepoSearchRunJobsQuery {
    /// The query parameters, in order.
    pub open spec fn query_pairs(&self) -> Seq<(Seq<char>, Seq<char>)> {
        seq![]
            + opt_entry("labels"@, opt_text(self.labels))
    }

    /// The query parameters, in order.
    pub fn into_list(self) -> (list: QueryList)
        ensures
            pairs_view(list@) == self.query_pairs(),
    {
        let mut list: QueryList = Vec::new();
        assert(pairs_view(list@) =~= Seq::<(Seq<char>, Seq<char>)>::empty());
        push_opt_str(&mut list, "labels", self.labels);
        list
    }
}

#[derive(Debug, Clone, PartialEq, Default)]
pub struct ListActionRunsQuery {
    /// Returns workflow run triggered by the specified events. For example, `push`, `pull_request` or `workflow_dispatch`.
    pub event: Option<Vec<String>>,
    /// Returns workflow runs with the check run status or conclusion that is specified. For example, a conclusion can be success or a status can be in_progress. Only Forgejo Actions can set a status of waiting, pending, or requested.
    pub status: Option<Vec<ListActionRunsQueryStatus>>,
    /// Returns the workflow run associated with the run number.
    pub run_number: Option<i64>,
    /// Only returns workflow runs that are associated with the specified head_sha.
    pub head_sha: Option<String>,
}

impl ListActionRunsQuery {
    /// The query parameters, in order.
    pub open spec fn query_pairs(&self) -> Seq<(Seq<char>, Seq<char>)> {
        seq![]
            + joined_text("event"@, self.event)
            + joined_wire("status"@, self.status)
            + opt_entry("run_number"@, opt_int_text(self.run_number))
            + opt_entry("head_sha"@, opt_text(self.head_sha))
    }

    /// The query parameters, in order.
    pub fn into_list(self) -> (list: QueryList)
        ensures
            pairs_view(list@) == self.query_pairs(),
    {
        let mut list: QueryList = Vec::new();
        assert(pairs_view(list@) =~= Seq::<(Seq<char>, Seq<char>)>::empty());
        push_joined_str(&mut list, "event", self.event);
        push_joined_wire(&mut list, "status", self.status);
        push_opt_i64(&mut list, "run_number", self.run_number);
        push_opt_str(&mut list, "head_sha", self.head_sha);
        list
    }
}

#[derive(Debug, Clone, Copy, PartialEq, Eq, Structural)]
pub enum ListActionRunsQueryStatus {
    Unknown,
    Waiting,
    Running,
    Success,
    Failure,
    Cancelled,
    Skipped,
    Blocked,
}

impl WireName for ListActionRunsQueryStatus {
    open spec fn wire_name(&self) -> Seq<char> {
        match self {
            ListActionRunsQueryStatus::Unknown => "unknown"@,
            ListActionRunsQueryStatus::Waiting => "waiting"@,
            ListActionRunsQueryStatus::Running => "running"@,
            ListActionRunsQueryStatus::Success => "success"@,
            ListActionRunsQueryStatus::Failure => "failure"@,
            ListActionRunsQueryStatus::Cancelled => "cancelled"@,
            ListActionRunsQueryStatus::Skipped => "skipped"@,
            ListActionRunsQueryStatus::Blocked => "blocked"@,
        }
    }

    fn as_str(&self) -> (s: &'static str) {
        match self {
            ListActionRunsQueryStatus::Unknown => "unknown",
            ListActionRunsQueryStatus::Waiting => "waiting",
            ListActionRunsQueryStatus::Running => "running",
            ListActionRunsQueryStatus::Success => "success",
            ListActionRunsQueryStatus::Failure => "failure",
            ListActionRunsQueryStatus::Cancelled => "cancelled",
            ListActionRunsQueryStatus::Skipped => "skipped",
            ListActionRunsQueryStatus::Blocked => "blocked",
        }
    }
}

#[derive(Debug, Clone, PartialEq, Default)]
pub struct RepoListActivityFeedsQuery {
    /// the date of the activities to be found
    pub date: Option<time::Date>,
}

impl RepoListActivityFeedsQuery {
    /// The query parameters, in order.
    pub open spec fn query_pairs(&self) -> Seq<(Seq<char>, Seq<char>)> {
        seq![]
            + opt_entry("date"@, opt_date_text(self.date))
    }

    /// The query parameters, in order.
    pub fn into_list(self) -> (list: QueryList)
        ensures
            pairs_view(list@) == self.query_pairs(),
    {
        let mut list: QueryList = Vec::new();
        assert(pairs_view(list@) =~= Seq::<(Seq<char>, Seq<char>)>::empty());
        push_opt_date(&mut list, "date", self.date);
        list
    }
}

#[derive(Debug, Clone, PartialEq, Default)]
pub struct RepoGetAllCommitsQuery {
    /// SHA or branch to start listing commits from (usually 'master')
    pub sha: Option<String>,
    /// filepath of a file/dir
    pub path: Option<String>,
    /// include diff stats for every commit (disable for speedup, default 'true')
    pub stat: Option<bool>,
    /// include verification for every commit (disable for speedup, default 'true')
    pub verification: Option<bool>,
    /// include a list of affected files for every commit (disable for speedup, default 'true')
    pub files: Option<bool>,
    /// commits that match the given specifier will not be listed.
    pub not: Option<String>,
}

impl RepoGetAllCommitsQuery {
    /// The query parameters, in order.
    pub open spec fn query_pairs(&self) -> Seq<(Seq<char>, Seq<char>)> {
        seq![]
            + opt_entry("sha"@, opt_text(self.sha))
            + opt_entry("path"@, opt_text(self.path))
            + opt_entry("stat"@, opt_bool_text(self.stat))
            + opt_entry("verification"@, opt_bool_text(self.verification))
            + opt_entry("files"@, opt_bool_text(self.files))
            + opt_entry("not"@, opt_text(self.not))
    }

    /// The query parameters, in order.
    pub fn into_list(self) -> (list: QueryList)
        ensures
            pairs_view(list@) == self.query_pairs(),
    {
        let mut list: QueryList = Vec::new();
        assert(pairs_view(list@) =~= Seq::<(Seq<char>, Seq<char>)>::empty());
        push_opt_str(&mut list, "sha", self.sha);
        push_opt_str(&mut list, "path", self.path);
        push_opt_bool(&mut list, "stat", self.stat);
        push_opt_bool(&mut list, "verification", self.verification);
        push_opt_bool(&mut list, "files", self.files);
        push_opt_str(&mut list, "not", self.not);
        list
    }
}

#[derive(Debug, Clone, PartialEq, Default)]
pub struct RepoListStatusesByRefQuery {
    /// type of sort
    pub sort: Option<RepoListStatusesByRefQuerySort>,
    /// type of state
    pub state: Option<RepoListStatusesByRefQueryState>,
}

impl RepoListStatusesByRefQuery {
    /// The query parameters, in order.
    pub open spec fn query_pairs(&self) -> Seq<(Seq<char>, Seq<char>)> {
        seq![]
            + opt_entry("sort"@, opt_wire_text(self.sort))
            + opt_entry("state"@, opt_wire_text(self.state))
    }

    /// The query parameters, in order.
    pub fn into_list(self) -> (list: QueryList)
        ensures
            pairs_view(list@) == self.query_pairs(),
    {
        let mut list: QueryList = Vec::new();
        assert(pairs_view(list@) =~= Seq::<(Seq<char>, Seq<char>)>::empty());
        push_opt_wire(&mut list, "sort", self.sort);
        push_opt_wire(&mut list, "state", self.state);
        list
    }
}

#[derive(Debug, Clone, Copy, PartialEq, Eq, Structural)]
pub enum RepoListStatusesByRefQuerySort {
    Oldest,
    Recentupdate,
    Leastupdate,
    Leastindex,
    Highestindex,
}

impl WireName for RepoListStatusesByRefQuerySort {
    open spec fn wire_name(&self) -> Seq<char> {
        match self {
            RepoListStatusesByRefQuerySort::Oldest => "oldest"@,
            RepoListStatusesByRefQuerySort::Recentupdate => "recentupdate"@,
            RepoListStatusesByRefQuerySort::Leastupdate => "leastupdate"@,
            RepoListStatusesByRefQuerySort::Leastindex => "leastindex"@,
            RepoListStatusesByRefQuerySort::Highestindex => "highestindex"@,
        }
    }

    fn as_str(&self) -> (s: &'static str) {
        match self {
            RepoListStatusesByRefQuerySort::Oldest => "oldest",
            RepoListStatusesByRefQuerySort::Recentupdate => "recentupdate",
            RepoListStatusesByRefQuerySort::Leastupdate => "leastupdate",
            RepoListStatusesByRefQuerySort::Leastindex => "leastindex",
            RepoListStatusesByRefQuerySort::Highestindex => "highestindex",
        }
    }
}

#[derive(Debug, Clone, Copy, PartialEq, Eq, Structural)]
pub enum RepoListStatusesByRefQueryState {
    Pending,
    Success,
    Error,
    Failure,
    Warning,
}

impl WireName for RepoListStatusesByRefQueryState {
    open spec fn wire_name(&self) -> Seq<char> {
        match self {
            RepoListStatusesByRefQueryState::Pending => "pending"@,
            RepoListStatusesByRefQueryState::Success => "success"@,
            RepoListStatusesByRefQueryState::Error => "error"@,
            RepoListStatusesByRefQueryState::Failure => "failure"@,
            RepoListStatusesByRefQueryState::Warning => "warning"@,
        }
    }

    fn as_str(&self) -> (s: &'static str) {
        match self {
            RepoListStatusesByRefQueryState::Pending => "pending",
            RepoListStatusesByRefQueryState::Success => "success",
            RepoListStatusesByRefQueryState::Error => "error",
            RepoListStatusesByRefQueryState::Failure => "failure",
            RepoListStatusesByRefQueryState::Warning => "warning",
        }
    }
}

#[derive(Debug, Clone, PartialEq, Default)]
pub struct RepoGetContentsListQuery {
    /// The name of the commit/branch/tag. Default the repository’s default branch (usually master)
    pub ref_: Option<String>,
}

impl RepoGetContentsListQuery {
    /// The query parameters, in order.
    pub open spec fn query_pairs(&self) -> Seq<(Seq<char>, Seq<char>)> {
        seq![]
            + opt_entry("ref"@, opt_text(self.ref_))
    }

    /// The query parameters, in order.
    pub fn into_list(self) -> (list: QueryList)
        ensures
            pairs_view(list@) == self.query_pairs(),
    {
        let mut list: QueryList = Vec::new();
        assert(pairs_view(list@) =~= Seq::<(Seq<char>, Seq<char>)>::empty());
        push_opt_str(&mut list, "ref", self.ref_);
        list
    }
}

#[derive(Debug, Clone, PartialEq, Default)]
pub struct RepoGetContentsQuery {
    /// The name of the commit/branch/tag. Default the repository’s default branch (usually master)
    pub ref_: Option<String>,
}

impl RepoGetContentsQuery {
    /// The query parameters, in order.
    pub open spec fn query_pairs(&self) -> Seq<(Seq<char>, Seq<char>)> {
        seq![]
            + opt_entry("ref"@, opt_text(self.ref_))
    }

    /// The query parameters, in order.
    pub fn into_list(self) -> (list: QueryList)
        ensures
            pairs_view(list@) == self.query_pairs(),
    {
        let mut list: QueryList = Vec::new();
        assert(pairs_view(list@) =~= Seq::<(Seq<char>, Seq<char>)>::empty());
        push_opt_str(&mut list, "ref", self.ref_);
        list
    }
}

#[derive(Debug, Clone, PartialEq, Default)]
pub struct RepoGetEditorConfigQuery {
    /// The name of the commit/branch/tag. Default the repository’s default branch (usually master)
    pub ref_: Option<String>,
}

impl RepoGetEditorConfigQuery {
    /// The query parameters, in order.
    pub open spec fn query_pairs(&self) -> Seq<(Seq<char>, Seq<char>)> {
        seq![]
            + opt_entry("ref"@, opt_text(self.ref_))
    }

    /// The query parameters, in order.
    pub fn into_list(self) -> (list: QueryList)
        ensures
            pairs_view(list@) == self.query_pairs(),
    {
        let mut list: QueryList = Vec::new();
        assert(pairs_view(list@) =~= Seq::<(Seq<char>, Seq<char>)>::empty());
        push_opt_str(&mut list, "ref", self.ref_);
        list
    }
}

#[derive(Debug, Clone, PartialEq)]
pub struct GetBlobsQuery {
    /// a comma separated list of blob-sha (mind the overall URL-length limit of ~2,083 chars)
    pub shas: String,
}

impl GetBlobsQuery {
    /// The query parameters, in order.
    pub open spec fn query_pairs(&self) -> Seq<(Seq<char>, Seq<char>)> {
        seq![]
            + seq![("shas"@, self.shas@)]
    }

    /// The query parameters, in order.
    pub fn into_list(self) -> (list: QueryList)
        ensures
            pairs_view(list@) == self.query_pairs(),
    {
        let mut list: QueryList = Vec::new();
        assert(pairs_view(list@) =~= Seq::<(Seq<char>, Seq<char>)>::empty());
        push_entry(&mut list, "shas", self.shas);
        list
    }
}

#[derive(Debug, Clone, PartialEq, Default)]
pub struct RepoGetSingleCommitQuery {
    /// include diff stats for every commit (disable for speedup, default 'true')
    pub stat: Option<bool>,
    /// include verification for every commit (disable for speedup, default 'true')
    pub verification: Option<bool>,
    /// include a list of affected files for every commit (disable for speedup, default 'true')
    pub files: Option<bool>,
}

impl RepoGetSingleCommitQuery {
    /// The query parameters, in order.
    pub open spec fn query_pairs(&self) -> Seq<(Seq<char>, Seq<char>)> {
        seq![]
            + opt_entry("stat"@, opt_bool_text(self.stat))
            + opt_entry("verification"@, opt_bool_text(self.verification))
            + opt_entry("files"@, opt_bool_text(self.files))
    }

    /// The query parameters, in order.
    pub fn into_list(self) -> (list: QueryList)
        ensures
            pairs_view(list@) == self.query_pairs(),
    {
        let mut list: QueryList = Vec::new();
        assert(pairs_view(list@) =~= Seq::<(Seq<char>, Seq<char>)>::empty());
        push_opt_bool(&mut list, "stat", self.stat);
        push_opt_bool(&mut list, "verification", self.verification);
        push_opt_bool(&mut list, "files", self.files);
        list
    }
}

#[derive(Debug, Clone, PartialEq, Default)]
pub struct RepoGetNoteQuery {
    /// include verification for every commit (disable for speedup, default 'true')
    pub verification: Option<bool>,
    /// include a list of affected files for every commit (disable for speedup, default 'true')
    pub files: Option<bool>,
}

impl RepoGetNoteQuery {
    /// The query parameters, in order.
    pub open spec fn query_pairs(&self) -> Seq<(Seq<char>, Seq<char>)> {
        seq![]
            + opt_entry("verification"@, opt_bool_text(self.verification))
            + opt_entry("files"@, opt_bool_text(self.files))
    }

    /// The query parameters, in order.
    pub fn into_list(self) -> (list: QueryList)
        ensures
            pairs_view(list@) == self.query_pairs(),
    {
        let mut list: QueryList = Vec::new();
        assert(pairs_view(list@) =~= Seq::<(Seq<char>, Seq<char>)>::empty());
        push_opt_bool(&mut list, "verification", self.verification);
        push_opt_bool(&mut list, "files", self.files);
        list
    }
}

#[derive(Debug, Clone, PartialEq, Default)]
pub struct GetTreeQuery {
    /// show all directories and files
    pub recursive: Option<bool>,
    /// number of items per page
    pub per_page: Option<u32>,
}

impl GetTreeQuery {
    /// The query parameters, in order.
    pub open spec fn query_pairs(&self) -> Seq<(Seq<char>, Seq<char>)> {
        seq![]
            + opt_entry("recursive"@, opt_bool_text(self.recursive))
            + opt_entry("per_page"@, opt_u32_text(self.per_page))
    }

    /// The query parameters, in order.
    pub fn into_list(self) -> (list: QueryList)
        ensures
            pairs_view(list@) == self.query_pairs(),
    {
        let mut list: QueryList = Vec::new();
        assert(pairs_view(list@) =~= Seq::<(Seq<char>, Seq<char>)>::empty());
        push_opt_bool(&mut list, "recursive", self.recursive);
        push_opt_u32(&mut list, "per_page", self.per_page);
        list
    }
}

#[derive(Debug, Clone, PartialEq, Default)]
pub struct RepoTestHookQuery {
    /// The name of the commit/branch/tag, indicates which commit will be loaded to the webhook payload.
    pub ref_: Option<String>,
}

impl RepoTestHookQuery {
    /// The query parameters, in order.
    pub open spec fn query_pairs(&self) -> Seq<(Seq<char>, Seq<char>)> {
        seq![]
            + opt_entry("ref"@, opt_text(self.ref_))
    }

    /// The query parameters, in order.
    pub fn into_list(self) -> (list: QueryList)
        ensures
            pairs_view(list@) == self.query_pairs(),
    {
        let mut list: QueryList = Vec::new();
        assert(pairs_view(list@) =~= Seq::<(Seq<char>, Seq<char>)>::empty());
        push_opt_str(&mut list, "ref", self.ref_);
        list
    }
}

#[derive(Debug, Clone, PartialEq, Default)]
pub struct IssueListIssuesQuery {
    /// whether issue is open or closed
    pub state: Option<IssueListIssuesQueryState>,
    /// comma separated list of labels. Fetch only issues that have any of this labels. Non existent labels are discarded
    pub labels: Option<String>,
    /// search string
    pub q: Option<String>,
    /// filter by type (issues / pulls) if set
    pub type_: Option<IssueListIssuesQueryType>,
    /// comma separated list of milestone names or ids. It uses names and fall back to ids. Fetch only issues that have any of this milestones. Non existent milestones are discarded
    pub milestones: Option<String>,
    /// Only show items updated after the given time. This is a timestamp in RFC 3339 format
    pub since: Option<time::OffsetDateTime>,
    /// Only show items updated before the given time. This is a timestamp in RFC 3339 format
    pub before: Option<time::OffsetDateTime>,
    /// Only show items which were created by the given user
    pub created_by: Option<String>,
    /// Only show items for which the given user is assigned
    pub assigned_by: Option<String>,
    /// Only show items in which the given user was mentioned
    pub mentioned_by: Option<String>,
    /// Type of sort
    pub sort: Option<IssueListIssuesQuerySort>,
}

impl IssueListIssuesQuery {
    /// The query parameters, in order.
    pub open spec fn query_pairs(&self) -> Seq<(Seq<char>, Seq<char>)> {
        seq![]
            + opt_entry("state"@, opt_wire_text(self.state))
            + opt_entry("labels"@, opt_text(self.labels))
            + opt_entry("q"@, opt_text(self.q))
            + opt_entry("type"@, opt_wire_text(self.type_))
            + opt_entry("milestones"@, opt_text(self.milestones))
            + opt_entry("since"@, opt_time_text(self.since))
            + opt_entry("before"@, opt_time_text(self.before))
            + opt_entry("created_by"@, opt_text(self.created_by))
            + opt_entry("assigned_by"@, opt_text(self.assigned_by))
            + opt_entry("mentioned_by"@, opt_text(self.mentioned_by))
            + opt_entry("sort"@, opt_wire_text(self.sort))
    }

    /// Every timestamp present can be written in RFC 3339.
    pub open spec fn timestamps_writable(&self) -> bool {
        writable(self.since) && writable(self.before)
    }

    /// The query parameters, in order.
    pub fn into_list(self) -> (list: QueryList)
        requires
            self.timestamps_writable(),
        ensures
            pairs_view(list@) == self.query_pairs(),
    {
        let mut list: QueryList = Vec::new();
        assert(pairs_view(list@) =~= Seq::<(Seq<char>, Seq<char>)>::empty());
        push_opt_wire(&mut list, "state", self.state);
        push_opt_str(&mut list, "labels", self.labels);
        push_opt_str(&mut list, "q", self.q);
        push_opt_wire(&mut list, "type", self.type_);
        push_opt_str(&mut list, "milestones", self.milestones);
        push_opt_time(&mut list, "since", self.since);
        push_opt_time(&mut list, "before", self.before);
        push_opt_str(&mut list, "created_by", self.created_by);
        push_opt_str(&mut list, "assigned_by", self.assigned_by);
        push_opt_str(&mut list, "mentioned_by", self.mentioned_by);
        push_opt_wire(&mut list, "sort", self.sort);
        list
    }

    /// The query parameters, in order, or `None` when a timestamp cannot be
    /// written in RFC 3339.
    pub fn try_into_list(self) -> (list: Option<QueryList>)
        ensures
            list is Some <==> self.timestamps_writable(),
            list matches Some(l) ==> pairs_view(l@) == self.query_pairs(),
    {
        if let Some(t) = &self.since {
            if format_rfc3339(t).is_none() {
                return None;
            }
        }
        if let Some(t) = &self.before {
            if format_rfc3339(t).is_none() {
                return None;
            }
        }
        Some(self.into_list())
    }
}

#[derive(Debug, Clone, Copy, PartialEq, Eq, Structural)]
pub enum IssueListIssuesQueryState {
    Closed,
    Open,
    All,
}

impl WireName for IssueListIssuesQueryState {
    open spec fn wire_name(&self) -> Seq<char> {
        match self {
            IssueListIssuesQueryState::Closed => "closed"@,
            IssueListIssuesQueryState::Open => "open"@,
            IssueListIssuesQueryState::All => "all"@,
        }
    }

    fn as_str(&self) -> (s: &'static str) {
        match self {
            IssueListIssuesQueryState::Closed => "closed",
            IssueListIssuesQueryState::Open => "open",
            IssueListIssuesQueryState::All => "all",
        }
    }
}

#[derive(Debug, Clone, Copy, PartialEq, Eq, Structural)]
pub enum IssueListIssuesQueryType {
    Issues,
    Pulls,
}

impl WireName for IssueListIssuesQueryType {
    open spec fn wire_name(&self) -> Seq<char> {
        match self {
            IssueListIssuesQueryType::Issues => "issues"@,
            IssueListIssuesQueryType::Pulls => "pulls"@,
        }
    }

    fn as_str(&self) -> (s: &'static str) {
        match self {
            IssueListIssuesQueryType::Issues => "issues",
            IssueListIssuesQueryType::Pulls => "pulls",
        }
    }
}

#[derive(Debug, Clone, Copy, PartialEq, Eq, Structural)]
pub enum IssueListIssuesQuerySort {
    Relevance,
    Latest,
    Oldest,
    Recentupdate,
    Leastupdate,
    Mostcomment,
    Leastcomment,
    Nearduedate,
    Farduedate,
}

impl WireName for IssueListIssuesQuerySort {
    open spec fn wire_name(&self) -> Seq<char> {
        match self {
            IssueListIssuesQuerySort::Relevance => "relevance"@,
            IssueListIssuesQuerySort::Latest => "latest"@,
            IssueListIssuesQuerySort::Oldest => "oldest"@,
            IssueListIssuesQuerySort::Recentupdate => "recentupdate"@,
            IssueListIssuesQuerySort::Leastupdate => "leastupdate"@,
            IssueListIssuesQuerySort::Mostcomment => "mostcomment"@,
            IssueListIssuesQuerySort::Leastcomment => "leastcomment"@,
            IssueListIssuesQuerySort::Nearduedate => "nearduedate"@,
            IssueListIssuesQuerySort::Farduedate => "farduedate"@,
        }
    }

    fn as_str(&self) -> (s: &'static str) {
        match self {
            IssueListIssuesQuerySort::Relevance => "relevance",
            IssueListIssuesQuerySort::Latest => "latest",
            IssueListIssuesQuerySort::Oldest => "oldest",
            IssueListIssuesQuerySort::Recentupdate => "recentupdate",
            IssueListIssuesQuerySort::Leastupdate => "leastupdate",
            IssueListIssuesQuerySort::Mostcomment => "mostcomment",
            IssueListIssuesQuerySort::Leastcomment => "leastcomment",
            IssueListIssuesQuerySort::Nearduedate => "nearduedate",
            IssueListIssuesQuerySort::Farduedate => "farduedate",
        }
    }
}

#[derive(Debug, Clone, PartialEq, Default)]
pub struct IssueGetRepoCommentsQuery {
    /// if provided, only comments updated since the provided time are returned.
    pub since: Option<time::OffsetDateTime>,
    /// if provided, only comments updated before the provided time are returned.
    pub before: Option<time::OffsetDateTime>,
}

impl IssueGetRepoCommentsQuery {
    /// The query parameters, in order.
    pub open spec fn query_pairs(&self) -> Seq<(Seq<char>, Seq<char>)> {
        seq![]
            + opt_entry("since"@, opt_time_text(self.since))
            + opt_entry("before"@, opt_time_text(self.before))
    }

    /// Every timestamp present can be written in RFC 3339.
    pub open spec fn timestamps_writable(&self) -> bool {
        writable(self.since) && writable(self.before)
    }

    /// The query parameters, in order.
    pub fn into_list(self) -> (list: QueryList)
        requires
            self.timestamps_writable(),
        ensures
            pairs_view(list@) == self.query_pairs(),
    {
        let mut list: QueryList = Vec::new();
        assert(pairs_view(list@) =~= Seq::<(Seq<char>, Seq<char>)>::empty());
        push_opt_time(&mut list, "since", self.since);
        push_opt_time(&mut list, "before", self.before);
        list
    }

    /// The query parameters, in order, or `None` when a timestamp cannot be
    /// written in RFC 3339.
    pub fn try_into_list(self) -> (list: Option<QueryList>)
        ensures
            list is Some <==> self.timestamps_writable(),
            list matches Some(l) ==> pairs_view(l@) == self.query_pairs(),
    {
        if let Some(t) = &self.since {
            if format_rfc3339(t).is_none() {
                return None;
            }
        }
        if let Some(t) = &self.before {
            if format_rfc3339(t).is_none() {
                return None;
            }
        }
        Some(self.into_list())
    }
}

#[derive(Debug, Clone, PartialEq, Default)]
pub struct IssueCreateIssueCommentAttachmentQuery {
    /// name of the attachment
    pub name: Option<String>,
    /// time of the attachment's creation. This is a timestamp in RFC 3339 format
    pub updated_at: Option<time::OffsetDateTime>,
}

impl IssueCreateIssueCommentAttachmentQuery {
    /// The query parameters, in order.
    pub open spec fn query_pairs(&self) -> Seq<(Seq<char>, Seq<char>)> {
        seq![]
            + opt_entry("name"@, opt_text(self.name))
            + opt_entry("updated_at"@, opt_time_text(self.updated_at))
    }

    /// Every timestamp present can be written in RFC 3339.
    pub open spec fn timestamps_writable(&self) -> bool {
        writable(self.updated_at)
    }

    /// The query parameters, in order.
    pub fn into_list(self) -> (list: QueryList)
        requires
            self.timestamps_writable(),
        ensures
            pairs_view(list@) == self.query_pairs(),
    {
        let mut list: QueryList = Vec::new();
        assert(pairs_view(list@) =~= Seq::<(Seq<char>, Seq<char>)>::empty());
        push_opt_str(&mut list, "name", self.name);
        push_opt_time(&mut list, "updated_at", self.updated_at);
        list
    }

    /// The query parameters, in order, or `None` when a timestamp cannot be
    /// written in RFC 3339.
    pub fn try_into_list(self) -> (list: Option<QueryList>)
        ensures
            list is Some <==> self.timestamps_writable(),
            list matches Some(l) ==> pairs_view(l@) == self.query_pairs(),
    {
        if let Some(t) = &self.updated_at {
            if format_rfc3339(t).is_none() {
                return None;
            }
        }
        Some(self.into_list())
    }
}

#[derive(Debug, Clone, PartialEq, Default)]
pub struct IssueCreateIssueAttachmentQuery {
    /// name of the attachment
    pub name: Option<String>,
    /// time of the attachment's creation. This is a timestamp in RFC 3339 format
    pub updated_at: Option<time::OffsetDateTime>,
}

impl IssueCreateIssueAttachmentQuery {
    /// The query parameters, in order.
    pub open spec fn query_pairs(&self) -> Seq<(Seq<char>, Seq<char>)> {
        seq![]
            + opt_entry("name"@, opt_text(self.name))
            + opt_entry("updated_at"@, opt_time_text(self.updated_at))
    }

    /// Every timestamp present can be written in RFC 3339.
    pub open spec fn timestamps_writable(&self) -> bool {
        writable(self.updated_at)
    }

    /// The query parameters, in order.
    pub fn into_list(self) -> (list: QueryList)
        requires
            self.timestamps_writable(),
        ensures
            pairs_view(list@) == self.query_pairs(),
    {
        let mut list: QueryList = Vec::new();
        assert(pairs_view(list@) =~= Seq::<(Seq<char>, Seq<char>)>::empty());
        push_opt_str(&mut list, "name", self.name);
        push_opt_time(&mut list, "updated_at", self.updated_at);
        list
    }

    /// The query parameters, in order, or `None` when a timestamp cannot be
    /// written in RFC 3339.
    pub fn try_into_list(self) -> (list: Option<QueryList>)
        ensures
            list is Some <==> self.timestamps_writable(),
            list matches Some(l) ==> pairs_view(l@) == self.query_pairs(),
    {
        if let Some(t) = &self.updated_at {
            if format_rfc3339(t).is_none() {
                return None;
            }
        }
        Some(self.into_list())
    }
}

#[derive(Debug, Clone, PartialEq, Default)]
pub struct IssueGetCommentsQuery {
    /// if provided, only comments updated since the specified time are returned.
    pub since: Option<time::OffsetDateTime>,
    /// if provided, only comments updated before the provided time are returned.
    pub before: Option<time::OffsetDateTime>,
}

impl IssueGetCommentsQuery {
    /// The query parameters, in order.
    pub open spec fn query_pairs(&self) -> Seq<(Seq<char>, Seq<char>)> {
        seq![]
            + opt_entry("since"@, opt_time_text(self.since))
            + opt_entry("before"@, opt_time_text(self.before))
    }

    /// Every timestamp present can be written in RFC 3339.
    pub open spec fn timestamps_writable(&self) -> bool {
        writable(self.since) && writable(self.before)
    }

    /// The query parameters, in order.
    pub fn into_list(self) -> (list: QueryList)
        requires
            self.timestamps_writable(),
        ensures
            pairs_view(list@) == self.query_pairs(),
    {
        let mut list: QueryList = Vec::new();
        assert(pairs_view(list@) =~= Seq::<(Seq<char>, Seq<char>)>::empty());
        push_opt_time(&mut list, "since", self.since);
        push_opt_time(&mut list, "before", self.before);
        list
    }

    /// The query parameters, in order, or `None` when a timestamp cannot be
    /// written in RFC 3339.
    pub fn try_into_list(self) -> (list: Option<QueryList>)
        ensures
            list is Some <==> self.timestamps_writable(),
            list matches Some(l) ==> pairs_view(l@) == self.query_pairs(),
    {
        if let Some(t) = &self.since {
            if format_rfc3339(t).is_none() {
                return None;
            }
        }
        if let Some(t) = &self.before {
            if format_rfc3339(t).is_none() {
                return None;
            }
        }
        Some(self.into_list())
    }
}

#[derive(Debug, Clone, PartialEq, Default)]
pub struct IssueGetCommentsAndTimelineQuery {
    /// if provided, only comments updated since the specified time are returned.
    pub since: Option<time::OffsetDateTime>,
    /// if provided, only comments updated before the provided time are returned.
    pub before: Option<time::OffsetDateTime>,
}

impl IssueGetCommentsAndTimelineQuery {
    /// The query parameters, in order.
    pub open spec fn query_pairs(&self) -> Seq<(Seq<char>, Seq<char>)> {
        seq![]
            + opt_entry("since"@, opt_time_text(self.since))
            + opt_entry("before"@, opt_time_text(self.before))
    }

    /// Every timestamp present can be written in RFC 3339.
    pub open spec fn timestamps_writable(&self) -> bool {
        writable(self.since) && writable(self.before)
    }

    /// The query parameters, in order.
    pub fn into_list(self) -> (list: QueryList)
        requires
            self.timestamps_writable(),
        ensures
            pairs_view(list@) == self.query_pairs(),
    {
        let mut list: QueryList = Vec::new();
        assert(pairs_view(list@) =~= Seq::<(Seq<char>, Seq<char>)>::empty());
        push_opt_time(&mut list, "since", self.since);
        push_opt_time(&mut list, "before", self.before);
        list
    }

    /// The query parameters, in order, or `None` when a timestamp cannot be
    /// written in RFC 3339.
    pub fn try_into_list(self) -> (list: Option<QueryList>)
        ensures
            list is Some <==> self.timestamps_writable(),
            list matches Some(l) ==> pairs_view(l@) == self.query_pairs(),
    {
        if let Some(t) = &self.since {
            if format_rfc3339(t).is_none() {
                return None;
            }
        }
        if let Some(t) = &self.before {
            if format_rfc3339(t).is_none() {
                return None;
            }
        }
        Some(self.into_list())
    }
}

#[derive(Debug, Clone, PartialEq, Default)]
pub struct IssueTrackedTimesQuery {
    /// optional filter by user (available for issue managers)
    pub user: Option<String>,
    /// Only show times updated after the given time. This is a timestamp in RFC 3339 format
    pub since: Option<time::OffsetDateTime>,
    /// Only show times updated before the given time. This is a timestamp in RFC 3339 format
    pub before: Option<time::OffsetDateTime>,
}

impl IssueTrackedTimesQuery {
    /// The query parameters, in order.
    pub open spec fn query_pairs(&self) -> Seq<(Seq<char>, Seq<char>)> {
        seq![]
            + opt_entry("user"@, opt_text(self.user))
            + opt_entry("since"@, opt_time_text(self.since))
            + opt_entry("before"@, opt_time_text(self.before))
    }

    /// Every timestamp present can be written in RFC 3339.
    pub open spec fn timestamps_writable(&self) -> bool {
        writable(self.since) && writable(self.before)
    }

    /// The query parameters, in order.
    pub fn into_list(self) -> (list: QueryList)
        requires
            self.timestamps_writable(),
        ensures
            pairs_view(list@) == self.query_pairs(),
    {
        let mut list: QueryList = Vec::new();
        assert(pairs_view(list@) =~= Seq::<(Seq<char>, Seq<char>)>::empty());
        push_opt_str(&mut list, "user", self.user);
        push_opt_time(&mut list, "since", self.since);
        push_opt_time(&mut list, "before", self.before);
        list
    }

    /// The query parameters, in order, or `None` when a timestamp cannot be
    /// written in RFC 3339.
    pub fn try_into_list(self) -> (list: Option<QueryList>)
        ensures
            list is Some <==> self.timestamps_writable(),
            list matches Some(l) ==> pairs_view(l@) == self.query_pairs(),
    {
        if let Some(t) = &self.since {
            if format_rfc3339(t).is_none() {
                return None;
            }
        }
        if let Some(t) = &self.before {
            if format_rfc3339(t).is_none() {
                return None;
            }
        }
        Some(self.into_list())
    }
}

#[derive(Debug, Clone, PartialEq, Default)]
pub struct RepoListKeysQuery {
    /// the key_id to search for
    pub key_id: Option<u32>,
    /// fingerprint of the key
    pub fingerprint: Option<String>,
}

impl RepoListKeysQuery {
    /// The query parameters, in order.
    pub open spec fn query_pairs(&self) -> Seq<(Seq<char>, Seq<char>)> {
        seq![]
            + opt_entry("key_id"@, opt_u32_text(self.key_id))
            + opt_entry("fingerprint"@, opt_text(self.fingerprint))
    }

    /// The query parameters, in order.
    pub fn into_list(self) -> (list: QueryList)
        ensures
            pairs_view(list@) == self.query_pairs(),
    {
        let mut list: QueryList = Vec::new();
        assert(pairs_view(list@) =~= Seq::<(Seq<char>, Seq<char>)>::empty());
        push_opt_u32(&mut list, "key_id", self.key_id);
        push_opt_str(&mut list, "fingerprint", self.fingerprint);
        list
    }
}

#[derive(Debug, Clone, PartialEq, Default)]
pub struct IssueListLabelsQuery {
    /// Specifies the sorting method: mostissues, leastissues, or reversealphabetically.
    pub sort: Option<IssueListLabelsQuerySort>,
}

impl IssueListLabelsQuery {
    /// The query parameters, in order.
    pub open spec fn query_pairs(&self) -> Seq<(Seq<char>, Seq<char>)> {
        seq![]
            + opt_entry("sort"@, opt_wire_text(self.sort))
    }

    /// The query parameters, in order.
    pub fn into_list(self) -> (list: QueryList)
        ensures
            pairs_view(list@) == self.query_pairs(),
    {
        let mut list: QueryList = Vec::new();
        assert(pairs_view(list@) =~= Seq::<(Seq<char>, Seq<char>)>::empty());
        push_opt_wire(&mut list, "sort", self.sort);
        list
    }
}

#[derive(Debug, Clone, Copy, PartialEq, Eq, Structural)]
pub enum IssueListLabelsQuerySort {
    Mostissues,
    Leastissues,
    Reversealphabetically,
}

impl WireName for IssueListLabelsQuerySort {
    open spec fn wire_name(&self) -> Seq<char> {
        match self {
            IssueListLabelsQuerySort::Mostissues => "mostissues"@,
            IssueListLabelsQuerySort::Leastissues => "leastissues"@,
            IssueListLabelsQuerySort::Reversealphabetically => "reversealphabetically"@,
        }
    }

    fn as_str(&self) -> (s: &'static str) {
        match self {
            IssueListLabelsQuerySort::Mostissues => "mostissues",
            IssueListLabelsQuerySort::Leastissues => "leastissues",
            IssueListLabelsQuerySort::Reversealphabetically => "reversealphabetically",
        }
    }
}

#[derive(Debug, Clone, PartialEq, Default)]
pub struct RepoGetRawFileOrLfsQuery {
    /// The name of the commit/branch/tag. Default the repository’s default branch (usually master)
    pub ref_: Option<String>,
}

impl RepoGetRawFileOrLfsQuery {
    /// The query parameters, in order.
    pub open spec fn query_pairs(&self) -> Seq<(Seq<char>, Seq<char>)> {
        seq![]
            + opt_entry("ref"@, opt_text(self.ref_))
    }

    /// The query parameters, in order.
    pub fn into_list(self) -> (list: QueryList)
        ensures
            pairs_view(list@) == self.query_pairs(),
    {
        let mut list: QueryList = Vec::new();
        assert(pairs_view(list@) =~= Seq::<(Seq<char>, Seq<char>)>::empty());
        push_opt_str(&mut list, "ref", self.ref_);
        list
    }
}

#[derive(Debug, Clone, PartialEq, Default)]
pub struct IssueGetMilestonesListQuery {
    /// Milestone state, Recognized values are open, closed and all. Defaults to "open"
    pub state: Option<String>,
    /// filter by milestone name
    pub name: Option<String>,
}

impl IssueGetMilestonesListQuery {
    /// The query parameters, in order.
    pub open spec fn query_pairs(&self) -> Seq<(Seq<char>, Seq<char>)> {
        seq![]
            + opt_entry("state"@, opt_text(self.state))
            + opt_entry("name"@, opt_text(self.name))
    }

    /// The query parameters, in order.
    pub fn into_list(self) -> (list: QueryList)
        ensures
            pairs_view(list@) == self.query_pairs(),
    {
        let mut list: QueryList = Vec::new();
        assert(pairs_view(list@) =~= Seq::<(Seq<char>, Seq<char>)>::empty());
        push_opt_str(&mut list, "state", self.state);
        push_opt_str(&mut list, "name", self.name);
        list
    }
}

#[derive(Debug, Clone, PartialEq, Default)]
pub struct NotifyGetRepoListQuery {
    /// If true, show notifications marked as read. Default value is false
    pub all: Option<bool>,
    /// Show notifications with the provided status types. Options are: unread, read and/or pinned. Defaults to unread & pinned
    pub status_types: Option<Vec<String>>,
    /// filter notifications by subject type
    pub subject_type: Option<Vec<NotifyGetRepoListQuerySubjectType>>,
    /// Only show notifications updated after the given time. This is a timestamp in RFC 3339 format
    pub since: Option<time::OffsetDateTime>,
    /// Only show notifications updated before the given time. This is a timestamp in RFC 3339 format
    pub before: Option<time::OffsetDateTime>,
}

impl NotifyGetRepoListQuery {
    /// The query parameters, in order.
    pub open spec fn query_pairs(&self) -> Seq<(Seq<char>, Seq<char>)> {
        seq![]
            + opt_entry("all"@, opt_bool_text(self.all))
            + each_text("status-types"@, self.status_types)
            + each_wire("subject-type"@, self.subject_type)
            + opt_entry("since"@, opt_time_text(self.since))
            + opt_entry("before"@, opt_time_text(self.before))
    }

    /// Every timestamp present can be written in RFC 3339.
    pub open spec fn timestamps_writable(&self) -> bool {
        writable(self.since) && writable(self.before)
    }

    /// The query parameters, in order.
    pub fn into_list(self) -> (list: QueryList)
        requires
            self.timestamps_writable(),
        ensures
            pairs_view(list@) == self.query_pairs(),
    {
        let mut list: QueryList = Vec::new();
        assert(pairs_view(list@) =~= Seq::<(Seq<char>, Seq<char>)>::empty());
        push_opt_bool(&mut list, "all", self.all);
        push_each_str(&mut list, "status-types", self.status_types);
        push_each_wire(&mut list, "subject-type", self.subject_type);
        push_opt_time(&mut list, "since", self.since);
        push_opt_time(&mut list, "before", self.before);
        list
    }

    /// The query parameters, in order, or `None` when a timestamp cannot be
    /// written in RFC 3339.
    pub fn try_into_list(self) -> (list: Option<QueryList>)
        ensures
            list is Some <==> self.timestamps_writable(),
            list matches Some(l) ==> pairs_view(l@) == self.query_pairs(),
    {
        if let Some(t) = &self.since {
            if format_rfc3339(t).is_none() {
                return None;
            }
        }
        if let Some(t) = &self.before {
            if format_rfc3339(t).is_none() {
                return None;
            }
        }
        Some(self.into_list())
    }
}

#[derive(Debug, Clone, Copy, PartialEq, Eq, Structural)]
pub enum NotifyGetRepoListQuerySubjectType {
    Issue,
    Pull,
    Repository,
}

impl WireName for NotifyGetRepoListQuerySubjectType {
    open spec fn wire_name(&self) -> Seq<char> {
        match self {
            NotifyGetRepoListQuerySubjectType::Issue => "issue"@,
            NotifyGetRepoListQuerySubjectType::Pull => "pull"@,
            NotifyGetRepoListQuerySubjectType::Repository => "repository"@,
        }
    }

    fn as_str(&self) -> (s: &'static str) {
        match self {
            NotifyGetRepoListQuerySubjectType::Issue => "issue",
            NotifyGetRepoListQuerySubjectType::Pull => "pull",
            NotifyGetRepoListQuerySubjectType::Repository => "repository",
        }
    }
}

#[derive(Debug, Clone, PartialEq, Default)]
pub struct NotifyReadRepoListQuery {
    /// If true, mark all notifications on this repo. Default value is false
    pub all: Option<bool>,
    /// Mark notifications with the provided status types. Options are: unread, read and/or pinned. Defaults to unread.
    pub status_types: Option<Vec<String>>,
    /// Status to mark notifications as. Defaults to read.
    pub to_status: Option<String>,
    /// Describes the last point that notifications were checked. Anything updated since this time will not be updated.
    pub last_read_at: Option<time::OffsetDateTime>,
}

impl NotifyReadRepoListQuery {
    /// The query parameters, in order.
    pub open spec fn query_pairs(&self) -> Seq<(Seq<char>, Seq<char>)> {
        seq![]
            + opt_entry("all"@, opt_bool_text(self.all))
            + each_text("status-types"@, self.status_types)
            + opt_entry("to-status"@, opt_text(self.to_status))
            + opt_entry("last_read_at"@, opt_time_text(self.last_read_at))
    }

    /// Every timestamp present can be written in RFC 3339.
    pub open spec fn timestamps_writable(&self) -> bool {
        writable(self.last_read_at)
    }

    /// The query parameters, in order.
    pub fn into_list(self) -> (list: QueryList)
        requires
            self.timestamps_writable(),
        ensures
            pairs_view(list@) == self.query_pairs(),
    {
        let mut list: QueryList = Vec::new();
        assert(pairs_view(list@) =~= Seq::<(Seq<char>, Seq<char>)>::empty());
        push_opt_bool(&mut list, "all", self.all);
        push_each_str(&mut list, "status-types", self.status_types);
        push_opt_str(&mut list, "to-status", self.to_status);
        push_opt_time(&mut list, "last_read_at", self.last_read_at);
        list
    }

    /// The query parameters, in order, or `None` when a timestamp cannot be
    /// written in RFC 3339.
    pub fn try_into_list(self) -> (list: Option<QueryList>)
        ensures
            list is Some <==> self.timestamps_writable(),
            list matches Some(l) ==> pairs_view(l@) == self.query_pairs(),
    {
        if let Some(t) = &self.last_read_at {
            if format_rfc3339(t).is_none() {
                return None;
            }
        }
        Some(self.into_list())
    }
}

#[derive(Debug, Clone, PartialEq, Default)]
pub struct RepoListPullRequestsQuery {
    /// State of pull request
    pub state: Option<RepoListPullRequestsQueryState>,
    /// Type of sort
    pub sort: Option<RepoListPullRequestsQuerySort>,
    /// ID of the milestone
    pub milestone: Option<i64>,
    /// Label IDs
    pub labels: Option<Vec<i64>>,
    /// Filter by pull request author
    pub poster: Option<String>,
}

impl RepoListPullRequestsQuery {
    /// The query parameters, in order.
    pub open spec fn query_pairs(&self) -> Seq<(Seq<char>, Seq<char>)> {
        seq![]
            + opt_entry("state"@, opt_wire_text(self.state))
            + opt_entry("sort"@, opt_wire_text(self.sort))
            + opt_entry("milestone"@, opt_int_text(self.milestone))
            + each_int("labels"@, self.labels)
            + opt_entry("poster"@, opt_text(self.poster))
    }

    /// The query parameters, in order.
    pub fn into_list(self) -> (list: QueryList)
        ensures
            pairs_view(list@) == self.query_pairs(),
    {
        let mut list: QueryList = Vec::new();
        assert(pairs_view(list@) =~= Seq::<(Seq<char>, Seq<char>)>::empty());
        push_opt_wire(&mut list, "state", self.state);
        push_opt_wire(&mut list, "sort", self.sort);
        push_opt_i64(&mut list, "milestone", self.milestone);
        push_each_i64(&mut list, "labels", self.labels);
        push_opt_str(&mut list, "poster", self.poster);
        list
    }
}

#[derive(Debug, Clone, Copy, PartialEq, Eq, Structural)]
pub enum RepoListPullRequestsQueryState {
    Open,
    Closed,
    All,
}

impl WireName for RepoListPullRequestsQueryState {
    open spec fn wire_name(&self) -> Seq<char> {
        match self {
            RepoListPullRequestsQueryState::Open => "open"@,
            RepoListPullRequestsQueryState::Closed => "closed"@,
            RepoListPullRequestsQueryState::All => "all"@,
        }
    }

    fn as_str(&self) -> (s: &'static str) {
        match self {
            RepoListPullRequestsQueryState::Open => "open",
            RepoListPullRequestsQueryState::Closed => "closed",
            RepoListPullRequestsQueryState::All => "all",
        }
    }
}

#[derive(Debug, Clone, Copy, PartialEq, Eq, Structural)]
pub enum RepoListPullRequestsQuerySort {
    Oldest,
    Recentupdate,
    Recentclose,
    Leastupdate,
    Mostcomment,
    Leastcomment,
    Priority,
}

impl WireName for RepoListPullRequestsQuerySort {
    open spec fn wire_name(&self) -> Seq<char> {
        match self {
            RepoListPullRequestsQuerySort::Oldest => "oldest"@,
            RepoListPullRequestsQuerySort::Recentupdate => "recentupdate"@,
            RepoListPullRequestsQuerySort::Recentclose => "recentclose"@,
            RepoListPullRequestsQuerySort::Leastupdate => "leastupdate"@,
            RepoListPullRequestsQuerySort::Mostcomment => "mostcomment"@,
            RepoListPullRequestsQuerySort::Leastcomment => "leastcomment"@,
            RepoListPullRequestsQuerySort::Priority => "priority"@,
        }
    }

    fn as_str(&self) -> (s: &'static str) {
        match self {
            RepoListPullRequestsQuerySort::Oldest => "oldest",
            RepoListPullRequestsQuerySort::Recentupdate => "recentupdate",
            RepoListPullRequestsQuerySort::Recentclose => "recentclose",
            RepoListPullRequestsQuerySort::Leastupdate => "leastupdate",
            RepoListPullRequestsQuerySort::Mostcomment => "mostcomment",
            RepoListPullRequestsQuerySort::Leastcomment => "leastcomment",
            RepoListPullRequestsQuerySort::Priority => "priority",
        }
    }
}

#[derive(Debug, Clone, PartialEq, Default)]
pub struct RepoDownloadPullDiffOrPatchQuery {
    /// whether to include binary file changes. if true, the diff is applicable with `git apply`
    pub binary: Option<bool>,
}

impl RepoDownloadPullDiffOrPatchQuery {
    /// The query parameters, in order.
    pub open spec fn query_pairs(&self) -> Seq<(Seq<char>, Seq<char>)> {
        seq![]
            + opt_entry("binary"@, opt_bool_text(self.binary))
    }

    /// The query parameters, in order.
    pub fn into_list(self) -> (list: QueryList)
        ensures
            pairs_view(list@) == self.query_pairs(),
    {
        let mut list: QueryList = Vec::new();
        assert(pairs_view(list@) =~= Seq::<(Seq<char>, Seq<char>)>::empty());
        push_opt_bool(&mut list, "binary", self.binary);
        list
    }
}

#[derive(Debug, Clone, PartialEq, Default)]
pub struct RepoGetPullRequestCommitsQuery {
    /// include verification for every commit (disable for speedup, default 'true')
    pub verification: Option<bool>,
    /// include a list of affected files for every commit (disable for speedup, default 'true')
    pub files: Option<bool>,
}

impl RepoGetPullRequestCommitsQuery {
    /// The query parameters, in order.
    pub open spec fn query_pairs(&self) -> Seq<(Seq<char>, Seq<char>)> {
        seq![]
            + opt_entry("verification"@, opt_bool_text(self.verification))
            + opt_entry("files"@, opt_bool_text(self.files))
    }

    /// The query parameters, in order.
    pub fn into_list(self) -> (list: QueryList)
        ensures
            pairs_view(list@) == self.query_pairs(),
    {
        let mut list: QueryList = Vec::new();
        assert(pairs_view(list@) =~= Seq::<(Seq<char>, Seq<char>)>::empty());
        push_opt_bool(&mut list, "verification", self.verification);
        push_opt_bool(&mut list, "files", self.files);
        list
    }
}

#[derive(Debug, Clone, PartialEq, Default)]
pub struct RepoGetPullRequestFilesQuery {
    /// skip to given file
    pub skip_to: Option<String>,
    /// whitespace behavior
    pub whitespace: Option<RepoGetPullRequestFilesQueryWhitespace>,
}

impl RepoGetPullRequestFilesQuery {
    /// The query parameters, in order.
    pub open spec fn query_pairs(&self) -> Seq<(Seq<char>, Seq<char>)> {
        seq![]
            + opt_entry("skip-to"@, opt_text(self.skip_to))
            + opt_entry("whitespace"@, opt_wire_text(self.whitespace))
    }

    /// The query parameters, in order.
    pub fn into_list(self) -> (list: QueryList)
        ensures
            pairs_view(list@) == self.query_pairs(),
    {
        let mut list: QueryList = Vec::new();
        assert(pairs_view(list@) =~= Seq::<(Seq<char>, Seq<char>)>::empty());
        push_opt_str(&mut list, "skip-to", self.skip_to);
        push_opt_wire(&mut list, "whitespace", self.whitespace);
        list
    }
}

#[derive(Debug, Clone, Copy, PartialEq, Eq, Structural)]
pub enum RepoGetPullRequestFilesQueryWhitespace {
    IgnoreAll,
    IgnoreChange,
    IgnoreEol,
    ShowAll,
}

impl WireName for RepoGetPullRequestFilesQueryWhitespace {
    open spec fn wire_name(&self) -> Seq<char> {
        match self {
            RepoGetPullRequestFilesQueryWhitespace::IgnoreAll => "ignore-all"@,
            RepoGetPullRequestFilesQueryWhitespace::IgnoreChange => "ignore-change"@,
            RepoGetPullRequestFilesQueryWhitespace::IgnoreEol => "ignore-eol"@,
            RepoGetPullRequestFilesQueryWhitespace::ShowAll => "show-all"@,
        }
    }

    fn as_str(&self) -> (s: &'static str) {
        match self {
            RepoGetPullRequestFilesQueryWhitespace::IgnoreAll => "ignore-all",
            RepoGetPullRequestFilesQueryWhitespace::IgnoreChange => "ignore-change",
            RepoGetPullRequestFilesQueryWhitespace::IgnoreEol => "ignore-eol",
            RepoGetPullRequestFilesQueryWhitespace::ShowAll => "show-all",
        }
    }
}

#[derive(Debug, Clone, PartialEq, Default)]
pub struct RepoUpdatePullRequestQuery {
    /// how to update pull request
    pub style: Option<RepoUpdatePullRequestQueryStyle>,
}

impl RepoUpdatePullRequestQuery {
    /// The query parameters, in order.
    pub open spec fn query_pairs(&self) -> Seq<(Seq<char>, Seq<char>)> {
        seq![]
            + opt_entry("style"@, opt_wire_text(self.style))
    }

    /// The query parameters, in order.
    pub fn into_list(self) -> (list: QueryList)
        ensures
            pairs_view(list@) == self.query_pairs(),
    {
        let mut list: QueryList = Vec::new();
        assert(pairs_view(list@) =~= Seq::<(Seq<char>, Seq<char>)>::empty());
        push_opt_wire(&mut list, "style", self.style);
        list
    }
}

#[derive(Debug, Clone, Copy, PartialEq, Eq, Structural)]
pub enum RepoUpdatePullRequestQueryStyle {
    Merge,
    Rebase,
}

impl WireName for RepoUpdatePullRequestQueryStyle {
    open spec fn wire_name(&self) -> Seq<char> {
        match self {
            RepoUpdatePullRequestQueryStyle::Merge => "merge"@,
            RepoUpdatePullRequestQueryStyle::Rebase => "rebase"@,
        }
    }

    fn as_str(&self) -> (s: &'static str) {
        match self {
            RepoUpdatePullRequestQueryStyle::Merge => "merge",
            RepoUpdatePullRequestQueryStyle::Rebase => "rebase",
        }
    }
}

#[derive(Debug, Clone, PartialEq, Default)]
pub struct RepoGetRawFileQuery {
    /// The name of the commit/branch/tag. Default the repository’s default branch (usually master)
    pub ref_: Option<String>,
}

impl RepoGetRawFileQuery {
    /// The query parameters, in order.
    pub open spec fn query_pairs(&self) -> Seq<(Seq<char>, Seq<char>)> {
        seq![]
            + opt_entry("ref"@, opt_text(self.ref_))
    }

    /// The query parameters, in order.
    pub fn into_list(self) -> (list: QueryList)
        ensures
            pairs_view(list@) == self.query_pairs(),
    {
        let mut list: QueryList = Vec::new();
        assert(pairs_view(list@) =~= Seq::<(Seq<char>, Seq<char>)>::empty());
        push_opt_str(&mut list, "ref", self.ref_);
        list
    }
}

#[derive(Debug, Clone, PartialEq, Default)]
pub struct RepoListReleasesQuery {
    /// filter (exclude / include) drafts, if you dont have repo write access none will show
    pub draft: Option<bool>,
    /// filter (exclude / include) pre-releases
    pub pre_release: Option<bool>,
    /// Search string
    pub q: Option<String>,
}

impl RepoListReleasesQuery {
    /// The query parameters, in order.
    pub open spec fn query_pairs(&self) -> Seq<(Seq<char>, Seq<char>)> {
        seq![]
            + opt_entry("draft"@, opt_bool_text(self.draft))
            + opt_entry("pre-release"@, opt_bool_text(self.pre_release))
            + opt_entry("q"@, opt_text(self.q))
    }

    /// The query parameters, in order.
    pub fn into_list(self) -> (list: QueryList)
        ensures
            pairs_view(list@) == self.query_pairs(),
    {
        let mut list: QueryList = Vec::new();
        assert(pairs_view(list@) =~= Seq::<(Seq<char>, Seq<char>)>::empty());
        push_opt_bool(&mut list, "draft", self.draft);
        push_opt_bool(&mut list, "pre-release", self.pre_release);
        push_opt_str(&mut list, "q", self.q);
        list
    }
}

#[derive(Debug, Clone, PartialEq, Default)]
pub struct RepoCreateReleaseAttachmentQuery {
    /// name of the attachment
    pub name: Option<String>,
}

impl RepoCreateReleaseAttachmentQuery {
    /// The query parameters, in order.
    pub open spec fn query_pairs(&self) -> Seq<(Seq<char>, Seq<char>)> {
        seq![]
            + opt_entry("name"@, opt_text(self.name))
    }

    /// The query parameters, in order.
    pub fn into_list(self) -> (list: QueryList)
        ensures
            pairs_view(list@) == self.query_pairs(),
    {
        let mut list: QueryList = Vec::new();
        assert(pairs_view(list@) =~= Seq::<(Seq<char>, Seq<char>)>::empty());
        push_opt_str(&mut list, "name", self.name);
        list
    }
}

#[derive(Debug, Clone, PartialEq, Default)]
pub struct RepoListStatusesQuery {
    /// type of sort
    pub sort: Option<RepoListStatusesQuerySort>,
    /// type of state
    pub state: Option<RepoListStatusesQueryState>,
}

impl RepoListStatusesQuery {
    /// The query parameters, in order.
    pub open spec fn query_pairs(&self) -> Seq<(Seq<char>, Seq<char>)> {
        seq![]
            + opt_entry("sort"@, opt_wire_text(self.sort))
            + opt_entry("state"@, opt_wire_text(self.state))
    }

    /// The query parameters, in order.
    pub fn into_list(self) -> (list: QueryList)
        ensures
            pairs_view(list@) == self.query_pairs(),
    {
        let mut list: QueryList = Vec::new();
        assert(pairs_view(list@) =~= Seq::<(Seq<char>, Seq<char>)>::empty());
        push_opt_wire(&mut list, "sort", self.sort);
        push_opt_wire(&mut list, "state", self.state);
        list
    }
}

#[derive(Debug, Clone, Copy, PartialEq, Eq, Structural)]
pub enum RepoListStatusesQuerySort {
    Oldest,
    Recentupdate,
    Leastupdate,
    Leastindex,
    Highestindex,
}

impl WireName for RepoListStatusesQuerySort {
    open spec fn wire_name(&self) -> Seq<char> {
        match self {
            RepoListStatusesQuerySort::Oldest => "oldest"@,
            RepoListStatusesQuerySort::Recentupdate => "recentupdate"@,
            RepoListStatusesQuerySort::Leastupdate => "leastupdate"@,
            RepoListStatusesQuerySort::Leastindex => "leastindex"@,
            RepoListStatusesQuerySort::Highestindex => "highestindex"@,
        }
    }

    fn as_str(&self) -> (s: &'static str) {
        match self {
            RepoListStatusesQuerySort::Oldest => "oldest",
            RepoListStatusesQuerySort::Recentupdate => "recentupdate",
            RepoListStatusesQuerySort::Leastupdate => "leastupdate",
            RepoListStatusesQuerySort::Leastindex => "leastindex",
            RepoListStatusesQuerySort::Highestindex => "highestindex",
        }
    }
}

#[derive(Debug, Clone, Copy, PartialEq, Eq, Structural)]
pub enum RepoListStatusesQueryState {
    Pending,
    Success,
    Error,
    Failure,
    Warning,
}

impl WireName for RepoListStatusesQueryState {
    open spec fn wire_name(&self) -> Seq<char> {
        match self {
            RepoListStatusesQueryState::Pending => "pending"@,
            RepoListStatusesQueryState::Success => "success"@,
            RepoListStatusesQueryState::Error => "error"@,
            RepoListStatusesQueryState::Failure => "failure"@,
            RepoListStatusesQueryState::Warning => "warning"@,
        }
    }

    fn as_str(&self) -> (s: &'static str) {
        match self {
            RepoListStatusesQueryState::Pending => "pending",
            RepoListStatusesQueryState::Success => "success",
            RepoListStatusesQueryState::Error => "error",
            RepoListStatusesQueryState::Failure => "failure",
            RepoListStatusesQueryState::Warning => "warning",
        }
    }
}

#[derive(Debug, Clone, PartialEq, Default)]
pub struct RepoTrackedTimesQuery {
    /// optional filter by user (available for issue managers)
    pub user: Option<String>,
    /// Only show times updated after the given time. This is a timestamp in RFC 3339 format
    pub since: Option<time::OffsetDateTime>,
    /// Only show times updated before the given time. This is a timestamp in RFC 3339 format
    pub before: Option<time::OffsetDateTime>,
}

impl RepoTrackedTimesQuery {
    /// The query parameters, in order.
    pub open spec fn query_pairs(&self) -> Seq<(Seq<char>, Seq<char>)> {
        seq![]
            + opt_entry("user"@, opt_text(self.user))
            + opt_entry("since"@, opt_time_text(self.since))
            + opt_entry("before"@, opt_time_text(self.before))
    }

    /// Every timestamp present can be written in RFC 3339.
    pub open spec fn timestamps_writable(&self) -> bool {
        writable(self.since) && writable(self.before)
    }

    /// The query parameters, in order.
    pub fn into_list(self) -> (list: QueryList)
        requires
            self.timestamps_writable(),
        ensures
            pairs_view(list@) == self.query_pairs(),
    {
        let mut list: QueryList = Vec::new();
        assert(pairs_view(list@) =~= Seq::<(Seq<char>, Seq<char>)>::empty());
        push_opt_str(&mut list, "user", self.user);
        push_opt_time(&mut list, "since", self.since);
        push_opt_time(&mut list, "before", self.before);
        list
    }

    /// The query parameters, in order, or `None` when a timestamp cannot be
    /// written in RFC 3339.
    pub fn try_into_list(self) -> (list: Option<QueryList>)
        ensures
            list is Some <==> self.timestamps_writable(),
            list matches Some(l) ==> pairs_view(l@) == self.query_pairs(),
    {
        if let Some(t) = &self.since {
            if format_rfc3339(t).is_none() {
                return None;
            }
        }
        if let Some(t) = &self.before {
            if format_rfc3339(t).is_none() {
                return None;
            }
        }
        Some(self.into_list())
    }
}

#[derive(Debug, Clone, PartialEq, Default)]
pub struct OrgListTeamActivityFeedsQuery {
    /// the date of the activities to be found
    pub date: Option<time::Date>,
}

impl OrgListTeamActivityFeedsQuery {
    /// The query parameters, in order.
    pub open spec fn query_pairs(&self) -> Seq<(Seq<char>, Seq<char>)> {
        seq![]
            + opt_entry("date"@, opt_date_text(self.date))
    }

    /// The query parameters, in order.
    pub fn into_list(self) -> (list: QueryList)
        ensures
            pairs_view(list@) == self.query_pairs(),
    {
        let mut list: QueryList = Vec::new();
        assert(pairs_view(list@) =~= Seq::<(Seq<char>, Seq<char>)>::empty());
        push_opt_date(&mut list, "date", self.date);
        list
    }
}

#[derive(Debug, Clone, PartialEq)]
pub struct TopicSearchQuery {
    /// keyword to search for
    pub q: String,
}

impl TopicSearchQuery {
    /// The query parameters, in order.
    pub open spec fn query_pairs(&self) -> Seq<(Seq<char>, Seq<char>)> {
        seq![]
            + seq![("q"@, self.q@)]
    }

    /// The query parameters, in order.
    pub fn into_list(self) -> (list: QueryList)
        ensures
            pairs_view(list@) == self.query_pairs(),
    {
        let mut list: QueryList = Vec::new();
        assert(pairs_view(list@) =~= Seq::<(Seq<char>, Seq<char>)>::empty());
        push_entry(&mut list, "q", self.q);
        list
    }
}

#[derive(Debug, Clone, PartialEq)]
pub struct TopicSearchResults {
    pub topics: Option<Vec<TopicResponse>>,
}

#[derive(Debug, Clone, PartialEq, Default)]
pub struct UserSearchRunJobsQuery {
    /// a comma separated list of run job labels to search for
    pub labels: Option<String>,
}

impl UserSearchRunJobsQuery {
    /// The query parameters, in order.
    pub open spec fn query_pairs(&self) -> Seq<(Seq<char>, Seq<char>)> {
        seq![]
            + opt_entry("labels"@, opt_text(self.labels))
    }

    /// The query parameters, in order.
    pub fn into_list(self) -> (list: QueryList)
        ensures
            pairs_view(list@) == self.query_pairs(),
    {
        let mut list: QueryList = Vec::new();
        assert(pairs_view(list@) =~= Seq::<(Seq<char>, Seq<char>)>::empty());
        push_opt_str(&mut list, "labels", self.labels);
        list
    }
}

#[derive(Debug, Clone, PartialEq, Default)]
pub struct UserCurrentListKeysQuery {
    /// fingerprint of the key
    pub fingerprint: Option<String>,
}

impl UserCurrentListKeysQuery {
    /// The query parameters, in order.
    pub open spec fn query_pairs(&self) -> Seq<(Seq<char>, Seq<char>)> {
        seq![]
            + opt_entry("fingerprint"@, opt_text(self.fingerprint))
    }

    /// The query parameters, in order.
    pub fn into_list(self) -> (list: QueryList)
        ensures
            pairs_view(list@) == self.query_pairs(),
    {
        let mut list: QueryList = Vec::new();
        assert(pairs_view(list@) =~= Seq::<(Seq<char>, Seq<char>)>::empty());
        push_opt_str(&mut list, "fingerprint", self.fingerprint);
        list
    }
}

#[derive(Debug, Clone, PartialEq)]
pub struct UserCheckQuotaQuery {
    /// subject of the quota
    pub subject: String,
}

impl UserCheckQuotaQuery {
    /// The query parameters, in order.
    pub open spec fn query_pairs(&self) -> Seq<(Seq<char>, Seq<char>)> {
        seq![]
            + seq![("subject"@, self.subject@)]
    }

    /// The query parameters, in order.
    pub fn into_list(self) -> (list: QueryList)
        ensures
            pairs_view(list@) == self.query_pairs(),
    {
        let mut list: QueryList = Vec::new();
        assert(pairs_view(list@) =~= Seq::<(Seq<char>, Seq<char>)>::empty());
        push_entry(&mut list, "subject", self.subject);
        list
    }
}

#[derive(Debug, Clone, PartialEq, Default)]
pub struct UserCurrentListReposQuery {
    /// order the repositories
    pub order_by: Option<UserCurrentListReposQueryOrderBy>,
}

impl UserCurrentListReposQuery {
    /// The query parameters, in order.
    pub open spec fn query_pairs(&self) -> Seq<(Seq<char>, Seq<char>)> {
        seq![]
            + opt_entry("order_by"@, opt_wire_text(self.order_by))
    }

    /// The query parameters, in order.
    pub fn into_list(self) -> (list: QueryList)
        ensures
            pairs_view(list@) == self.query_pairs(),
    {
        let mut list: QueryList = Vec::new();
        assert(pairs_view(list@) =~= Seq::<(Seq<char>, Seq<char>)>::empty());
        push_opt_wire(&mut list, "order_by", self.order_by);
        list
    }
}

#[derive(Debug, Clone, Copy, PartialEq, Eq, Structural)]
pub enum UserCurrentListReposQueryOrderBy {
    Name,
    Id,
    Newest,
    Oldest,
    Recentupdate,
    Leastupdate,
    Reversealphabetically,
    Alphabetically,
    Reversesize,
    Size,
    Reversegitsize,
    Gitsize,
    Reverselfssize,
    Lfssize,
    Moststars,
    Feweststars,
    Mostforks,
    Fewestforks,
}

impl WireName for UserCurrentListReposQueryOrderBy {
    open spec fn wire_name(&self) -> Seq<char> {
        match self {
            UserCurrentListReposQueryOrderBy::Name => "name"@,
            UserCurrentListReposQueryOrderBy::Id => "id"@,
            UserCurrentListReposQueryOrderBy::Newest => "newest"@,
            UserCurrentListReposQueryOrderBy::Oldest => "oldest"@,
            UserCurrentListReposQueryOrderBy::Recentupdate => "recentupdate"@,
            UserCurrentListReposQueryOrderBy::Leastupdate => "leastupdate"@,
            UserCurrentListReposQueryOrderBy::Reversealphabetically => "reversealphabetically"@,
            UserCurrentListReposQueryOrderBy::Alphabetically => "alphabetically"@,
            UserCurrentListReposQueryOrderBy::Reversesize => "reversesize"@,
            UserCurrentListReposQueryOrderBy::Size => "size"@,
            UserCurrentListReposQueryOrderBy::Reversegitsize => "reversegitsize"@,
            UserCurrentListReposQueryOrderBy::Gitsize => "gitsize"@,
            UserCurrentListReposQueryOrderBy::Reverselfssize => "reverselfssize"@,
            UserCurrentListReposQueryOrderBy::Lfssize => "lfssize"@,
            UserCurrentListReposQueryOrderBy::Moststars => "moststars"@,
            UserCurrentListReposQueryOrderBy::Feweststars => "feweststars"@,
            UserCurrentListReposQueryOrderBy::Mostforks => "mostforks"@,
            UserCurrentListReposQueryOrderBy::Fewestforks => "fewestforks"@,
        }
    }

    fn as_str(&self) -> (s: &'static str) {
        match self {
            UserCurrentListReposQueryOrderBy::Name => "name",
            UserCurrentListReposQueryOrderBy::Id => "id",
            UserCurrentListReposQueryOrderBy::Newest => "newest",
            UserCurrentListReposQueryOrderBy::Oldest => "oldest",
            UserCurrentListReposQueryOrderBy::Recentupdate => "recentupdate",
            UserCurrentListReposQueryOrderBy::Leastupdate => "leastupdate",
            UserCurrentListReposQueryOrderBy::Reversealphabetically => "reversealphabetically",
            UserCurrentListReposQueryOrderBy::Alphabetically => "alphabetically",
            UserCurrentListReposQueryOrderBy::Reversesize => "reversesize",
            UserCurrentListReposQueryOrderBy::Size => "size",
            UserCurrentListReposQueryOrderBy::Reversegitsize => "reversegitsize",
            UserCurrentListReposQueryOrderBy::Gitsize => "gitsize",
            UserCurrentListReposQueryOrderBy::Reverselfssize => "reverselfssize",
            UserCurrentListReposQueryOrderBy::Lfssize => "lfssize",
            UserCurrentListReposQueryOrderBy::Moststars => "moststars",
            UserCurrentListReposQueryOrderBy::Feweststars => "feweststars",
            UserCurrentListReposQueryOrderBy::Mostforks => "mostforks",
            UserCurrentListReposQueryOrderBy::Fewestforks => "fewestforks",
        }
    }
}

#[derive(Debug, Clone, PartialEq, Default)]
pub struct UserCurrentTrackedTimesQuery {
    /// Only show times updated after the given time. This is a timestamp in RFC 3339 format
    pub since: Option<time::OffsetDateTime>,
    /// Only show times updated before the given time. This is a timestamp in RFC 3339 format
    pub before: Option<time::OffsetDateTime>,
}

impl UserCurrentTrackedTimesQuery {
    /// The query parameters, in order.
    pub open spec fn query_pairs(&self) -> Seq<(Seq<char>, Seq<char>)> {
        seq![]
            + opt_entry("since"@, opt_time_text(self.since))
            + opt_entry("before"@, opt_time_text(self.before))
    }

    /// Every timestamp present can be written in RFC 3339.
    pub open spec fn timestamps_writable(&self) -> bool {
        writable(self.since) && writable(self.before)
    }

    /// The query parameters, in order.
    pub fn into_list(self) -> (list: QueryList)
        requires
            self.timestamps_writable(),
        ensures
            pairs_view(list@) == self.query_pairs(),
    {
        let mut list: QueryList = Vec::new();
        assert(pairs_view(list@) =~= Seq::<(Seq<char>, Seq<char>)>::empty());
        push_opt_time(&mut list, "since", self.since);
        push_opt_time(&mut list, "before", self.before);
        list
    }

    /// The query parameters, in order, or `None` when a timestamp cannot be
    /// written in RFC 3339.
    pub fn try_into_list(self) -> (list: Option<QueryList>)
        ensures
            list is Some <==> self.timestamps_writable(),
            list matches Some(l) ==> pairs_view(l@) == self.query_pairs(),
    {
        if let Some(t) = &self.since {
            if format_rfc3339(t).is_none() {
                return None;
            }
        }
        if let Some(t) = &self.before {
            if format_rfc3339(t).is_none() {
                return None;
            }
        }
        Some(self.into_list())
    }
}

#[derive(Debug, Clone, PartialEq, Default)]
pub struct UserSearchQuery {
    /// keyword
    pub q: Option<String>,
    /// ID of the user to search for
    pub uid: Option<i64>,
    /// sort order of results
    pub sort: Option<UserSearchQuerySort>,
}

impl UserSearchQuery {
    /// The query parameters, in order.
    pub open spec fn query_pairs(&self) -> Seq<(Seq<char>, Seq<char>)> {
        seq![]
            + opt_entry("q"@, opt_text(self.q))
            + opt_entry("uid"@, opt_int_text(self.uid))
            + opt_entry("sort"@, opt_wire_text(self.sort))
    }

    /// The query parameters, in order.
    pub fn into_list(self) -> (list: QueryList)
        ensures
            pairs_view(list@) == self.query_pairs(),
    {
        let mut list: QueryList = Vec::new();
        assert(pairs_view(list@) =~= Seq::<(Seq<char>, Seq<char>)>::empty());
        push_opt_str(&mut list, "q", self.q);
        push_opt_i64(&mut list, "uid", self.uid);
        push_opt_wire(&mut list, "sort", self.sort);
        list
    }
}

#[derive(Debug, Clone, Copy, PartialEq, Eq, Structural)]
pub enum UserSearchQuerySort {
    Oldest,
    Newest,
    Alphabetically,
    Reversealphabetically,
    Recentupdate,
    Leastupdate,
}

impl WireName for UserSearchQuerySort {
    open spec fn wire_name(&self) -> Seq<char> {
        match self {
            UserSearchQuerySort::Oldest => "oldest"@,
            UserSearchQuerySort::Newest => "newest"@,
            UserSearchQuerySort::Alphabetically => "alphabetically"@,
            UserSearchQuerySort::Reversealphabetically => "reversealphabetically"@,
            UserSearchQuerySort::Recentupdate => "recentupdate"@,
            UserSearchQuerySort::Leastupdate => "leastupdate"@,
        }
    }

    fn as_str(&self) -> (s: &'static str) {
        match self {
            UserSearchQuerySort::Oldest => "oldest",
            UserSearchQuerySort::Newest => "newest",
            UserSearchQuerySort::Alphabetically => "alphabetically",
            UserSearchQuerySort::Reversealphabetically => "reversealphabetically",
            UserSearchQuerySort::Recentupdate => "recentupdate",
            UserSearchQuerySort::Leastupdate => "leastupdate",
        }
    }
}

#[derive(Debug, Clone, PartialEq)]
pub struct UserSearchResults {
    pub data: Option<Vec<User>>,
    pub ok: Option<bool>,
}

#[derive(Debug, Clone, PartialEq, Default)]
pub struct UserListActivityFeedsQuery {
    /// if true, only show actions performed by the requested user
    pub only_performed_by: Option<bool>,
    /// the date of the activities to be found
    pub date: Option<time::Date>,
}

impl UserListActivityFeedsQuery {
    /// The query parameters, in order.
    pub open spec fn query_pairs(&self) -> Seq<(Seq<char>, Seq<char>)> {
        seq![]
            + opt_entry("only-performed-by"@, opt_bool_text(self.only_performed_by))
            + opt_entry("date"@, opt_date_text(self.date))
    }

    /// The query parameters, in order.
    pub fn into_list(self) -> (list: QueryList)
        ensures
            pairs_view(list@) == self.query_pairs(),
    {
        let mut list: QueryList = Vec::new();
        assert(pairs_view(list@) =~= Seq::<(Seq<char>, Seq<char>)>::empty());
        push_opt_bool(&mut list, "only-performed-by", self.only_performed_by);
        push_opt_date(&mut list, "date", self.date);
        list
    }
}

#[derive(Debug, Clone, PartialEq, Default)]
pub struct UserListKeysQuery {
    /// fingerprint of the key
    pub fingerprint: Option<String>,
}

impl UserListKeysQuery {
    /// The query parameters, in order.
    pub open spec fn query_pairs(&self) -> Seq<(Seq<char>, Seq<char>)> {
        seq![]
            + opt_entry("fingerprint"@, opt_text(self.fingerprint))
    }

    /// The query parameters, in order.
    pub fn into_list(self) -> (list: QueryList)
        ensures
            pairs_view(list@) == self.query_pairs(),
    {
        let mut list: QueryList = Vec::new();
        assert(pairs_view(list@) =~= Seq::<(Seq<char>, Seq<char>)>::empty());
        push_opt_str(&mut list, "fingerprint", self.fingerprint);
        list
    }
}

} // verus!
