//! Request constructors, one per endpoint.
use vstd::prelude::*;
use super::structs::{
    AccessToken,
    AccessTokenListHeaders,
    ActionRun,
    ActionRunJob,
    ActionTaskResponse,
    ActionVariable,
    Activity,
    ActivityFeedsListHeaders,
    ActivityPub,
    AddCollaboratorOption,
    AddTimeOption,
    AdminDeleteUserQuery,
    AdminSearchEmailsQuery,
    AdminSearchRunJobsQuery,
    AdminSearchUsersQuery,
    AdminUnadoptedListQuery,
    AnnotatedTag,
    Attachment,
    BlockedUser,
    BlockedUserListHeaders,
    Branch,
    BranchListHeaders,
    BranchProtection,
    ChangeFilesOptions,
    ChangedFile,
    ChangedFileListWithPaginationHeaders,
    CombinedStatus,
    CombinedStatusHeaders,
    Comment,
    CommentListHeaders,
    Commit,
    CommitListHeaders,
    CommitStatus,
    CommitStatusListHeaders,
    Compare,
    ContentsResponse,
    CreateAccessTokenOption,
    CreateBranchProtectionOption,
    CreateBranchRepoOption,
    CreateEmailOption,
    CreateFileOptions,
    CreateForkOption,
    CreateGPGKeyOption,
    CreateHookOption,
    CreateIssueCommentOption,
    CreateIssueOption,
    CreateKeyOption,
    CreateLabelOption,
    CreateMilestoneOption,
    CreateOAuth2ApplicationOptions,
    CreateOrUpdateSecretOption,
    CreateOrgOption,
    CreatePullRequestOption,
    CreatePullReviewOptions,
    CreatePushMirrorOption,
    CreateQuotaGroupOptions,
    CreateQuotaRuleOptions,
    CreateReleaseOption,
    CreateRepoOption,
    CreateStatusOption,
    CreateTagOption,
    CreateTagProtectionOption,
    CreateTeamOption,
    CreateUserOption,
    CreateVariableOption,
    CreateWikiPageOptions,
    Cron,
    CronListHeaders,
    DeleteEmailOption,
    DeleteFileOptions,
    DeleteLabelsOption,
    DeployKey,
    DeployKeyListHeaders,
    DismissPullReviewOptions,
    DispatchWorkflowOption,
    DispatchWorkflowRun,
    EditAttachmentOptions,
    EditBranchProtectionOption,
    EditDeadlineOption,
    EditGitHookOption,
    EditHookOption,
    EditIssueCommentOption,
    EditIssueOption,
    EditLabelOption,
    EditMilestoneOption,
    EditOrgOption,
    EditPullRequestOption,
    EditQuotaRuleOptions,
    EditReactionOption,
    EditReleaseOption,
    EditRepoOption,
    EditTagProtectionOption,
    EditTeamOption,
    EditUserOption,
    Email,
    FileDeleteResponse,
    FileResponse,
    FilesResponse,
    ForgeLike,
    ForgeOutbox,
    GPGKey,
    GeneralAPISettings,
    GeneralAttachmentSettings,
    GeneralRepoSettings,
    GeneralUISettings,
    GenerateRepoOption,
    GetBlobsQuery,
    GetTreeQuery,
    GitBlob,
    GitHook,
    GitTreeResponse,
    GitignoreTemplateInfo,
    GpgKeyListHeaders,
    Hook,
    HookListHeaders,
    Issue,
    IssueConfig,
    IssueConfigValidation,
    IssueCreateIssueAttachmentQuery,
    IssueCreateIssueCommentAttachmentQuery,
    IssueDeadline,
    IssueGetCommentsAndTimelineQuery,
    IssueGetCommentsQuery,
    IssueGetMilestonesListQuery,
    IssueGetRepoCommentsQuery,
    IssueLabelsOption,
    IssueListHeaders,
    IssueListIssuesQuery,
    IssueListLabelsQuery,
    IssueMeta,
    IssueSearchIssuesQuery,
    IssueTemplate,
    IssueTrackedTimesQuery,
    Label,
    LabelListHeaders,
    LabelTemplate,
    LicenseTemplateInfo,
    LicensesTemplateListEntry,
    ListActionRunResponse,
    ListActionRunsQuery,
    ListPackagesQuery,
    MarkdownOption,
    MarkupOption,
    MergePullRequestOption,
    MigrateRepoOptions,
    Milestone,
    MilestoneListHeaders,
    NewIssuePinsAllowed,
    NodeInfo,
    Note,
    NoteOptions,
    NotificationCount,
    NotificationThread,
    NotificationThreadListHeaders,
    NotifyGetListQuery,
    NotifyGetRepoListQuery,
    NotifyReadListQuery,
    NotifyReadRepoListQuery,
    NotifyReadThreadQuery,
    OAuth2Application,
    OAuth2ApplicationListHeaders,
    OrgCheckQuotaQuery,
    OrgListActivityFeedsQuery,
    OrgListLabelsQuery,
    OrgListTeamActivityFeedsQuery,
    OrgSearchRunJobsQuery,
    Organization,
    OrganizationListHeaders,
    OrganizationPermissions,
    Package,
    PackageFile,
    PackageListHeaders,
    PublicKey,
    PublicKeyListHeaders,
    PullRequest,
    PullRequestListHeaders,
    PullReview,
    PullReviewComment,
    PullReviewListHeaders,
    PullReviewRequestOptions,
    PushMirror,
    PushMirrorListHeaders,
    QuotaGroup,
    QuotaInfo,
    QuotaRuleInfo,
    QuotaUsedArtifact,
    QuotaUsedArtifactListHeaders,
    QuotaUsedAttachment,
    QuotaUsedAttachmentListHeaders,
    QuotaUsedPackage,
    QuotaUsedPackageListHeaders,
    Reaction,
    ReactionListHeaders,
    Reference,
    RegistrationToken,
    Release,
    ReleaseListHeaders,
    RenameOrgOption,
    RenameUserOption,
    ReplaceFlagsOption,
    RepoCollaboratorPermission,
    RepoCreateReleaseAttachmentQuery,
    RepoDownloadPullDiffOrPatchQuery,
    RepoGetAllCommitsQuery,
    RepoGetContentsListQuery,
    RepoGetContentsQuery,
    RepoGetEditorConfigQuery,
    RepoGetNoteQuery,
    RepoGetPullRequestCommitsQuery,
    RepoGetPullRequestFilesQuery,
    RepoGetRawFileOrLfsQuery,
    RepoGetRawFileQuery,
    RepoGetSingleCommitQuery,
    RepoListActivityFeedsQuery,
    RepoListKeysQuery,
    RepoListPullRequestsQuery,
    RepoListReleasesQuery,
    RepoListStatusesByRefQuery,
    RepoListStatusesQuery,
    RepoSearchQuery,
    RepoSearchRunJobsQuery,
    RepoTestHookQuery,
    RepoTopicOptions,
    RepoTrackedTimesQuery,
    RepoTransfer,
    RepoUpdatePullRequestQuery,
    Repository,
    RepositoryListHeaders,
    SearchResults,
    Secret,
    SecretListHeaders,
    ServerVersion,
    SetUserQuotaGroupsOptions,
    StopWatch,
    StopWatchListHeaders,
    SubmitPullReviewOptions,
    SyncForkInfo,
    Tag,
    TagListHeaders,
    TagProtection,
    Team,
    TeamListHeaders,
    TeamSearchQuery,
    TeamSearchResults,
    TimelineComment,
    TimelineListHeaders,
    TopicName,
    TopicSearchQuery,
    TopicSearchResults,
    TrackedTime,
    TrackedTimeListHeaders,
    TransferRepoOption,
    UpdateBranchRepoOption,
    UpdateFileOptions,
    UpdateRepoAvatarOption,
    UpdateUserAvatarOption,
    UpdateVariableOption,
    User,
    UserCheckQuotaQuery,
    UserCurrentListKeysQuery,
    UserCurrentListReposQuery,
    UserCurrentTrackedTimesQuery,
    UserHeatmapData,
    UserListActivityFeedsQuery,
    UserListHeaders,
    UserListKeysQuery,
    UserSearchQuery,
    UserSearchResults,
    UserSearchRunJobsQuery,
    UserSettings,
    UserSettingsOptions,
    VariableListHeaders,
    VerifyGPGKeyOption,
    WatchInfo,
    WikiCommitList,
    WikiCommitListHeaders,
    WikiPage,
    WikiPageListHeaders,
    WikiPageMetaData,
};
use super::{endpoints, Forgejo, Request};
use std::collections::BTreeMap;

verus! {

impl Forgejo {
    /// Returns the instance's Actor
    pub fn activitypub_instance_actor(&self) -> (r: Request<'_, endpoints::ActivitypubInstanceActor, ActivityPub>)
        ensures
            r.client == self,
    {
        Request {
            client: self,
            endpoint: endpoints::ActivitypubInstanceActor {},
            response: core::marker::PhantomData,
        }
    }

    /// Send to the inbox
    pub fn activitypub_instance_actor_inbox(&self) -> (r: Request<'_, endpoints::ActivitypubInstanceActorInbox, ()>)
        ensures
            r.client == self,
    {
        Request {
            client: self,
            endpoint: endpoints::ActivitypubInstanceActorInbox {},
            response: core::marker::PhantomData,
        }
    }

    /// Display the outbox (always empty)
    pub fn activitypub_instance_actor_outbox(&self) -> (r: Request<'_, endpoints::ActivitypubInstanceActorOutbox, bytes::Bytes>)
        ensures
            r.client == self,
    {
        Request {
            client: self,
            endpoint: endpoints::ActivitypubInstanceActorOutbox {},
            response: core::marker::PhantomData,
        }
    }

    /// Returns the Repository actor for a repo
    ///
    /// - `repository-id`: repository ID of the repo
    pub fn activitypub_repository(&self, repository_id: i64) -> (r: Request<'_, endpoints::ActivitypubRepository, ActivityPub>)
        ensures
            r.client == self,
            r.endpoint.repository_id == repository_id,
    {
        Request {
            client: self,
            endpoint: endpoints::ActivitypubRepository {
                repository_id: repository_id,
            },
            response: core::marker::PhantomData,
        }
    }

    /// Send to the inbox
    ///
    /// - `repository-id`: repository ID of the repo
    /// - `body`: See [`ForgeLike`]
    pub fn activitypub_repository_inbox(&self, repository_id: i64, body: ForgeLike) -> (r: Request<'_, endpoints::ActivitypubRepositoryInbox, ()>)
        ensures
            r.client == self,
            r.endpoint.repository_id == repository_id,
            r.endpoint.body == body,
    {
        Request {
            client: self,
            endpoint: endpoints::ActivitypubRepositoryInbox {
                repository_id: repository_id,
                body: body,
            },
            response: core::marker::PhantomData,
        }
    }

    /// Display the outbox
    ///
    /// - `repository-id`: repository ID of the repo
    pub fn activitypub_repository_outbox(&self, repository_id: i64) -> (r: Request<'_, endpoints::ActivitypubRepositoryOutbox, bytes::Bytes>)
        ensures
            r.client == self,
            r.endpoint.repository_id == repository_id,
    {
        Request {
            client: self,
            endpoint: endpoints::ActivitypubRepositoryOutbox {
                repository_id: repository_id,
            },
            response: core::marker::PhantomData,
        }
    }

    /// Returns the Person actor for a user
    ///
    /// - `user-id`: user ID of the user
    pub fn activitypub_person(&self, user_id: i64) -> (r: Request<'_, endpoints::ActivitypubPerson, ActivityPub>)
        ensures
            r.client == self,
            r.endpoint.user_id == user_id,
    {
        Request {
            client: self,
            endpoint: endpoints::ActivitypubPerson {
                user_id: user_id,
            },
            response: core::marker::PhantomData,
        }
    }

    /// Get a specific activity object of the user
    ///
    /// - `user-id`: user ID of the user
    /// - `activity-id`: activity ID of the sought activity
    pub fn activitypub_person_activity_note(&self, user_id: u32, activity_id: u32) -> (r: Request<'_, endpoints::ActivitypubPersonActivityNote, ActivityPub>)
        ensures
            r.client == self,
            r.endpoint.user_id == user_id,
            r.endpoint.activity_id == activity_id,
    {
        Request {
            client: self,
            endpoint: endpoints::ActivitypubPersonActivityNote {
                user_id: user_id,
                activity_id: activity_id,
            },
            response: core::marker::PhantomData,
        }
    }

    /// Get a specific activity of the user
    ///
    /// - `user-id`: user ID of the user
    /// - `activity-id`: activity ID of the sought activity
    pub fn activitypub_person_activity(&self, user_id: u32, activity_id: u32) -> (r: Request<'_, endpoints::ActivitypubPersonActivity, ActivityPub>)
        ensures
            r.client == self,
            r.endpoint.user_id == user_id,
            r.endpoint.activity_id == activity_id,
    {
        Request {
            client: self,
            endpoint: endpoints::ActivitypubPersonActivity {
                user_id: user_id,
                activity_id: activity_id,
            },
            response: core::marker::PhantomData,
        }
    }

    /// Send to the inbox
    ///
    /// - `user-id`: user ID of the user
    pub fn activitypub_person_inbox(&self, user_id: i64) -> (r: Request<'_, endpoints::ActivitypubPersonInbox, ()>)
        ensures
            r.client == self,
            r.endpoint.user_id == user_id,
    {
        Request {
            client: self,
            endpoint: endpoints::ActivitypubPersonInbox {
                user_id: user_id,
            },
            response: core::marker::PhantomData,
        }
    }

    /// List the user's recorded activity
    ///
    /// - `user-id`: user ID of the user
    pub fn activitypub_person_feed(&self, user_id: u32) -> (r: Request<'_, endpoints::ActivitypubPersonFeed, ForgeOutbox>)
        ensures
            r.client == self,
            r.endpoint.user_id == user_id,
    {
        Request {
            client: self,
            endpoint: endpoints::ActivitypubPersonFeed {
                user_id: user_id,
            },
            response: core::marker::PhantomData,
        }
    }

    /// List cron tasks
    ///
    pub fn admin_cron_list(&self) -> (r: Request<'_, endpoints::AdminCronList, (CronListHeaders, Vec<Cron>)>)
        ensures
            r.client == self,
    {
        Request {
            client: self,
            endpoint: endpoints::AdminCronList {},
            response: core::marker::PhantomData,
        }
    }

    /// Run cron task
    ///
    /// - `task`: task to run
    pub fn admin_cron_run(&self, task: &str) -> (r: Request<'_, endpoints::AdminCronRun, ()>)
        ensures
            r.client == self,
            r.endpoint.task@ == task@,
    {
        Request {
            client: self,
            endpoint: endpoints::AdminCronRun {
                task: task.to_owned(),
            },
            response: core::marker::PhantomData,
        }
    }

    /// List all users' email addresses
    ///
    pub fn admin_get_all_emails(&self) -> (r: Request<'_, endpoints::AdminGetAllEmails, Vec<Email>>)
        ensures
            r.client == self,
    {
        Request {
            client: self,
            endpoint: endpoints::AdminGetAllEmails {},
            response: core::marker::PhantomData,
        }
    }

    /// Search users' email addresses
    ///
    pub fn admin_search_emails(&self, query: AdminSearchEmailsQuery) -> (r: Request<'_, endpoints::AdminSearchEmails, Vec<Email>>)
        ensures
            r.client == self,
            r.endpoint.query == query,
    {
        Request {
            client: self,
            endpoint: endpoints::AdminSearchEmails {
                query: query,
            },
            response: core::marker::PhantomData,
        }
    }

    /// List global (system) webhooks
    ///
    pub fn admin_list_hooks(&self) -> (r: Request<'_, endpoints::AdminListHooks, Vec<Hook>>)
        ensures
            r.client == self,
    {
        Request {
            client: self,
            endpoint: endpoints::AdminListHooks {},
            response: core::marker::PhantomData,
        }
    }

    /// Create a hook
    ///
    /// - `body`: See [`CreateHookOption`]
    pub fn admin_create_hook(&self, body: CreateHookOption) -> (r: Request<'_, endpoints::AdminCreateHook, Hook>)
        ensures
            r.client == self,
            r.endpoint.body == body,
    {
        Request {
            client: self,
            endpoint: endpoints::AdminCreateHook {
                body: body,
            },
            response: core::marker::PhantomData,
        }
    }

    /// Get a hook
    ///
    /// - `id`: id of the hook to get
    pub fn admin_get_hook(&self, id: i64) -> (r: Request<'_, endpoints::AdminGetHook, Hook>)
        ensures
            r.client == self,
            r.endpoint.id == id,
    {
        Request {
            client: self,
            endpoint: endpoints::AdminGetHook {
                id: id,
            },
            response: core::marker::PhantomData,
        }
    }

    /// Delete a hook
    ///
    /// - `id`: id of the hook to delete
    pub fn admin_delete_hook(&self, id: i64) -> (r: Request<'_, endpoints::AdminDeleteHook, ()>)
        ensures
            r.client == self,
            r.endpoint.id == id,
    {
        Request {
            client: self,
            endpoint: endpoints::AdminDeleteHook {
                id: id,
            },
            response: core::marker::PhantomData,
        }
    }

    /// Update a hook
    ///
    /// - `id`: id of the hook to update
    /// - `body`: See [`EditHookOption`]
    pub fn admin_edit_hook(&self, id: i64, body: EditHookOption) -> (r: Request<'_, endpoints::AdminEditHook, Hook>)
        ensures
            r.client == self,
            r.endpoint.id == id,
            r.endpoint.body == body,
    {
        Request {
            client: self,
            endpoint: endpoints::AdminEditHook {
                id: id,
                body: body,
            },
            response: core::marker::PhantomData,
        }
    }

    /// List all organizations
    ///
    pub fn admin_get_all_orgs(&self) -> (r: Request<'_, endpoints::AdminGetAllOrgs, (OrganizationListHeaders, Vec<Organization>)>)
        ensures
            r.client == self,
    {
        Request {
            client: self,
            endpoint: endpoints::AdminGetAllOrgs {},
            response: core::marker::PhantomData,
        }
    }

    /// List the available quota groups
    pub fn admin_list_quota_groups(&self) -> (r: Request<'_, endpoints::AdminListQuotaGroups, Vec<QuotaGroup>>)
        ensures
            r.client == self,
    {
        Request {
            client: self,
            endpoint: endpoints::AdminListQuotaGroups {},
            response: core::marker::PhantomData,
        }
    }

    ///   See [`CreateQuotaGroupOptions`]
    pub fn admin_create_quota_group(&self, group: CreateQuotaGroupOptions) -> (r: Request<'_, endpoints::AdminCreateQuotaGroup, QuotaGroup>)
        ensures
            r.client == self,
            r.endpoint.body == group,
    {
        Request {
            client: self,
            endpoint: endpoints::AdminCreateQuotaGroup {
                body: group,
            },
            response: core::marker::PhantomData,
        }
    }

    /// Get information about the quota group
    ///
    /// - `quotagroup`: quota group to query
    pub fn admin_get_quota_group(&self, quotagroup: &str) -> (r: Request<'_, endpoints::AdminGetQuotaGroup, QuotaGroup>)
        ensures
            r.client == self,
            r.endpoint.quotagroup@ == quotagroup@,
    {
        Request {
            client: self,
            endpoint: endpoints::AdminGetQuotaGroup {
                quotagroup: quotagroup.to_owned(),
            },
            response: core::marker::PhantomData,
        }
    }

    /// Delete a quota group
    ///
    /// - `quotagroup`: quota group to delete
    pub fn admin_delete_quota_group(&self, quotagroup: &str) -> (r: Request<'_, endpoints::AdminDeleteQuotaGroup, ()>)
        ensures
            r.client == self,
            r.endpoint.quotagroup@ == quotagroup@,
    {
        Request {
            client: self,
            endpoint: endpoints::AdminDeleteQuotaGroup {
                quotagroup: quotagroup.to_owned(),
            },
            response: core::marker::PhantomData,
        }
    }

    /// Adds a rule to a quota group
    ///
    /// - `quotagroup`: quota group to add a rule to
    /// - `quotarule`: the name of the quota rule to add to the group
    pub fn admin_add_rule_to_quota_group(&self, quotagroup: &str, quotarule: &str) -> (r: Request<'_, endpoints::AdminAddRuleToQuotaGroup, ()>)
        ensures
            r.client == self,
            r.endpoint.quotagroup@ == quotagroup@,
            r.endpoint.quotarule@ == quotarule@,
    {
        Request {
            client: self,
            endpoint: endpoints::AdminAddRuleToQuotaGroup {
                quotagroup: quotagroup.to_owned(),
                quotarule: quotarule.to_owned(),
            },
            response: core::marker::PhantomData,
        }
    }

    /// Removes a rule from a quota group
    ///
    /// - `quotagroup`: quota group to remove a rule from
    /// - `quotarule`: the name of the quota rule to remove from the group
    pub fn admin_remove_rule_from_quota_group(&self, quotagroup: &str, quotarule: &str) -> (r: Request<'_, endpoints::AdminRemoveRuleFromQuotaGroup, ()>)
        ensures
            r.client == self,
            r.endpoint.quotagroup@ == quotagroup@,
            r.endpoint.quotarule@ == quotarule@,
    {
        Request {
            client: self,
            endpoint: endpoints::AdminRemoveRuleFromQuotaGroup {
                quotagroup: quotagroup.to_owned(),
                quotarule: quotarule.to_owned(),
            },
            response: core::marker::PhantomData,
        }
    }

    /// List users in a quota group
    ///
    /// - `quotagroup`: quota group to list members of
    pub fn admin_list_users_in_quota_group(&self, quotagroup: &str) -> (r: Request<'_, endpoints::AdminListUsersInQuotaGroup, (UserListHeaders, Vec<User>)>)
        ensures
            r.client == self,
            r.endpoint.quotagroup@ == quotagroup@,
    {
        Request {
            client: self,
            endpoint: endpoints::AdminListUsersInQuotaGroup {
                quotagroup: quotagroup.to_owned(),
            },
            response: core::marker::PhantomData,
        }
    }

    /// Add a user to a quota group
    ///
    /// - `quotagroup`: quota group to add the user to
    /// - `username`: username of the user to add to the quota group
    pub fn admin_add_user_to_quota_group(&self, quotagroup: &str, username: &str) -> (r: Request<'_, endpoints::AdminAddUserToQuotaGroup, ()>)
        ensures
            r.client == self,
            r.endpoint.quotagroup@ == quotagroup@,
            r.endpoint.username@ == username@,
    {
        Request {
            client: self,
            endpoint: endpoints::AdminAddUserToQuotaGroup {
                quotagroup: quotagroup.to_owned(),
                username: username.to_owned(),
            },
            response: core::marker::PhantomData,
        }
    }

    /// Remove a user from a quota group
    ///
    /// - `quotagroup`: quota group to remove a user from
    /// - `username`: username of the user to remove from the quota group
    pub fn admin_remove_user_from_quota_group(&self, quotagroup: &str, username: &str) -> (r: Request<'_, endpoints::AdminRemoveUserFromQuotaGroup, ()>)
        ensures
            r.client == self,
            r.endpoint.quotagroup@ == quotagroup@,
            r.endpoint.username@ == username@,
    {
        Request {
            client: self,
            endpoint: endpoints::AdminRemoveUserFromQuotaGroup {
                quotagroup: quotagroup.to_owned(),
                username: username.to_owned(),
            },
            response: core::marker::PhantomData,
        }
    }

    /// List the available quota rules
    pub fn admin_list_quota_rules(&self) -> (r: Request<'_, endpoints::AdminListQuotaRules, Vec<QuotaRuleInfo>>)
        ensures
            r.client == self,
    {
        Request {
            client: self,
            endpoint: endpoints::AdminListQuotaRules {},
            response: core::marker::PhantomData,
        }
    }

    ///   See [`CreateQuotaRuleOptions`]
    pub fn admin_create_quota_rule(&self, rule: CreateQuotaRuleOptions) -> (r: Request<'_, endpoints::AdminCreateQuotaRule, QuotaRuleInfo>)
        ensures
            r.client == self,
            r.endpoint.body == rule,
    {
        Request {
            client: self,
            endpoint: endpoints::AdminCreateQuotaRule {
                body: rule,
            },
            response: core::marker::PhantomData,
        }
    }

    /// Get information about a quota rule
    ///
    /// - `quotarule`: quota rule to query
    pub fn admin_get_quota_rule(&self, quotarule: &str) -> (r: Request<'_, endpoints::AdminGetQuotaRule, QuotaRuleInfo>)
        ensures
            r.client == self,
            r.endpoint.quotarule@ == quotarule@,
    {
        Request {
            client: self,
            endpoint: endpoints::AdminGetQuotaRule {
                quotarule: quotarule.to_owned(),
            },
            response: core::marker::PhantomData,
        }
    }

    /// Deletes a quota rule
    ///
    /// - `quotarule`: quota rule to delete
    pub fn admin_delete_quota_rule(&self, quotarule: &str) -> (r: Request<'_, endpoints::AdminDeleteQuotaRule, ()>)
        ensures
            r.client == self,
            r.endpoint.quotarule@ == quotarule@,
    {
        Request {
            client: self,
            endpoint: endpoints::AdminDeleteQuotaRule {
                quotarule: quotarule.to_owned(),
            },
            response: core::marker::PhantomData,
        }
    }

    /// Change an existing quota rule
    ///
    /// - `quotarule`: Quota rule to change
    /// - `rule`: See [`EditQuotaRuleOptions`]
    pub fn admin_edit_quota_rule(&self, quotarule: &str, rule: EditQuotaRuleOptions) -> (r: Request<'_, endpoints::AdminEditQuotaRule, QuotaRuleInfo>)
        ensures
            r.client == self,
            r.endpoint.quotarule@ == quotarule@,
            r.endpoint.body == rule,
    {
        Request {
            client: self,
            endpoint: endpoints::AdminEditQuotaRule {
                quotarule: quotarule.to_owned(),
                body: rule,
            },
            response: core::marker::PhantomData,
        }
    }

    /// Search action jobs according filter conditions
    ///
    pub fn admin_search_run_jobs(&self, query: AdminSearchRunJobsQuery) -> (r: Request<'_, endpoints::AdminSearchRunJobs, Vec<ActionRunJob>>)
        ensures
            r.client == self,
            r.endpoint.query == query,
    {
        Request {
            client: self,
            endpoint: endpoints::AdminSearchRunJobs {
                query: query,
            },
            response: core::marker::PhantomData,
        }
    }

    /// Get an global actions runner registration token
    pub fn admin_get_runner_registration_token(&self) -> (r: Request<'_, endpoints::AdminGetRunnerRegistrationToken, RegistrationToken>)
        ensures
            r.client == self,
    {
        Request {
            client: self,
            endpoint: endpoints::AdminGetRunnerRegistrationToken {},
            response: core::marker::PhantomData,
        }
    }

    /// List unadopted repositories
    ///
    pub fn admin_unadopted_list(&self, query: AdminUnadoptedListQuery) -> (r: Request<'_, endpoints::AdminUnadoptedList, Vec<String>>)
        ensures
            r.client == self,
            r.endpoint.query == query,
    {
        Request {
            client: self,
            endpoint: endpoints::AdminUnadoptedList {
                query: query,
            },
            response: core::marker::PhantomData,
        }
    }

    /// Adopt unadopted files as a repository
    ///
    /// - `owner`: owner of the repo
    /// - `repo`: name of the repo
    pub fn admin_adopt_repository(&self, owner: &str, repo: &str) -> (r: Request<'_, endpoints::AdminAdoptRepository, ()>)
        ensures
            r.client == self,
            r.endpoint.owner@ == owner@,
            r.endpoint.repo@ == repo@,
    {
        Request {
            client: self,
            endpoint: endpoints::AdminAdoptRepository {
                owner: owner.to_owned(),
                repo: repo.to_owned(),
            },
            response: core::marker::PhantomData,
        }
    }

    /// Delete unadopted files
    ///
    /// - `owner`: owner of the repo
    /// - `repo`: name of the repo
    pub fn admin_delete_unadopted_repository(&self, owner: &str, repo: &str) -> (r: Request<'_, endpoints::AdminDeleteUnadoptedRepository, ()>)
        ensures
            r.client == self,
            r.endpoint.owner@ == owner@,
            r.endpoint.repo@ == repo@,
    {
        Request {
            client: self,
            endpoint: endpoints::AdminDeleteUnadoptedRepository {
                owner: owner.to_owned(),
                repo: repo.to_owned(),
            },
            response: core::marker::PhantomData,
        }
    }

    /// Search users according filter conditions
    ///
    pub fn admin_search_users(&self, query: AdminSearchUsersQuery) -> (r: Request<'_, endpoints::AdminSearchUsers, (UserListHeaders, Vec<User>)>)
        ensures
            r.client == self,
            r.endpoint.query == query,
    {
        Request {
            client: self,
            endpoint: endpoints::AdminSearchUsers {
                query: query,
            },
            response: core::marker::PhantomData,
        }
    }

    /// Create a user account
    ///
    /// - `body`: See [`CreateUserOption`]
    pub fn admin_create_user(&self, body: CreateUserOption) -> (r: Request<'_, endpoints::AdminCreateUser, User>)
        ensures
            r.client == self,
            r.endpoint.body == body,
    {
        Request {
            client: self,
            endpoint: endpoints::AdminCreateUser {
                body: body,
            },
            response: core::marker::PhantomData,
        }
    }

    /// Delete user account
    ///
    /// - `username`: username of user to delete
    pub fn admin_delete_user(&self, username: &str, query: AdminDeleteUserQuery) -> (r: Request<'_, endpoints::AdminDeleteUser, ()>)
        ensures
            r.client == self,
            r.endpoint.username@ == username@,
            r.endpoint.query == query,
    {
        Request {
            client: self,
            endpoint: endpoints::AdminDeleteUser {
                username: username.to_owned(),
                query: query,
            },
            response: core::marker::PhantomData,
        }
    }

    /// Edit an existing user
    ///
    /// - `username`: username of user to edit
    /// - `body`: See [`EditUserOption`]
    pub fn admin_edit_user(&self, username: &str, body: EditUserOption) -> (r: Request<'_, endpoints::AdminEditUser, User>)
        ensures
            r.client == self,
            r.endpoint.username@ == username@,
            r.endpoint.body == body,
    {
        Request {
            client: self,
            endpoint: endpoints::AdminEditUser {
                username: username.to_owned(),
                body: body,
            },
            response: core::marker::PhantomData,
        }
    }

    /// List all email addresses for a user
    ///
    /// - `username`: username of user to get email addresses of
    pub fn admin_list_user_emails(&self, username: &str) -> (r: Request<'_, endpoints::AdminListUserEmails, Vec<Email>>)
        ensures
            r.client == self,
            r.endpoint.username@ == username@,
    {
        Request {
            client: self,
            endpoint: endpoints::AdminListUserEmails {
                username: username.to_owned(),
            },
            response: core::marker::PhantomData,
        }
    }

    /// Delete email addresses from a user's account
    ///
    /// - `username`: username of user to delete email addresses from
    /// - `body`: See [`DeleteEmailOption`]
    pub fn admin_delete_user_emails(&self, username: &str, body: DeleteEmailOption) -> (r: Request<'_, endpoints::AdminDeleteUserEmails, ()>)
        ensures
            r.client == self,
            r.endpoint.username@ == username@,
            r.endpoint.body == body,
    {
        Request {
            client: self,
            endpoint: endpoints::AdminDeleteUserEmails {
                username: username.to_owned(),
                body: body,
            },
            response: core::marker::PhantomData,
        }
    }

    /// Add an SSH public key to user's account
    ///
    /// - `username`: username of the user
    /// - `key`: See [`CreateKeyOption`]
    pub fn admin_create_public_key(&self, username: &str, key: CreateKeyOption) -> (r: Request<'_, endpoints::AdminCreatePublicKey, PublicKey>)
        ensures
            r.client == self,
            r.endpoint.username@ == username@,
            r.endpoint.body == key,
    {
        Request {
            client: self,
            endpoint: endpoints::AdminCreatePublicKey {
                username: username.to_owned(),
                body: key,
            },
            response: core::marker::PhantomData,
        }
    }

    /// Remove a public key from user's account
    ///
    /// - `username`: username of user
    /// - `id`: id of the key to delete
    pub fn admin_delete_user_public_key(&self, username: &str, id: i64) -> (r: Request<'_, endpoints::AdminDeleteUserPublicKey, ()>)
        ensures
            r.client == self,
            r.endpoint.username@ == username@,
            r.endpoint.id == id,
    {
        Request {
            client: self,
            endpoint: endpoints::AdminDeleteUserPublicKey {
                username: username.to_owned(),
                id: id,
            },
            response: core::marker::PhantomData,
        }
    }

    /// Create an organization
    ///
    /// - `username`: username of the user that will own the created organization
    /// - `organization`: See [`CreateOrgOption`]
    pub fn admin_create_org(&self, username: &str, organization: CreateOrgOption) -> (r: Request<'_, endpoints::AdminCreateOrg, Organization>)
        ensures
            r.client == self,
            r.endpoint.username@ == username@,
            r.endpoint.body == organization,
    {
        Request {
            client: self,
            endpoint: endpoints::AdminCreateOrg {
                username: username.to_owned(),
                body: organization,
            },
            response: core::marker::PhantomData,
        }
    }

    /// Get the user's quota info
    ///
    /// - `username`: username of user to query
    pub fn admin_get_user_quota(&self, username: &str) -> (r: Request<'_, endpoints::AdminGetUserQuota, QuotaInfo>)
        ensures
            r.client == self,
            r.endpoint.username@ == username@,
    {
        Request {
            client: self,
            endpoint: endpoints::AdminGetUserQuota {
                username: username.to_owned(),
            },
            response: core::marker::PhantomData,
        }
    }

    ///   See [`SetUserQuotaGroupsOptions`]
    pub fn admin_set_user_quota_groups(&self, username: &str, groups: SetUserQuotaGroupsOptions) -> (r: Request<'_, endpoints::AdminSetUserQuotaGroups, ()>)
        ensures
            r.client == self,
            r.endpoint.username@ == username@,
            r.endpoint.body == groups,
    {
        Request {
            client: self,
            endpoint: endpoints::AdminSetUserQuotaGroups {
                username: username.to_owned(),
                body: groups,
            },
            response: core::marker::PhantomData,
        }
    }

    /// Rename a user
    ///
    /// - `username`: existing username of user
    /// - `body`: See [`RenameUserOption`]
    pub fn admin_rename_user(&self, username: &str, body: RenameUserOption) -> (r: Request<'_, endpoints::AdminRenameUser, ()>)
        ensures
            r.client == self,
            r.endpoint.username@ == username@,
            r.endpoint.body == body,
    {
        Request {
            client: self,
            endpoint: endpoints::AdminRenameUser {
                username: username.to_owned(),
                body: body,
            },
            response: core::marker::PhantomData,
        }
    }

    /// Create a repository on behalf of a user
    ///
    /// - `username`: username of the user. This user will own the created repository
    /// - `repository`: See [`CreateRepoOption`]
    pub fn admin_create_repo(&self, username: &str, repository: CreateRepoOption) -> (r: Request<'_, endpoints::AdminCreateRepo, Repository>)
        ensures
            r.client == self,
            r.endpoint.username@ == username@,
            r.endpoint.body == repository,
    {
        Request {
            client: self,
            endpoint: endpoints::AdminCreateRepo {
                username: username.to_owned(),
                body: repository,
            },
            response: core::marker::PhantomData,
        }
    }

    /// Returns a list of all gitignore templates
    pub fn list_gitignores_templates(&self) -> (r: Request<'_, endpoints::ListGitignoresTemplates, Vec<String>>)
        ensures
            r.client == self,
    {
        Request {
            client: self,
            endpoint: endpoints::ListGitignoresTemplates {},
            response: core::marker::PhantomData,
        }
    }

    /// Returns information about a gitignore template
    ///
    /// - `name`: name of the template
    pub fn get_gitignore_template_info(&self, name: &str) -> (r: Request<'_, endpoints::GetGitignoreTemplateInfo, GitignoreTemplateInfo>)
        ensures
            r.client == self,
            r.endpoint.name@ == name@,
    {
        Request {
            client: self,
            endpoint: endpoints::GetGitignoreTemplateInfo {
                name: name.to_owned(),
            },
            response: core::marker::PhantomData,
        }
    }

    /// Returns a list of all label templates
    pub fn list_label_templates(&self) -> (r: Request<'_, endpoints::ListLabelTemplates, Vec<String>>)
        ensures
            r.client == self,
    {
        Request {
            client: self,
            endpoint: endpoints::ListLabelTemplates {},
            response: core::marker::PhantomData,
        }
    }

    /// Returns all labels in a template
    ///
    /// - `name`: name of the template
    pub fn get_label_template_info(&self, name: &str) -> (r: Request<'_, endpoints::GetLabelTemplateInfo, Vec<LabelTemplate>>)
        ensures
            r.client == self,
            r.endpoint.name@ == name@,
    {
        Request {
            client: self,
            endpoint: endpoints::GetLabelTemplateInfo {
                name: name.to_owned(),
            },
            response: core::marker::PhantomData,
        }
    }

    /// Returns a list of all license templates
    pub fn list_license_templates(&self) -> (r: Request<'_, endpoints::ListLicenseTemplates, Vec<LicensesTemplateListEntry>>)
        ensures
            r.client == self,
    {
        Request {
            client: self,
            endpoint: endpoints::ListLicenseTemplates {},
            response: core::marker::PhantomData,
        }
    }

    /// Returns information about a license template
    ///
    /// - `name`: name of the license
    pub fn get_license_template_info(&self, name: &str) -> (r: Request<'_, endpoints::GetLicenseTemplateInfo, LicenseTemplateInfo>)
        ensures
            r.client == self,
            r.endpoint.name@ == name@,
    {
        Request {
            client: self,
            endpoint: endpoints::GetLicenseTemplateInfo {
                name: name.to_owned(),
            },
            response: core::marker::PhantomData,
        }
    }

    /// Render a markdown document as HTML
    ///
    /// - `body`: See [`MarkdownOption`]
    pub fn render_markdown(&self, body: MarkdownOption) -> (r: Request<'_, endpoints::RenderMarkdown, String>)
        ensures
            r.client == self,
            r.endpoint.body == body,
    {
        Request {
            client: self,
            endpoint: endpoints::RenderMarkdown {
                body: body,
            },
            response: core::marker::PhantomData,
        }
    }

    ///   See [`String`]
    pub fn render_markdown_raw(&self, body: String) -> (r: Request<'_, endpoints::RenderMarkdownRaw, String>)
        ensures
            r.client == self,
            r.endpoint.body == body,
    {
        Request {
            client: self,
            endpoint: endpoints::RenderMarkdownRaw {
                body: body,
            },
            response: core::marker::PhantomData,
        }
    }

    /// Render a markup document as HTML
    ///
    /// - `body`: See [`MarkupOption`]
    pub fn render_markup(&self, body: MarkupOption) -> (r: Request<'_, endpoints::RenderMarkup, String>)
        ensures
            r.client == self,
            r.endpoint.body == body,
    {
        Request {
            client: self,
            endpoint: endpoints::RenderMarkup {
                body: body,
            },
            response: core::marker::PhantomData,
        }
    }

    /// Returns the nodeinfo of the Forgejo application
    pub fn get_node_info(&self) -> (r: Request<'_, endpoints::GetNodeInfo, NodeInfo>)
        ensures
            r.client == self,
    {
        Request {
            client: self,
            endpoint: endpoints::GetNodeInfo {},
            response: core::marker::PhantomData,
        }
    }

    /// List users's notification threads
    ///
    pub fn notify_get_list(&self, query: NotifyGetListQuery) -> (r: Request<'_, endpoints::NotifyGetList, (NotificationThreadListHeaders, Vec<NotificationThread>)>)
        ensures
            r.client == self,
            r.endpoint.query == query,
    {
        Request {
            client: self,
            endpoint: endpoints::NotifyGetList {
                query: query,
            },
            response: core::marker::PhantomData,
        }
    }

    /// Mark notification threads as read, pinned or unread
    ///
    pub fn notify_read_list(&self, query: NotifyReadListQuery) -> (r: Request<'_, endpoints::NotifyReadList, Vec<NotificationThread>>)
        ensures
            r.client == self,
            r.endpoint.query == query,
    {
        Request {
            client: self,
            endpoint: endpoints::NotifyReadList {
                query: query,
            },
            response: core::marker::PhantomData,
        }
    }

    /// Check if unread notifications exist
    pub fn notify_new_available(&self) -> (r: Request<'_, endpoints::NotifyNewAvailable, NotificationCount>)
        ensures
            r.client == self,
    {
        Request {
            client: self,
            endpoint: endpoints::NotifyNewAvailable {},
            response: core::marker::PhantomData,
        }
    }

    /// Get notification thread by ID
    ///
    /// - `id`: id of notification thread
    pub fn notify_get_thread(&self, id: i64) -> (r: Request<'_, endpoints::NotifyGetThread, NotificationThread>)
        ensures
            r.client == self,
            r.endpoint.id == id,
    {
        Request {
            client: self,
            endpoint: endpoints::NotifyGetThread {
                id: id,
            },
            response: core::marker::PhantomData,
        }
    }

    /// Mark notification thread as read by ID
    ///
    /// - `id`: id of notification thread
    pub fn notify_read_thread(&self, id: i64, query: NotifyReadThreadQuery) -> (r: Request<'_, endpoints::NotifyReadThread, NotificationThread>)
        ensures
            r.client == self,
            r.endpoint.id == id,
            r.endpoint.query == query,
    {
        Request {
            client: self,
            endpoint: endpoints::NotifyReadThread {
                id: id,
                query: query,
            },
            response: core::marker::PhantomData,
        }
    }

    /// Create a repository in an organization
    ///
    /// - `org`: name of organization
    /// - `body`: See [`CreateRepoOption`]
    pub fn create_org_repo_deprecated(&self, org: &str, body: CreateRepoOption) -> (r: Request<'_, endpoints::CreateOrgRepoDeprecated, Repository>)
        ensures
            r.client == self,
            r.endpoint.org@ == org@,
            r.endpoint.body == body,
    {
        Request {
            client: self,
            endpoint: endpoints::CreateOrgRepoDeprecated {
                org: org.to_owned(),
                body: body,
            },
            response: core::marker::PhantomData,
        }
    }

    /// List all organizations
    ///
    pub fn org_get_all(&self) -> (r: Request<'_, endpoints::OrgGetAll, (OrganizationListHeaders, Vec<Organization>)>)
        ensures
            r.client == self,
    {
        Request {
            client: self,
            endpoint: endpoints::OrgGetAll {},
            response: core::marker::PhantomData,
        }
    }

    /// Create an organization
    ///
    /// - `organization`: See [`CreateOrgOption`]
    pub fn org_create(&self, organization: CreateOrgOption) -> (r: Request<'_, endpoints::OrgCreate, Organization>)
        ensures
            r.client == self,
            r.endpoint.body == organization,
    {
        Request {
            client: self,
            endpoint: endpoints::OrgCreate {
                body: organization,
            },
            response: core::marker::PhantomData,
        }
    }

    /// Get an organization
    ///
    /// - `org`: name of the organization to get
    pub fn org_get(&self, org: &str) -> (r: Request<'_, endpoints::OrgGet, Organization>)
        ensures
            r.client == self,
            r.endpoint.org@ == org@,
    {
        Request {
            client: self,
            endpoint: endpoints::OrgGet {
                org: org.to_owned(),
            },
            response: core::marker::PhantomData,
        }
    }

    /// Delete an organization
    ///
    /// - `org`: organization that is to be deleted
    pub fn org_delete(&self, org: &str) -> (r: Request<'_, endpoints::OrgDelete, ()>)
        ensures
            r.client == self,
            r.endpoint.org@ == org@,
    {
        Request {
            client: self,
            endpoint: endpoints::OrgDelete {
                org: org.to_owned(),
            },
            response: core::marker::PhantomData,
        }
    }

    /// Edit an organization
    ///
    /// - `org`: name of the organization to edit
    /// - `body`: See [`EditOrgOption`]
    pub fn org_edit(&self, org: &str, body: EditOrgOption) -> (r: Request<'_, endpoints::OrgEdit, Organization>)
        ensures
            r.client == self,
            r.endpoint.org@ == org@,
            r.endpoint.body == body,
    {
        Request {
            client: self,
            endpoint: endpoints::OrgEdit {
                org: org.to_owned(),
                body: body,
            },
            response: core::marker::PhantomData,
        }
    }

    /// Search for organization's action jobs according filter conditions
    ///
    /// - `org`: name of the organization
    pub fn org_search_run_jobs(&self, org: &str, query: OrgSearchRunJobsQuery) -> (r: Request<'_, endpoints::OrgSearchRunJobs, Vec<ActionRunJob>>)
        ensures
            r.client == self,
            r.endpoint.org@ == org@,
            r.endpoint.query == query,
    {
        Request {
            client: self,
            endpoint: endpoints::OrgSearchRunJobs {
                org: org.to_owned(),
                query: query,
            },
            response: core::marker::PhantomData,
        }
    }

    /// Get an organization's actions runner registration token
    ///
    /// - `org`: name of the organization
    pub fn org_get_runner_registration_token(&self, org: &str) -> (r: Request<'_, endpoints::OrgGetRunnerRegistrationToken, RegistrationToken>)
        ensures
            r.client == self,
            r.endpoint.org@ == org@,
    {
        Request {
            client: self,
            endpoint: endpoints::OrgGetRunnerRegistrationToken {
                org: org.to_owned(),
            },
            response: core::marker::PhantomData,
        }
    }

    /// List actions secrets of an organization
    ///
    /// - `org`: name of the organization
    pub fn org_list_actions_secrets(&self, org: &str) -> (r: Request<'_, endpoints::OrgListActionsSecrets, (SecretListHeaders, Vec<Secret>)>)
        ensures
            r.client == self,
            r.endpoint.org@ == org@,
    {
        Request {
            client: self,
            endpoint: endpoints::OrgListActionsSecrets {
                org: org.to_owned(),
            },
            response: core::marker::PhantomData,
        }
    }

    /// Create or Update a secret value in an organization
    ///
    /// - `org`: name of organization
    /// - `secretname`: name of the secret
    /// - `body`: See [`CreateOrUpdateSecretOption`]
    pub fn update_org_secret(&self, org: &str, secretname: &str, body: CreateOrUpdateSecretOption) -> (r: Request<'_, endpoints::UpdateOrgSecret, ()>)
        ensures
            r.client == self,
            r.endpoint.org@ == org@,
            r.endpoint.secretname@ == secretname@,
            r.endpoint.body == body,
    {
        Request {
            client: self,
            endpoint: endpoints::UpdateOrgSecret {
                org: org.to_owned(),
                secretname: secretname.to_owned(),
                body: body,
            },
            response: core::marker::PhantomData,
        }
    }

    /// Delete a secret in an organization
    ///
    /// - `org`: name of organization
    /// - `secretname`: name of the secret
    pub fn delete_org_secret(&self, org: &str, secretname: &str) -> (r: Request<'_, endpoints::DeleteOrgSecret, ()>)
        ensures
            r.client == self,
            r.endpoint.org@ == org@,
            r.endpoint.secretname@ == secretname@,
    {
        Request {
            client: self,
            endpoint: endpoints::DeleteOrgSecret {
                org: org.to_owned(),
                secretname: secretname.to_owned(),
            },
            response: core::marker::PhantomData,
        }
    }

    /// List variables of an organization
    ///
    /// - `org`: name of the organization
    pub fn get_org_variables_list(&self, org: &str) -> (r: Request<'_, endpoints::GetOrgVariablesList, (VariableListHeaders, Vec<ActionVariable>)>)
        ensures
            r.client == self,
            r.endpoint.org@ == org@,
    {
        Request {
            client: self,
            endpoint: endpoints::GetOrgVariablesList {
                org: org.to_owned(),
            },
            response: core::marker::PhantomData,
        }
    }

    /// Get organization's variable by name
    ///
    /// - `org`: name of the organization
    /// - `variablename`: name of the variable
    pub fn get_org_variable(&self, org: &str, variablename: &str) -> (r: Request<'_, endpoints::GetOrgVariable, ActionVariable>)
        ensures
            r.client == self,
            r.endpoint.org@ == org@,
            r.endpoint.variablename@ == variablename@,
    {
        Request {
            client: self,
            endpoint: endpoints::GetOrgVariable {
                org: org.to_owned(),
                variablename: variablename.to_owned(),
            },
            response: core::marker::PhantomData,
        }
    }

    /// Update variable in organization
    ///
    /// - `org`: name of the organization
    /// - `variablename`: name of the variable
    /// - `body`: See [`UpdateVariableOption`]
    pub fn update_org_variable(&self, org: &str, variablename: &str, body: UpdateVariableOption) -> (r: Request<'_, endpoints::UpdateOrgVariable, ()>)
        ensures
            r.client == self,
            r.endpoint.org@ == org@,
            r.endpoint.variablename@ == variablename@,
            r.endpoint.body == body,
    {
        Request {
            client: self,
            endpoint: endpoints::UpdateOrgVariable {
                org: org.to_owned(),
                variablename: variablename.to_owned(),
                body: body,
            },
            response: core::marker::PhantomData,
        }
    }

    /// Create a new variable in organization
    ///
    /// - `org`: name of the organization
    /// - `variablename`: name of the variable
    /// - `body`: See [`CreateVariableOption`]
    pub fn create_org_variable(&self, org: &str, variablename: &str, body: CreateVariableOption) -> (r: Request<'_, endpoints::CreateOrgVariable, ()>)
        ensures
            r.client == self,
            r.endpoint.org@ == org@,
            r.endpoint.variablename@ == variablename@,
            r.endpoint.body == body,
    {
        Request {
            client: self,
            endpoint: endpoints::CreateOrgVariable {
                org: org.to_owned(),
                variablename: variablename.to_owned(),
                body: body,
            },
            response: core::marker::PhantomData,
        }
    }

    /// Delete organization's variable by name
    ///
    /// - `org`: name of the organization
    /// - `variablename`: name of the variable
    pub fn delete_org_variable(&self, org: &str, variablename: &str) -> (r: Request<'_, endpoints::DeleteOrgVariable, ()>)
        ensures
            r.client == self,
            r.endpoint.org@ == org@,
            r.endpoint.variablename@ == variablename@,
    {
        Request {
            client: self,
            endpoint: endpoints::DeleteOrgVariable {
                org: org.to_owned(),
                variablename: variablename.to_owned(),
            },
            response: core::marker::PhantomData,
        }
    }

    /// List an organization's activity feeds
    ///
    /// - `org`: name of the org
    pub fn org_list_activity_feeds(&self, org: &str, query: OrgListActivityFeedsQuery) -> (r: Request<'_, endpoints::OrgListActivityFeeds, (ActivityFeedsListHeaders, Vec<Activity>)>)
        ensures
            r.client == self,
            r.endpoint.org@ == org@,
            r.endpoint.query == query,
    {
        Request {
            client: self,
            endpoint: endpoints::OrgListActivityFeeds {
                org: org.to_owned(),
                query: query,
            },
            response: core::marker::PhantomData,
        }
    }

    /// Update an organization's avatar
    ///
    /// - `org`: name of the organization
    /// - `body`: See [`UpdateUserAvatarOption`]
    pub fn org_update_avatar(&self, org: &str, body: UpdateUserAvatarOption) -> (r: Request<'_, endpoints::OrgUpdateAvatar, ()>)
        ensures
            r.client == self,
            r.endpoint.org@ == org@,
            r.endpoint.body == body,
    {
        Request {
            client: self,
            endpoint: endpoints::OrgUpdateAvatar {
                org: org.to_owned(),
                body: body,
            },
            response: core::marker::PhantomData,
        }
    }

    /// Delete an organization's avatar. It will be replaced by a default one
    ///
    /// - `org`: name of the organization
    pub fn org_delete_avatar(&self, org: &str) -> (r: Request<'_, endpoints::OrgDeleteAvatar, ()>)
        ensures
            r.client == self,
            r.endpoint.org@ == org@,
    {
        Request {
            client: self,
            endpoint: endpoints::OrgDeleteAvatar {
                org: org.to_owned(),
            },
            response: core::marker::PhantomData,
        }
    }

    /// Blocks a user from the organization
    ///
    /// - `org`: name of the org
    /// - `username`: username of the user
    pub fn org_block_user(&self, org: &str, username: &str) -> (r: Request<'_, endpoints::OrgBlockUser, ()>)
        ensures
            r.client == self,
            r.endpoint.org@ == org@,
            r.endpoint.username@ == username@,
    {
        Request {
            client: self,
            endpoint: endpoints::OrgBlockUser {
                org: org.to_owned(),
                username: username.to_owned(),
            },
            response: core::marker::PhantomData,
        }
    }

    /// List an organization's webhooks
    ///
    /// - `org`: name of the organization
    pub fn org_list_hooks(&self, org: &str) -> (r: Request<'_, endpoints::OrgListHooks, Vec<Hook>>)
        ensures
            r.client == self,
            r.endpoint.org@ == org@,
    {
        Request {
            client: self,
            endpoint: endpoints::OrgListHooks {
                org: org.to_owned(),
            },
            response: core::marker::PhantomData,
        }
    }

    /// Create a hook
    ///
    /// - `org`: name of the organization
    /// - `body`: See [`CreateHookOption`]
    pub fn org_create_hook(&self, org: &str, body: CreateHookOption) -> (r: Request<'_, endpoints::OrgCreateHook, Hook>)
        ensures
            r.client == self,
            r.endpoint.org@ == org@,
            r.endpoint.body == body,
    {
        Request {
            client: self,
            endpoint: endpoints::OrgCreateHook {
                org: org.to_owned(),
                body: body,
            },
            response: core::marker::PhantomData,
        }
    }

    /// Get a hook
    ///
    /// - `org`: name of the organization
    /// - `id`: id of the hook to get
    pub fn org_get_hook(&self, org: &str, id: i64) -> (r: Request<'_, endpoints::OrgGetHook, Hook>)
        ensures
            r.client == self,
            r.endpoint.org@ == org@,
            r.endpoint.id == id,
    {
        Request {
            client: self,
            endpoint: endpoints::OrgGetHook {
                org: org.to_owned(),
                id: id,
            },
            response: core::marker::PhantomData,
        }
    }

    /// Delete a hook
    ///
    /// - `org`: name of the organization
    /// - `id`: id of the hook to delete
    pub fn org_delete_hook(&self, org: &str, id: i64) -> (r: Request<'_, endpoints::OrgDeleteHook, ()>)
        ensures
            r.client == self,
            r.endpoint.org@ == org@,
            r.endpoint.id == id,
    {
        Request {
            client: self,
            endpoint: endpoints::OrgDeleteHook {
                org: org.to_owned(),
                id: id,
            },
            response: core::marker::PhantomData,
        }
    }

    /// Update a hook
    ///
    /// - `org`: name of the organization
    /// - `id`: id of the hook to update
    /// - `body`: See [`EditHookOption`]
    pub fn org_edit_hook(&self, org: &str, id: i64, body: EditHookOption) -> (r: Request<'_, endpoints::OrgEditHook, Hook>)
        ensures
            r.client == self,
            r.endpoint.org@ == org@,
            r.endpoint.id == id,
            r.endpoint.body == body,
    {
        Request {
            client: self,
            endpoint: endpoints::OrgEditHook {
                org: org.to_owned(),
                id: id,
                body: body,
            },
            response: core::marker::PhantomData,
        }
    }

    /// List an organization's labels
    ///
    /// - `org`: name of the organization
    pub fn org_list_labels(&self, org: &str, query: OrgListLabelsQuery) -> (r: Request<'_, endpoints::OrgListLabels, (LabelListHeaders, Vec<Label>)>)
        ensures
            r.client == self,
            r.endpoint.org@ == org@,
            r.endpoint.query == query,
    {
        Request {
            client: self,
            endpoint: endpoints::OrgListLabels {
                org: org.to_owned(),
                query: query,
            },
            response: core::marker::PhantomData,
        }
    }

    /// Create a label for an organization
    ///
    /// - `org`: name of the organization
    /// - `body`: See [`CreateLabelOption`]
    pub fn org_create_label(&self, org: &str, body: CreateLabelOption) -> (r: Request<'_, endpoints::OrgCreateLabel, Label>)
        ensures
            r.client == self,
            r.endpoint.org@ == org@,
            r.endpoint.body == body,
    {
        Request {
            client: self,
            endpoint: endpoints::OrgCreateLabel {
                org: org.to_owned(),
                body: body,
            },
            response: core::marker::PhantomData,
        }
    }

    /// Get a single label
    ///
    /// - `org`: name of the organization
    /// - `id`: id of the label to get
    pub fn org_get_label(&self, org: &str, id: i64) -> (r: Request<'_, endpoints::OrgGetLabel, Label>)
        ensures
            r.client == self,
            r.endpoint.org@ == org@,
            r.endpoint.id == id,
    {
        Request {
            client: self,
            endpoint: endpoints::OrgGetLabel {
                org: org.to_owned(),
                id: id,
            },
            response: core::marker::PhantomData,
        }
    }

    /// Delete a label
    ///
    /// - `org`: name of the organization
    /// - `id`: id of the label to delete
    pub fn org_delete_label(&self, org: &str, id: i64) -> (r: Request<'_, endpoints::OrgDeleteLabel, ()>)
        ensures
            r.client == self,
            r.endpoint.org@ == org@,
            r.endpoint.id == id,
    {
        Request {
            client: self,
            endpoint: endpoints::OrgDeleteLabel {
                org: org.to_owned(),
                id: id,
            },
            response: core::marker::PhantomData,
        }
    }

    /// Update a label
    ///
    /// - `org`: name of the organization
    /// - `id`: id of the label to edit
    /// - `body`: See [`EditLabelOption`]
    pub fn org_edit_label(&self, org: &str, id: i64, body: EditLabelOption) -> (r: Request<'_, endpoints::OrgEditLabel, Label>)
        ensures
            r.client == self,
            r.endpoint.org@ == org@,
            r.endpoint.id == id,
            r.endpoint.body == body,
    {
        Request {
            client: self,
            endpoint: endpoints::OrgEditLabel {
                org: org.to_owned(),
                id: id,
                body: body,
            },
            response: core::marker::PhantomData,
        }
    }

    /// List the organization's blocked users
    ///
    /// - `org`: name of the org
    pub fn org_list_blocked_users(&self, org: &str) -> (r: Request<'_, endpoints::OrgListBlockedUsers, (BlockedUserListHeaders, Vec<BlockedUser>)>)
        ensures
            r.client == self,
            r.endpoint.org@ == org@,
    {
        Request {
            client: self,
            endpoint: endpoints::OrgListBlockedUsers {
                org: org.to_owned(),
            },
            response: core::marker::PhantomData,
        }
    }

    /// List an organization's members
    ///
    /// - `org`: name of the organization
    pub fn org_list_members(&self, org: &str) -> (r: Request<'_, endpoints::OrgListMembers, (UserListHeaders, Vec<User>)>)
        ensures
            r.client == self,
            r.endpoint.org@ == org@,
    {
        Request {
            client: self,
            endpoint: endpoints::OrgListMembers {
                org: org.to_owned(),
            },
            response: core::marker::PhantomData,
        }
    }

    /// Check if a user is a member of an organization
    ///
    /// - `org`: name of the organization
    /// - `username`: username of the user
    pub fn org_is_member(&self, org: &str, username: &str) -> (r: Request<'_, endpoints::OrgIsMember, ()>)
        ensures
            r.client == self,
            r.endpoint.org@ == org@,
            r.endpoint.username@ == username@,
    {
        Request {
            client: self,
            endpoint: endpoints::OrgIsMember {
                org: org.to_owned(),
                username: username.to_owned(),
            },
            response: core::marker::PhantomData,
        }
    }

    /// Remove a member from an organization
    ///
    /// - `org`: name of the organization
    /// - `username`: username of the user
    pub fn org_delete_member(&self, org: &str, username: &str) -> (r: Request<'_, endpoints::OrgDeleteMember, ()>)
        ensures
            r.client == self,
            r.endpoint.org@ == org@,
            r.endpoint.username@ == username@,
    {
        Request {
            client: self,
            endpoint: endpoints::OrgDeleteMember {
                org: org.to_owned(),
                username: username.to_owned(),
            },
            response: core::marker::PhantomData,
        }
    }

    /// List an organization's public members
    ///
    /// - `org`: name of the organization
    pub fn org_list_public_members(&self, org: &str) -> (r: Request<'_, endpoints::OrgListPublicMembers, (UserListHeaders, Vec<User>)>)
        ensures
            r.client == self,
            r.endpoint.org@ == org@,
    {
        Request {
            client: self,
            endpoint: endpoints::OrgListPublicMembers {
                org: org.to_owned(),
            },
            response: core::marker::PhantomData,
        }
    }

    /// Check if a user is a public member of an organization
    ///
    /// - `org`: name of the organization
    /// - `username`: username of the user
    pub fn org_is_public_member(&self, org: &str, username: &str) -> (r: Request<'_, endpoints::OrgIsPublicMember, ()>)
        ensures
            r.client == self,
            r.endpoint.org@ == org@,
            r.endpoint.username@ == username@,
    {
        Request {
            client: self,
            endpoint: endpoints::OrgIsPublicMember {
                org: org.to_owned(),
                username: username.to_owned(),
            },
            response: core::marker::PhantomData,
        }
    }

    /// Publicize a user's membership
    ///
    /// - `org`: name of the organization
    /// - `username`: username of the user
    pub fn org_publicize_member(&self, org: &str, username: &str) -> (r: Request<'_, endpoints::OrgPublicizeMember, ()>)
        ensures
            r.client == self,
            r.endpoint.org@ == org@,
            r.endpoint.username@ == username@,
    {
        Request {
            client: self,
            endpoint: endpoints::OrgPublicizeMember {
                org: org.to_owned(),
                username: username.to_owned(),
            },
            response: core::marker::PhantomData,
        }
    }

    /// Conceal a user's membership
    ///
    /// - `org`: name of the organization
    /// - `username`: username of the user
    pub fn org_conceal_member(&self, org: &str, username: &str) -> (r: Request<'_, endpoints::OrgConcealMember, ()>)
        ensures
            r.client == self,
            r.endpoint.org@ == org@,
            r.endpoint.username@ == username@,
    {
        Request {
            client: self,
            endpoint: endpoints::OrgConcealMember {
                org: org.to_owned(),
                username: username.to_owned(),
            },
            response: core::marker::PhantomData,
        }
    }

    /// Get quota information for an organization
    ///
    /// - `org`: name of the organization
    pub fn org_get_quota(&self, org: &str) -> (r: Request<'_, endpoints::OrgGetQuota, QuotaInfo>)
        ensures
            r.client == self,
            r.endpoint.org@ == org@,
    {
        Request {
            client: self,
            endpoint: endpoints::OrgGetQuota {
                org: org.to_owned(),
            },
            response: core::marker::PhantomData,
        }
    }

    /// List the artifacts affecting the organization's quota
    ///
    /// - `org`: name of the organization
    pub fn org_list_quota_artifacts(&self, org: &str) -> (r: Request<'_, endpoints::OrgListQuotaArtifacts, (QuotaUsedArtifactListHeaders, Vec<QuotaUsedArtifact>)>)
        ensures
            r.client == self,
            r.endpoint.org@ == org@,
    {
        Request {
            client: self,
            endpoint: endpoints::OrgListQuotaArtifacts {
                org: org.to_owned(),
            },
            response: core::marker::PhantomData,
        }
    }

    /// List the attachments affecting the organization's quota
    ///
    /// - `org`: name of the organization
    pub fn org_list_quota_attachments(&self, org: &str) -> (r: Request<'_, endpoints::OrgListQuotaAttachments, (QuotaUsedAttachmentListHeaders, Vec<QuotaUsedAttachment>)>)
        ensures
            r.client == self,
            r.endpoint.org@ == org@,
    {
        Request {
            client: self,
            endpoint: endpoints::OrgListQuotaAttachments {
                org: org.to_owned(),
            },
            response: core::marker::PhantomData,
        }
    }

    /// Check if the organization is over quota for a given subject
    ///
    /// - `org`: name of the organization
    pub fn org_check_quota(&self, org: &str, query: OrgCheckQuotaQuery) -> (r: Request<'_, endpoints::OrgCheckQuota, bool>)
        ensures
            r.client == self,
            r.endpoint.org@ == org@,
            r.endpoint.query == query,
    {
        Request {
            client: self,
            endpoint: endpoints::OrgCheckQuota {
                org: org.to_owned(),
                query: query,
            },
            response: core::marker::PhantomData,
        }
    }

    /// List the packages affecting the organization's quota
    ///
    /// - `org`: name of the organization
    pub fn org_list_quota_packages(&self, org: &str) -> (r: Request<'_, endpoints::OrgListQuotaPackages, (QuotaUsedPackageListHeaders, Vec<QuotaUsedPackage>)>)
        ensures
            r.client == self,
            r.endpoint.org@ == org@,
    {
        Request {
            client: self,
            endpoint: endpoints::OrgListQuotaPackages {
                org: org.to_owned(),
            },
            response: core::marker::PhantomData,
        }
    }

    /// Rename an organization
    ///
    /// - `org`: existing org name
    /// - `body`: See [`RenameOrgOption`]
    pub fn rename_org(&self, org: &str, body: RenameOrgOption) -> (r: Request<'_, endpoints::RenameOrg, ()>)
        ensures
            r.client == self,
            r.endpoint.org@ == org@,
            r.endpoint.body == body,
    {
        Request {
            client: self,
            endpoint: endpoints::RenameOrg {
                org: org.to_owned(),
                body: body,
            },
            response: core::marker::PhantomData,
        }
    }

    /// List an organization's repos
    ///
    /// - `org`: name of the organization
    pub fn org_list_repos(&self, org: &str) -> (r: Request<'_, endpoints::OrgListRepos, (RepositoryListHeaders, Vec<Repository>)>)
        ensures
            r.client == self,
            r.endpoint.org@ == org@,
    {
        Request {
            client: self,
            endpoint: endpoints::OrgListRepos {
                org: org.to_owned(),
            },
            response: core::marker::PhantomData,
        }
    }

    /// Create a repository in an organization
    ///
    /// - `org`: name of organization
    /// - `body`: See [`CreateRepoOption`]
    pub fn create_org_repo(&self, org: &str, body: CreateRepoOption) -> (r: Request<'_, endpoints::CreateOrgRepo, Repository>)
        ensures
            r.client == self,
            r.endpoint.org@ == org@,
            r.endpoint.body == body,
    {
        Request {
            client: self,
            endpoint: endpoints::CreateOrgRepo {
                org: org.to_owned(),
                body: body,
            },
            response: core::marker::PhantomData,
        }
    }

    /// List an organization's teams
    ///
    /// - `org`: name of the organization
    pub fn org_list_teams(&self, org: &str) -> (r: Request<'_, endpoints::OrgListTeams, (TeamListHeaders, Vec<Team>)>)
        ensures
            r.client == self,
            r.endpoint.org@ == org@,
    {
        Request {
            client: self,
            endpoint: endpoints::OrgListTeams {
                org: org.to_owned(),
            },
            response: core::marker::PhantomData,
        }
    }

    /// Create a team
    ///
    /// - `org`: name of the organization
    /// - `body`: See [`CreateTeamOption`]
    pub fn org_create_team(&self, org: &str, body: CreateTeamOption) -> (r: Request<'_, endpoints::OrgCreateTeam, Team>)
        ensures
            r.client == self,
            r.endpoint.org@ == org@,
            r.endpoint.body == body,
    {
        Request {
            client: self,
            endpoint: endpoints::OrgCreateTeam {
                org: org.to_owned(),
                body: body,
            },
            response: core::marker::PhantomData,
        }
    }

    /// Search for teams within an organization
    ///
    /// - `org`: name of the organization
    pub fn team_search(&self, org: &str, query: TeamSearchQuery) -> (r: Request<'_, endpoints::TeamSearch, TeamSearchResults>)
        ensures
            r.client == self,
            r.endpoint.org@ == org@,
            r.endpoint.query == query,
    {
        Request {
            client: self,
            endpoint: endpoints::TeamSearch {
                org: org.to_owned(),
                query: query,
            },
            response: core::marker::PhantomData,
        }
    }

    /// Unblock a user from the organization
    ///
    /// - `org`: name of the org
    /// - `username`: username of the user
    pub fn org_unblock_user(&self, org: &str, username: &str) -> (r: Request<'_, endpoints::OrgUnblockUser, ()>)
        ensures
            r.client == self,
            r.endpoint.org@ == org@,
            r.endpoint.username@ == username@,
    {
        Request {
            client: self,
            endpoint: endpoints::OrgUnblockUser {
                org: org.to_owned(),
                username: username.to_owned(),
            },
            response: core::marker::PhantomData,
        }
    }

    /// Gets all packages of an owner
    ///
    /// - `owner`: owner of the packages
    pub fn list_packages(&self, owner: &str, query: ListPackagesQuery) -> (r: Request<'_, endpoints::ListPackages, (PackageListHeaders, Vec<Package>)>)
        ensures
            r.client == self,
            r.endpoint.owner@ == owner@,
            r.endpoint.query == query,
    {
        Request {
            client: self,
            endpoint: endpoints::ListPackages {
                owner: owner.to_owned(),
                query: query,
            },
            response: core::marker::PhantomData,
        }
    }

    /// Link a package to a repository
    ///
    /// - `owner`: owner of the package
    /// - `type`: type of the package
    /// - `name`: name of the package
    /// - `repo_name`: name of the repository to link.
    pub fn link_package(&self, owner: &str, type_: &str, name: &str, repo_name: &str) -> (r: Request<'_, endpoints::LinkPackage, ()>)
        ensures
            r.client == self,
            r.endpoint.owner@ == owner@,
            r.endpoint.type_@ == type_@,
            r.endpoint.name@ == name@,
            r.endpoint.repo_name@ == repo_name@,
    {
        Request {
            client: self,
            endpoint: endpoints::LinkPackage {
                owner: owner.to_owned(),
                type_: type_.to_owned(),
                name: name.to_owned(),
                repo_name: repo_name.to_owned(),
            },
            response: core::marker::PhantomData,
        }
    }

    /// Unlink a package from a repository
    ///
    /// - `owner`: owner of the package
    /// - `type`: type of the package
    /// - `name`: name of the package
    pub fn unlink_package(&self, owner: &str, type_: &str, name: &str) -> (r: Request<'_, endpoints::UnlinkPackage, ()>)
        ensures
            r.client == self,
            r.endpoint.owner@ == owner@,
            r.endpoint.type_@ == type_@,
            r.endpoint.name@ == name@,
    {
        Request {
            client: self,
            endpoint: endpoints::UnlinkPackage {
                owner: owner.to_owned(),
                type_: type_.to_owned(),
                name: name.to_owned(),
            },
            response: core::marker::PhantomData,
        }
    }

    /// Gets a package
    ///
    /// - `owner`: owner of the package
    /// - `type`: type of the package
    /// - `name`: name of the package
    /// - `version`: version of the package
    pub fn get_package(&self, owner: &str, type_: &str, name: &str, version: &str) -> (r: Request<'_, endpoints::GetPackage, Package>)
        ensures
            r.client == self,
            r.endpoint.owner@ == owner@,
            r.endpoint.type_@ == type_@,
            r.endpoint.name@ == name@,
            r.endpoint.version@ == version@,
    {
        Request {
            client: self,
            endpoint: endpoints::GetPackage {
                owner: owner.to_owned(),
                type_: type_.to_owned(),
                name: name.to_owned(),
                version: version.to_owned(),
            },
            response: core::marker::PhantomData,
        }
    }

    /// Delete a package
    ///
    /// - `owner`: owner of the package
    /// - `type`: type of the package
    /// - `name`: name of the package
    /// - `version`: version of the package
    pub fn delete_package(&self, owner: &str, type_: &str, name: &str, version: &str) -> (r: Request<'_, endpoints::DeletePackage, ()>)
        ensures
            r.client == self,
            r.endpoint.owner@ == owner@,
            r.endpoint.type_@ == type_@,
            r.endpoint.name@ == name@,
            r.endpoint.version@ == version@,
    {
        Request {
            client: self,
            endpoint: endpoints::DeletePackage {
                owner: owner.to_owned(),
                type_: type_.to_owned(),
                name: name.to_owned(),
                version: version.to_owned(),
            },
            response: core::marker::PhantomData,
        }
    }

    /// Gets all files of a package
    ///
    /// - `owner`: owner of the package
    /// - `type`: type of the package
    /// - `name`: name of the package
    /// - `version`: version of the package
    pub fn list_package_files(&self, owner: &str, type_: &str, name: &str, version: &str) -> (r: Request<'_, endpoints::ListPackageFiles, Vec<PackageFile>>)
        ensures
            r.client == self,
            r.endpoint.owner@ == owner@,
            r.endpoint.type_@ == type_@,
            r.endpoint.name@ == name@,
            r.endpoint.version@ == version@,
    {
        Request {
            client: self,
            endpoint: endpoints::ListPackageFiles {
                owner: owner.to_owned(),
                type_: type_.to_owned(),
                name: name.to_owned(),
                version: version.to_owned(),
            },
            response: core::marker::PhantomData,
        }
    }

    /// Search for issues across the repositories that the user has access to
    ///
    pub fn issue_search_issues(&self, query: IssueSearchIssuesQuery) -> (r: Request<'_, endpoints::IssueSearchIssues, (IssueListHeaders, Vec<Issue>)>)
        ensures
            r.client == self,
            r.endpoint.query == query,
    {
        Request {
            client: self,
            endpoint: endpoints::IssueSearchIssues {
                query: query,
            },
            response: core::marker::PhantomData,
        }
    }

    /// Migrate a remote git repository
    ///
    /// - `body`: See [`MigrateRepoOptions`]
    pub fn repo_migrate(&self, body: MigrateRepoOptions) -> (r: Request<'_, endpoints::RepoMigrate, Repository>)
        ensures
            r.client == self,
            r.endpoint.body == body,
    {
        Request {
            client: self,
            endpoint: endpoints::RepoMigrate {
                body: body,
            },
            response: core::marker::PhantomData,
        }
    }

    /// Search for repositories
    ///
    pub fn repo_search(&self, query: RepoSearchQuery) -> (r: Request<'_, endpoints::RepoSearch, SearchResults>)
        ensures
            r.client == self,
            r.endpoint.query == query,
    {
        Request {
            client: self,
            endpoint: endpoints::RepoSearch {
                query: query,
            },
            response: core::marker::PhantomData,
        }
    }

    /// Get a repository
    ///
    /// - `owner`: owner of the repo
    /// - `repo`: name of the repo
    pub fn repo_get(&self, owner: &str, repo: &str) -> (r: Request<'_, endpoints::RepoGet, Repository>)
        ensures
            r.client == self,
            r.endpoint.owner@ == owner@,
            r.endpoint.repo@ == repo@,
    {
        Request {
            client: self,
            endpoint: endpoints::RepoGet {
                owner: owner.to_owned(),
                repo: repo.to_owned(),
            },
            response: core::marker::PhantomData,
        }
    }

    /// Delete a repository
    ///
    /// - `owner`: owner of the repo to delete
    /// - `repo`: name of the repo to delete
    pub fn repo_delete(&self, owner: &str, repo: &str) -> (r: Request<'_, endpoints::RepoDelete, ()>)
        ensures
            r.client == self,
            r.endpoint.owner@ == owner@,
            r.endpoint.repo@ == repo@,
    {
        Request {
            client: self,
            endpoint: endpoints::RepoDelete {
                owner: owner.to_owned(),
                repo: repo.to_owned(),
            },
            response: core::marker::PhantomData,
        }
    }

    ///   See [`EditRepoOption`]
    pub fn repo_edit(&self, owner: &str, repo: &str, body: EditRepoOption) -> (r: Request<'_, endpoints::RepoEdit, Repository>)
        ensures
            r.client == self,
            r.endpoint.owner@ == owner@,
            r.endpoint.repo@ == repo@,
            r.endpoint.body == body,
    {
        Request {
            client: self,
            endpoint: endpoints::RepoEdit {
                owner: owner.to_owned(),
                repo: repo.to_owned(),
                body: body,
            },
            response: core::marker::PhantomData,
        }
    }

    /// Search for repository's action jobs according filter conditions
    ///
    /// - `owner`: owner of the repo
    /// - `repo`: name of the repo
    pub fn repo_search_run_jobs(&self, owner: &str, repo: &str, query: RepoSearchRunJobsQuery) -> (r: Request<'_, endpoints::RepoSearchRunJobs, Vec<ActionRunJob>>)
        ensures
            r.client == self,
            r.endpoint.owner@ == owner@,
            r.endpoint.repo@ == repo@,
            r.endpoint.query == query,
    {
        Request {
            client: self,
            endpoint: endpoints::RepoSearchRunJobs {
                owner: owner.to_owned(),
                repo: repo.to_owned(),
                query: query,
            },
            response: core::marker::PhantomData,
        }
    }

    /// Get a repository's actions runner registration token
    ///
    /// - `owner`: owner of the repo
    /// - `repo`: name of the repo
    pub fn repo_get_runner_registration_token(&self, owner: &str, repo: &str) -> (r: Request<'_, endpoints::RepoGetRunnerRegistrationToken, RegistrationToken>)
        ensures
            r.client == self,
            r.endpoint.owner@ == owner@,
            r.endpoint.repo@ == repo@,
    {
        Request {
            client: self,
            endpoint: endpoints::RepoGetRunnerRegistrationToken {
                owner: owner.to_owned(),
                repo: repo.to_owned(),
            },
            response: core::marker::PhantomData,
        }
    }

    /// List a repository's action runs
    ///
    /// - `owner`: owner of the repo
    /// - `repo`: name of the repo
    pub fn list_action_runs(&self, owner: &str, repo: &str, query: ListActionRunsQuery) -> (r: Request<'_, endpoints::ListActionRuns, ListActionRunResponse>)
        ensures
            r.client == self,
            r.endpoint.owner@ == owner@,
            r.endpoint.repo@ == repo@,
            r.endpoint.query == query,
    {
        Request {
            client: self,
            endpoint: endpoints::ListActionRuns {
                owner: owner.to_owned(),
                repo: repo.to_owned(),
                query: query,
            },
            response: core::marker::PhantomData,
        }
    }

    /// Get an action run
    ///
    /// - `owner`: owner of the repo
    /// - `repo`: name of the repo
    /// - `run_id`: id of the action run
    pub fn get_action_run(&self, owner: &str, repo: &str, run_id: i64) -> (r: Request<'_, endpoints::GetActionRun, ActionRun>)
        ensures
            r.client == self,
            r.endpoint.owner@ == owner@,
            r.endpoint.repo@ == repo@,
            r.endpoint.run_id == run_id,
    {
        Request {
            client: self,
            endpoint: endpoints::GetActionRun {
                owner: owner.to_owned(),
                repo: repo.to_owned(),
                run_id: run_id,
            },
            response: core::marker::PhantomData,
        }
    }

    /// List an repo's actions secrets
    ///
    /// - `owner`: owner of the repository
    /// - `repo`: name of the repository
    pub fn repo_list_actions_secrets(&self, owner: &str, repo: &str) -> (r: Request<'_, endpoints::RepoListActionsSecrets, (SecretListHeaders, Vec<Secret>)>)
        ensures
            r.client == self,
            r.endpoint.owner@ == owner@,
            r.endpoint.repo@ == repo@,
    {
        Request {
            client: self,
            endpoint: endpoints::RepoListActionsSecrets {
                owner: owner.to_owned(),
                repo: repo.to_owned(),
            },
            response: core::marker::PhantomData,
        }
    }

    /// Create or Update a secret value in a repository
    ///
    /// - `owner`: owner of the repository
    /// - `repo`: name of the repository
    /// - `secretname`: name of the secret
    /// - `body`: See [`CreateOrUpdateSecretOption`]
    pub fn update_repo_secret(&self, owner: &str, repo: &str, secretname: &str, body: CreateOrUpdateSecretOption) -> (r: Request<'_, endpoints::UpdateRepoSecret, ()>)
        ensures
            r.client == self,
            r.endpoint.owner@ == owner@,
            r.endpoint.repo@ == repo@,
            r.endpoint.secretname@ == secretname@,
            r.endpoint.body == body,
    {
        Request {
            client: self,
            endpoint: endpoints::UpdateRepoSecret {
                owner: owner.to_owned(),
                repo: repo.to_owned(),
                secretname: secretname.to_owned(),
                body: body,
            },
            response: core::marker::PhantomData,
        }
    }

    /// Delete a secret in a repository
    ///
    /// - `owner`: owner of the repository
    /// - `repo`: name of the repository
    /// - `secretname`: name of the secret
    pub fn delete_repo_secret(&self, owner: &str, repo: &str, secretname: &str) -> (r: Request<'_, endpoints::DeleteRepoSecret, ()>)
        ensures
            r.client == self,
            r.endpoint.owner@ == owner@,
            r.endpoint.repo@ == repo@,
            r.endpoint.secretname@ == secretname@,
    {
        Request {
            client: self,
            endpoint: endpoints::DeleteRepoSecret {
                owner: owner.to_owned(),
                repo: repo.to_owned(),
                secretname: secretname.to_owned(),
            },
            response: core::marker::PhantomData,
        }
    }

    /// List a repository's action tasks
    ///
    /// - `owner`: owner of the repo
    /// - `repo`: name of the repo
    pub fn list_action_tasks(&self, owner: &str, repo: &str) -> (r: Request<'_, endpoints::ListActionTasks, ActionTaskResponse>)
        ensures
            r.client == self,
            r.endpoint.owner@ == owner@,
            r.endpoint.repo@ == repo@,
    {
        Request {
            client: self,
            endpoint: endpoints::ListActionTasks {
                owner: owner.to_owned(),
                repo: repo.to_owned(),
            },
            response: core::marker::PhantomData,
        }
    }

    /// Get repo-level variables list
    ///
    /// - `owner`: name of the owner
    /// - `repo`: name of the repository
    pub fn get_repo_variables_list(&self, owner: &str, repo: &str) -> (r: Request<'_, endpoints::GetRepoVariablesList, (VariableListHeaders, Vec<ActionVariable>)>)
        ensures
            r.client == self,
            r.endpoint.owner@ == owner@,
            r.endpoint.repo@ == repo@,
    {
        Request {
            client: self,
            endpoint: endpoints::GetRepoVariablesList {
                owner: owner.to_owned(),
                repo: repo.to_owned(),
            },
            response: core::marker::PhantomData,
        }
    }

    /// Get a repo-level variable
    ///
    /// - `owner`: name of the owner
    /// - `repo`: name of the repository
    /// - `variablename`: name of the variable
    pub fn get_repo_variable(&self, owner: &str, repo: &str, variablename: &str) -> (r: Request<'_, endpoints::GetRepoVariable, ActionVariable>)
        ensures
            r.client == self,
            r.endpoint.owner@ == owner@,
            r.endpoint.repo@ == repo@,
            r.endpoint.variablename@ == variablename@,
    {
        Request {
            client: self,
            endpoint: endpoints::GetRepoVariable {
                owner: owner.to_owned(),
                repo: repo.to_owned(),
                variablename: variablename.to_owned(),
            },
            response: core::marker::PhantomData,
        }
    }

    /// Update a repo-level variable
    ///
    /// - `owner`: name of the owner
    /// - `repo`: name of the repository
    /// - `variablename`: name of the variable
    /// - `body`: See [`UpdateVariableOption`]
    pub fn update_repo_variable(&self, owner: &str, repo: &str, variablename: &str, body: UpdateVariableOption) -> (r: Request<'_, endpoints::UpdateRepoVariable, ()>)
        ensures
            r.client == self,
            r.endpoint.owner@ == owner@,
            r.endpoint.repo@ == repo@,
            r.endpoint.variablename@ == variablename@,
            r.endpoint.body == body,
    {
        Request {
            client: self,
            endpoint: endpoints::UpdateRepoVariable {
                owner: owner.to_owned(),
                repo: repo.to_owned(),
                variablename: variablename.to_owned(),
                body: body,
            },
            response: core::marker::PhantomData,
        }
    }

    /// Create a repo-level variable
    ///
    /// - `owner`: name of the owner
    /// - `repo`: name of the repository
    /// - `variablename`: name of the variable
    /// - `body`: See [`CreateVariableOption`]
    pub fn create_repo_variable(&self, owner: &str, repo: &str, variablename: &str, body: CreateVariableOption) -> (r: Request<'_, endpoints::CreateRepoVariable, ()>)
        ensures
            r.client == self,
            r.endpoint.owner@ == owner@,
            r.endpoint.repo@ == repo@,
            r.endpoint.variablename@ == variablename@,
            r.endpoint.body == body,
    {
        Request {
            client: self,
            endpoint: endpoints::CreateRepoVariable {
                owner: owner.to_owned(),
                repo: repo.to_owned(),
                variablename: variablename.to_owned(),
                body: body,
            },
            response: core::marker::PhantomData,
        }
    }

    /// Delete a repo-level variable
    ///
    /// - `owner`: name of the owner
    /// - `repo`: name of the repository
    /// - `variablename`: name of the variable
    pub fn delete_repo_variable(&self, owner: &str, repo: &str, variablename: &str) -> (r: Request<'_, endpoints::DeleteRepoVariable, ()>)
        ensures
            r.client == self,
            r.endpoint.owner@ == owner@,
            r.endpoint.repo@ == repo@,
            r.endpoint.variablename@ == variablename@,
    {
        Request {
            client: self,
            endpoint: endpoints::DeleteRepoVariable {
                owner: owner.to_owned(),
                repo: repo.to_owned(),
                variablename: variablename.to_owned(),
            },
            response: core::marker::PhantomData,
        }
    }

    /// Dispatches a workflow
    ///
    /// - `owner`: owner of the repo
    /// - `repo`: name of the repo
    /// - `workflowfilename`: name of the workflow
    /// - `body`: See [`DispatchWorkflowOption`]
    pub fn dispatch_workflow(&self, owner: &str, repo: &str, workflowfilename: &str, body: DispatchWorkflowOption) -> (r: Request<'_, endpoints::DispatchWorkflow, Option<DispatchWorkflowRun>>)
        ensures
            r.client == self,
            r.endpoint.owner@ == owner@,
            r.endpoint.repo@ == repo@,
            r.endpoint.workflowfilename@ == workflowfilename@,
            r.endpoint.body == body,
    {
        Request {
            client: self,
            endpoint: endpoints::DispatchWorkflow {
                owner: owner.to_owned(),
                repo: repo.to_owned(),
                workflowfilename: workflowfilename.to_owned(),
                body: body,
            },
            response: core::marker::PhantomData,
        }
    }

    /// List a repository's activity feeds
    ///
    /// - `owner`: owner of the repo
    /// - `repo`: name of the repo
    pub fn repo_list_activity_feeds(&self, owner: &str, repo: &str, query: RepoListActivityFeedsQuery) -> (r: Request<'_, endpoints::RepoListActivityFeeds, (ActivityFeedsListHeaders, Vec<Activity>)>)
        ensures
            r.client == self,
            r.endpoint.owner@ == owner@,
            r.endpoint.repo@ == repo@,
            r.endpoint.query == query,
    {
        Request {
            client: self,
            endpoint: endpoints::RepoListActivityFeeds {
                owner: owner.to_owned(),
                repo: repo.to_owned(),
                query: query,
            },
            response: core::marker::PhantomData,
        }
    }

    /// Get an archive of a repository
    ///
    /// - `owner`: owner of the repo
    /// - `repo`: name of the repo
    /// - `archive`: the git reference for download with attached archive format (e.g. master.zip)
    pub fn repo_get_archive(&self, owner: &str, repo: &str, archive: &str) -> (r: Request<'_, endpoints::RepoGetArchive, bytes::Bytes>)
        ensures
            r.client == self,
            r.endpoint.owner@ == owner@,
            r.endpoint.repo@ == repo@,
            r.endpoint.archive@ == archive@,
    {
        Request {
            client: self,
            endpoint: endpoints::RepoGetArchive {
                owner: owner.to_owned(),
                repo: repo.to_owned(),
                archive: archive.to_owned(),
            },
            response: core::marker::PhantomData,
        }
    }

    /// Return all users that have write access and can be assigned to issues
    ///
    /// - `owner`: owner of the repo
    /// - `repo`: name of the repo
    pub fn repo_get_assignees(&self, owner: &str, repo: &str) -> (r: Request<'_, endpoints::RepoGetAssignees, (UserListHeaders, Vec<User>)>)
        ensures
            r.client == self,
            r.endpoint.owner@ == owner@,
            r.endpoint.repo@ == repo@,
    {
        Request {
            client: self,
            endpoint: endpoints::RepoGetAssignees {
                owner: owner.to_owned(),
                repo: repo.to_owned(),
            },
            response: core::marker::PhantomData,
        }
    }

    /// Update a repository's avatar
    ///
    /// - `owner`: owner of the repo
    /// - `repo`: name of the repo
    /// - `body`: See [`UpdateRepoAvatarOption`]
    pub fn repo_update_avatar(&self, owner: &str, repo: &str, body: UpdateRepoAvatarOption) -> (r: Request<'_, endpoints::RepoUpdateAvatar, ()>)
        ensures
            r.client == self,
            r.endpoint.owner@ == owner@,
            r.endpoint.repo@ == repo@,
            r.endpoint.body == body,
    {
        Request {
            client: self,
            endpoint: endpoints::RepoUpdateAvatar {
                owner: owner.to_owned(),
                repo: repo.to_owned(),
                body: body,
            },
            response: core::marker::PhantomData,
        }
    }

    /// Delete a repository's avatar
    ///
    /// - `owner`: owner of the repo
    /// - `repo`: name of the repo
    pub fn repo_delete_avatar(&self, owner: &str, repo: &str) -> (r: Request<'_, endpoints::RepoDeleteAvatar, ()>)
        ensures
            r.client == self,
            r.endpoint.owner@ == owner@,
            r.endpoint.repo@ == repo@,
    {
        Request {
            client: self,
            endpoint: endpoints::RepoDeleteAvatar {
                owner: owner.to_owned(),
                repo: repo.to_owned(),
            },
            response: core::marker::PhantomData,
        }
    }

    /// List branch protections for a repository
    ///
    /// - `owner`: owner of the repo
    /// - `repo`: name of the repo
    pub fn repo_list_branch_protection(&self, owner: &str, repo: &str) -> (r: Request<'_, endpoints::RepoListBranchProtection, Vec<BranchProtection>>)
        ensures
            r.client == self,
            r.endpoint.owner@ == owner@,
            r.endpoint.repo@ == repo@,
    {
        Request {
            client: self,
            endpoint: endpoints::RepoListBranchProtection {
                owner: owner.to_owned(),
                repo: repo.to_owned(),
            },
            response: core::marker::PhantomData,
        }
    }

    /// Create a branch protections for a repository
    ///
    /// - `owner`: owner of the repo
    /// - `repo`: name of the repo
    /// - `body`: See [`CreateBranchProtectionOption`]
    pub fn repo_create_branch_protection(&self, owner: &str, repo: &str, body: CreateBranchProtectionOption) -> (r: Request<'_, endpoints::RepoCreateBranchProtection, BranchProtection>)
        ensures
            r.client == self,
            r.endpoint.owner@ == owner@,
            r.endpoint.repo@ == repo@,
            r.endpoint.body == body,
    {
        Request {
            client: self,
            endpoint: endpoints::RepoCreateBranchProtection {
                owner: owner.to_owned(),
                repo: repo.to_owned(),
                body: body,
            },
            response: core::marker::PhantomData,
        }
    }

    /// Get a specific branch protection for the repository
    ///
    /// - `owner`: owner of the repo
    /// - `repo`: name of the repo
    /// - `name`: name of protected branch
    pub fn repo_get_branch_protection(&self, owner: &str, repo: &str, name: &str) -> (r: Request<'_, endpoints::RepoGetBranchProtection, BranchProtection>)
        ensures
            r.client == self,
            r.endpoint.owner@ == owner@,
            r.endpoint.repo@ == repo@,
            r.endpoint.name@ == name@,
    {
        Request {
            client: self,
            endpoint: endpoints::RepoGetBranchProtection {
                owner: owner.to_owned(),
                repo: repo.to_owned(),
                name: name.to_owned(),
            },
            response: core::marker::PhantomData,
        }
    }

    /// Delete a specific branch protection for the repository
    ///
    /// - `owner`: owner of the repo
    /// - `repo`: name of the repo
    /// - `name`: name of protected branch
    pub fn repo_delete_branch_protection(&self, owner: &str, repo: &str, name: &str) -> (r: Request<'_, endpoints::RepoDeleteBranchProtection, ()>)
        ensures
            r.client == self,
            r.endpoint.owner@ == owner@,
            r.endpoint.repo@ == repo@,
            r.endpoint.name@ == name@,
    {
        Request {
            client: self,
            endpoint: endpoints::RepoDeleteBranchProtection {
                owner: owner.to_owned(),
                repo: repo.to_owned(),
                name: name.to_owned(),
            },
            response: core::marker::PhantomData,
        }
    }

    /// Edit a branch protections for a repository. Only fields that are set will be changed
    ///
    /// - `owner`: owner of the repo
    /// - `repo`: name of the repo
    /// - `name`: name of protected branch
    /// - `body`: See [`EditBranchProtectionOption`]
    pub fn repo_edit_branch_protection(&self, owner: &str, repo: &str, name: &str, body: EditBranchProtectionOption) -> (r: Request<'_, endpoints::RepoEditBranchProtection, BranchProtection>)
        ensures
            r.client == self,
            r.endpoint.owner@ == owner@,
            r.endpoint.repo@ == repo@,
            r.endpoint.name@ == name@,
            r.endpoint.body == body,
    {
        Request {
            client: self,
            endpoint: endpoints::RepoEditBranchProtection {
                owner: owner.to_owned(),
                repo: repo.to_owned(),
                name: name.to_owned(),
                body: body,
            },
            response: core::marker::PhantomData,
        }
    }

    /// List a repository's branches
    ///
    /// - `owner`: owner of the repo
    /// - `repo`: name of the repo
    pub fn repo_list_branches(&self, owner: &str, repo: &str) -> (r: Request<'_, endpoints::RepoListBranches, (BranchListHeaders, Vec<Branch>)>)
        ensures
            r.client == self,
            r.endpoint.owner@ == owner@,
            r.endpoint.repo@ == repo@,
    {
        Request {
            client: self,
            endpoint: endpoints::RepoListBranches {
                owner: owner.to_owned(),
                repo: repo.to_owned(),
            },
            response: core::marker::PhantomData,
        }
    }

    /// Create a branch
    ///
    /// - `owner`: owner of the repo
    /// - `repo`: name of the repo
    /// - `body`: See [`CreateBranchRepoOption`]
    pub fn repo_create_branch(&self, owner: &str, repo: &str, body: CreateBranchRepoOption) -> (r: Request<'_, endpoints::RepoCreateBranch, Branch>)
        ensures
            r.client == self,
            r.endpoint.owner@ == owner@,
            r.endpoint.repo@ == repo@,
            r.endpoint.body == body,
    {
        Request {
            client: self,
            endpoint: endpoints::RepoCreateBranch {
                owner: owner.to_owned(),
                repo: repo.to_owned(),
                body: body,
            },
            response: core::marker::PhantomData,
        }
    }

    /// Retrieve a specific branch from a repository, including its effective branch protection
    ///
    /// - `owner`: owner of the repo
    /// - `repo`: name of the repo
    /// - `branch`: branch to get
    pub fn repo_get_branch(&self, owner: &str, repo: &str, branch: &str) -> (r: Request<'_, endpoints::RepoGetBranch, Branch>)
        ensures
            r.client == self,
            r.endpoint.owner@ == owner@,
            r.endpoint.repo@ == repo@,
            r.endpoint.branch@ == branch@,
    {
        Request {
            client: self,
            endpoint: endpoints::RepoGetBranch {
                owner: owner.to_owned(),
                repo: repo.to_owned(),
                branch: branch.to_owned(),
            },
            response: core::marker::PhantomData,
        }
    }

    /// Delete a specific branch from a repository
    ///
    /// - `owner`: owner of the repo
    /// - `repo`: name of the repo
    /// - `branch`: branch to delete
    pub fn repo_delete_branch(&self, owner: &str, repo: &str, branch: &str) -> (r: Request<'_, endpoints::RepoDeleteBranch, ()>)
        ensures
            r.client == self,
            r.endpoint.owner@ == owner@,
            r.endpoint.repo@ == repo@,
            r.endpoint.branch@ == branch@,
    {
        Request {
            client: self,
            endpoint: endpoints::RepoDeleteBranch {
                owner: owner.to_owned(),
                repo: repo.to_owned(),
                branch: branch.to_owned(),
            },
            response: core::marker::PhantomData,
        }
    }

    /// Update a branch
    ///
    /// - `owner`: owner of the repo
    /// - `repo`: name of the repo
    /// - `branch`: name of the branch
    /// - `body`: See [`UpdateBranchRepoOption`]
    pub fn repo_update_branch(&self, owner: &str, repo: &str, branch: &str, body: UpdateBranchRepoOption) -> (r: Request<'_, endpoints::RepoUpdateBranch, ()>)
        ensures
            r.client == self,
            r.endpoint.owner@ == owner@,
            r.endpoint.repo@ == repo@,
            r.endpoint.branch@ == branch@,
            r.endpoint.body == body,
    {
        Request {
            client: self,
            endpoint: endpoints::RepoUpdateBranch {
                owner: owner.to_owned(),
                repo: repo.to_owned(),
                branch: branch.to_owned(),
                body: body,
            },
            response: core::marker::PhantomData,
        }
    }

    /// List a repository's collaborators
    ///
    /// - `owner`: owner of the repo
    /// - `repo`: name of the repo
    pub fn repo_list_collaborators(&self, owner: &str, repo: &str) -> (r: Request<'_, endpoints::RepoListCollaborators, (UserListHeaders, Vec<User>)>)
        ensures
            r.client == self,
            r.endpoint.owner@ == owner@,
            r.endpoint.repo@ == repo@,
    {
        Request {
            client: self,
            endpoint: endpoints::RepoListCollaborators {
                owner: owner.to_owned(),
                repo: repo.to_owned(),
            },
            response: core::marker::PhantomData,
        }
    }

    /// Check if a user is a collaborator of a repository
    ///
    /// - `owner`: owner of the repo
    /// - `repo`: name of the repo
    /// - `collaborator`: username of the collaborator
    pub fn repo_check_collaborator(&self, owner: &str, repo: &str, collaborator: &str) -> (r: Request<'_, endpoints::RepoCheckCollaborator, ()>)
        ensures
            r.client == self,
            r.endpoint.owner@ == owner@,
            r.endpoint.repo@ == repo@,
            r.endpoint.collaborator@ == collaborator@,
    {
        Request {
            client: self,
            endpoint: endpoints::RepoCheckCollaborator {
                owner: owner.to_owned(),
                repo: repo.to_owned(),
                collaborator: collaborator.to_owned(),
            },
            response: core::marker::PhantomData,
        }
    }

    /// Add a collaborator to a repository
    ///
    /// - `owner`: owner of the repo
    /// - `repo`: name of the repo
    /// - `collaborator`: username of the collaborator to add
    /// - `body`: See [`AddCollaboratorOption`]
    pub fn repo_add_collaborator(&self, owner: &str, repo: &str, collaborator: &str, body: AddCollaboratorOption) -> (r: Request<'_, endpoints::RepoAddCollaborator, ()>)
        ensures
            r.client == self,
            r.endpoint.owner@ == owner@,
            r.endpoint.repo@ == repo@,
            r.endpoint.collaborator@ == collaborator@,
            r.endpoint.body == body,
    {
        Request {
            client: self,
            endpoint: endpoints::RepoAddCollaborator {
                owner: owner.to_owned(),
                repo: repo.to_owned(),
                collaborator: collaborator.to_owned(),
                body: body,
            },
            response: core::marker::PhantomData,
        }
    }

    /// Delete a collaborator from a repository
    ///
    /// - `owner`: owner of the repo
    /// - `repo`: name of the repo
    /// - `collaborator`: username of the collaborator to delete
    pub fn repo_delete_collaborator(&self, owner: &str, repo: &str, collaborator: &str) -> (r: Request<'_, endpoints::RepoDeleteCollaborator, ()>)
        ensures
            r.client == self,
            r.endpoint.owner@ == owner@,
            r.endpoint.repo@ == repo@,
            r.endpoint.collaborator@ == collaborator@,
    {
        Request {
            client: self,
            endpoint: endpoints::RepoDeleteCollaborator {
                owner: owner.to_owned(),
                repo: repo.to_owned(),
                collaborator: collaborator.to_owned(),
            },
            response: core::marker::PhantomData,
        }
    }

    /// Get repository permissions for a user
    ///
    /// - `owner`: owner of the repo
    /// - `repo`: name of the repo
    /// - `collaborator`: username of the collaborator
    pub fn repo_get_repo_permissions(&self, owner: &str, repo: &str, collaborator: &str) -> (r: Request<'_, endpoints::RepoGetRepoPermissions, RepoCollaboratorPermission>)
        ensures
            r.client == self,
            r.endpoint.owner@ == owner@,
            r.endpoint.repo@ == repo@,
            r.endpoint.collaborator@ == collaborator@,
    {
        Request {
            client: self,
            endpoint: endpoints::RepoGetRepoPermissions {
                owner: owner.to_owned(),
                repo: repo.to_owned(),
                collaborator: collaborator.to_owned(),
            },
            response: core::marker::PhantomData,
        }
    }

    /// Get a list of all commits from a repository
    ///
    /// - `owner`: owner of the repo
    /// - `repo`: name of the repo
    pub fn repo_get_all_commits(&self, owner: &str, repo: &str, query: RepoGetAllCommitsQuery) -> (r: Request<'_, endpoints::RepoGetAllCommits, (CommitListHeaders, Vec<Commit>)>)
        ensures
            r.client == self,
            r.endpoint.owner@ == owner@,
            r.endpoint.repo@ == repo@,
            r.endpoint.query == query,
    {
        Request {
            client: self,
            endpoint: endpoints::RepoGetAllCommits {
                owner: owner.to_owned(),
                repo: repo.to_owned(),
                query: query,
            },
            response: core::marker::PhantomData,
        }
    }

    /// Get a commit's combined status, by branch/tag/commit reference
    ///
    /// - `owner`: owner of the repo
    /// - `repo`: name of the repo
    /// - `ref`: name of branch/tag/commit
    pub fn repo_get_combined_status_by_ref(&self, owner: &str, repo: &str, ref_: &str) -> (r: Request<'_, endpoints::RepoGetCombinedStatusByRef, (CombinedStatusHeaders, CombinedStatus)>)
        ensures
            r.client == self,
            r.endpoint.owner@ == owner@,
            r.endpoint.repo@ == repo@,
            r.endpoint.ref_@ == ref_@,
    {
        Request {
            client: self,
            endpoint: endpoints::RepoGetCombinedStatusByRef {
                owner: owner.to_owned(),
                repo: repo.to_owned(),
                ref_: ref_.to_owned(),
            },
            response: core::marker::PhantomData,
        }
    }

    /// Get a commit's statuses, by branch/tag/commit reference
    ///
    /// - `owner`: owner of the repo
    /// - `repo`: name of the repo
    /// - `ref`: name of branch/tag/commit
    pub fn repo_list_statuses_by_ref(&self, owner: &str, repo: &str, ref_: &str, query: RepoListStatusesByRefQuery) -> (r: Request<'_, endpoints::RepoListStatusesByRef, (CommitStatusListHeaders, Vec<CommitStatus>)>)
        ensures
            r.client == self,
            r.endpoint.owner@ == owner@,
            r.endpoint.repo@ == repo@,
            r.endpoint.ref_@ == ref_@,
            r.endpoint.query == query,
    {
        Request {
            client: self,
            endpoint: endpoints::RepoListStatusesByRef {
                owner: owner.to_owned(),
                repo: repo.to_owned(),
                ref_: ref_.to_owned(),
                query: query,
            },
            response: core::marker::PhantomData,
        }
    }

    /// Get the pull request of the commit
    ///
    /// - `owner`: owner of the repo
    /// - `repo`: name of the repo
    /// - `sha`: SHA of the commit to get
    pub fn repo_get_commit_pull_request(&self, owner: &str, repo: &str, sha: &str) -> (r: Request<'_, endpoints::RepoGetCommitPullRequest, PullRequest>)
        ensures
            r.client == self,
            r.endpoint.owner@ == owner@,
            r.endpoint.repo@ == repo@,
            r.endpoint.sha@ == sha@,
    {
        Request {
            client: self,
            endpoint: endpoints::RepoGetCommitPullRequest {
                owner: owner.to_owned(),
                repo: repo.to_owned(),
                sha: sha.to_owned(),
            },
            response: core::marker::PhantomData,
        }
    }

    /// Get commit comparison information
    ///
    /// - `owner`: owner of the repo
    /// - `repo`: name of the repo
    /// - `basehead`: compare two branches or commits
    pub fn repo_compare_diff(&self, owner: &str, repo: &str, basehead: &str) -> (r: Request<'_, endpoints::RepoCompareDiff, Compare>)
        ensures
            r.client == self,
            r.endpoint.owner@ == owner@,
            r.endpoint.repo@ == repo@,
            r.endpoint.basehead@ == basehead@,
    {
        Request {
            client: self,
            endpoint: endpoints::RepoCompareDiff {
                owner: owner.to_owned(),
                repo: repo.to_owned(),
                basehead: basehead.to_owned(),
            },
            response: core::marker::PhantomData,
        }
    }

    /// Gets the metadata of all the entries of the root dir
    ///
    /// - `owner`: owner of the repo
    /// - `repo`: name of the repo
    pub fn repo_get_contents_list(&self, owner: &str, repo: &str, query: RepoGetContentsListQuery) -> (r: Request<'_, endpoints::RepoGetContentsList, Vec<ContentsResponse>>)
        ensures
            r.client == self,
            r.endpoint.owner@ == owner@,
            r.endpoint.repo@ == repo@,
            r.endpoint.query == query,
    {
        Request {
            client: self,
            endpoint: endpoints::RepoGetContentsList {
                owner: owner.to_owned(),
                repo: repo.to_owned(),
                query: query,
            },
            response: core::marker::PhantomData,
        }
    }

    /// Modify multiple files in a repository
    ///
    /// - `owner`: owner of the repo
    /// - `repo`: name of the repo
    /// - `body`: See [`ChangeFilesOptions`]
    pub fn repo_change_files(&self, owner: &str, repo: &str, body: ChangeFilesOptions) -> (r: Request<'_, endpoints::RepoChangeFiles, FilesResponse>)
        ensures
            r.client == self,
            r.endpoint.owner@ == owner@,
            r.endpoint.repo@ == repo@,
            r.endpoint.body == body,
    {
        Request {
            client: self,
            endpoint: endpoints::RepoChangeFiles {
                owner: owner.to_owned(),
                repo: repo.to_owned(),
                body: body,
            },
            response: core::marker::PhantomData,
        }
    }

    /// Gets the metadata and contents (if a file) of an entry in a repository, or a list of entries if a dir
    ///
    /// - `owner`: owner of the repo
    /// - `repo`: name of the repo
    /// - `filepath`: path of the dir, file, symlink or submodule in the repo
    pub fn repo_get_contents(&self, owner: &str, repo: &str, filepath: &str, query: RepoGetContentsQuery) -> (r: Request<'_, endpoints::RepoGetContents, ContentsResponse>)
        ensures
            r.client == self,
            r.endpoint.owner@ == owner@,
            r.endpoint.repo@ == repo@,
            r.endpoint.filepath@ == filepath@,
            r.endpoint.query == query,
    {
        Request {
            client: self,
            endpoint: endpoints::RepoGetContents {
                owner: owner.to_owned(),
                repo: repo.to_owned(),
                filepath: filepath.to_owned(),
                query: query,
            },
            response: core::marker::PhantomData,
        }
    }

    /// Update a file in a repository
    ///
    /// - `owner`: owner of the repo
    /// - `repo`: name of the repo
    /// - `filepath`: path of the file to update
    /// - `body`: See [`UpdateFileOptions`]
    pub fn repo_update_file(&self, owner: &str, repo: &str, filepath: &str, body: UpdateFileOptions) -> (r: Request<'_, endpoints::RepoUpdateFile, FileResponse>)
        ensures
            r.client == self,
            r.endpoint.owner@ == owner@,
            r.endpoint.repo@ == repo@,
            r.endpoint.filepath@ == filepath@,
            r.endpoint.body == body,
    {
        Request {
            client: self,
            endpoint: endpoints::RepoUpdateFile {
                owner: owner.to_owned(),
                repo: repo.to_owned(),
                filepath: filepath.to_owned(),
                body: body,
            },
            response: core::marker::PhantomData,
        }
    }

    /// Create a file in a repository
    ///
    /// - `owner`: owner of the repo
    /// - `repo`: name of the repo
    /// - `filepath`: path of the file to create
    /// - `body`: See [`CreateFileOptions`]
    pub fn repo_create_file(&self, owner: &str, repo: &str, filepath: &str, body: CreateFileOptions) -> (r: Request<'_, endpoints::RepoCreateFile, FileResponse>)
        ensures
            r.client == self,
            r.endpoint.owner@ == owner@,
            r.endpoint.repo@ == repo@,
            r.endpoint.filepath@ == filepath@,
            r.endpoint.body == body,
    {
        Request {
            client: self,
            endpoint: endpoints::RepoCreateFile {
                owner: owner.to_owned(),
                repo: repo.to_owned(),
                filepath: filepath.to_owned(),
                body: body,
            },
            response: core::marker::PhantomData,
        }
    }

    /// Delete a file in a repository
    ///
    /// - `owner`: owner of the repo
    /// - `repo`: name of the repo
    /// - `filepath`: path of the file to delete
    /// - `body`: See [`DeleteFileOptions`]
    pub fn repo_delete_file(&self, owner: &str, repo: &str, filepath: &str, body: DeleteFileOptions) -> (r: Request<'_, endpoints::RepoDeleteFile, FileDeleteResponse>)
        ensures
            r.client == self,
            r.endpoint.owner@ == owner@,
            r.endpoint.repo@ == repo@,
            r.endpoint.filepath@ == filepath@,
            r.endpoint.body == body,
    {
        Request {
            client: self,
            endpoint: endpoints::RepoDeleteFile {
                owner: owner.to_owned(),
                repo: repo.to_owned(),
                filepath: filepath.to_owned(),
                body: body,
            },
            response: core::marker::PhantomData,
        }
    }

    /// Convert a mirror repo to a normal repo.
    ///
    /// - `owner`: owner of the repo to convert
    /// - `repo`: name of the repo to convert
    pub fn repo_convert(&self, owner: &str, repo: &str) -> (r: Request<'_, endpoints::RepoConvert, Repository>)
        ensures
            r.client == self,
            r.endpoint.owner@ == owner@,
            r.endpoint.repo@ == repo@,
    {
        Request {
            client: self,
            endpoint: endpoints::RepoConvert {
                owner: owner.to_owned(),
                repo: repo.to_owned(),
            },
            response: core::marker::PhantomData,
        }
    }

    /// Apply diff patch to repository
    ///
    /// - `owner`: owner of the repo
    /// - `repo`: name of the repo
    /// - `body`: See [`UpdateFileOptions`]
    pub fn repo_apply_diff_patch(&self, owner: &str, repo: &str, body: UpdateFileOptions) -> (r: Request<'_, endpoints::RepoApplyDiffPatch, FileResponse>)
        ensures
            r.client == self,
            r.endpoint.owner@ == owner@,
            r.endpoint.repo@ == repo@,
            r.endpoint.body == body,
    {
        Request {
            client: self,
            endpoint: endpoints::RepoApplyDiffPatch {
                owner: owner.to_owned(),
                repo: repo.to_owned(),
                body: body,
            },
            response: core::marker::PhantomData,
        }
    }

    /// Get the EditorConfig definitions of a file in a repository
    ///
    /// - `owner`: owner of the repo
    /// - `repo`: name of the repo
    /// - `filepath`: filepath of file to get
    pub fn repo_get_editor_config(&self, owner: &str, repo: &str, filepath: &str, query: RepoGetEditorConfigQuery) -> (r: Request<'_, endpoints::RepoGetEditorConfig, BTreeMap<String, String>>)
        ensures
            r.client == self,
            r.endpoint.owner@ == owner@,
            r.endpoint.repo@ == repo@,
            r.endpoint.filepath@ == filepath@,
            r.endpoint.query == query,
    {
        Request {
            client: self,
            endpoint: endpoints::RepoGetEditorConfig {
                owner: owner.to_owned(),
                repo: repo.to_owned(),
                filepath: filepath.to_owned(),
                query: query,
            },
            response: core::marker::PhantomData,
        }
    }

    /// List a repository's flags
    ///
    /// - `owner`: owner of the repo
    /// - `repo`: name of the repo
    pub fn repo_list_flags(&self, owner: &str, repo: &str) -> (r: Request<'_, endpoints::RepoListFlags, Vec<String>>)
        ensures
            r.client == self,
            r.endpoint.owner@ == owner@,
            r.endpoint.repo@ == repo@,
    {
        Request {
            client: self,
            endpoint: endpoints::RepoListFlags {
                owner: owner.to_owned(),
                repo: repo.to_owned(),
            },
            response: core::marker::PhantomData,
        }
    }

    /// Replace all flags of a repository
    ///
    /// - `owner`: owner of the repo
    /// - `repo`: name of the repo
    /// - `body`: See [`ReplaceFlagsOption`]
    pub fn repo_replace_all_flags(&self, owner: &str, repo: &str, body: ReplaceFlagsOption) -> (r: Request<'_, endpoints::RepoReplaceAllFlags, ()>)
        ensures
            r.client == self,
            r.endpoint.owner@ == owner@,
            r.endpoint.repo@ == repo@,
            r.endpoint.body == body,
    {
        Request {
            client: self,
            endpoint: endpoints::RepoReplaceAllFlags {
                owner: owner.to_owned(),
                repo: repo.to_owned(),
                body: body,
            },
            response: core::marker::PhantomData,
        }
    }

    /// Remove all flags from a repository
    ///
    /// - `owner`: owner of the repo
    /// - `repo`: name of the repo
    pub fn repo_delete_all_flags(&self, owner: &str, repo: &str) -> (r: Request<'_, endpoints::RepoDeleteAllFlags, ()>)
        ensures
            r.client == self,
            r.endpoint.owner@ == owner@,
            r.endpoint.repo@ == repo@,
    {
        Request {
            client: self,
            endpoint: endpoints::RepoDeleteAllFlags {
                owner: owner.to_owned(),
                repo: repo.to_owned(),
            },
            response: core::marker::PhantomData,
        }
    }

    /// Check if a repository has a given flag
    ///
    /// - `owner`: owner of the repo
    /// - `repo`: name of the repo
    /// - `flag`: name of the flag
    pub fn repo_check_flag(&self, owner: &str, repo: &str, flag: &str) -> (r: Request<'_, endpoints::RepoCheckFlag, ()>)
        ensures
            r.client == self,
            r.endpoint.owner@ == owner@,
            r.endpoint.repo@ == repo@,
            r.endpoint.flag@ == flag@,
    {
        Request {
            client: self,
            endpoint: endpoints::RepoCheckFlag {
                owner: owner.to_owned(),
                repo: repo.to_owned(),
                flag: flag.to_owned(),
            },
            response: core::marker::PhantomData,
        }
    }

    /// Add a flag to a repository
    ///
    /// - `owner`: owner of the repo
    /// - `repo`: name of the repo
    /// - `flag`: name of the flag
    pub fn repo_add_flag(&self, owner: &str, repo: &str, flag: &str) -> (r: Request<'_, endpoints::RepoAddFlag, ()>)
        ensures
            r.client == self,
            r.endpoint.owner@ == owner@,
            r.endpoint.repo@ == repo@,
            r.endpoint.flag@ == flag@,
    {
        Request {
            client: self,
            endpoint: endpoints::RepoAddFlag {
                owner: owner.to_owned(),
                repo: repo.to_owned(),
                flag: flag.to_owned(),
            },
            response: core::marker::PhantomData,
        }
    }

    /// Remove a flag from a repository
    ///
    /// - `owner`: owner of the repo
    /// - `repo`: name of the repo
    /// - `flag`: name of the flag
    pub fn repo_delete_flag(&self, owner: &str, repo: &str, flag: &str) -> (r: Request<'_, endpoints::RepoDeleteFlag, ()>)
        ensures
            r.client == self,
            r.endpoint.owner@ == owner@,
            r.endpoint.repo@ == repo@,
            r.endpoint.flag@ == flag@,
    {
        Request {
            client: self,
            endpoint: endpoints::RepoDeleteFlag {
                owner: owner.to_owned(),
                repo: repo.to_owned(),
                flag: flag.to_owned(),
            },
            response: core::marker::PhantomData,
        }
    }

    /// List a repository's forks
    ///
    /// - `owner`: owner of the repo
    /// - `repo`: name of the repo
    pub fn list_forks(&self, owner: &str, repo: &str) -> (r: Request<'_, endpoints::ListForks, (RepositoryListHeaders, Vec<Repository>)>)
        ensures
            r.client == self,
            r.endpoint.owner@ == owner@,
            r.endpoint.repo@ == repo@,
    {
        Request {
            client: self,
            endpoint: endpoints::ListForks {
                owner: owner.to_owned(),
                repo: repo.to_owned(),
            },
            response: core::marker::PhantomData,
        }
    }

    /// Fork a repository
    ///
    /// - `owner`: owner of the repo to fork
    /// - `repo`: name of the repo to fork
    /// - `body`: See [`CreateForkOption`]
    pub fn create_fork(&self, owner: &str, repo: &str, body: CreateForkOption) -> (r: Request<'_, endpoints::CreateFork, Repository>)
        ensures
            r.client == self,
            r.endpoint.owner@ == owner@,
            r.endpoint.repo@ == repo@,
            r.endpoint.body == body,
    {
        Request {
            client: self,
            endpoint: endpoints::CreateFork {
                owner: owner.to_owned(),
                repo: repo.to_owned(),
                body: body,
            },
            response: core::marker::PhantomData,
        }
    }

    /// Gets multiple blobs of a repository.
    ///
    /// - `owner`: owner of the repo
    /// - `repo`: name of the repo
    pub fn get_blobs(&self, owner: &str, repo: &str, query: GetBlobsQuery) -> (r: Request<'_, endpoints::GetBlobs, Vec<GitBlob>>)
        ensures
            r.client == self,
            r.endpoint.owner@ == owner@,
            r.endpoint.repo@ == repo@,
            r.endpoint.query == query,
    {
        Request {
            client: self,
            endpoint: endpoints::GetBlobs {
                owner: owner.to_owned(),
                repo: repo.to_owned(),
                query: query,
            },
            response: core::marker::PhantomData,
        }
    }

    /// Gets the blob of a repository.
    ///
    /// - `owner`: owner of the repo
    /// - `repo`: name of the repo
    /// - `sha`: sha of the blob to retrieve
    pub fn get_blob(&self, owner: &str, repo: &str, sha: &str) -> (r: Request<'_, endpoints::GetBlob, GitBlob>)
        ensures
            r.client == self,
            r.endpoint.owner@ == owner@,
            r.endpoint.repo@ == repo@,
            r.endpoint.sha@ == sha@,
    {
        Request {
            client: self,
            endpoint: endpoints::GetBlob {
                owner: owner.to_owned(),
                repo: repo.to_owned(),
                sha: sha.to_owned(),
            },
            response: core::marker::PhantomData,
        }
    }

    /// Get a single commit from a repository
    ///
    /// - `owner`: owner of the repo
    /// - `repo`: name of the repo
    /// - `sha`: a git ref or commit sha
    pub fn repo_get_single_commit(&self, owner: &str, repo: &str, sha: &str, query: RepoGetSingleCommitQuery) -> (r: Request<'_, endpoints::RepoGetSingleCommit, Commit>)
        ensures
            r.client == self,
            r.endpoint.owner@ == owner@,
            r.endpoint.repo@ == repo@,
            r.endpoint.sha@ == sha@,
            r.endpoint.query == query,
    {
        Request {
            client: self,
            endpoint: endpoints::RepoGetSingleCommit {
                owner: owner.to_owned(),
                repo: repo.to_owned(),
                sha: sha.to_owned(),
                query: query,
            },
            response: core::marker::PhantomData,
        }
    }

    /// Get a commit's diff or patch
    ///
    /// - `owner`: owner of the repo
    /// - `repo`: name of the repo
    /// - `sha`: SHA of the commit to get
    /// - `diffType`: whether the output is diff or patch
    pub fn repo_download_commit_diff_or_patch(&self, owner: &str, repo: &str, sha: &str, diff_type: &str) -> (r: Request<'_, endpoints::RepoDownloadCommitDiffOrPatch, String>)
        ensures
            r.client == self,
            r.endpoint.owner@ == owner@,
            r.endpoint.repo@ == repo@,
            r.endpoint.sha@ == sha@,
            r.endpoint.diff_type@ == diff_type@,
    {
        Request {
            client: self,
            endpoint: endpoints::RepoDownloadCommitDiffOrPatch {
                owner: owner.to_owned(),
                repo: repo.to_owned(),
                sha: sha.to_owned(),
                diff_type: diff_type.to_owned(),
            },
            response: core::marker::PhantomData,
        }
    }

    /// Get a note corresponding to a single commit from a repository
    ///
    /// - `owner`: owner of the repo
    /// - `repo`: name of the repo
    /// - `sha`: a git ref or commit sha
    pub fn repo_get_note(&self, owner: &str, repo: &str, sha: &str, query: RepoGetNoteQuery) -> (r: Request<'_, endpoints::RepoGetNote, Note>)
        ensures
            r.client == self,
            r.endpoint.owner@ == owner@,
            r.endpoint.repo@ == repo@,
            r.endpoint.sha@ == sha@,
            r.endpoint.query == query,
    {
        Request {
            client: self,
            endpoint: endpoints::RepoGetNote {
                owner: owner.to_owned(),
                repo: repo.to_owned(),
                sha: sha.to_owned(),
                query: query,
            },
            response: core::marker::PhantomData,
        }
    }

    /// Set a note corresponding to a single commit from a repository
    ///
    /// - `owner`: owner of the repo
    /// - `repo`: name of the repo
    /// - `sha`: a git ref or commit sha
    /// - `body`: See [`NoteOptions`]
    pub fn repo_set_note(&self, owner: &str, repo: &str, sha: &str, body: NoteOptions) -> (r: Request<'_, endpoints::RepoSetNote, Note>)
        ensures
            r.client == self,
            r.endpoint.owner@ == owner@,
            r.endpoint.repo@ == repo@,
            r.endpoint.sha@ == sha@,
            r.endpoint.body == body,
    {
        Request {
            client: self,
            endpoint: endpoints::RepoSetNote {
                owner: owner.to_owned(),
                repo: repo.to_owned(),
                sha: sha.to_owned(),
                body: body,
            },
            response: core::marker::PhantomData,
        }
    }

    /// Removes a note corresponding to a single commit from a repository
    ///
    /// - `owner`: owner of the repo
    /// - `repo`: name of the repo
    /// - `sha`: a git ref or commit sha
    pub fn repo_remove_note(&self, owner: &str, repo: &str, sha: &str) -> (r: Request<'_, endpoints::RepoRemoveNote, ()>)
        ensures
            r.client == self,
            r.endpoint.owner@ == owner@,
            r.endpoint.repo@ == repo@,
            r.endpoint.sha@ == sha@,
    {
        Request {
            client: self,
            endpoint: endpoints::RepoRemoveNote {
                owner: owner.to_owned(),
                repo: repo.to_owned(),
                sha: sha.to_owned(),
            },
            response: core::marker::PhantomData,
        }
    }

    /// Get specified ref or filtered repository's refs
    ///
    /// - `owner`: owner of the repo
    /// - `repo`: name of the repo
    pub fn repo_list_all_git_refs(&self, owner: &str, repo: &str) -> (r: Request<'_, endpoints::RepoListAllGitRefs, Vec<Reference>>)
        ensures
            r.client == self,
            r.endpoint.owner@ == owner@,
            r.endpoint.repo@ == repo@,
    {
        Request {
            client: self,
            endpoint: endpoints::RepoListAllGitRefs {
                owner: owner.to_owned(),
                repo: repo.to_owned(),
            },
            response: core::marker::PhantomData,
        }
    }

    /// Get specified ref or filtered repository's refs
    ///
    /// - `owner`: owner of the repo
    /// - `repo`: name of the repo
    /// - `ref`: part or full name of the ref
    pub fn repo_list_git_refs(&self, owner: &str, repo: &str, ref_: &str) -> (r: Request<'_, endpoints::RepoListGitRefs, Vec<Reference>>)
        ensures
            r.client == self,
            r.endpoint.owner@ == owner@,
            r.endpoint.repo@ == repo@,
            r.endpoint.ref_@ == ref_@,
    {
        Request {
            client: self,
            endpoint: endpoints::RepoListGitRefs {
                owner: owner.to_owned(),
                repo: repo.to_owned(),
                ref_: ref_.to_owned(),
            },
            response: core::marker::PhantomData,
        }
    }

    /// Gets the tag object of an annotated tag (not lightweight tags)
    ///
    /// - `owner`: owner of the repo
    /// - `repo`: name of the repo
    /// - `sha`: sha of the tag. The Git tags API only supports annotated tag objects, not lightweight tags.
    pub fn get_annotated_tag(&self, owner: &str, repo: &str, sha: &str) -> (r: Request<'_, endpoints::GetAnnotatedTag, AnnotatedTag>)
        ensures
            r.client == self,
            r.endpoint.owner@ == owner@,
            r.endpoint.repo@ == repo@,
            r.endpoint.sha@ == sha@,
    {
        Request {
            client: self,
            endpoint: endpoints::GetAnnotatedTag {
                owner: owner.to_owned(),
                repo: repo.to_owned(),
                sha: sha.to_owned(),
            },
            response: core::marker::PhantomData,
        }
    }

    /// Gets the tree of a repository.
    ///
    /// - `owner`: owner of the repo
    /// - `repo`: name of the repo
    /// - `sha`: sha of the commit
    pub fn get_tree(&self, owner: &str, repo: &str, sha: &str, query: GetTreeQuery) -> (r: Request<'_, endpoints::GetTree, GitTreeResponse>)
        ensures
            r.client == self,
            r.endpoint.owner@ == owner@,
            r.endpoint.repo@ == repo@,
            r.endpoint.sha@ == sha@,
            r.endpoint.query == query,
    {
        Request {
            client: self,
            endpoint: endpoints::GetTree {
                owner: owner.to_owned(),
                repo: repo.to_owned(),
                sha: sha.to_owned(),
                query: query,
            },
            response: core::marker::PhantomData,
        }
    }

    /// List the hooks in a repository
    ///
    /// - `owner`: owner of the repo
    /// - `repo`: name of the repo
    pub fn repo_list_hooks(&self, owner: &str, repo: &str) -> (r: Request<'_, endpoints::RepoListHooks, (HookListHeaders, Vec<Hook>)>)
        ensures
            r.client == self,
            r.endpoint.owner@ == owner@,
            r.endpoint.repo@ == repo@,
    {
        Request {
            client: self,
            endpoint: endpoints::RepoListHooks {
                owner: owner.to_owned(),
                repo: repo.to_owned(),
            },
            response: core::marker::PhantomData,
        }
    }

    /// Create a hook
    ///
    /// - `owner`: owner of the repo
    /// - `repo`: name of the repo
    /// - `body`: See [`CreateHookOption`]
    pub fn repo_create_hook(&self, owner: &str, repo: &str, body: CreateHookOption) -> (r: Request<'_, endpoints::RepoCreateHook, Hook>)
        ensures
            r.client == self,
            r.endpoint.owner@ == owner@,
            r.endpoint.repo@ == repo@,
            r.endpoint.body == body,
    {
        Request {
            client: self,
            endpoint: endpoints::RepoCreateHook {
                owner: owner.to_owned(),
                repo: repo.to_owned(),
                body: body,
            },
            response: core::marker::PhantomData,
        }
    }

    /// List the Git hooks in a repository
    ///
    /// - `owner`: owner of the repo
    /// - `repo`: name of the repo
    pub fn repo_list_git_hooks(&self, owner: &str, repo: &str) -> (r: Request<'_, endpoints::RepoListGitHooks, Vec<GitHook>>)
        ensures
            r.client == self,
            r.endpoint.owner@ == owner@,
            r.endpoint.repo@ == repo@,
    {
        Request {
            client: self,
            endpoint: endpoints::RepoListGitHooks {
                owner: owner.to_owned(),
                repo: repo.to_owned(),
            },
            response: core::marker::PhantomData,
        }
    }

    /// Get a Git hook
    ///
    /// - `owner`: owner of the repo
    /// - `repo`: name of the repo
    /// - `id`: id of the hook to get
    pub fn repo_get_git_hook(&self, owner: &str, repo: &str, id: &str) -> (r: Request<'_, endpoints::RepoGetGitHook, GitHook>)
        ensures
            r.client == self,
            r.endpoint.owner@ == owner@,
            r.endpoint.repo@ == repo@,
            r.endpoint.id@ == id@,
    {
        Request {
            client: self,
            endpoint: endpoints::RepoGetGitHook {
                owner: owner.to_owned(),
                repo: repo.to_owned(),
                id: id.to_owned(),
            },
            response: core::marker::PhantomData,
        }
    }

    /// Delete a Git hook in a repository
    ///
    /// - `owner`: owner of the repo
    /// - `repo`: name of the repo
    /// - `id`: id of the hook to get
    pub fn repo_delete_git_hook(&self, owner: &str, repo: &str, id: &str) -> (r: Request<'_, endpoints::RepoDeleteGitHook, ()>)
        ensures
            r.client == self,
            r.endpoint.owner@ == owner@,
            r.endpoint.repo@ == repo@,
            r.endpoint.id@ == id@,
    {
        Request {
            client: self,
            endpoint: endpoints::RepoDeleteGitHook {
                owner: owner.to_owned(),
                repo: repo.to_owned(),
                id: id.to_owned(),
            },
            response: core::marker::PhantomData,
        }
    }

    /// Edit a Git hook in a repository
    ///
    /// - `owner`: owner of the repo
    /// - `repo`: name of the repo
    /// - `id`: id of the hook to get
    /// - `body`: See [`EditGitHookOption`]
    pub fn repo_edit_git_hook(&self, owner: &str, repo: &str, id: &str, body: EditGitHookOption) -> (r: Request<'_, endpoints::RepoEditGitHook, GitHook>)
        ensures
            r.client == self,
            r.endpoint.owner@ == owner@,
            r.endpoint.repo@ == repo@,
            r.endpoint.id@ == id@,
            r.endpoint.body == body,
    {
        Request {
            client: self,
            endpoint: endpoints::RepoEditGitHook {
                owner: owner.to_owned(),
                repo: repo.to_owned(),
                id: id.to_owned(),
                body: body,
            },
            response: core::marker::PhantomData,
        }
    }

    /// Get a hook
    ///
    /// - `owner`: owner of the repo
    /// - `repo`: name of the repo
    /// - `id`: id of the hook to get
    pub fn repo_get_hook(&self, owner: &str, repo: &str, id: i64) -> (r: Request<'_, endpoints::RepoGetHook, Hook>)
        ensures
            r.client == self,
            r.endpoint.owner@ == owner@,
            r.endpoint.repo@ == repo@,
            r.endpoint.id == id,
    {
        Request {
            client: self,
            endpoint: endpoints::RepoGetHook {
                owner: owner.to_owned(),
                repo: repo.to_owned(),
                id: id,
            },
            response: core::marker::PhantomData,
        }
    }

    /// Delete a hook in a repository
    ///
    /// - `owner`: owner of the repo
    /// - `repo`: name of the repo
    /// - `id`: id of the hook to delete
    pub fn repo_delete_hook(&self, owner: &str, repo: &str, id: i64) -> (r: Request<'_, endpoints::RepoDeleteHook, ()>)
        ensures
            r.client == self,
            r.endpoint.owner@ == owner@,
            r.endpoint.repo@ == repo@,
            r.endpoint.id == id,
    {
        Request {
            client: self,
            endpoint: endpoints::RepoDeleteHook {
                owner: owner.to_owned(),
                repo: repo.to_owned(),
                id: id,
            },
            response: core::marker::PhantomData,
        }
    }

    /// Edit a hook in a repository
    ///
    /// - `owner`: owner of the repo
    /// - `repo`: name of the repo
    /// - `id`: index of the hook
    /// - `body`: See [`EditHookOption`]
    pub fn repo_edit_hook(&self, owner: &str, repo: &str, id: i64, body: EditHookOption) -> (r: Request<'_, endpoints::RepoEditHook, Hook>)
        ensures
            r.client == self,
            r.endpoint.owner@ == owner@,
            r.endpoint.repo@ == repo@,
            r.endpoint.id == id,
            r.endpoint.body == body,
    {
        Request {
            client: self,
            endpoint: endpoints::RepoEditHook {
                owner: owner.to_owned(),
                repo: repo.to_owned(),
                id: id,
                body: body,
            },
            response: core::marker::PhantomData,
        }
    }

    /// Test a push webhook
    ///
    /// - `owner`: owner of the repo
    /// - `repo`: name of the repo
    /// - `id`: id of the hook to test
    pub fn repo_test_hook(&self, owner: &str, repo: &str, id: i64, query: RepoTestHookQuery) -> (r: Request<'_, endpoints::RepoTestHook, ()>)
        ensures
            r.client == self,
            r.endpoint.owner@ == owner@,
            r.endpoint.repo@ == repo@,
            r.endpoint.id == id,
            r.endpoint.query == query,
    {
        Request {
            client: self,
            endpoint: endpoints::RepoTestHook {
                owner: owner.to_owned(),
                repo: repo.to_owned(),
                id: id,
                query: query,
            },
            response: core::marker::PhantomData,
        }
    }

    /// Returns the issue config for a repo
    ///
    /// - `owner`: owner of the repo
    /// - `repo`: name of the repo
    pub fn repo_get_issue_config(&self, owner: &str, repo: &str) -> (r: Request<'_, endpoints::RepoGetIssueConfig, IssueConfig>)
        ensures
            r.client == self,
            r.endpoint.owner@ == owner@,
            r.endpoint.repo@ == repo@,
    {
        Request {
            client: self,
            endpoint: endpoints::RepoGetIssueConfig {
                owner: owner.to_owned(),
                repo: repo.to_owned(),
            },
            response: core::marker::PhantomData,
        }
    }

    /// Returns the validation information for a issue config
    ///
    /// - `owner`: owner of the repo
    /// - `repo`: name of the repo
    pub fn repo_validate_issue_config(&self, owner: &str, repo: &str) -> (r: Request<'_, endpoints::RepoValidateIssueConfig, IssueConfigValidation>)
        ensures
            r.client == self,
            r.endpoint.owner@ == owner@,
            r.endpoint.repo@ == repo@,
    {
        Request {
            client: self,
            endpoint: endpoints::RepoValidateIssueConfig {
                owner: owner.to_owned(),
                repo: repo.to_owned(),
            },
            response: core::marker::PhantomData,
        }
    }

    /// Get available issue templates for a repository
    ///
    /// - `owner`: owner of the repo
    /// - `repo`: name of the repo
    pub fn repo_get_issue_templates(&self, owner: &str, repo: &str) -> (r: Request<'_, endpoints::RepoGetIssueTemplates, Vec<IssueTemplate>>)
        ensures
            r.client == self,
            r.endpoint.owner@ == owner@,
            r.endpoint.repo@ == repo@,
    {
        Request {
            client: self,
            endpoint: endpoints::RepoGetIssueTemplates {
                owner: owner.to_owned(),
                repo: repo.to_owned(),
            },
            response: core::marker::PhantomData,
        }
    }

    /// List a repository's issues
    ///
    /// - `owner`: owner of the repo
    /// - `repo`: name of the repo
    pub fn issue_list_issues(&self, owner: &str, repo: &str, query: IssueListIssuesQuery) -> (r: Request<'_, endpoints::IssueListIssues, (IssueListHeaders, Vec<Issue>)>)
        ensures
            r.client == self,
            r.endpoint.owner@ == owner@,
            r.endpoint.repo@ == repo@,
            r.endpoint.query == query,
    {
        Request {
            client: self,
            endpoint: endpoints::IssueListIssues {
                owner: owner.to_owned(),
                repo: repo.to_owned(),
                query: query,
            },
            response: core::marker::PhantomData,
        }
    }

    /// Create an issue. If using deadline only the date will be taken into account, and time of day ignored.
    ///
    /// - `owner`: owner of the repo
    /// - `repo`: name of the repo
    /// - `body`: See [`CreateIssueOption`]
    pub fn issue_create_issue(&self, owner: &str, repo: &str, body: CreateIssueOption) -> (r: Request<'_, endpoints::IssueCreateIssue, Issue>)
        ensures
            r.client == self,
            r.endpoint.owner@ == owner@,
            r.endpoint.repo@ == repo@,
            r.endpoint.body == body,
    {
        Request {
            client: self,
            endpoint: endpoints::IssueCreateIssue {
                owner: owner.to_owned(),
                repo: repo.to_owned(),
                body: body,
            },
            response: core::marker::PhantomData,
        }
    }

    /// List all comments in a repository
    ///
    /// - `owner`: owner of the repo
    /// - `repo`: name of the repo
    pub fn issue_get_repo_comments(&self, owner: &str, repo: &str, query: IssueGetRepoCommentsQuery) -> (r: Request<'_, endpoints::IssueGetRepoComments, (CommentListHeaders, Vec<Comment>)>)
        ensures
            r.client == self,
            r.endpoint.owner@ == owner@,
            r.endpoint.repo@ == repo@,
            r.endpoint.query == query,
    {
        Request {
            client: self,
            endpoint: endpoints::IssueGetRepoComments {
                owner: owner.to_owned(),
                repo: repo.to_owned(),
                query: query,
            },
            response: core::marker::PhantomData,
        }
    }

    /// Get a comment
    ///
    /// - `owner`: owner of the repo
    /// - `repo`: name of the repo
    /// - `id`: id of the comment
    pub fn issue_get_comment(&self, owner: &str, repo: &str, id: i64) -> (r: Request<'_, endpoints::IssueGetComment, Option<Comment>>)
        ensures
            r.client == self,
            r.endpoint.owner@ == owner@,
            r.endpoint.repo@ == repo@,
            r.endpoint.id == id,
    {
        Request {
            client: self,
            endpoint: endpoints::IssueGetComment {
                owner: owner.to_owned(),
                repo: repo.to_owned(),
                id: id,
            },
            response: core::marker::PhantomData,
        }
    }

    /// Delete a comment
    ///
    /// - `owner`: owner of the repo
    /// - `repo`: name of the repo
    /// - `id`: id of comment to delete
    pub fn issue_delete_comment(&self, owner: &str, repo: &str, id: i64) -> (r: Request<'_, endpoints::IssueDeleteComment, ()>)
        ensures
            r.client == self,
            r.endpoint.owner@ == owner@,
            r.endpoint.repo@ == repo@,
            r.endpoint.id == id,
    {
        Request {
            client: self,
            endpoint: endpoints::IssueDeleteComment {
                owner: owner.to_owned(),
                repo: repo.to_owned(),
                id: id,
            },
            response: core::marker::PhantomData,
        }
    }

    /// Edit a comment
    ///
    /// - `owner`: owner of the repo
    /// - `repo`: name of the repo
    /// - `id`: id of the comment to edit
    /// - `body`: See [`EditIssueCommentOption`]
    pub fn issue_edit_comment(&self, owner: &str, repo: &str, id: i64, body: EditIssueCommentOption) -> (r: Request<'_, endpoints::IssueEditComment, Option<Comment>>)
        ensures
            r.client == self,
            r.endpoint.owner@ == owner@,
            r.endpoint.repo@ == repo@,
            r.endpoint.id == id,
            r.endpoint.body == body,
    {
        Request {
            client: self,
            endpoint: endpoints::IssueEditComment {
                owner: owner.to_owned(),
                repo: repo.to_owned(),
                id: id,
                body: body,
            },
            response: core::marker::PhantomData,
        }
    }

    /// List comment's attachments
    ///
    /// - `owner`: owner of the repo
    /// - `repo`: name of the repo
    /// - `id`: id of the comment
    pub fn issue_list_issue_comment_attachments(&self, owner: &str, repo: &str, id: i64) -> (r: Request<'_, endpoints::IssueListIssueCommentAttachments, Vec<Attachment>>)
        ensures
            r.client == self,
            r.endpoint.owner@ == owner@,
            r.endpoint.repo@ == repo@,
            r.endpoint.id == id,
    {
        Request {
            client: self,
            endpoint: endpoints::IssueListIssueCommentAttachments {
                owner: owner.to_owned(),
                repo: repo.to_owned(),
                id: id,
            },
            response: core::marker::PhantomData,
        }
    }

    /// Create a comment attachment
    ///
    /// - `owner`: owner of the repo
    /// - `repo`: name of the repo
    /// - `id`: id of the comment
    /// - `attachment`: attachment to upload
    pub fn issue_create_issue_comment_attachment(&self, owner: &str, repo: &str, id: i64, attachment: &[u8], query: IssueCreateIssueCommentAttachmentQuery) -> (r: Request<'_, endpoints::IssueCreateIssueCommentAttachment, Attachment>)
        ensures
            r.client == self,
            r.endpoint.owner@ == owner@,
            r.endpoint.repo@ == repo@,
            r.endpoint.id == id,
            r.endpoint.attachment@ == attachment@,
            r.endpoint.query == query,
    {
        Request {
            client: self,
            endpoint: endpoints::IssueCreateIssueCommentAttachment {
                owner: owner.to_owned(),
                repo: repo.to_owned(),
                id: id,
                attachment: super::own_bytes(attachment),
                query: query,
            },
            response: core::marker::PhantomData,
        }
    }

    /// Get a comment attachment
    ///
    /// - `owner`: owner of the repo
    /// - `repo`: name of the repo
    /// - `id`: id of the comment
    /// - `attachment_id`: id of the attachment to get
    pub fn issue_get_issue_comment_attachment(&self, owner: &str, repo: &str, id: i64, attachment_id: i64) -> (r: Request<'_, endpoints::IssueGetIssueCommentAttachment, Attachment>)
        ensures
            r.client == self,
            r.endpoint.owner@ == owner@,
            r.endpoint.repo@ == repo@,
            r.endpoint.id == id,
            r.endpoint.attachment_id == attachment_id,
    {
        Request {
            client: self,
            endpoint: endpoints::IssueGetIssueCommentAttachment {
                owner: owner.to_owned(),
                repo: repo.to_owned(),
                id: id,
                attachment_id: attachment_id,
            },
            response: core::marker::PhantomData,
        }
    }

    /// Delete a comment attachment
    ///
    /// - `owner`: owner of the repo
    /// - `repo`: name of the repo
    /// - `id`: id of the comment
    /// - `attachment_id`: id of the attachment to delete
    pub fn issue_delete_issue_comment_attachment(&self, owner: &str, repo: &str, id: i64, attachment_id: i64) -> (r: Request<'_, endpoints::IssueDeleteIssueCommentAttachment, ()>)
        ensures
            r.client == self,
            r.endpoint.owner@ == owner@,
            r.endpoint.repo@ == repo@,
            r.endpoint.id == id,
            r.endpoint.attachment_id == attachment_id,
    {
        Request {
            client: self,
            endpoint: endpoints::IssueDeleteIssueCommentAttachment {
                owner: owner.to_owned(),
                repo: repo.to_owned(),
                id: id,
                attachment_id: attachment_id,
            },
            response: core::marker::PhantomData,
        }
    }

    /// Edit a comment attachment
    ///
    /// - `owner`: owner of the repo
    /// - `repo`: name of the repo
    /// - `id`: id of the comment
    /// - `attachment_id`: id of the attachment to edit
    /// - `body`: See [`EditAttachmentOptions`]
    pub fn issue_edit_issue_comment_attachment(&self, owner: &str, repo: &str, id: i64, attachment_id: i64, body: EditAttachmentOptions) -> (r: Request<'_, endpoints::IssueEditIssueCommentAttachment, Attachment>)
        ensures
            r.client == self,
            r.endpoint.owner@ == owner@,
            r.endpoint.repo@ == repo@,
            r.endpoint.id == id,
            r.endpoint.attachment_id == attachment_id,
            r.endpoint.body == body,
    {
        Request {
            client: self,
            endpoint: endpoints::IssueEditIssueCommentAttachment {
                owner: owner.to_owned(),
                repo: repo.to_owned(),
                id: id,
                attachment_id: attachment_id,
                body: body,
            },
            response: core::marker::PhantomData,
        }
    }

    /// Get a list of reactions from a comment of an issue
    ///
    /// - `owner`: owner of the repo
    /// - `repo`: name of the repo
    /// - `id`: id of the comment to edit
    pub fn issue_get_comment_reactions(&self, owner: &str, repo: &str, id: i64) -> (r: Request<'_, endpoints::IssueGetCommentReactions, Vec<Reaction>>)
        ensures
            r.client == self,
            r.endpoint.owner@ == owner@,
            r.endpoint.repo@ == repo@,
            r.endpoint.id == id,
    {
        Request {
            client: self,
            endpoint: endpoints::IssueGetCommentReactions {
                owner: owner.to_owned(),
                repo: repo.to_owned(),
                id: id,
            },
            response: core::marker::PhantomData,
        }
    }

    /// Add a reaction to a comment of an issue
    ///
    /// - `owner`: owner of the repo
    /// - `repo`: name of the repo
    /// - `id`: id of the comment to edit
    /// - `content`: See [`EditReactionOption`]
    pub fn issue_post_comment_reaction(&self, owner: &str, repo: &str, id: i64, content: EditReactionOption) -> (r: Request<'_, endpoints::IssuePostCommentReaction, Reaction>)
        ensures
            r.client == self,
            r.endpoint.owner@ == owner@,
            r.endpoint.repo@ == repo@,
            r.endpoint.id == id,
            r.endpoint.body == content,
    {
        Request {
            client: self,
            endpoint: endpoints::IssuePostCommentReaction {
                owner: owner.to_owned(),
                repo: repo.to_owned(),
                id: id,
                body: content,
            },
            response: core::marker::PhantomData,
        }
    }

    /// Remove a reaction from a comment of an issue
    ///
    /// - `owner`: owner of the repo
    /// - `repo`: name of the repo
    /// - `id`: id of the comment to edit
    /// - `content`: See [`EditReactionOption`]
    pub fn issue_delete_comment_reaction(&self, owner: &str, repo: &str, id: i64, content: EditReactionOption) -> (r: Request<'_, endpoints::IssueDeleteCommentReaction, ()>)
        ensures
            r.client == self,
            r.endpoint.owner@ == owner@,
            r.endpoint.repo@ == repo@,
            r.endpoint.id == id,
            r.endpoint.body == content,
    {
        Request {
            client: self,
            endpoint: endpoints::IssueDeleteCommentReaction {
                owner: owner.to_owned(),
                repo: repo.to_owned(),
                id: id,
                body: content,
            },
            response: core::marker::PhantomData,
        }
    }

    /// List a repo's pinned issues
    ///
    /// - `owner`: owner of the repo
    /// - `repo`: name of the repo
    pub fn repo_list_pinned_issues(&self, owner: &str, repo: &str) -> (r: Request<'_, endpoints::RepoListPinnedIssues, Vec<Issue>>)
        ensures
            r.client == self,
            r.endpoint.owner@ == owner@,
            r.endpoint.repo@ == repo@,
    {
        Request {
            client: self,
            endpoint: endpoints::RepoListPinnedIssues {
                owner: owner.to_owned(),
                repo: repo.to_owned(),
            },
            response: core::marker::PhantomData,
        }
    }

    /// Get an issue
    ///
    /// - `owner`: owner of the repo
    /// - `repo`: name of the repo
    /// - `index`: index of the issue to get
    pub fn issue_get_issue(&self, owner: &str, repo: &str, index: i64) -> (r: Request<'_, endpoints::IssueGetIssue, Issue>)
        ensures
            r.client == self,
            r.endpoint.owner@ == owner@,
            r.endpoint.repo@ == repo@,
            r.endpoint.index == index,
    {
        Request {
            client: self,
            endpoint: endpoints::IssueGetIssue {
                owner: owner.to_owned(),
                repo: repo.to_owned(),
                index: index,
            },
            response: core::marker::PhantomData,
        }
    }

    /// Delete an issue
    ///
    /// - `owner`: owner of the repo
    /// - `repo`: name of the repo
    /// - `index`: index of issue to delete
    pub fn issue_delete(&self, owner: &str, repo: &str, index: i64) -> (r: Request<'_, endpoints::IssueDelete, ()>)
        ensures
            r.client == self,
            r.endpoint.owner@ == owner@,
            r.endpoint.repo@ == repo@,
            r.endpoint.index == index,
    {
        Request {
            client: self,
            endpoint: endpoints::IssueDelete {
                owner: owner.to_owned(),
                repo: repo.to_owned(),
                index: index,
            },
            response: core::marker::PhantomData,
        }
    }

    /// Edit an issue. If using deadline only the date will be taken into account, and time of day ignored.
    ///
    /// - `owner`: owner of the repo
    /// - `repo`: name of the repo
    /// - `index`: index of the issue to edit
    /// - `body`: See [`EditIssueOption`]
    pub fn issue_edit_issue(&self, owner: &str, repo: &str, index: i64, body: EditIssueOption) -> (r: Request<'_, endpoints::IssueEditIssue, Issue>)
        ensures
            r.client == self,
            r.endpoint.owner@ == owner@,
            r.endpoint.repo@ == repo@,
            r.endpoint.index == index,
            r.endpoint.body == body,
    {
        Request {
            client: self,
            endpoint: endpoints::IssueEditIssue {
                owner: owner.to_owned(),
                repo: repo.to_owned(),
                index: index,
                body: body,
            },
            response: core::marker::PhantomData,
        }
    }

    /// List issue's attachments
    ///
    /// - `owner`: owner of the repo
    /// - `repo`: name of the repo
    /// - `index`: index of the issue
    pub fn issue_list_issue_attachments(&self, owner: &str, repo: &str, index: i64) -> (r: Request<'_, endpoints::IssueListIssueAttachments, Vec<Attachment>>)
        ensures
            r.client == self,
            r.endpoint.owner@ == owner@,
            r.endpoint.repo@ == repo@,
            r.endpoint.index == index,
    {
        Request {
            client: self,
            endpoint: endpoints::IssueListIssueAttachments {
                owner: owner.to_owned(),
                repo: repo.to_owned(),
                index: index,
            },
            response: core::marker::PhantomData,
        }
    }

    /// Create an issue attachment
    ///
    /// - `owner`: owner of the repo
    /// - `repo`: name of the repo
    /// - `index`: index of the issue
    /// - `attachment`: attachment to upload
    pub fn issue_create_issue_attachment(&self, owner: &str, repo: &str, index: i64, attachment: &[u8], query: IssueCreateIssueAttachmentQuery) -> (r: Request<'_, endpoints::IssueCreateIssueAttachment, Attachment>)
        ensures
            r.client == self,
            r.endpoint.owner@ == owner@,
            r.endpoint.repo@ == repo@,
            r.endpoint.index == index,
            r.endpoint.attachment@ == attachment@,
            r.endpoint.query == query,
    {
        Request {
            client: self,
            endpoint: endpoints::IssueCreateIssueAttachment {
                owner: owner.to_owned(),
                repo: repo.to_owned(),
                index: index,
                attachment: super::own_bytes(attachment),
                query: query,
            },
            response: core::marker::PhantomData,
        }
    }

    /// Get an issue attachment
    ///
    /// - `owner`: owner of the repo
    /// - `repo`: name of the repo
    /// - `index`: index of the issue
    /// - `attachment_id`: id of the attachment to get
    pub fn issue_get_issue_attachment(&self, owner: &str, repo: &str, index: i64, attachment_id: i64) -> (r: Request<'_, endpoints::IssueGetIssueAttachment, Attachment>)
        ensures
            r.client == self,
            r.endpoint.owner@ == owner@,
            r.endpoint.repo@ == repo@,
            r.endpoint.index == index,
            r.endpoint.attachment_id == attachment_id,
    {
        Request {
            client: self,
            endpoint: endpoints::IssueGetIssueAttachment {
                owner: owner.to_owned(),
                repo: repo.to_owned(),
                index: index,
                attachment_id: attachment_id,
            },
            response: core::marker::PhantomData,
        }
    }

    /// Delete an issue attachment
    ///
    /// - `owner`: owner of the repo
    /// - `repo`: name of the repo
    /// - `index`: index of the issue
    /// - `attachment_id`: id of the attachment to delete
    pub fn issue_delete_issue_attachment(&self, owner: &str, repo: &str, index: i64, attachment_id: i64) -> (r: Request<'_, endpoints::IssueDeleteIssueAttachment, ()>)
        ensures
            r.client == self,
            r.endpoint.owner@ == owner@,
            r.endpoint.repo@ == repo@,
            r.endpoint.index == index,
            r.endpoint.attachment_id == attachment_id,
    {
        Request {
            client: self,
            endpoint: endpoints::IssueDeleteIssueAttachment {
                owner: owner.to_owned(),
                repo: repo.to_owned(),
                index: index,
                attachment_id: attachment_id,
            },
            response: core::marker::PhantomData,
        }
    }

    /// Edit an issue attachment
    ///
    /// - `owner`: owner of the repo
    /// - `repo`: name of the repo
    /// - `index`: index of the issue
    /// - `attachment_id`: id of the attachment to edit
    /// - `body`: See [`EditAttachmentOptions`]
    pub fn issue_edit_issue_attachment(&self, owner: &str, repo: &str, index: i64, attachment_id: i64, body: EditAttachmentOptions) -> (r: Request<'_, endpoints::IssueEditIssueAttachment, Attachment>)
        ensures
            r.client == self,
            r.endpoint.owner@ == owner@,
            r.endpoint.repo@ == repo@,
            r.endpoint.index == index,
            r.endpoint.attachment_id == attachment_id,
            r.endpoint.body == body,
    {
        Request {
            client: self,
            endpoint: endpoints::IssueEditIssueAttachment {
                owner: owner.to_owned(),
                repo: repo.to_owned(),
                index: index,
                attachment_id: attachment_id,
                body: body,
            },
            response: core::marker::PhantomData,
        }
    }

    /// List issues that are blocked by this issue
    ///
    /// - `owner`: owner of the repo
    /// - `repo`: name of the repo
    /// - `index`: index of the issue
    pub fn issue_list_blocks(&self, owner: &str, repo: &str, index: i64) -> (r: Request<'_, endpoints::IssueListBlocks, Vec<Issue>>)
        ensures
            r.client == self,
            r.endpoint.owner@ == owner@,
            r.endpoint.repo@ == repo@,
            r.endpoint.index == index,
    {
        Request {
            client: self,
            endpoint: endpoints::IssueListBlocks {
                owner: owner.to_owned(),
                repo: repo.to_owned(),
                index: index,
            },
            response: core::marker::PhantomData,
        }
    }

    /// Block the issue given in the body by the issue in path
    ///
    /// - `owner`: owner of the repo
    /// - `repo`: name of the repo
    /// - `index`: index of the issue
    /// - `body`: See [`IssueMeta`]
    pub fn issue_create_issue_blocking(&self, owner: &str, repo: &str, index: i64, body: IssueMeta) -> (r: Request<'_, endpoints::IssueCreateIssueBlocking, Issue>)
        ensures
            r.client == self,
            r.endpoint.owner@ == owner@,
            r.endpoint.repo@ == repo@,
            r.endpoint.index == index,
            r.endpoint.body == body,
    {
        Request {
            client: self,
            endpoint: endpoints::IssueCreateIssueBlocking {
                owner: owner.to_owned(),
                repo: repo.to_owned(),
                index: index,
                body: body,
            },
            response: core::marker::PhantomData,
        }
    }

    /// Unblock the issue given in the body by the issue in path
    ///
    /// - `owner`: owner of the repo
    /// - `repo`: name of the repo
    /// - `index`: index of the issue
    /// - `body`: See [`IssueMeta`]
    pub fn issue_remove_issue_blocking(&self, owner: &str, repo: &str, index: i64, body: IssueMeta) -> (r: Request<'_, endpoints::IssueRemoveIssueBlocking, Issue>)
        ensures
            r.client == self,
            r.endpoint.owner@ == owner@,
            r.endpoint.repo@ == repo@,
            r.endpoint.index == index,
            r.endpoint.body == body,
    {
        Request {
            client: self,
            endpoint: endpoints::IssueRemoveIssueBlocking {
                owner: owner.to_owned(),
                repo: repo.to_owned(),
                index: index,
                body: body,
            },
            response: core::marker::PhantomData,
        }
    }

    /// List all comments on an issue
    ///
    /// - `owner`: owner of the repo
    /// - `repo`: name of the repo
    /// - `index`: index of the issue
    pub fn issue_get_comments(&self, owner: &str, repo: &str, index: i64, query: IssueGetCommentsQuery) -> (r: Request<'_, endpoints::IssueGetComments, (CommentListHeaders, Vec<Comment>)>)
        ensures
            r.client == self,
            r.endpoint.owner@ == owner@,
            r.endpoint.repo@ == repo@,
            r.endpoint.index == index,
            r.endpoint.query == query,
    {
        Request {
            client: self,
            endpoint: endpoints::IssueGetComments {
                owner: owner.to_owned(),
                repo: repo.to_owned(),
                index: index,
                query: query,
            },
            response: core::marker::PhantomData,
        }
    }

    /// Add a comment to an issue
    ///
    /// - `owner`: owner of the repo
    /// - `repo`: name of the repo
    /// - `index`: index of the issue
    /// - `body`: See [`CreateIssueCommentOption`]
    pub fn issue_create_comment(&self, owner: &str, repo: &str, index: i64, body: CreateIssueCommentOption) -> (r: Request<'_, endpoints::IssueCreateComment, Comment>)
        ensures
            r.client == self,
            r.endpoint.owner@ == owner@,
            r.endpoint.repo@ == repo@,
            r.endpoint.index == index,
            r.endpoint.body == body,
    {
        Request {
            client: self,
            endpoint: endpoints::IssueCreateComment {
                owner: owner.to_owned(),
                repo: repo.to_owned(),
                index: index,
                body: body,
            },
            response: core::marker::PhantomData,
        }
    }

    /// Delete a comment
    ///
    /// - `owner`: owner of the repo
    /// - `repo`: name of the repo
    /// - `index`: this parameter is ignored
    /// - `id`: id of comment to delete
    pub fn issue_delete_comment_deprecated(&self, owner: &str, repo: &str, index: u32, id: i64) -> (r: Request<'_, endpoints::IssueDeleteCommentDeprecated, ()>)
        ensures
            r.client == self,
            r.endpoint.owner@ == owner@,
            r.endpoint.repo@ == repo@,
            r.endpoint.index == index,
            r.endpoint.id == id,
    {
        Request {
            client: self,
            endpoint: endpoints::IssueDeleteCommentDeprecated {
                owner: owner.to_owned(),
                repo: repo.to_owned(),
                index: index,
                id: id,
            },
            response: core::marker::PhantomData,
        }
    }

    /// Edit a comment
    ///
    /// - `owner`: owner of the repo
    /// - `repo`: name of the repo
    /// - `index`: this parameter is ignored
    /// - `id`: id of the comment to edit
    /// - `body`: See [`EditIssueCommentOption`]
    pub fn issue_edit_comment_deprecated(&self, owner: &str, repo: &str, index: u32, id: i64, body: EditIssueCommentOption) -> (r: Request<'_, endpoints::IssueEditCommentDeprecated, Option<Comment>>)
        ensures
            r.client == self,
            r.endpoint.owner@ == owner@,
            r.endpoint.repo@ == repo@,
            r.endpoint.index == index,
            r.endpoint.id == id,
            r.endpoint.body == body,
    {
        Request {
            client: self,
            endpoint: endpoints::IssueEditCommentDeprecated {
                owner: owner.to_owned(),
                repo: repo.to_owned(),
                index: index,
                id: id,
                body: body,
            },
            response: core::marker::PhantomData,
        }
    }

    /// Set an issue deadline. If set to null, the deadline is deleted. If using deadline only the date will be taken into account, and time of day ignored.
    ///
    /// - `owner`: owner of the repo
    /// - `repo`: name of the repo
    /// - `index`: index of the issue to create or update a deadline on
    /// - `body`: See [`EditDeadlineOption`]
    pub fn issue_edit_issue_deadline(&self, owner: &str, repo: &str, index: i64, body: EditDeadlineOption) -> (r: Request<'_, endpoints::IssueEditIssueDeadline, IssueDeadline>)
        ensures
            r.client == self,
            r.endpoint.owner@ == owner@,
            r.endpoint.repo@ == repo@,
            r.endpoint.index == index,
            r.endpoint.body == body,
    {
        Request {
            client: self,
            endpoint: endpoints::IssueEditIssueDeadline {
                owner: owner.to_owned(),
                repo: repo.to_owned(),
                index: index,
                body: body,
            },
            response: core::marker::PhantomData,
        }
    }

    /// List an issue's dependencies, i.e all issues that block this issue.
    ///
    /// - `owner`: owner of the repo
    /// - `repo`: name of the repo
    /// - `index`: index of the issue
    pub fn issue_list_issue_dependencies(&self, owner: &str, repo: &str, index: i64) -> (r: Request<'_, endpoints::IssueListIssueDependencies, Vec<Issue>>)
        ensures
            r.client == self,
            r.endpoint.owner@ == owner@,
            r.endpoint.repo@ == repo@,
            r.endpoint.index == index,
    {
        Request {
            client: self,
            endpoint: endpoints::IssueListIssueDependencies {
                owner: owner.to_owned(),
                repo: repo.to_owned(),
                index: index,
            },
            response: core::marker::PhantomData,
        }
    }

    /// Make the issue in the url depend on the issue in the form.
    ///
    /// - `owner`: owner of the repo
    /// - `repo`: name of the repo
    /// - `index`: index of the issue
    /// - `body`: See [`IssueMeta`]
    pub fn issue_create_issue_dependencies(&self, owner: &str, repo: &str, index: i64, body: IssueMeta) -> (r: Request<'_, endpoints::IssueCreateIssueDependencies, Issue>)
        ensures
            r.client == self,
            r.endpoint.owner@ == owner@,
            r.endpoint.repo@ == repo@,
            r.endpoint.index == index,
            r.endpoint.body == body,
    {
        Request {
            client: self,
            endpoint: endpoints::IssueCreateIssueDependencies {
                owner: owner.to_owned(),
                repo: repo.to_owned(),
                index: index,
                body: body,
            },
            response: core::marker::PhantomData,
        }
    }

    /// Remove an issue dependency
    ///
    /// - `owner`: owner of the repo
    /// - `repo`: name of the repo
    /// - `index`: index of the issue
    /// - `body`: See [`IssueMeta`]
    pub fn issue_remove_issue_dependencies(&self, owner: &str, repo: &str, index: i64, body: IssueMeta) -> (r: Request<'_, endpoints::IssueRemoveIssueDependencies, Issue>)
        ensures
            r.client == self,
            r.endpoint.owner@ == owner@,
            r.endpoint.repo@ == repo@,
            r.endpoint.index == index,
            r.endpoint.body == body,
    {
        Request {
            client: self,
            endpoint: endpoints::IssueRemoveIssueDependencies {
                owner: owner.to_owned(),
                repo: repo.to_owned(),
                index: index,
                body: body,
            },
            response: core::marker::PhantomData,
        }
    }

    /// Get an issue's labels
    ///
    /// - `owner`: owner of the repo
    /// - `repo`: name of the repo
    /// - `index`: index of the issue
    pub fn issue_get_labels(&self, owner: &str, repo: &str, index: i64) -> (r: Request<'_, endpoints::IssueGetLabels, Vec<Label>>)
        ensures
            r.client == self,
            r.endpoint.owner@ == owner@,
            r.endpoint.repo@ == repo@,
            r.endpoint.index == index,
    {
        Request {
            client: self,
            endpoint: endpoints::IssueGetLabels {
                owner: owner.to_owned(),
                repo: repo.to_owned(),
                index: index,
            },
            response: core::marker::PhantomData,
        }
    }

    /// Replace an issue's labels
    ///
    /// - `owner`: owner of the repo
    /// - `repo`: name of the repo
    /// - `index`: index of the issue
    /// - `body`: See [`IssueLabelsOption`]
    pub fn issue_replace_labels(&self, owner: &str, repo: &str, index: i64, body: IssueLabelsOption) -> (r: Request<'_, endpoints::IssueReplaceLabels, Vec<Label>>)
        ensures
            r.client == self,
            r.endpoint.owner@ == owner@,
            r.endpoint.repo@ == repo@,
            r.endpoint.index == index,
            r.endpoint.body == body,
    {
        Request {
            client: self,
            endpoint: endpoints::IssueReplaceLabels {
                owner: owner.to_owned(),
                repo: repo.to_owned(),
                index: index,
                body: body,
            },
            response: core::marker::PhantomData,
        }
    }

    /// Add a label to an issue
    ///
    /// - `owner`: owner of the repo
    /// - `repo`: name of the repo
    /// - `index`: index of the issue
    /// - `body`: See [`IssueLabelsOption`]
    pub fn issue_add_label(&self, owner: &str, repo: &str, index: i64, body: IssueLabelsOption) -> (r: Request<'_, endpoints::IssueAddLabel, Vec<Label>>)
        ensures
            r.client == self,
            r.endpoint.owner@ == owner@,
            r.endpoint.repo@ == repo@,
            r.endpoint.index == index,
            r.endpoint.body == body,
    {
        Request {
            client: self,
            endpoint: endpoints::IssueAddLabel {
                owner: owner.to_owned(),
                repo: repo.to_owned(),
                index: index,
                body: body,
            },
            response: core::marker::PhantomData,
        }
    }

    /// Remove all labels from an issue
    ///
    /// - `owner`: owner of the repo
    /// - `repo`: name of the repo
    /// - `index`: index of the issue
    /// - `body`: See [`DeleteLabelsOption`]
    pub fn issue_clear_labels(&self, owner: &str, repo: &str, index: i64, body: DeleteLabelsOption) -> (r: Request<'_, endpoints::IssueClearLabels, ()>)
        ensures
            r.client == self,
            r.endpoint.owner@ == owner@,
            r.endpoint.repo@ == repo@,
            r.endpoint.index == index,
            r.endpoint.body == body,
    {
        Request {
            client: self,
            endpoint: endpoints::IssueClearLabels {
                owner: owner.to_owned(),
                repo: repo.to_owned(),
                index: index,
                body: body,
            },
            response: core::marker::PhantomData,
        }
    }

    /// Remove a label from an issue
    ///
    /// - `owner`: owner of the repo
    /// - `repo`: name of the repo
    /// - `index`: index of the issue
    /// - `identifier`: name or id of the label to remove
    /// - `body`: See [`DeleteLabelsOption`]
    pub fn issue_remove_label(&self, owner: &str, repo: &str, index: i64, identifier: &str, body: DeleteLabelsOption) -> (r: Request<'_, endpoints::IssueRemoveLabel, ()>)
        ensures
            r.client == self,
            r.endpoint.owner@ == owner@,
            r.endpoint.repo@ == repo@,
            r.endpoint.index == index,
            r.endpoint.identifier@ == identifier@,
            r.endpoint.body == body,
    {
        Request {
            client: self,
            endpoint: endpoints::IssueRemoveLabel {
                owner: owner.to_owned(),
                repo: repo.to_owned(),
                index: index,
                identifier: identifier.to_owned(),
                body: body,
            },
            response: core::marker::PhantomData,
        }
    }

    /// Pin an Issue
    ///
    /// - `owner`: owner of the repo
    /// - `repo`: name of the repo
    /// - `index`: index of issue to pin
    pub fn pin_issue(&self, owner: &str, repo: &str, index: i64) -> (r: Request<'_, endpoints::PinIssue, ()>)
        ensures
            r.client == self,
            r.endpoint.owner@ == owner@,
            r.endpoint.repo@ == repo@,
            r.endpoint.index == index,
    {
        Request {
            client: self,
            endpoint: endpoints::PinIssue {
                owner: owner.to_owned(),
                repo: repo.to_owned(),
                index: index,
            },
            response: core::marker::PhantomData,
        }
    }

    /// Unpin an Issue
    ///
    /// - `owner`: owner of the repo
    /// - `repo`: name of the repo
    /// - `index`: index of issue to unpin
    pub fn unpin_issue(&self, owner: &str, repo: &str, index: i64) -> (r: Request<'_, endpoints::UnpinIssue, ()>)
        ensures
            r.client == self,
            r.endpoint.owner@ == owner@,
            r.endpoint.repo@ == repo@,
            r.endpoint.index == index,
    {
        Request {
            client: self,
            endpoint: endpoints::UnpinIssue {
                owner: owner.to_owned(),
                repo: repo.to_owned(),
                index: index,
            },
            response: core::marker::PhantomData,
        }
    }

    /// Moves the Pin to the given Position
    ///
    /// - `owner`: owner of the repo
    /// - `repo`: name of the repo
    /// - `index`: index of issue
    /// - `position`: the new position
    pub fn move_issue_pin(&self, owner: &str, repo: &str, index: i64, position: i64) -> (r: Request<'_, endpoints::MoveIssuePin, ()>)
        ensures
            r.client == self,
            r.endpoint.owner@ == owner@,
            r.endpoint.repo@ == repo@,
            r.endpoint.index == index,
            r.endpoint.position == position,
    {
        Request {
            client: self,
            endpoint: endpoints::MoveIssuePin {
                owner: owner.to_owned(),
                repo: repo.to_owned(),
                index: index,
                position: position,
            },
            response: core::marker::PhantomData,
        }
    }

    /// Get a list reactions of an issue
    ///
    /// - `owner`: owner of the repo
    /// - `repo`: name of the repo
    /// - `index`: index of the issue
    pub fn issue_get_issue_reactions(&self, owner: &str, repo: &str, index: i64) -> (r: Request<'_, endpoints::IssueGetIssueReactions, (ReactionListHeaders, Vec<Reaction>)>)
        ensures
            r.client == self,
            r.endpoint.owner@ == owner@,
            r.endpoint.repo@ == repo@,
            r.endpoint.index == index,
    {
        Request {
            client: self,
            endpoint: endpoints::IssueGetIssueReactions {
                owner: owner.to_owned(),
                repo: repo.to_owned(),
                index: index,
            },
            response: core::marker::PhantomData,
        }
    }

    /// Add a reaction to an issue
    ///
    /// - `owner`: owner of the repo
    /// - `repo`: name of the repo
    /// - `index`: index of the issue
    /// - `content`: See [`EditReactionOption`]
    pub fn issue_post_issue_reaction(&self, owner: &str, repo: &str, index: i64, content: EditReactionOption) -> (r: Request<'_, endpoints::IssuePostIssueReaction, Reaction>)
        ensures
            r.client == self,
            r.endpoint.owner@ == owner@,
            r.endpoint.repo@ == repo@,
            r.endpoint.index == index,
            r.endpoint.body == content,
    {
        Request {
            client: self,
            endpoint: endpoints::IssuePostIssueReaction {
                owner: owner.to_owned(),
                repo: repo.to_owned(),
                index: index,
                body: content,
            },
            response: core::marker::PhantomData,
        }
    }

    /// Remove a reaction from an issue
    ///
    /// - `owner`: owner of the repo
    /// - `repo`: name of the repo
    /// - `index`: index of the issue
    /// - `content`: See [`EditReactionOption`]
    pub fn issue_delete_issue_reaction(&self, owner: &str, repo: &str, index: i64, content: EditReactionOption) -> (r: Request<'_, endpoints::IssueDeleteIssueReaction, ()>)
        ensures
            r.client == self,
            r.endpoint.owner@ == owner@,
            r.endpoint.repo@ == repo@,
            r.endpoint.index == index,
            r.endpoint.body == content,
    {
        Request {
            client: self,
            endpoint: endpoints::IssueDeleteIssueReaction {
                owner: owner.to_owned(),
                repo: repo.to_owned(),
                index: index,
                body: content,
            },
            response: core::marker::PhantomData,
        }
    }

    /// Delete an issue's existing stopwatch.
    ///
    /// - `owner`: owner of the repo
    /// - `repo`: name of the repo
    /// - `index`: index of the issue to stop the stopwatch on
    pub fn issue_delete_stop_watch(&self, owner: &str, repo: &str, index: i64) -> (r: Request<'_, endpoints::IssueDeleteStopWatch, ()>)
        ensures
            r.client == self,
            r.endpoint.owner@ == owner@,
            r.endpoint.repo@ == repo@,
            r.endpoint.index == index,
    {
        Request {
            client: self,
            endpoint: endpoints::IssueDeleteStopWatch {
                owner: owner.to_owned(),
                repo: repo.to_owned(),
                index: index,
            },
            response: core::marker::PhantomData,
        }
    }

    /// Start stopwatch on an issue.
    ///
    /// - `owner`: owner of the repo
    /// - `repo`: name of the repo
    /// - `index`: index of the issue to create the stopwatch on
    pub fn issue_start_stop_watch(&self, owner: &str, repo: &str, index: i64) -> (r: Request<'_, endpoints::IssueStartStopWatch, ()>)
        ensures
            r.client == self,
            r.endpoint.owner@ == owner@,
            r.endpoint.repo@ == repo@,
            r.endpoint.index == index,
    {
        Request {
            client: self,
            endpoint: endpoints::IssueStartStopWatch {
                owner: owner.to_owned(),
                repo: repo.to_owned(),
                index: index,
            },
            response: core::marker::PhantomData,
        }
    }

    /// Stop an issue's existing stopwatch.
    ///
    /// - `owner`: owner of the repo
    /// - `repo`: name of the repo
    /// - `index`: index of the issue to stop the stopwatch on
    pub fn issue_stop_stop_watch(&self, owner: &str, repo: &str, index: i64) -> (r: Request<'_, endpoints::IssueStopStopWatch, ()>)
        ensures
            r.client == self,
            r.endpoint.owner@ == owner@,
            r.endpoint.repo@ == repo@,
            r.endpoint.index == index,
    {
        Request {
            client: self,
            endpoint: endpoints::IssueStopStopWatch {
                owner: owner.to_owned(),
                repo: repo.to_owned(),
                index: index,
            },
            response: core::marker::PhantomData,
        }
    }

    /// Get users who subscribed on an issue.
    ///
    /// - `owner`: owner of the repo
    /// - `repo`: name of the repo
    /// - `index`: index of the issue
    pub fn issue_subscriptions(&self, owner: &str, repo: &str, index: i64) -> (r: Request<'_, endpoints::IssueSubscriptions, (UserListHeaders, Vec<User>)>)
        ensures
            r.client == self,
            r.endpoint.owner@ == owner@,
            r.endpoint.repo@ == repo@,
            r.endpoint.index == index,
    {
        Request {
            client: self,
            endpoint: endpoints::IssueSubscriptions {
                owner: owner.to_owned(),
                repo: repo.to_owned(),
                index: index,
            },
            response: core::marker::PhantomData,
        }
    }

    /// Check if user is subscribed to an issue
    ///
    /// - `owner`: owner of the repo
    /// - `repo`: name of the repo
    /// - `index`: index of the issue
    pub fn issue_check_subscription(&self, owner: &str, repo: &str, index: i64) -> (r: Request<'_, endpoints::IssueCheckSubscription, WatchInfo>)
        ensures
            r.client == self,
            r.endpoint.owner@ == owner@,
            r.endpoint.repo@ == repo@,
            r.endpoint.index == index,
    {
        Request {
            client: self,
            endpoint: endpoints::IssueCheckSubscription {
                owner: owner.to_owned(),
                repo: repo.to_owned(),
                index: index,
            },
            response: core::marker::PhantomData,
        }
    }

    /// Subscribe user to issue
    ///
    /// - `owner`: owner of the repo
    /// - `repo`: name of the repo
    /// - `index`: index of the issue
    /// - `user`: user to subscribe
    pub fn issue_add_subscription(&self, owner: &str, repo: &str, index: i64, user: &str) -> (r: Request<'_, endpoints::IssueAddSubscription, ()>)
        ensures
            r.client == self,
            r.endpoint.owner@ == owner@,
            r.endpoint.repo@ == repo@,
            r.endpoint.index == index,
            r.endpoint.user@ == user@,
    {
        Request {
            client: self,
            endpoint: endpoints::IssueAddSubscription {
                owner: owner.to_owned(),
                repo: repo.to_owned(),
                index: index,
                user: user.to_owned(),
            },
            response: core::marker::PhantomData,
        }
    }

    /// Unsubscribe user from issue
    ///
    /// - `owner`: owner of the repo
    /// - `repo`: name of the repo
    /// - `index`: index of the issue
    /// - `user`: user witch unsubscribe
    pub fn issue_delete_subscription(&self, owner: &str, repo: &str, index: i64, user: &str) -> (r: Request<'_, endpoints::IssueDeleteSubscription, ()>)
        ensures
            r.client == self,
            r.endpoint.owner@ == owner@,
            r.endpoint.repo@ == repo@,
            r.endpoint.index == index,
            r.endpoint.user@ == user@,
    {
        Request {
            client: self,
            endpoint: endpoints::IssueDeleteSubscription {
                owner: owner.to_owned(),
                repo: repo.to_owned(),
                index: index,
                user: user.to_owned(),
            },
            response: core::marker::PhantomData,
        }
    }

    /// List all comments and events on an issue
    ///
    /// - `owner`: owner of the repo
    /// - `repo`: name of the repo
    /// - `index`: index of the issue
    pub fn issue_get_comments_and_timeline(&self, owner: &str, repo: &str, index: i64, query: IssueGetCommentsAndTimelineQuery) -> (r: Request<'_, endpoints::IssueGetCommentsAndTimeline, (TimelineListHeaders, Vec<TimelineComment>)>)
        ensures
            r.client == self,
            r.endpoint.owner@ == owner@,
            r.endpoint.repo@ == repo@,
            r.endpoint.index == index,
            r.endpoint.query == query,
    {
        Request {
            client: self,
            endpoint: endpoints::IssueGetCommentsAndTimeline {
                owner: owner.to_owned(),
                repo: repo.to_owned(),
                index: index,
                query: query,
            },
            response: core::marker::PhantomData,
        }
    }

    /// List an issue's tracked times
    ///
    /// - `owner`: owner of the repo
    /// - `repo`: name of the repo
    /// - `index`: index of the issue
    pub fn issue_tracked_times(&self, owner: &str, repo: &str, index: i64, query: IssueTrackedTimesQuery) -> (r: Request<'_, endpoints::IssueTrackedTimes, (TrackedTimeListHeaders, Vec<TrackedTime>)>)
        ensures
            r.client == self,
            r.endpoint.owner@ == owner@,
            r.endpoint.repo@ == repo@,
            r.endpoint.index == index,
            r.endpoint.query == query,
    {
        Request {
            client: self,
            endpoint: endpoints::IssueTrackedTimes {
                owner: owner.to_owned(),
                repo: repo.to_owned(),
                index: index,
                query: query,
            },
            response: core::marker::PhantomData,
        }
    }

    /// Add tracked time to a issue
    ///
    /// - `owner`: owner of the repo
    /// - `repo`: name of the repo
    /// - `index`: index of the issue
    /// - `body`: See [`AddTimeOption`]
    pub fn issue_add_time(&self, owner: &str, repo: &str, index: i64, body: AddTimeOption) -> (r: Request<'_, endpoints::IssueAddTime, TrackedTime>)
        ensures
            r.client == self,
            r.endpoint.owner@ == owner@,
            r.endpoint.repo@ == repo@,
            r.endpoint.index == index,
            r.endpoint.body == body,
    {
        Request {
            client: self,
            endpoint: endpoints::IssueAddTime {
                owner: owner.to_owned(),
                repo: repo.to_owned(),
                index: index,
                body: body,
            },
            response: core::marker::PhantomData,
        }
    }

    /// Reset a tracked time of an issue
    ///
    /// - `owner`: owner of the repo
    /// - `repo`: name of the repo
    /// - `index`: index of the issue to add tracked time to
    pub fn issue_reset_time(&self, owner: &str, repo: &str, index: i64) -> (r: Request<'_, endpoints::IssueResetTime, ()>)
        ensures
            r.client == self,
            r.endpoint.owner@ == owner@,
            r.endpoint.repo@ == repo@,
            r.endpoint.index == index,
    {
        Request {
            client: self,
            endpoint: endpoints::IssueResetTime {
                owner: owner.to_owned(),
                repo: repo.to_owned(),
                index: index,
            },
            response: core::marker::PhantomData,
        }
    }

    /// Delete specific tracked time
    ///
    /// - `owner`: owner of the repo
    /// - `repo`: name of the repo
    /// - `index`: index of the issue
    /// - `id`: id of time to delete
    pub fn issue_delete_time(&self, owner: &str, repo: &str, index: i64, id: i64) -> (r: Request<'_, endpoints::IssueDeleteTime, ()>)
        ensures
            r.client == self,
            r.endpoint.owner@ == owner@,
            r.endpoint.repo@ == repo@,
            r.endpoint.index == index,
            r.endpoint.id == id,
    {
        Request {
            client: self,
            endpoint: endpoints::IssueDeleteTime {
                owner: owner.to_owned(),
                repo: repo.to_owned(),
                index: index,
                id: id,
            },
            response: core::marker::PhantomData,
        }
    }

    /// List a repository's keys
    ///
    /// - `owner`: owner of the repo
    /// - `repo`: name of the repo
    pub fn repo_list_keys(&self, owner: &str, repo: &str, query: RepoListKeysQuery) -> (r: Request<'_, endpoints::RepoListKeys, (DeployKeyListHeaders, Vec<DeployKey>)>)
        ensures
            r.client == self,
            r.endpoint.owner@ == owner@,
            r.endpoint.repo@ == repo@,
            r.endpoint.query == query,
    {
        Request {
            client: self,
            endpoint: endpoints::RepoListKeys {
                owner: owner.to_owned(),
                repo: repo.to_owned(),
                query: query,
            },
            response: core::marker::PhantomData,
        }
    }

    /// Add a key to a repository
    ///
    /// - `owner`: owner of the repo
    /// - `repo`: name of the repo
    /// - `body`: See [`CreateKeyOption`]
    pub fn repo_create_key(&self, owner: &str, repo: &str, body: CreateKeyOption) -> (r: Request<'_, endpoints::RepoCreateKey, DeployKey>)
        ensures
            r.client == self,
            r.endpoint.owner@ == owner@,
            r.endpoint.repo@ == repo@,
            r.endpoint.body == body,
    {
        Request {
            client: self,
            endpoint: endpoints::RepoCreateKey {
                owner: owner.to_owned(),
                repo: repo.to_owned(),
                body: body,
            },
            response: core::marker::PhantomData,
        }
    }

    /// Get a repository's key by id
    ///
    /// - `owner`: owner of the repo
    /// - `repo`: name of the repo
    /// - `id`: id of the key to get
    pub fn repo_get_key(&self, owner: &str, repo: &str, id: i64) -> (r: Request<'_, endpoints::RepoGetKey, DeployKey>)
        ensures
            r.client == self,
            r.endpoint.owner@ == owner@,
            r.endpoint.repo@ == repo@,
            r.endpoint.id == id,
    {
        Request {
            client: self,
            endpoint: endpoints::RepoGetKey {
                owner: owner.to_owned(),
                repo: repo.to_owned(),
                id: id,
            },
            response: core::marker::PhantomData,
        }
    }

    /// Delete a key from a repository
    ///
    /// - `owner`: owner of the repo
    /// - `repo`: name of the repo
    /// - `id`: id of the key to delete
    pub fn repo_delete_key(&self, owner: &str, repo: &str, id: i64) -> (r: Request<'_, endpoints::RepoDeleteKey, ()>)
        ensures
            r.client == self,
            r.endpoint.owner@ == owner@,
            r.endpoint.repo@ == repo@,
            r.endpoint.id == id,
    {
        Request {
            client: self,
            endpoint: endpoints::RepoDeleteKey {
                owner: owner.to_owned(),
                repo: repo.to_owned(),
                id: id,
            },
            response: core::marker::PhantomData,
        }
    }

    /// Get all of a repository's labels
    ///
    /// - `owner`: owner of the repo
    /// - `repo`: name of the repo
    pub fn issue_list_labels(&self, owner: &str, repo: &str, query: IssueListLabelsQuery) -> (r: Request<'_, endpoints::IssueListLabels, (LabelListHeaders, Vec<Label>)>)
        ensures
            r.client == self,
            r.endpoint.owner@ == owner@,
            r.endpoint.repo@ == repo@,
            r.endpoint.query == query,
    {
        Request {
            client: self,
            endpoint: endpoints::IssueListLabels {
                owner: owner.to_owned(),
                repo: repo.to_owned(),
                query: query,
            },
            response: core::marker::PhantomData,
        }
    }

    /// Create a label
    ///
    /// - `owner`: owner of the repo
    /// - `repo`: name of the repo
    /// - `body`: See [`CreateLabelOption`]
    pub fn issue_create_label(&self, owner: &str, repo: &str, body: CreateLabelOption) -> (r: Request<'_, endpoints::IssueCreateLabel, Label>)
        ensures
            r.client == self,
            r.endpoint.owner@ == owner@,
            r.endpoint.repo@ == repo@,
            r.endpoint.body == body,
    {
        Request {
            client: self,
            endpoint: endpoints::IssueCreateLabel {
                owner: owner.to_owned(),
                repo: repo.to_owned(),
                body: body,
            },
            response: core::marker::PhantomData,
        }
    }

    /// Get a single label
    ///
    /// - `owner`: owner of the repo
    /// - `repo`: name of the repo
    /// - `id`: id of the label to get
    pub fn issue_get_label(&self, owner: &str, repo: &str, id: i64) -> (r: Request<'_, endpoints::IssueGetLabel, Label>)
        ensures
            r.client == self,
            r.endpoint.owner@ == owner@,
            r.endpoint.repo@ == repo@,
            r.endpoint.id == id,
    {
        Request {
            client: self,
            endpoint: endpoints::IssueGetLabel {
                owner: owner.to_owned(),
                repo: repo.to_owned(),
                id: id,
            },
            response: core::marker::PhantomData,
        }
    }

    /// Delete a label
    ///
    /// - `owner`: owner of the repo
    /// - `repo`: name of the repo
    /// - `id`: id of the label to delete
    pub fn issue_delete_label(&self, owner: &str, repo: &str, id: i64) -> (r: Request<'_, endpoints::IssueDeleteLabel, ()>)
        ensures
            r.client == self,
            r.endpoint.owner@ == owner@,
            r.endpoint.repo@ == repo@,
            r.endpoint.id == id,
    {
        Request {
            client: self,
            endpoint: endpoints::IssueDeleteLabel {
                owner: owner.to_owned(),
                repo: repo.to_owned(),
                id: id,
            },
            response: core::marker::PhantomData,
        }
    }

    /// Update a label
    ///
    /// - `owner`: owner of the repo
    /// - `repo`: name of the repo
    /// - `id`: id of the label to edit
    /// - `body`: See [`EditLabelOption`]
    pub fn issue_edit_label(&self, owner: &str, repo: &str, id: i64, body: EditLabelOption) -> (r: Request<'_, endpoints::IssueEditLabel, Label>)
        ensures
            r.client == self,
            r.endpoint.owner@ == owner@,
            r.endpoint.repo@ == repo@,
            r.endpoint.id == id,
            r.endpoint.body == body,
    {
        Request {
            client: self,
            endpoint: endpoints::IssueEditLabel {
                owner: owner.to_owned(),
                repo: repo.to_owned(),
                id: id,
                body: body,
            },
            response: core::marker::PhantomData,
        }
    }

    /// Get languages and number of bytes of code written
    ///
    /// - `owner`: owner of the repo
    /// - `repo`: name of the repo
    pub fn repo_get_languages(&self, owner: &str, repo: &str) -> (r: Request<'_, endpoints::RepoGetLanguages, BTreeMap<String, i64>>)
        ensures
            r.client == self,
            r.endpoint.owner@ == owner@,
            r.endpoint.repo@ == repo@,
    {
        Request {
            client: self,
            endpoint: endpoints::RepoGetLanguages {
                owner: owner.to_owned(),
                repo: repo.to_owned(),
            },
            response: core::marker::PhantomData,
        }
    }

    /// Get a file or it's LFS object from a repository
    ///
    /// - `owner`: owner of the repo
    /// - `repo`: name of the repo
    /// - `filepath`: filepath of the file to get
    pub fn repo_get_raw_file_or_lfs(&self, owner: &str, repo: &str, filepath: &str, query: RepoGetRawFileOrLfsQuery) -> (r: Request<'_, endpoints::RepoGetRawFileOrLfs, bytes::Bytes>)
        ensures
            r.client == self,
            r.endpoint.owner@ == owner@,
            r.endpoint.repo@ == repo@,
            r.endpoint.filepath@ == filepath@,
            r.endpoint.query == query,
    {
        Request {
            client: self,
            endpoint: endpoints::RepoGetRawFileOrLfs {
                owner: owner.to_owned(),
                repo: repo.to_owned(),
                filepath: filepath.to_owned(),
                query: query,
            },
            response: core::marker::PhantomData,
        }
    }

    /// Get all of a repository's opened milestones
    ///
    /// - `owner`: owner of the repo
    /// - `repo`: name of the repo
    pub fn issue_get_milestones_list(&self, owner: &str, repo: &str, query: IssueGetMilestonesListQuery) -> (r: Request<'_, endpoints::IssueGetMilestonesList, (MilestoneListHeaders, Vec<Milestone>)>)
        ensures
            r.client == self,
            r.endpoint.owner@ == owner@,
            r.endpoint.repo@ == repo@,
            r.endpoint.query == query,
    {
        Request {
            client: self,
            endpoint: endpoints::IssueGetMilestonesList {
                owner: owner.to_owned(),
                repo: repo.to_owned(),
                query: query,
            },
            response: core::marker::PhantomData,
        }
    }

    /// Create a milestone
    ///
    /// - `owner`: owner of the repo
    /// - `repo`: name of the repo
    /// - `body`: See [`CreateMilestoneOption`]
    pub fn issue_create_milestone(&self, owner: &str, repo: &str, body: CreateMilestoneOption) -> (r: Request<'_, endpoints::IssueCreateMilestone, Milestone>)
        ensures
            r.client == self,
            r.endpoint.owner@ == owner@,
            r.endpoint.repo@ == repo@,
            r.endpoint.body == body,
    {
        Request {
            client: self,
            endpoint: endpoints::IssueCreateMilestone {
                owner: owner.to_owned(),
                repo: repo.to_owned(),
                body: body,
            },
            response: core::marker::PhantomData,
        }
    }

    /// Get a milestone
    ///
    /// - `owner`: owner of the repo
    /// - `repo`: name of the repo
    /// - `id`: the milestone to get, identified by ID and if not available by name
    pub fn issue_get_milestone(&self, owner: &str, repo: &str, id: i64) -> (r: Request<'_, endpoints::IssueGetMilestone, Milestone>)
        ensures
            r.client == self,
            r.endpoint.owner@ == owner@,
            r.endpoint.repo@ == repo@,
            r.endpoint.id == id,
    {
        Request {
            client: self,
            endpoint: endpoints::IssueGetMilestone {
                owner: owner.to_owned(),
                repo: repo.to_owned(),
                id: id,
            },
            response: core::marker::PhantomData,
        }
    }

    /// Delete a milestone
    ///
    /// - `owner`: owner of the repo
    /// - `repo`: name of the repo
    /// - `id`: the milestone to delete, identified by ID and if not available by name
    pub fn issue_delete_milestone(&self, owner: &str, repo: &str, id: i64) -> (r: Request<'_, endpoints::IssueDeleteMilestone, ()>)
        ensures
            r.client == self,
            r.endpoint.owner@ == owner@,
            r.endpoint.repo@ == repo@,
            r.endpoint.id == id,
    {
        Request {
            client: self,
            endpoint: endpoints::IssueDeleteMilestone {
                owner: owner.to_owned(),
                repo: repo.to_owned(),
                id: id,
            },
            response: core::marker::PhantomData,
        }
    }

    /// Update a milestone
    ///
    /// - `owner`: owner of the repo
    /// - `repo`: name of the repo
    /// - `id`: the milestone to edit, identified by ID and if not available by name
    /// - `body`: See [`EditMilestoneOption`]
    pub fn issue_edit_milestone(&self, owner: &str, repo: &str, id: i64, body: EditMilestoneOption) -> (r: Request<'_, endpoints::IssueEditMilestone, Milestone>)
        ensures
            r.client == self,
            r.endpoint.owner@ == owner@,
            r.endpoint.repo@ == repo@,
            r.endpoint.id == id,
            r.endpoint.body == body,
    {
        Request {
            client: self,
            endpoint: endpoints::IssueEditMilestone {
                owner: owner.to_owned(),
                repo: repo.to_owned(),
                id: id,
                body: body,
            },
            response: core::marker::PhantomData,
        }
    }

    /// Sync a mirrored repository
    ///
    /// - `owner`: owner of the repo to sync
    /// - `repo`: name of the repo to sync
    pub fn repo_mirror_sync(&self, owner: &str, repo: &str) -> (r: Request<'_, endpoints::RepoMirrorSync, ()>)
        ensures
            r.client == self,
            r.endpoint.owner@ == owner@,
            r.endpoint.repo@ == repo@,
    {
        Request {
            client: self,
            endpoint: endpoints::RepoMirrorSync {
                owner: owner.to_owned(),
                repo: repo.to_owned(),
            },
            response: core::marker::PhantomData,
        }
    }

    /// Returns if new Issue Pins are allowed
    ///
    /// - `owner`: owner of the repo
    /// - `repo`: name of the repo
    pub fn repo_new_pin_allowed(&self, owner: &str, repo: &str) -> (r: Request<'_, endpoints::RepoNewPinAllowed, NewIssuePinsAllowed>)
        ensures
            r.client == self,
            r.endpoint.owner@ == owner@,
            r.endpoint.repo@ == repo@,
    {
        Request {
            client: self,
            endpoint: endpoints::RepoNewPinAllowed {
                owner: owner.to_owned(),
                repo: repo.to_owned(),
            },
            response: core::marker::PhantomData,
        }
    }

    /// List users's notification threads on a specific repo
    ///
    /// - `owner`: owner of the repo
    /// - `repo`: name of the repo
    pub fn notify_get_repo_list(&self, owner: &str, repo: &str, query: NotifyGetRepoListQuery) -> (r: Request<'_, endpoints::NotifyGetRepoList, (NotificationThreadListHeaders, Vec<NotificationThread>)>)
        ensures
            r.client == self,
            r.endpoint.owner@ == owner@,
            r.endpoint.repo@ == repo@,
            r.endpoint.query == query,
    {
        Request {
            client: self,
            endpoint: endpoints::NotifyGetRepoList {
                owner: owner.to_owned(),
                repo: repo.to_owned(),
                query: query,
            },
            response: core::marker::PhantomData,
        }
    }

    /// Mark notification threads as read, pinned or unread on a specific repo
    ///
    /// - `owner`: owner of the repo
    /// - `repo`: name of the repo
    pub fn notify_read_repo_list(&self, owner: &str, repo: &str, query: NotifyReadRepoListQuery) -> (r: Request<'_, endpoints::NotifyReadRepoList, Vec<NotificationThread>>)
        ensures
            r.client == self,
            r.endpoint.owner@ == owner@,
            r.endpoint.repo@ == repo@,
            r.endpoint.query == query,
    {
        Request {
            client: self,
            endpoint: endpoints::NotifyReadRepoList {
                owner: owner.to_owned(),
                repo: repo.to_owned(),
                query: query,
            },
            response: core::marker::PhantomData,
        }
    }

    /// List a repo's pull requests. If a pull request is selected but fails to be retrieved for any reason, it will be a null value in the list of results.
    ///
    /// - `owner`: Owner of the repo
    /// - `repo`: Name of the repo
    pub fn repo_list_pull_requests(&self, owner: &str, repo: &str, query: RepoListPullRequestsQuery) -> (r: Request<'_, endpoints::RepoListPullRequests, (PullRequestListHeaders, Vec<PullRequest>)>)
        ensures
            r.client == self,
            r.endpoint.owner@ == owner@,
            r.endpoint.repo@ == repo@,
            r.endpoint.query == query,
    {
        Request {
            client: self,
            endpoint: endpoints::RepoListPullRequests {
                owner: owner.to_owned(),
                repo: repo.to_owned(),
                query: query,
            },
            response: core::marker::PhantomData,
        }
    }

    /// Create a pull request
    ///
    /// - `owner`: owner of the repo
    /// - `repo`: name of the repo
    /// - `body`: See [`CreatePullRequestOption`]
    pub fn repo_create_pull_request(&self, owner: &str, repo: &str, body: CreatePullRequestOption) -> (r: Request<'_, endpoints::RepoCreatePullRequest, PullRequest>)
        ensures
            r.client == self,
            r.endpoint.owner@ == owner@,
            r.endpoint.repo@ == repo@,
            r.endpoint.body == body,
    {
        Request {
            client: self,
            endpoint: endpoints::RepoCreatePullRequest {
                owner: owner.to_owned(),
                repo: repo.to_owned(),
                body: body,
            },
            response: core::marker::PhantomData,
        }
    }

    /// List a repo's pinned pull requests
    ///
    /// - `owner`: owner of the repo
    /// - `repo`: name of the repo
    pub fn repo_list_pinned_pull_requests(&self, owner: &str, repo: &str) -> (r: Request<'_, endpoints::RepoListPinnedPullRequests, (PullRequestListHeaders, Vec<PullRequest>)>)
        ensures
            r.client == self,
            r.endpoint.owner@ == owner@,
            r.endpoint.repo@ == repo@,
    {
        Request {
            client: self,
            endpoint: endpoints::RepoListPinnedPullRequests {
                owner: owner.to_owned(),
                repo: repo.to_owned(),
            },
            response: core::marker::PhantomData,
        }
    }

    /// Get a pull request by base and head
    ///
    /// - `owner`: owner of the repo
    /// - `repo`: name of the repo
    /// - `base`: base of the pull request to get
    /// - `head`: head of the pull request to get
    pub fn repo_get_pull_request_by_base_head(&self, owner: &str, repo: &str, base: &str, head: &str) -> (r: Request<'_, endpoints::RepoGetPullRequestByBaseHead, PullRequest>)
        ensures
            r.client == self,
            r.endpoint.owner@ == owner@,
            r.endpoint.repo@ == repo@,
            r.endpoint.base@ == base@,
            r.endpoint.head@ == head@,
    {
        Request {
            client: self,
            endpoint: endpoints::RepoGetPullRequestByBaseHead {
                owner: owner.to_owned(),
                repo: repo.to_owned(),
                base: base.to_owned(),
                head: head.to_owned(),
            },
            response: core::marker::PhantomData,
        }
    }

    /// Get a pull request
    ///
    /// - `owner`: owner of the repo
    /// - `repo`: name of the repo
    /// - `index`: index of the pull request to get
    pub fn repo_get_pull_request(&self, owner: &str, repo: &str, index: i64) -> (r: Request<'_, endpoints::RepoGetPullRequest, PullRequest>)
        ensures
            r.client == self,
            r.endpoint.owner@ == owner@,
            r.endpoint.repo@ == repo@,
            r.endpoint.index == index,
    {
        Request {
            client: self,
            endpoint: endpoints::RepoGetPullRequest {
                owner: owner.to_owned(),
                repo: repo.to_owned(),
                index: index,
            },
            response: core::marker::PhantomData,
        }
    }

    /// Update a pull request. If using deadline only the date will be taken into account, and time of day ignored.
    ///
    /// - `owner`: owner of the repo
    /// - `repo`: name of the repo
    /// - `index`: index of the pull request to edit
    /// - `body`: See [`EditPullRequestOption`]
    pub fn repo_edit_pull_request(&self, owner: &str, repo: &str, index: i64, body: EditPullRequestOption) -> (r: Request<'_, endpoints::RepoEditPullRequest, PullRequest>)
        ensures
            r.client == self,
            r.endpoint.owner@ == owner@,
            r.endpoint.repo@ == repo@,
            r.endpoint.index == index,
            r.endpoint.body == body,
    {
        Request {
            client: self,
            endpoint: endpoints::RepoEditPullRequest {
                owner: owner.to_owned(),
                repo: repo.to_owned(),
                index: index,
                body: body,
            },
            response: core::marker::PhantomData,
        }
    }

    /// Get a pull request diff or patch
    ///
    /// - `owner`: owner of the repo
    /// - `repo`: name of the repo
    /// - `index`: index of the pull request to get
    /// - `diffType`: whether the output is diff or patch
    pub fn repo_download_pull_diff_or_patch(&self, owner: &str, repo: &str, index: i64, diff_type: &str, query: RepoDownloadPullDiffOrPatchQuery) -> (r: Request<'_, endpoints::RepoDownloadPullDiffOrPatch, String>)
        ensures
            r.client == self,
            r.endpoint.owner@ == owner@,
            r.endpoint.repo@ == repo@,
            r.endpoint.index == index,
            r.endpoint.diff_type@ == diff_type@,
            r.endpoint.query == query,
    {
        Request {
            client: self,
            endpoint: endpoints::RepoDownloadPullDiffOrPatch {
                owner: owner.to_owned(),
                repo: repo.to_owned(),
                index: index,
                diff_type: diff_type.to_owned(),
                query: query,
            },
            response: core::marker::PhantomData,
        }
    }

    /// Get commits for a pull request
    ///
    /// - `owner`: owner of the repo
    /// - `repo`: name of the repo
    /// - `index`: index of the pull request to get
    pub fn repo_get_pull_request_commits(&self, owner: &str, repo: &str, index: i64, query: RepoGetPullRequestCommitsQuery) -> (r: Request<'_, endpoints::RepoGetPullRequestCommits, (CommitListHeaders, Vec<Commit>)>)
        ensures
            r.client == self,
            r.endpoint.owner@ == owner@,
            r.endpoint.repo@ == repo@,
            r.endpoint.index == index,
            r.endpoint.query == query,
    {
        Request {
            client: self,
            endpoint: endpoints::RepoGetPullRequestCommits {
                owner: owner.to_owned(),
                repo: repo.to_owned(),
                index: index,
                query: query,
            },
            response: core::marker::PhantomData,
        }
    }

    /// Get changed files for a pull request
    ///
    /// - `owner`: owner of the repo
    /// - `repo`: name of the repo
    /// - `index`: index of the pull request to get
    pub fn repo_get_pull_request_files(&self, owner: &str, repo: &str, index: i64, query: RepoGetPullRequestFilesQuery) -> (r: Request<'_, endpoints::RepoGetPullRequestFiles, (ChangedFileListWithPaginationHeaders, Vec<ChangedFile>)>)
        ensures
            r.client == self,
            r.endpoint.owner@ == owner@,
            r.endpoint.repo@ == repo@,
            r.endpoint.index == index,
            r.endpoint.query == query,
    {
        Request {
            client: self,
            endpoint: endpoints::RepoGetPullRequestFiles {
                owner: owner.to_owned(),
                repo: repo.to_owned(),
                index: index,
                query: query,
            },
            response: core::marker::PhantomData,
        }
    }

    /// Check if a pull request has been merged
    ///
    /// - `owner`: owner of the repo
    /// - `repo`: name of the repo
    /// - `index`: index of the pull request
    pub fn repo_pull_request_is_merged(&self, owner: &str, repo: &str, index: i64) -> (r: Request<'_, endpoints::RepoPullRequestIsMerged, ()>)
        ensures
            r.client == self,
            r.endpoint.owner@ == owner@,
            r.endpoint.repo@ == repo@,
            r.endpoint.index == index,
    {
        Request {
            client: self,
            endpoint: endpoints::RepoPullRequestIsMerged {
                owner: owner.to_owned(),
                repo: repo.to_owned(),
                index: index,
            },
            response: core::marker::PhantomData,
        }
    }

    /// Merge a pull request
    ///
    /// - `owner`: owner of the repo
    /// - `repo`: name of the repo
    /// - `index`: index of the pull request to merge
    /// - `body`: See [`MergePullRequestOption`]
    pub fn repo_merge_pull_request(&self, owner: &str, repo: &str, index: i64, body: MergePullRequestOption) -> (r: Request<'_, endpoints::RepoMergePullRequest, ()>)
        ensures
            r.client == self,
            r.endpoint.owner@ == owner@,
            r.endpoint.repo@ == repo@,
            r.endpoint.index == index,
            r.endpoint.body == body,
    {
        Request {
            client: self,
            endpoint: endpoints::RepoMergePullRequest {
                owner: owner.to_owned(),
                repo: repo.to_owned(),
                index: index,
                body: body,
            },
            response: core::marker::PhantomData,
        }
    }

    /// Cancel the scheduled auto merge for the given pull request
    ///
    /// - `owner`: owner of the repo
    /// - `repo`: name of the repo
    /// - `index`: index of the pull request to merge
    pub fn repo_cancel_scheduled_auto_merge(&self, owner: &str, repo: &str, index: i64) -> (r: Request<'_, endpoints::RepoCancelScheduledAutoMerge, ()>)
        ensures
            r.client == self,
            r.endpoint.owner@ == owner@,
            r.endpoint.repo@ == repo@,
            r.endpoint.index == index,
    {
        Request {
            client: self,
            endpoint: endpoints::RepoCancelScheduledAutoMerge {
                owner: owner.to_owned(),
                repo: repo.to_owned(),
                index: index,
            },
            response: core::marker::PhantomData,
        }
    }

    /// Create review requests for a pull request
    ///
    /// - `owner`: owner of the repo
    /// - `repo`: name of the repo
    /// - `index`: index of the pull request
    /// - `body`: See [`PullReviewRequestOptions`]
    pub fn repo_create_pull_review_requests(&self, owner: &str, repo: &str, index: i64, body: PullReviewRequestOptions) -> (r: Request<'_, endpoints::RepoCreatePullReviewRequests, Vec<PullReview>>)
        ensures
            r.client == self,
            r.endpoint.owner@ == owner@,
            r.endpoint.repo@ == repo@,
            r.endpoint.index == index,
            r.endpoint.body == body,
    {
        Request {
            client: self,
            endpoint: endpoints::RepoCreatePullReviewRequests {
                owner: owner.to_owned(),
                repo: repo.to_owned(),
                index: index,
                body: body,
            },
            response: core::marker::PhantomData,
        }
    }

    /// Cancel review requests for a pull request
    ///
    /// - `owner`: owner of the repo
    /// - `repo`: name of the repo
    /// - `index`: index of the pull request
    /// - `body`: See [`PullReviewRequestOptions`]
    pub fn repo_delete_pull_review_requests(&self, owner: &str, repo: &str, index: i64, body: PullReviewRequestOptions) -> (r: Request<'_, endpoints::RepoDeletePullReviewRequests, ()>)
        ensures
            r.client == self,
            r.endpoint.owner@ == owner@,
            r.endpoint.repo@ == repo@,
            r.endpoint.index == index,
            r.endpoint.body == body,
    {
        Request {
            client: self,
            endpoint: endpoints::RepoDeletePullReviewRequests {
                owner: owner.to_owned(),
                repo: repo.to_owned(),
                index: index,
                body: body,
            },
            response: core::marker::PhantomData,
        }
    }

    /// List all reviews for a pull request
    ///
    /// - `owner`: owner of the repo
    /// - `repo`: name of the repo
    /// - `index`: index of the pull request
    pub fn repo_list_pull_reviews(&self, owner: &str, repo: &str, index: i64) -> (r: Request<'_, endpoints::RepoListPullReviews, (PullReviewListHeaders, Vec<PullReview>)>)
        ensures
            r.client == self,
            r.endpoint.owner@ == owner@,
            r.endpoint.repo@ == repo@,
            r.endpoint.index == index,
    {
        Request {
            client: self,
            endpoint: endpoints::RepoListPullReviews {
                owner: owner.to_owned(),
                repo: repo.to_owned(),
                index: index,
            },
            response: core::marker::PhantomData,
        }
    }

    /// Create a review to an pull request
    ///
    /// - `owner`: owner of the repo
    /// - `repo`: name of the repo
    /// - `index`: index of the pull request
    /// - `body`: See [`CreatePullReviewOptions`]
    pub fn repo_create_pull_review(&self, owner: &str, repo: &str, index: i64, body: CreatePullReviewOptions) -> (r: Request<'_, endpoints::RepoCreatePullReview, PullReview>)
        ensures
            r.client == self,
            r.endpoint.owner@ == owner@,
            r.endpoint.repo@ == repo@,
            r.endpoint.index == index,
            r.endpoint.body == body,
    {
        Request {
            client: self,
            endpoint: endpoints::RepoCreatePullReview {
                owner: owner.to_owned(),
                repo: repo.to_owned(),
                index: index,
                body: body,
            },
            response: core::marker::PhantomData,
        }
    }

    /// Get a specific review for a pull request
    ///
    /// - `owner`: owner of the repo
    /// - `repo`: name of the repo
    /// - `index`: index of the pull request
    /// - `id`: id of the review
    pub fn repo_get_pull_review(&self, owner: &str, repo: &str, index: i64, id: i64) -> (r: Request<'_, endpoints::RepoGetPullReview, PullReview>)
        ensures
            r.client == self,
            r.endpoint.owner@ == owner@,
            r.endpoint.repo@ == repo@,
            r.endpoint.index == index,
            r.endpoint.id == id,
    {
        Request {
            client: self,
            endpoint: endpoints::RepoGetPullReview {
                owner: owner.to_owned(),
                repo: repo.to_owned(),
                index: index,
                id: id,
            },
            response: core::marker::PhantomData,
        }
    }

    /// Submit a pending review to an pull request
    ///
    /// - `owner`: owner of the repo
    /// - `repo`: name of the repo
    /// - `index`: index of the pull request
    /// - `id`: id of the review
    /// - `body`: See [`SubmitPullReviewOptions`]
    pub fn repo_submit_pull_review(&self, owner: &str, repo: &str, index: i64, id: i64, body: SubmitPullReviewOptions) -> (r: Request<'_, endpoints::RepoSubmitPullReview, PullReview>)
        ensures
            r.client == self,
            r.endpoint.owner@ == owner@,
            r.endpoint.repo@ == repo@,
            r.endpoint.index == index,
            r.endpoint.id == id,
            r.endpoint.body == body,
    {
        Request {
            client: self,
            endpoint: endpoints::RepoSubmitPullReview {
                owner: owner.to_owned(),
                repo: repo.to_owned(),
                index: index,
                id: id,
                body: body,
            },
            response: core::marker::PhantomData,
        }
    }

    /// Delete a specific review from a pull request
    ///
    /// - `owner`: owner of the repo
    /// - `repo`: name of the repo
    /// - `index`: index of the pull request
    /// - `id`: id of the review
    pub fn repo_delete_pull_review(&self, owner: &str, repo: &str, index: i64, id: i64) -> (r: Request<'_, endpoints::RepoDeletePullReview, ()>)
        ensures
            r.client == self,
            r.endpoint.owner@ == owner@,
            r.endpoint.repo@ == repo@,
            r.endpoint.index == index,
            r.endpoint.id == id,
    {
        Request {
            client: self,
            endpoint: endpoints::RepoDeletePullReview {
                owner: owner.to_owned(),
                repo: repo.to_owned(),
                index: index,
                id: id,
            },
            response: core::marker::PhantomData,
        }
    }

    /// Get a specific review for a pull request
    ///
    /// - `owner`: owner of the repo
    /// - `repo`: name of the repo
    /// - `index`: index of the pull request
    /// - `id`: id of the review
    pub fn repo_get_pull_review_comments(&self, owner: &str, repo: &str, index: i64, id: i64) -> (r: Request<'_, endpoints::RepoGetPullReviewComments, Vec<PullReviewComment>>)
        ensures
            r.client == self,
            r.endpoint.owner@ == owner@,
            r.endpoint.repo@ == repo@,
            r.endpoint.index == index,
            r.endpoint.id == id,
    {
        Request {
            client: self,
            endpoint: endpoints::RepoGetPullReviewComments {
                owner: owner.to_owned(),
                repo: repo.to_owned(),
                index: index,
                id: id,
            },
            response: core::marker::PhantomData,
        }
    }

    /// Add a new comment to a pull request review
    ///
    /// - `owner`: owner of the repo
    /// - `repo`: name of the repo
    /// - `index`: index of the pull request
    /// - `id`: id of the review
    /// - `body`: See [`serde_json::Value`]
    pub fn repo_create_pull_review_comment(&self, owner: &str, repo: &str, index: i64, id: i64, body: serde_json::Value) -> (r: Request<'_, endpoints::RepoCreatePullReviewComment, PullReviewComment>)
        ensures
            r.client == self,
            r.endpoint.owner@ == owner@,
            r.endpoint.repo@ == repo@,
            r.endpoint.index == index,
            r.endpoint.id == id,
            r.endpoint.body == body,
    {
        Request {
            client: self,
            endpoint: endpoints::RepoCreatePullReviewComment {
                owner: owner.to_owned(),
                repo: repo.to_owned(),
                index: index,
                id: id,
                body: body,
            },
            response: core::marker::PhantomData,
        }
    }

    /// Get a pull review comment
    ///
    /// - `owner`: owner of the repo
    /// - `repo`: name of the repo
    /// - `index`: index of the pull request
    /// - `id`: id of the review
    /// - `comment`: id of the comment
    pub fn repo_get_pull_review_comment(&self, owner: &str, repo: &str, index: i64, id: i64, comment: i64) -> (r: Request<'_, endpoints::RepoGetPullReviewComment, PullReviewComment>)
        ensures
            r.client == self,
            r.endpoint.owner@ == owner@,
            r.endpoint.repo@ == repo@,
            r.endpoint.index == index,
            r.endpoint.id == id,
            r.endpoint.comment == comment,
    {
        Request {
            client: self,
            endpoint: endpoints::RepoGetPullReviewComment {
                owner: owner.to_owned(),
                repo: repo.to_owned(),
                index: index,
                id: id,
                comment: comment,
            },
            response: core::marker::PhantomData,
        }
    }

    /// Delete a pull review comment
    ///
    /// - `owner`: owner of the repo
    /// - `repo`: name of the repo
    /// - `index`: index of the pull request
    /// - `id`: id of the review
    /// - `comment`: id of the comment
    pub fn repo_delete_pull_review_comment(&self, owner: &str, repo: &str, index: i64, id: i64, comment: i64) -> (r: Request<'_, endpoints::RepoDeletePullReviewComment, ()>)
        ensures
            r.client == self,
            r.endpoint.owner@ == owner@,
            r.endpoint.repo@ == repo@,
            r.endpoint.index == index,
            r.endpoint.id == id,
            r.endpoint.comment == comment,
    {
        Request {
            client: self,
            endpoint: endpoints::RepoDeletePullReviewComment {
                owner: owner.to_owned(),
                repo: repo.to_owned(),
                index: index,
                id: id,
                comment: comment,
            },
            response: core::marker::PhantomData,
        }
    }

    /// Dismiss a review for a pull request
    ///
    /// - `owner`: owner of the repo
    /// - `repo`: name of the repo
    /// - `index`: index of the pull request
    /// - `id`: id of the review
    /// - `body`: See [`DismissPullReviewOptions`]
    pub fn repo_dismiss_pull_review(&self, owner: &str, repo: &str, index: i64, id: i64, body: DismissPullReviewOptions) -> (r: Request<'_, endpoints::RepoDismissPullReview, PullReview>)
        ensures
            r.client == self,
            r.endpoint.owner@ == owner@,
            r.endpoint.repo@ == repo@,
            r.endpoint.index == index,
            r.endpoint.id == id,
            r.endpoint.body == body,
    {
        Request {
            client: self,
            endpoint: endpoints::RepoDismissPullReview {
                owner: owner.to_owned(),
                repo: repo.to_owned(),
                index: index,
                id: id,
                body: body,
            },
            response: core::marker::PhantomData,
        }
    }

    /// Cancel to dismiss a review for a pull request
    ///
    /// - `owner`: owner of the repo
    /// - `repo`: name of the repo
    /// - `index`: index of the pull request
    /// - `id`: id of the review
    pub fn repo_un_dismiss_pull_review(&self, owner: &str, repo: &str, index: i64, id: i64) -> (r: Request<'_, endpoints::RepoUnDismissPullReview, PullReview>)
        ensures
            r.client == self,
            r.endpoint.owner@ == owner@,
            r.endpoint.repo@ == repo@,
            r.endpoint.index == index,
            r.endpoint.id == id,
    {
        Request {
            client: self,
            endpoint: endpoints::RepoUnDismissPullReview {
                owner: owner.to_owned(),
                repo: repo.to_owned(),
                index: index,
                id: id,
            },
            response: core::marker::PhantomData,
        }
    }

    /// Merge PR's baseBranch into headBranch
    ///
    /// - `owner`: owner of the repo
    /// - `repo`: name of the repo
    /// - `index`: index of the pull request to get
    pub fn repo_update_pull_request(&self, owner: &str, repo: &str, index: i64, query: RepoUpdatePullRequestQuery) -> (r: Request<'_, endpoints::RepoUpdatePullRequest, ()>)
        ensures
            r.client == self,
            r.endpoint.owner@ == owner@,
            r.endpoint.repo@ == repo@,
            r.endpoint.index == index,
            r.endpoint.query == query,
    {
        Request {
            client: self,
            endpoint: endpoints::RepoUpdatePullRequest {
                owner: owner.to_owned(),
                repo: repo.to_owned(),
                index: index,
                query: query,
            },
            response: core::marker::PhantomData,
        }
    }

    /// Get all push mirrors of the repository
    ///
    /// - `owner`: owner of the repo
    /// - `repo`: name of the repo
    pub fn repo_list_push_mirrors(&self, owner: &str, repo: &str) -> (r: Request<'_, endpoints::RepoListPushMirrors, (PushMirrorListHeaders, Vec<PushMirror>)>)
        ensures
            r.client == self,
            r.endpoint.owner@ == owner@,
            r.endpoint.repo@ == repo@,
    {
        Request {
            client: self,
            endpoint: endpoints::RepoListPushMirrors {
                owner: owner.to_owned(),
                repo: repo.to_owned(),
            },
            response: core::marker::PhantomData,
        }
    }

    /// Set up a new push mirror in a repository
    ///
    /// - `owner`: owner of the repo
    /// - `repo`: name of the repo
    /// - `body`: See [`CreatePushMirrorOption`]
    pub fn repo_add_push_mirror(&self, owner: &str, repo: &str, body: CreatePushMirrorOption) -> (r: Request<'_, endpoints::RepoAddPushMirror, PushMirror>)
        ensures
            r.client == self,
            r.endpoint.owner@ == owner@,
            r.endpoint.repo@ == repo@,
            r.endpoint.body == body,
    {
        Request {
            client: self,
            endpoint: endpoints::RepoAddPushMirror {
                owner: owner.to_owned(),
                repo: repo.to_owned(),
                body: body,
            },
            response: core::marker::PhantomData,
        }
    }

    /// Sync all push mirrored repository
    ///
    /// - `owner`: owner of the repo to sync
    /// - `repo`: name of the repo to sync
    pub fn repo_push_mirror_sync(&self, owner: &str, repo: &str) -> (r: Request<'_, endpoints::RepoPushMirrorSync, ()>)
        ensures
            r.client == self,
            r.endpoint.owner@ == owner@,
            r.endpoint.repo@ == repo@,
    {
        Request {
            client: self,
            endpoint: endpoints::RepoPushMirrorSync {
                owner: owner.to_owned(),
                repo: repo.to_owned(),
            },
            response: core::marker::PhantomData,
        }
    }

    /// Get push mirror of the repository by remoteName
    ///
    /// - `owner`: owner of the repo
    /// - `repo`: name of the repo
    /// - `name`: remote name of push mirror
    pub fn repo_get_push_mirror_by_remote_name(&self, owner: &str, repo: &str, name: &str) -> (r: Request<'_, endpoints::RepoGetPushMirrorByRemoteName, PushMirror>)
        ensures
            r.client == self,
            r.endpoint.owner@ == owner@,
            r.endpoint.repo@ == repo@,
            r.endpoint.name@ == name@,
    {
        Request {
            client: self,
            endpoint: endpoints::RepoGetPushMirrorByRemoteName {
                owner: owner.to_owned(),
                repo: repo.to_owned(),
                name: name.to_owned(),
            },
            response: core::marker::PhantomData,
        }
    }

    /// Remove a push mirror from a repository by remoteName
    ///
    /// - `owner`: owner of the repo
    /// - `repo`: name of the repo
    /// - `name`: remote name of the pushMirror
    pub fn repo_delete_push_mirror(&self, owner: &str, repo: &str, name: &str) -> (r: Request<'_, endpoints::RepoDeletePushMirror, ()>)
        ensures
            r.client == self,
            r.endpoint.owner@ == owner@,
            r.endpoint.repo@ == repo@,
            r.endpoint.name@ == name@,
    {
        Request {
            client: self,
            endpoint: endpoints::RepoDeletePushMirror {
                owner: owner.to_owned(),
                repo: repo.to_owned(),
                name: name.to_owned(),
            },
            response: core::marker::PhantomData,
        }
    }

    /// Get a file from a repository
    ///
    /// - `owner`: owner of the repo
    /// - `repo`: name of the repo
    /// - `filepath`: filepath of the file to get
    pub fn repo_get_raw_file(&self, owner: &str, repo: &str, filepath: &str, query: RepoGetRawFileQuery) -> (r: Request<'_, endpoints::RepoGetRawFile, bytes::Bytes>)
        ensures
            r.client == self,
            r.endpoint.owner@ == owner@,
            r.endpoint.repo@ == repo@,
            r.endpoint.filepath@ == filepath@,
            r.endpoint.query == query,
    {
        Request {
            client: self,
            endpoint: endpoints::RepoGetRawFile {
                owner: owner.to_owned(),
                repo: repo.to_owned(),
                filepath: filepath.to_owned(),
                query: query,
            },
            response: core::marker::PhantomData,
        }
    }

    /// List a repo's releases
    ///
    /// - `owner`: owner of the repo
    /// - `repo`: name of the repo
    pub fn repo_list_releases(&self, owner: &str, repo: &str, query: RepoListReleasesQuery) -> (r: Request<'_, endpoints::RepoListReleases, (ReleaseListHeaders, Vec<Release>)>)
        ensures
            r.client == self,
            r.endpoint.owner@ == owner@,
            r.endpoint.repo@ == repo@,
            r.endpoint.query == query,
    {
        Request {
            client: self,
            endpoint: endpoints::RepoListReleases {
                owner: owner.to_owned(),
                repo: repo.to_owned(),
                query: query,
            },
            response: core::marker::PhantomData,
        }
    }

    /// Create a release
    ///
    /// - `owner`: owner of the repo
    /// - `repo`: name of the repo
    /// - `body`: See [`CreateReleaseOption`]
    pub fn repo_create_release(&self, owner: &str, repo: &str, body: CreateReleaseOption) -> (r: Request<'_, endpoints::RepoCreateRelease, Release>)
        ensures
            r.client == self,
            r.endpoint.owner@ == owner@,
            r.endpoint.repo@ == repo@,
            r.endpoint.body == body,
    {
        Request {
            client: self,
            endpoint: endpoints::RepoCreateRelease {
                owner: owner.to_owned(),
                repo: repo.to_owned(),
                body: body,
            },
            response: core::marker::PhantomData,
        }
    }

    /// Gets the most recent non-prerelease, non-draft release of a repository, sorted by created_at
    ///
    /// - `owner`: owner of the repo
    /// - `repo`: name of the repo
    pub fn repo_get_latest_release(&self, owner: &str, repo: &str) -> (r: Request<'_, endpoints::RepoGetLatestRelease, Release>)
        ensures
            r.client == self,
            r.endpoint.owner@ == owner@,
            r.endpoint.repo@ == repo@,
    {
        Request {
            client: self,
            endpoint: endpoints::RepoGetLatestRelease {
                owner: owner.to_owned(),
                repo: repo.to_owned(),
            },
            response: core::marker::PhantomData,
        }
    }

    /// Get a release by tag name
    ///
    /// - `owner`: owner of the repo
    /// - `repo`: name of the repo
    /// - `tag`: tag name of the release to get
    pub fn repo_get_release_by_tag(&self, owner: &str, repo: &str, tag: &str) -> (r: Request<'_, endpoints::RepoGetReleaseByTag, Release>)
        ensures
            r.client == self,
            r.endpoint.owner@ == owner@,
            r.endpoint.repo@ == repo@,
            r.endpoint.tag@ == tag@,
    {
        Request {
            client: self,
            endpoint: endpoints::RepoGetReleaseByTag {
                owner: owner.to_owned(),
                repo: repo.to_owned(),
                tag: tag.to_owned(),
            },
            response: core::marker::PhantomData,
        }
    }

    /// Delete a release by tag name
    ///
    /// - `owner`: owner of the repo
    /// - `repo`: name of the repo
    /// - `tag`: tag name of the release to delete
    pub fn repo_delete_release_by_tag(&self, owner: &str, repo: &str, tag: &str) -> (r: Request<'_, endpoints::RepoDeleteReleaseByTag, ()>)
        ensures
            r.client == self,
            r.endpoint.owner@ == owner@,
            r.endpoint.repo@ == repo@,
            r.endpoint.tag@ == tag@,
    {
        Request {
            client: self,
            endpoint: endpoints::RepoDeleteReleaseByTag {
                owner: owner.to_owned(),
                repo: repo.to_owned(),
                tag: tag.to_owned(),
            },
            response: core::marker::PhantomData,
        }
    }

    /// Get a release
    ///
    /// - `owner`: owner of the repo
    /// - `repo`: name of the repo
    /// - `id`: id of the release to get
    pub fn repo_get_release(&self, owner: &str, repo: &str, id: i64) -> (r: Request<'_, endpoints::RepoGetRelease, Release>)
        ensures
            r.client == self,
            r.endpoint.owner@ == owner@,
            r.endpoint.repo@ == repo@,
            r.endpoint.id == id,
    {
        Request {
            client: self,
            endpoint: endpoints::RepoGetRelease {
                owner: owner.to_owned(),
                repo: repo.to_owned(),
                id: id,
            },
            response: core::marker::PhantomData,
        }
    }

    /// Delete a release
    ///
    /// - `owner`: owner of the repo
    /// - `repo`: name of the repo
    /// - `id`: id of the release to delete
    pub fn repo_delete_release(&self, owner: &str, repo: &str, id: i64) -> (r: Request<'_, endpoints::RepoDeleteRelease, ()>)
        ensures
            r.client == self,
            r.endpoint.owner@ == owner@,
            r.endpoint.repo@ == repo@,
            r.endpoint.id == id,
    {
        Request {
            client: self,
            endpoint: endpoints::RepoDeleteRelease {
                owner: owner.to_owned(),
                repo: repo.to_owned(),
                id: id,
            },
            response: core::marker::PhantomData,
        }
    }

    /// Update a release
    ///
    /// - `owner`: owner of the repo
    /// - `repo`: name of the repo
    /// - `id`: id of the release to edit
    /// - `body`: See [`EditReleaseOption`]
    pub fn repo_edit_release(&self, owner: &str, repo: &str, id: i64, body: EditReleaseOption) -> (r: Request<'_, endpoints::RepoEditRelease, Release>)
        ensures
            r.client == self,
            r.endpoint.owner@ == owner@,
            r.endpoint.repo@ == repo@,
            r.endpoint.id == id,
            r.endpoint.body == body,
    {
        Request {
            client: self,
            endpoint: endpoints::RepoEditRelease {
                owner: owner.to_owned(),
                repo: repo.to_owned(),
                id: id,
                body: body,
            },
            response: core::marker::PhantomData,
        }
    }

    /// List release's attachments
    ///
    /// - `owner`: owner of the repo
    /// - `repo`: name of the repo
    /// - `id`: id of the release
    pub fn repo_list_release_attachments(&self, owner: &str, repo: &str, id: i64) -> (r: Request<'_, endpoints::RepoListReleaseAttachments, Vec<Attachment>>)
        ensures
            r.client == self,
            r.endpoint.owner@ == owner@,
            r.endpoint.repo@ == repo@,
            r.endpoint.id == id,
    {
        Request {
            client: self,
            endpoint: endpoints::RepoListReleaseAttachments {
                owner: owner.to_owned(),
                repo: repo.to_owned(),
                id: id,
            },
            response: core::marker::PhantomData,
        }
    }

    /// Create a release attachment
    ///
    /// - `owner`: owner of the repo
    /// - `repo`: name of the repo
    /// - `id`: id of the release
    /// - `attachment`: attachment to upload (this parameter is incompatible with `external_url`)
    /// - `external_url`: url to external asset (this parameter is incompatible with `attachment`)
    pub fn repo_create_release_attachment(&self, owner: &str, repo: &str, id: i64, attachment: Option<&[u8]>, external_url: Option<&str>, query: RepoCreateReleaseAttachmentQuery) -> (r: Request<'_, endpoints::RepoCreateReleaseAttachment, Attachment>)
        ensures
            r.client == self,
            r.endpoint.owner@ == owner@,
            r.endpoint.repo@ == repo@,
            r.endpoint.id == id,
            super::opt_vec_view(r.endpoint.attachment) == super::opt_bytes_view(attachment),
            super::opt_string_view(r.endpoint.external_url) == super::opt_str_view(external_url),
            r.endpoint.query == query,
    {
        Request {
            client: self,
            endpoint: endpoints::RepoCreateReleaseAttachment {
                owner: owner.to_owned(),
                repo: repo.to_owned(),
                id: id,
                attachment: super::own_opt_bytes(attachment),
                external_url: super::own_opt_str(external_url),
                query: query,
            },
            response: core::marker::PhantomData,
        }
    }

    /// Get a release attachment
    ///
    /// - `owner`: owner of the repo
    /// - `repo`: name of the repo
    /// - `id`: id of the release
    /// - `attachment_id`: id of the attachment to get
    pub fn repo_get_release_attachment(&self, owner: &str, repo: &str, id: i64, attachment_id: i64) -> (r: Request<'_, endpoints::RepoGetReleaseAttachment, Attachment>)
        ensures
            r.client == self,
            r.endpoint.owner@ == owner@,
            r.endpoint.repo@ == repo@,
            r.endpoint.id == id,
            r.endpoint.attachment_id == attachment_id,
    {
        Request {
            client: self,
            endpoint: endpoints::RepoGetReleaseAttachment {
                owner: owner.to_owned(),
                repo: repo.to_owned(),
                id: id,
                attachment_id: attachment_id,
            },
            response: core::marker::PhantomData,
        }
    }

    /// Delete a release attachment
    ///
    /// - `owner`: owner of the repo
    /// - `repo`: name of the repo
    /// - `id`: id of the release
    /// - `attachment_id`: id of the attachment to delete
    pub fn repo_delete_release_attachment(&self, owner: &str, repo: &str, id: i64, attachment_id: i64) -> (r: Request<'_, endpoints::RepoDeleteReleaseAttachment, ()>)
        ensures
            r.client == self,
            r.endpoint.owner@ == owner@,
            r.endpoint.repo@ == repo@,
            r.endpoint.id == id,
            r.endpoint.attachment_id == attachment_id,
    {
        Request {
            client: self,
            endpoint: endpoints::RepoDeleteReleaseAttachment {
                owner: owner.to_owned(),
                repo: repo.to_owned(),
                id: id,
                attachment_id: attachment_id,
            },
            response: core::marker::PhantomData,
        }
    }

    /// Edit a release attachment
    ///
    /// - `owner`: owner of the repo
    /// - `repo`: name of the repo
    /// - `id`: id of the release
    /// - `attachment_id`: id of the attachment to edit
    /// - `body`: See [`EditAttachmentOptions`]
    pub fn repo_edit_release_attachment(&self, owner: &str, repo: &str, id: i64, attachment_id: i64, body: EditAttachmentOptions) -> (r: Request<'_, endpoints::RepoEditReleaseAttachment, Attachment>)
        ensures
            r.client == self,
            r.endpoint.owner@ == owner@,
            r.endpoint.repo@ == repo@,
            r.endpoint.id == id,
            r.endpoint.attachment_id == attachment_id,
            r.endpoint.body == body,
    {
        Request {
            client: self,
            endpoint: endpoints::RepoEditReleaseAttachment {
                owner: owner.to_owned(),
                repo: repo.to_owned(),
                id: id,
                attachment_id: attachment_id,
                body: body,
            },
            response: core::marker::PhantomData,
        }
    }

    /// Return all users that can be requested to review in this repo
    ///
    /// - `owner`: owner of the repo
    /// - `repo`: name of the repo
    pub fn repo_get_reviewers(&self, owner: &str, repo: &str) -> (r: Request<'_, endpoints::RepoGetReviewers, (UserListHeaders, Vec<User>)>)
        ensures
            r.client == self,
            r.endpoint.owner@ == owner@,
            r.endpoint.repo@ == repo@,
    {
        Request {
            client: self,
            endpoint: endpoints::RepoGetReviewers {
                owner: owner.to_owned(),
                repo: repo.to_owned(),
            },
            response: core::marker::PhantomData,
        }
    }

    /// Get signing-key.gpg for given repository
    ///
    /// - `owner`: owner of the repo
    /// - `repo`: name of the repo
    pub fn repo_signing_key(&self, owner: &str, repo: &str) -> (r: Request<'_, endpoints::RepoSigningKey, String>)
        ensures
            r.client == self,
            r.endpoint.owner@ == owner@,
            r.endpoint.repo@ == repo@,
    {
        Request {
            client: self,
            endpoint: endpoints::RepoSigningKey {
                owner: owner.to_owned(),
                repo: repo.to_owned(),
            },
            response: core::marker::PhantomData,
        }
    }

    /// List a repo's stargazers
    ///
    /// - `owner`: owner of the repo
    /// - `repo`: name of the repo
    pub fn repo_list_stargazers(&self, owner: &str, repo: &str) -> (r: Request<'_, endpoints::RepoListStargazers, (UserListHeaders, Vec<User>)>)
        ensures
            r.client == self,
            r.endpoint.owner@ == owner@,
            r.endpoint.repo@ == repo@,
    {
        Request {
            client: self,
            endpoint: endpoints::RepoListStargazers {
                owner: owner.to_owned(),
                repo: repo.to_owned(),
            },
            response: core::marker::PhantomData,
        }
    }

    /// Get a commit's statuses
    ///
    /// - `owner`: owner of the repo
    /// - `repo`: name of the repo
    /// - `sha`: sha of the commit
    pub fn repo_list_statuses(&self, owner: &str, repo: &str, sha: &str, query: RepoListStatusesQuery) -> (r: Request<'_, endpoints::RepoListStatuses, (CommitStatusListHeaders, Vec<CommitStatus>)>)
        ensures
            r.client == self,
            r.endpoint.owner@ == owner@,
            r.endpoint.repo@ == repo@,
            r.endpoint.sha@ == sha@,
            r.endpoint.query == query,
    {
        Request {
            client: self,
            endpoint: endpoints::RepoListStatuses {
                owner: owner.to_owned(),
                repo: repo.to_owned(),
                sha: sha.to_owned(),
                query: query,
            },
            response: core::marker::PhantomData,
        }
    }

    /// Create a commit status
    ///
    /// - `owner`: owner of the repo
    /// - `repo`: name of the repo
    /// - `sha`: sha of the commit
    /// - `body`: See [`CreateStatusOption`]
    pub fn repo_create_status(&self, owner: &str, repo: &str, sha: &str, body: CreateStatusOption) -> (r: Request<'_, endpoints::RepoCreateStatus, CommitStatus>)
        ensures
            r.client == self,
            r.endpoint.owner@ == owner@,
            r.endpoint.repo@ == repo@,
            r.endpoint.sha@ == sha@,
            r.endpoint.body == body,
    {
        Request {
            client: self,
            endpoint: endpoints::RepoCreateStatus {
                owner: owner.to_owned(),
                repo: repo.to_owned(),
                sha: sha.to_owned(),
                body: body,
            },
            response: core::marker::PhantomData,
        }
    }

    /// List a repo's watchers
    ///
    /// - `owner`: owner of the repo
    /// - `repo`: name of the repo
    pub fn repo_list_subscribers(&self, owner: &str, repo: &str) -> (r: Request<'_, endpoints::RepoListSubscribers, (UserListHeaders, Vec<User>)>)
        ensures
            r.client == self,
            r.endpoint.owner@ == owner@,
            r.endpoint.repo@ == repo@,
    {
        Request {
            client: self,
            endpoint: endpoints::RepoListSubscribers {
                owner: owner.to_owned(),
                repo: repo.to_owned(),
            },
            response: core::marker::PhantomData,
        }
    }

    /// Check if the current user is watching a repo
    ///
    /// - `owner`: owner of the repo
    /// - `repo`: name of the repo
    pub fn user_current_check_subscription(&self, owner: &str, repo: &str) -> (r: Request<'_, endpoints::UserCurrentCheckSubscription, WatchInfo>)
        ensures
            r.client == self,
            r.endpoint.owner@ == owner@,
            r.endpoint.repo@ == repo@,
    {
        Request {
            client: self,
            endpoint: endpoints::UserCurrentCheckSubscription {
                owner: owner.to_owned(),
                repo: repo.to_owned(),
            },
            response: core::marker::PhantomData,
        }
    }

    /// Watch a repo
    ///
    /// - `owner`: owner of the repo
    /// - `repo`: name of the repo
    pub fn user_current_put_subscription(&self, owner: &str, repo: &str) -> (r: Request<'_, endpoints::UserCurrentPutSubscription, WatchInfo>)
        ensures
            r.client == self,
            r.endpoint.owner@ == owner@,
            r.endpoint.repo@ == repo@,
    {
        Request {
            client: self,
            endpoint: endpoints::UserCurrentPutSubscription {
                owner: owner.to_owned(),
                repo: repo.to_owned(),
            },
            response: core::marker::PhantomData,
        }
    }

    /// Unwatch a repo
    ///
    /// - `owner`: owner of the repo
    /// - `repo`: name of the repo
    pub fn user_current_delete_subscription(&self, owner: &str, repo: &str) -> (r: Request<'_, endpoints::UserCurrentDeleteSubscription, ()>)
        ensures
            r.client == self,
            r.endpoint.owner@ == owner@,
            r.endpoint.repo@ == repo@,
    {
        Request {
            client: self,
            endpoint: endpoints::UserCurrentDeleteSubscription {
                owner: owner.to_owned(),
                repo: repo.to_owned(),
            },
            response: core::marker::PhantomData,
        }
    }

    /// Gets information about syncing the fork default branch with the base branch
    ///
    /// - `owner`: owner of the repo
    /// - `repo`: name of the repo
    pub fn repo_sync_fork_default_info(&self, owner: &str, repo: &str) -> (r: Request<'_, endpoints::RepoSyncForkDefaultInfo, SyncForkInfo>)
        ensures
            r.client == self,
            r.endpoint.owner@ == owner@,
            r.endpoint.repo@ == repo@,
    {
        Request {
            client: self,
            endpoint: endpoints::RepoSyncForkDefaultInfo {
                owner: owner.to_owned(),
                repo: repo.to_owned(),
            },
            response: core::marker::PhantomData,
        }
    }

    /// Syncs the default branch of a fork with the base branch
    ///
    /// - `owner`: owner of the repo
    /// - `repo`: name of the repo
    pub fn repo_sync_fork_default(&self, owner: &str, repo: &str) -> (r: Request<'_, endpoints::RepoSyncForkDefault, ()>)
        ensures
            r.client == self,
            r.endpoint.owner@ == owner@,
            r.endpoint.repo@ == repo@,
    {
        Request {
            client: self,
            endpoint: endpoints::RepoSyncForkDefault {
                owner: owner.to_owned(),
                repo: repo.to_owned(),
            },
            response: core::marker::PhantomData,
        }
    }

    /// Gets information about syncing a fork branch with the base branch
    ///
    /// - `owner`: owner of the repo
    /// - `repo`: name of the repo
    /// - `branch`: The branch
    pub fn repo_sync_fork_branch_info(&self, owner: &str, repo: &str, branch: &str) -> (r: Request<'_, endpoints::RepoSyncForkBranchInfo, SyncForkInfo>)
        ensures
            r.client == self,
            r.endpoint.owner@ == owner@,
            r.endpoint.repo@ == repo@,
            r.endpoint.branch@ == branch@,
    {
        Request {
            client: self,
            endpoint: endpoints::RepoSyncForkBranchInfo {
                owner: owner.to_owned(),
                repo: repo.to_owned(),
                branch: branch.to_owned(),
            },
            response: core::marker::PhantomData,
        }
    }

    /// Syncs a fork branch with the base branch
    ///
    /// - `owner`: owner of the repo
    /// - `repo`: name of the repo
    /// - `branch`: The branch
    pub fn repo_sync_fork_branch(&self, owner: &str, repo: &str, branch: &str) -> (r: Request<'_, endpoints::RepoSyncForkBranch, ()>)
        ensures
            r.client == self,
            r.endpoint.owner@ == owner@,
            r.endpoint.repo@ == repo@,
            r.endpoint.branch@ == branch@,
    {
        Request {
            client: self,
            endpoint: endpoints::RepoSyncForkBranch {
                owner: owner.to_owned(),
                repo: repo.to_owned(),
                branch: branch.to_owned(),
            },
            response: core::marker::PhantomData,
        }
    }

    /// List tag protections for a repository
    ///
    /// - `owner`: owner of the repo
    /// - `repo`: name of the repo
    pub fn repo_list_tag_protection(&self, owner: &str, repo: &str) -> (r: Request<'_, endpoints::RepoListTagProtection, Vec<TagProtection>>)
        ensures
            r.client == self,
            r.endpoint.owner@ == owner@,
            r.endpoint.repo@ == repo@,
    {
        Request {
            client: self,
            endpoint: endpoints::RepoListTagProtection {
                owner: owner.to_owned(),
                repo: repo.to_owned(),
            },
            response: core::marker::PhantomData,
        }
    }

    /// Create a tag protections for a repository
    ///
    /// - `owner`: owner of the repo
    /// - `repo`: name of the repo
    /// - `body`: See [`CreateTagProtectionOption`]
    pub fn repo_create_tag_protection(&self, owner: &str, repo: &str, body: CreateTagProtectionOption) -> (r: Request<'_, endpoints::RepoCreateTagProtection, TagProtection>)
        ensures
            r.client == self,
            r.endpoint.owner@ == owner@,
            r.endpoint.repo@ == repo@,
            r.endpoint.body == body,
    {
        Request {
            client: self,
            endpoint: endpoints::RepoCreateTagProtection {
                owner: owner.to_owned(),
                repo: repo.to_owned(),
                body: body,
            },
            response: core::marker::PhantomData,
        }
    }

    /// Get a specific tag protection for the repository
    ///
    /// - `owner`: owner of the repo
    /// - `repo`: name of the repo
    /// - `id`: id of the tag protect to get
    pub fn repo_get_tag_protection(&self, owner: &str, repo: &str, id: i64) -> (r: Request<'_, endpoints::RepoGetTagProtection, TagProtection>)
        ensures
            r.client == self,
            r.endpoint.owner@ == owner@,
            r.endpoint.repo@ == repo@,
            r.endpoint.id == id,
    {
        Request {
            client: self,
            endpoint: endpoints::RepoGetTagProtection {
                owner: owner.to_owned(),
                repo: repo.to_owned(),
                id: id,
            },
            response: core::marker::PhantomData,
        }
    }

    /// Delete a specific tag protection for the repository
    ///
    /// - `owner`: owner of the repo
    /// - `repo`: name of the repo
    /// - `id`: id of protected tag
    pub fn repo_delete_tag_protection(&self, owner: &str, repo: &str, id: i64) -> (r: Request<'_, endpoints::RepoDeleteTagProtection, ()>)
        ensures
            r.client == self,
            r.endpoint.owner@ == owner@,
            r.endpoint.repo@ == repo@,
            r.endpoint.id == id,
    {
        Request {
            client: self,
            endpoint: endpoints::RepoDeleteTagProtection {
                owner: owner.to_owned(),
                repo: repo.to_owned(),
                id: id,
            },
            response: core::marker::PhantomData,
        }
    }

    /// Edit a tag protections for a repository. Only fields that are set will be changed
    ///
    /// - `owner`: owner of the repo
    /// - `repo`: name of the repo
    /// - `id`: id of protected tag
    /// - `body`: See [`EditTagProtectionOption`]
    pub fn repo_edit_tag_protection(&self, owner: &str, repo: &str, id: i64, body: EditTagProtectionOption) -> (r: Request<'_, endpoints::RepoEditTagProtection, TagProtection>)
        ensures
            r.client == self,
            r.endpoint.owner@ == owner@,
            r.endpoint.repo@ == repo@,
            r.endpoint.id == id,
            r.endpoint.body == body,
    {
        Request {
            client: self,
            endpoint: endpoints::RepoEditTagProtection {
                owner: owner.to_owned(),
                repo: repo.to_owned(),
                id: id,
                body: body,
            },
            response: core::marker::PhantomData,
        }
    }

    /// List a repository's tags
    ///
    /// - `owner`: owner of the repo
    /// - `repo`: name of the repo
    pub fn repo_list_tags(&self, owner: &str, repo: &str) -> (r: Request<'_, endpoints::RepoListTags, (TagListHeaders, Vec<Tag>)>)
        ensures
            r.client == self,
            r.endpoint.owner@ == owner@,
            r.endpoint.repo@ == repo@,
    {
        Request {
            client: self,
            endpoint: endpoints::RepoListTags {
                owner: owner.to_owned(),
                repo: repo.to_owned(),
            },
            response: core::marker::PhantomData,
        }
    }

    /// Create a new git tag in a repository
    ///
    /// - `owner`: owner of the repo
    /// - `repo`: name of the repo
    /// - `body`: See [`CreateTagOption`]
    pub fn repo_create_tag(&self, owner: &str, repo: &str, body: CreateTagOption) -> (r: Request<'_, endpoints::RepoCreateTag, Tag>)
        ensures
            r.client == self,
            r.endpoint.owner@ == owner@,
            r.endpoint.repo@ == repo@,
            r.endpoint.body == body,
    {
        Request {
            client: self,
            endpoint: endpoints::RepoCreateTag {
                owner: owner.to_owned(),
                repo: repo.to_owned(),
                body: body,
            },
            response: core::marker::PhantomData,
        }
    }

    /// Get the tag of a repository by tag name
    ///
    /// - `owner`: owner of the repo
    /// - `repo`: name of the repo
    /// - `tag`: name of tag
    pub fn repo_get_tag(&self, owner: &str, repo: &str, tag: &str) -> (r: Request<'_, endpoints::RepoGetTag, Tag>)
        ensures
            r.client == self,
            r.endpoint.owner@ == owner@,
            r.endpoint.repo@ == repo@,
            r.endpoint.tag@ == tag@,
    {
        Request {
            client: self,
            endpoint: endpoints::RepoGetTag {
                owner: owner.to_owned(),
                repo: repo.to_owned(),
                tag: tag.to_owned(),
            },
            response: core::marker::PhantomData,
        }
    }

    /// Delete a repository's tag by name
    ///
    /// - `owner`: owner of the repo
    /// - `repo`: name of the repo
    /// - `tag`: name of tag to delete
    pub fn repo_delete_tag(&self, owner: &str, repo: &str, tag: &str) -> (r: Request<'_, endpoints::RepoDeleteTag, ()>)
        ensures
            r.client == self,
            r.endpoint.owner@ == owner@,
            r.endpoint.repo@ == repo@,
            r.endpoint.tag@ == tag@,
    {
        Request {
            client: self,
            endpoint: endpoints::RepoDeleteTag {
                owner: owner.to_owned(),
                repo: repo.to_owned(),
                tag: tag.to_owned(),
            },
            response: core::marker::PhantomData,
        }
    }

    /// List a repository's teams
    ///
    /// - `owner`: owner of the repo
    /// - `repo`: name of the repo
    pub fn repo_list_teams(&self, owner: &str, repo: &str) -> (r: Request<'_, endpoints::RepoListTeams, Vec<Team>>)
        ensures
            r.client == self,
            r.endpoint.owner@ == owner@,
            r.endpoint.repo@ == repo@,
    {
        Request {
            client: self,
            endpoint: endpoints::RepoListTeams {
                owner: owner.to_owned(),
                repo: repo.to_owned(),
            },
            response: core::marker::PhantomData,
        }
    }

    /// Check if a team is assigned to a repository
    ///
    /// - `owner`: owner of the repo
    /// - `repo`: name of the repo
    /// - `team`: team name
    pub fn repo_check_team(&self, owner: &str, repo: &str, team: &str) -> (r: Request<'_, endpoints::RepoCheckTeam, Team>)
        ensures
            r.client == self,
            r.endpoint.owner@ == owner@,
            r.endpoint.repo@ == repo@,
            r.endpoint.team@ == team@,
    {
        Request {
            client: self,
            endpoint: endpoints::RepoCheckTeam {
                owner: owner.to_owned(),
                repo: repo.to_owned(),
                team: team.to_owned(),
            },
            response: core::marker::PhantomData,
        }
    }

    /// Add a team to a repository
    ///
    /// - `owner`: owner of the repo
    /// - `repo`: name of the repo
    /// - `team`: team name
    pub fn repo_add_team(&self, owner: &str, repo: &str, team: &str) -> (r: Request<'_, endpoints::RepoAddTeam, ()>)
        ensures
            r.client == self,
            r.endpoint.owner@ == owner@,
            r.endpoint.repo@ == repo@,
            r.endpoint.team@ == team@,
    {
        Request {
            client: self,
            endpoint: endpoints::RepoAddTeam {
                owner: owner.to_owned(),
                repo: repo.to_owned(),
                team: team.to_owned(),
            },
            response: core::marker::PhantomData,
        }
    }

    /// Delete a team from a repository
    ///
    /// - `owner`: owner of the repo
    /// - `repo`: name of the repo
    /// - `team`: team name
    pub fn repo_delete_team(&self, owner: &str, repo: &str, team: &str) -> (r: Request<'_, endpoints::RepoDeleteTeam, ()>)
        ensures
            r.client == self,
            r.endpoint.owner@ == owner@,
            r.endpoint.repo@ == repo@,
            r.endpoint.team@ == team@,
    {
        Request {
            client: self,
            endpoint: endpoints::RepoDeleteTeam {
                owner: owner.to_owned(),
                repo: repo.to_owned(),
                team: team.to_owned(),
            },
            response: core::marker::PhantomData,
        }
    }

    /// List a repo's tracked times
    ///
    /// - `owner`: owner of the repo
    /// - `repo`: name of the repo
    pub fn repo_tracked_times(&self, owner: &str, repo: &str, query: RepoTrackedTimesQuery) -> (r: Request<'_, endpoints::RepoTrackedTimes, (TrackedTimeListHeaders, Vec<TrackedTime>)>)
        ensures
            r.client == self,
            r.endpoint.owner@ == owner@,
            r.endpoint.repo@ == repo@,
            r.endpoint.query == query,
    {
        Request {
            client: self,
            endpoint: endpoints::RepoTrackedTimes {
                owner: owner.to_owned(),
                repo: repo.to_owned(),
                query: query,
            },
            response: core::marker::PhantomData,
        }
    }

    /// List a user's tracked times in a repo
    ///
    /// - `owner`: owner of the repo
    /// - `repo`: name of the repo
    /// - `user`: username of user
    pub fn user_tracked_times(&self, owner: &str, repo: &str, user: &str) -> (r: Request<'_, endpoints::UserTrackedTimes, Vec<TrackedTime>>)
        ensures
            r.client == self,
            r.endpoint.owner@ == owner@,
            r.endpoint.repo@ == repo@,
            r.endpoint.user@ == user@,
    {
        Request {
            client: self,
            endpoint: endpoints::UserTrackedTimes {
                owner: owner.to_owned(),
                repo: repo.to_owned(),
                user: user.to_owned(),
            },
            response: core::marker::PhantomData,
        }
    }

    /// Get list of topics that a repository has
    ///
    /// - `owner`: owner of the repo
    /// - `repo`: name of the repo
    pub fn repo_list_topics(&self, owner: &str, repo: &str) -> (r: Request<'_, endpoints::RepoListTopics, TopicName>)
        ensures
            r.client == self,
            r.endpoint.owner@ == owner@,
            r.endpoint.repo@ == repo@,
    {
        Request {
            client: self,
            endpoint: endpoints::RepoListTopics {
                owner: owner.to_owned(),
                repo: repo.to_owned(),
            },
            response: core::marker::PhantomData,
        }
    }

    /// Replace list of topics for a repository
    ///
    /// - `owner`: owner of the repo
    /// - `repo`: name of the repo
    /// - `body`: See [`RepoTopicOptions`]
    pub fn repo_update_topics(&self, owner: &str, repo: &str, body: RepoTopicOptions) -> (r: Request<'_, endpoints::RepoUpdateTopics, ()>)
        ensures
            r.client == self,
            r.endpoint.owner@ == owner@,
            r.endpoint.repo@ == repo@,
            r.endpoint.body == body,
    {
        Request {
            client: self,
            endpoint: endpoints::RepoUpdateTopics {
                owner: owner.to_owned(),
                repo: repo.to_owned(),
                body: body,
            },
            response: core::marker::PhantomData,
        }
    }

    /// Add a topic to a repository
    ///
    /// - `owner`: owner of the repo
    /// - `repo`: name of the repo
    /// - `topic`: name of the topic to add
    pub fn repo_add_topic(&self, owner: &str, repo: &str, topic: &str) -> (r: Request<'_, endpoints::RepoAddTopic, ()>)
        ensures
            r.client == self,
            r.endpoint.owner@ == owner@,
            r.endpoint.repo@ == repo@,
            r.endpoint.topic@ == topic@,
    {
        Request {
            client: self,
            endpoint: endpoints::RepoAddTopic {
                owner: owner.to_owned(),
                repo: repo.to_owned(),
                topic: topic.to_owned(),
            },
            response: core::marker::PhantomData,
        }
    }

    /// Delete a topic from a repository
    ///
    /// - `owner`: owner of the repo
    /// - `repo`: name of the repo
    /// - `topic`: name of the topic to delete
    pub fn repo_delete_topic(&self, owner: &str, repo: &str, topic: &str) -> (r: Request<'_, endpoints::RepoDeleteTopic, ()>)
        ensures
            r.client == self,
            r.endpoint.owner@ == owner@,
            r.endpoint.repo@ == repo@,
            r.endpoint.topic@ == topic@,
    {
        Request {
            client: self,
            endpoint: endpoints::RepoDeleteTopic {
                owner: owner.to_owned(),
                repo: repo.to_owned(),
                topic: topic.to_owned(),
            },
            response: core::marker::PhantomData,
        }
    }

    ///   See [`TransferRepoOption`]
    pub fn repo_transfer(&self, owner: &str, repo: &str, body: TransferRepoOption) -> (r: Request<'_, endpoints::RepoTransfer, Repository>)
        ensures
            r.client == self,
            r.endpoint.owner@ == owner@,
            r.endpoint.repo@ == repo@,
            r.endpoint.body == body,
    {
        Request {
            client: self,
            endpoint: endpoints::RepoTransfer {
                owner: owner.to_owned(),
                repo: repo.to_owned(),
                body: body,
            },
            response: core::marker::PhantomData,
        }
    }

    /// Accept a repo transfer
    ///
    /// - `owner`: owner of the repo to transfer
    /// - `repo`: name of the repo to transfer
    pub fn accept_repo_transfer(&self, owner: &str, repo: &str) -> (r: Request<'_, endpoints::AcceptRepoTransfer, Repository>)
        ensures
            r.client == self,
            r.endpoint.owner@ == owner@,
            r.endpoint.repo@ == repo@,
    {
        Request {
            client: self,
            endpoint: endpoints::AcceptRepoTransfer {
                owner: owner.to_owned(),
                repo: repo.to_owned(),
            },
            response: core::marker::PhantomData,
        }
    }

    /// Reject a repo transfer
    ///
    /// - `owner`: owner of the repo to transfer
    /// - `repo`: name of the repo to transfer
    pub fn reject_repo_transfer(&self, owner: &str, repo: &str) -> (r: Request<'_, endpoints::RejectRepoTransfer, Repository>)
        ensures
            r.client == self,
            r.endpoint.owner@ == owner@,
            r.endpoint.repo@ == repo@,
    {
        Request {
            client: self,
            endpoint: endpoints::RejectRepoTransfer {
                owner: owner.to_owned(),
                repo: repo.to_owned(),
            },
            response: core::marker::PhantomData,
        }
    }

    /// Create a wiki page
    ///
    /// - `owner`: owner of the repo
    /// - `repo`: name of the repo
    /// - `body`: See [`CreateWikiPageOptions`]
    pub fn repo_create_wiki_page(&self, owner: &str, repo: &str, body: CreateWikiPageOptions) -> (r: Request<'_, endpoints::RepoCreateWikiPage, WikiPage>)
        ensures
            r.client == self,
            r.endpoint.owner@ == owner@,
            r.endpoint.repo@ == repo@,
            r.endpoint.body == body,
    {
        Request {
            client: self,
            endpoint: endpoints::RepoCreateWikiPage {
                owner: owner.to_owned(),
                repo: repo.to_owned(),
                body: body,
            },
            response: core::marker::PhantomData,
        }
    }

    /// Get a wiki page
    ///
    /// - `owner`: owner of the repo
    /// - `repo`: name of the repo
    /// - `pageName`: name of the page
    pub fn repo_get_wiki_page(&self, owner: &str, repo: &str, page_name: &str) -> (r: Request<'_, endpoints::RepoGetWikiPage, WikiPage>)
        ensures
            r.client == self,
            r.endpoint.owner@ == owner@,
            r.endpoint.repo@ == repo@,
            r.endpoint.page_name@ == page_name@,
    {
        Request {
            client: self,
            endpoint: endpoints::RepoGetWikiPage {
                owner: owner.to_owned(),
                repo: repo.to_owned(),
                page_name: page_name.to_owned(),
            },
            response: core::marker::PhantomData,
        }
    }

    /// Delete a wiki page
    ///
    /// - `owner`: owner of the repo
    /// - `repo`: name of the repo
    /// - `pageName`: name of the page
    pub fn repo_delete_wiki_page(&self, owner: &str, repo: &str, page_name: &str) -> (r: Request<'_, endpoints::RepoDeleteWikiPage, ()>)
        ensures
            r.client == self,
            r.endpoint.owner@ == owner@,
            r.endpoint.repo@ == repo@,
            r.endpoint.page_name@ == page_name@,
    {
        Request {
            client: self,
            endpoint: endpoints::RepoDeleteWikiPage {
                owner: owner.to_owned(),
                repo: repo.to_owned(),
                page_name: page_name.to_owned(),
            },
            response: core::marker::PhantomData,
        }
    }

    /// Edit a wiki page
    ///
    /// - `owner`: owner of the repo
    /// - `repo`: name of the repo
    /// - `pageName`: name of the page
    /// - `body`: See [`CreateWikiPageOptions`]
    pub fn repo_edit_wiki_page(&self, owner: &str, repo: &str, page_name: &str, body: CreateWikiPageOptions) -> (r: Request<'_, endpoints::RepoEditWikiPage, WikiPage>)
        ensures
            r.client == self,
            r.endpoint.owner@ == owner@,
            r.endpoint.repo@ == repo@,
            r.endpoint.page_name@ == page_name@,
            r.endpoint.body == body,
    {
        Request {
            client: self,
            endpoint: endpoints::RepoEditWikiPage {
                owner: owner.to_owned(),
                repo: repo.to_owned(),
                page_name: page_name.to_owned(),
                body: body,
            },
            response: core::marker::PhantomData,
        }
    }

    /// Get all wiki pages
    ///
    /// - `owner`: owner of the repo
    /// - `repo`: name of the repo
    pub fn repo_get_wiki_pages(&self, owner: &str, repo: &str) -> (r: Request<'_, endpoints::RepoGetWikiPages, (WikiPageListHeaders, Vec<WikiPageMetaData>)>)
        ensures
            r.client == self,
            r.endpoint.owner@ == owner@,
            r.endpoint.repo@ == repo@,
    {
        Request {
            client: self,
            endpoint: endpoints::RepoGetWikiPages {
                owner: owner.to_owned(),
                repo: repo.to_owned(),
            },
            response: core::marker::PhantomData,
        }
    }

    /// Get revisions of a wiki page
    ///
    /// - `owner`: owner of the repo
    /// - `repo`: name of the repo
    /// - `pageName`: name of the page
    pub fn repo_get_wiki_page_revisions(&self, owner: &str, repo: &str, page_name: &str) -> (r: Request<'_, endpoints::RepoGetWikiPageRevisions, (WikiCommitListHeaders, WikiCommitList)>)
        ensures
            r.client == self,
            r.endpoint.owner@ == owner@,
            r.endpoint.repo@ == repo@,
            r.endpoint.page_name@ == page_name@,
    {
        Request {
            client: self,
            endpoint: endpoints::RepoGetWikiPageRevisions {
                owner: owner.to_owned(),
                repo: repo.to_owned(),
                page_name: page_name.to_owned(),
            },
            response: core::marker::PhantomData,
        }
    }

    /// Create a repository using a template
    ///
    /// - `template_owner`: name of the template repository owner
    /// - `template_repo`: name of the template repository
    /// - `body`: See [`GenerateRepoOption`]
    pub fn generate_repo(&self, template_owner: &str, template_repo: &str, body: GenerateRepoOption) -> (r: Request<'_, endpoints::GenerateRepo, Repository>)
        ensures
            r.client == self,
            r.endpoint.template_owner@ == template_owner@,
            r.endpoint.template_repo@ == template_repo@,
            r.endpoint.body == body,
    {
        Request {
            client: self,
            endpoint: endpoints::GenerateRepo {
                template_owner: template_owner.to_owned(),
                template_repo: template_repo.to_owned(),
                body: body,
            },
            response: core::marker::PhantomData,
        }
    }

    /// Get a repository by id
    ///
    /// - `id`: id of the repo to get
    pub fn repo_get_by_id(&self, id: i64) -> (r: Request<'_, endpoints::RepoGetById, Repository>)
        ensures
            r.client == self,
            r.endpoint.id == id,
    {
        Request {
            client: self,
            endpoint: endpoints::RepoGetById {
                id: id,
            },
            response: core::marker::PhantomData,
        }
    }

    /// Get instance's global settings for api
    pub fn get_general_api_settings(&self) -> (r: Request<'_, endpoints::GetGeneralApiSettings, GeneralAPISettings>)
        ensures
            r.client == self,
    {
        Request {
            client: self,
            endpoint: endpoints::GetGeneralApiSettings {},
            response: core::marker::PhantomData,
        }
    }

    /// Get instance's global settings for Attachment
    pub fn get_general_attachment_settings(&self) -> (r: Request<'_, endpoints::GetGeneralAttachmentSettings, GeneralAttachmentSettings>)
        ensures
            r.client == self,
    {
        Request {
            client: self,
            endpoint: endpoints::GetGeneralAttachmentSettings {},
            response: core::marker::PhantomData,
        }
    }

    /// Get instance's global settings for repositories
    pub fn get_general_repository_settings(&self) -> (r: Request<'_, endpoints::GetGeneralRepositorySettings, GeneralRepoSettings>)
        ensures
            r.client == self,
    {
        Request {
            client: self,
            endpoint: endpoints::GetGeneralRepositorySettings {},
            response: core::marker::PhantomData,
        }
    }

    /// Get instance's global settings for ui
    pub fn get_general_ui_settings(&self) -> (r: Request<'_, endpoints::GetGeneralUiSettings, GeneralUISettings>)
        ensures
            r.client == self,
    {
        Request {
            client: self,
            endpoint: endpoints::GetGeneralUiSettings {},
            response: core::marker::PhantomData,
        }
    }

    /// Get default signing-key.gpg
    pub fn get_signing_key(&self) -> (r: Request<'_, endpoints::GetSigningKey, String>)
        ensures
            r.client == self,
    {
        Request {
            client: self,
            endpoint: endpoints::GetSigningKey {},
            response: core::marker::PhantomData,
        }
    }

    /// Get default signing-key.ssh
    pub fn get_ssh_signing_key(&self) -> (r: Request<'_, endpoints::GetSshSigningKey, String>)
        ensures
            r.client == self,
    {
        Request {
            client: self,
            endpoint: endpoints::GetSshSigningKey {},
            response: core::marker::PhantomData,
        }
    }

    /// Get a team
    ///
    /// - `id`: id of the team to get
    pub fn org_get_team(&self, id: i64) -> (r: Request<'_, endpoints::OrgGetTeam, Team>)
        ensures
            r.client == self,
            r.endpoint.id == id,
    {
        Request {
            client: self,
            endpoint: endpoints::OrgGetTeam {
                id: id,
            },
            response: core::marker::PhantomData,
        }
    }

    /// Delete a team
    ///
    /// - `id`: id of the team to delete
    pub fn org_delete_team(&self, id: i64) -> (r: Request<'_, endpoints::OrgDeleteTeam, ()>)
        ensures
            r.client == self,
            r.endpoint.id == id,
    {
        Request {
            client: self,
            endpoint: endpoints::OrgDeleteTeam {
                id: id,
            },
            response: core::marker::PhantomData,
        }
    }

    /// Edit a team
    ///
    /// - `id`: id of the team to edit
    /// - `body`: See [`EditTeamOption`]
    pub fn org_edit_team(&self, id: i64, body: EditTeamOption) -> (r: Request<'_, endpoints::OrgEditTeam, Team>)
        ensures
            r.client == self,
            r.endpoint.id == id,
            r.endpoint.body == body,
    {
        Request {
            client: self,
            endpoint: endpoints::OrgEditTeam {
                id: id,
                body: body,
            },
            response: core::marker::PhantomData,
        }
    }

    /// List a team's activity feeds
    ///
    /// - `id`: id of the team
    pub fn org_list_team_activity_feeds(&self, id: i64, query: OrgListTeamActivityFeedsQuery) -> (r: Request<'_, endpoints::OrgListTeamActivityFeeds, (ActivityFeedsListHeaders, Vec<Activity>)>)
        ensures
            r.client == self,
            r.endpoint.id == id,
            r.endpoint.query == query,
    {
        Request {
            client: self,
            endpoint: endpoints::OrgListTeamActivityFeeds {
                id: id,
                query: query,
            },
            response: core::marker::PhantomData,
        }
    }

    /// List a team's members
    ///
    /// - `id`: id of the team
    pub fn org_list_team_members(&self, id: i64) -> (r: Request<'_, endpoints::OrgListTeamMembers, (UserListHeaders, Vec<User>)>)
        ensures
            r.client == self,
            r.endpoint.id == id,
    {
        Request {
            client: self,
            endpoint: endpoints::OrgListTeamMembers {
                id: id,
            },
            response: core::marker::PhantomData,
        }
    }

    /// List a particular member of team
    ///
    /// - `id`: id of the team
    /// - `username`: username of the member to list
    pub fn org_list_team_member(&self, id: i64, username: &str) -> (r: Request<'_, endpoints::OrgListTeamMember, User>)
        ensures
            r.client == self,
            r.endpoint.id == id,
            r.endpoint.username@ == username@,
    {
        Request {
            client: self,
            endpoint: endpoints::OrgListTeamMember {
                id: id,
                username: username.to_owned(),
            },
            response: core::marker::PhantomData,
        }
    }

    /// Add a team member
    ///
    /// - `id`: id of the team
    /// - `username`: username of the user to add
    pub fn org_add_team_member(&self, id: i64, username: &str) -> (r: Request<'_, endpoints::OrgAddTeamMember, ()>)
        ensures
            r.client == self,
            r.endpoint.id == id,
            r.endpoint.username@ == username@,
    {
        Request {
            client: self,
            endpoint: endpoints::OrgAddTeamMember {
                id: id,
                username: username.to_owned(),
            },
            response: core::marker::PhantomData,
        }
    }

    /// Remove a team member
    ///
    /// - `id`: id of the team
    /// - `username`: username of the user to remove
    pub fn org_remove_team_member(&self, id: i64, username: &str) -> (r: Request<'_, endpoints::OrgRemoveTeamMember, ()>)
        ensures
            r.client == self,
            r.endpoint.id == id,
            r.endpoint.username@ == username@,
    {
        Request {
            client: self,
            endpoint: endpoints::OrgRemoveTeamMember {
                id: id,
                username: username.to_owned(),
            },
            response: core::marker::PhantomData,
        }
    }

    /// List a team's repos
    ///
    /// - `id`: id of the team
    pub fn org_list_team_repos(&self, id: i64) -> (r: Request<'_, endpoints::OrgListTeamRepos, (RepositoryListHeaders, Vec<Repository>)>)
        ensures
            r.client == self,
            r.endpoint.id == id,
    {
        Request {
            client: self,
            endpoint: endpoints::OrgListTeamRepos {
                id: id,
            },
            response: core::marker::PhantomData,
        }
    }

    /// List a particular repo of team
    ///
    /// - `id`: id of the team
    /// - `org`: organization that owns the repo to list
    /// - `repo`: name of the repo to list
    pub fn org_list_team_repo(&self, id: i64, org: &str, repo: &str) -> (r: Request<'_, endpoints::OrgListTeamRepo, Repository>)
        ensures
            r.client == self,
            r.endpoint.id == id,
            r.endpoint.org@ == org@,
            r.endpoint.repo@ == repo@,
    {
        Request {
            client: self,
            endpoint: endpoints::OrgListTeamRepo {
                id: id,
                org: org.to_owned(),
                repo: repo.to_owned(),
            },
            response: core::marker::PhantomData,
        }
    }

    /// Add a repository to a team
    ///
    /// - `id`: id of the team
    /// - `org`: organization that owns the repo to add
    /// - `repo`: name of the repo to add
    pub fn org_add_team_repository(&self, id: i64, org: &str, repo: &str) -> (r: Request<'_, endpoints::OrgAddTeamRepository, ()>)
        ensures
            r.client == self,
            r.endpoint.id == id,
            r.endpoint.org@ == org@,
            r.endpoint.repo@ == repo@,
    {
        Request {
            client: self,
            endpoint: endpoints::OrgAddTeamRepository {
                id: id,
                org: org.to_owned(),
                repo: repo.to_owned(),
            },
            response: core::marker::PhantomData,
        }
    }

    /// Remove a repository from a team
    ///
    /// - `id`: id of the team
    /// - `org`: organization that owns the repo to remove
    /// - `repo`: name of the repo to remove
    pub fn org_remove_team_repository(&self, id: i64, org: &str, repo: &str) -> (r: Request<'_, endpoints::OrgRemoveTeamRepository, ()>)
        ensures
            r.client == self,
            r.endpoint.id == id,
            r.endpoint.org@ == org@,
            r.endpoint.repo@ == repo@,
    {
        Request {
            client: self,
            endpoint: endpoints::OrgRemoveTeamRepository {
                id: id,
                org: org.to_owned(),
                repo: repo.to_owned(),
            },
            response: core::marker::PhantomData,
        }
    }

    /// Search for topics by keyword
    ///
    pub fn topic_search(&self, query: TopicSearchQuery) -> (r: Request<'_, endpoints::TopicSearch, TopicSearchResults>)
        ensures
            r.client == self,
            r.endpoint.query == query,
    {
        Request {
            client: self,
            endpoint: endpoints::TopicSearch {
                query: query,
            },
            response: core::marker::PhantomData,
        }
    }

    /// Get the authenticated user
    pub fn user_get_current(&self) -> (r: Request<'_, endpoints::UserGetCurrent, User>)
        ensures
            r.client == self,
    {
        Request {
            client: self,
            endpoint: endpoints::UserGetCurrent {},
            response: core::marker::PhantomData,
        }
    }

    /// Search for user's action jobs according filter conditions
    ///
    pub fn user_search_run_jobs(&self, query: UserSearchRunJobsQuery) -> (r: Request<'_, endpoints::UserSearchRunJobs, Vec<ActionRunJob>>)
        ensures
            r.client == self,
            r.endpoint.query == query,
    {
        Request {
            client: self,
            endpoint: endpoints::UserSearchRunJobs {
                query: query,
            },
            response: core::marker::PhantomData,
        }
    }

    /// Get an user's actions runner registration token
    pub fn user_get_runner_registration_token(&self) -> (r: Request<'_, endpoints::UserGetRunnerRegistrationToken, RegistrationToken>)
        ensures
            r.client == self,
    {
        Request {
            client: self,
            endpoint: endpoints::UserGetRunnerRegistrationToken {},
            response: core::marker::PhantomData,
        }
    }

    /// Create or Update a secret value in a user scope
    ///
    /// - `secretname`: name of the secret
    /// - `body`: See [`CreateOrUpdateSecretOption`]
    pub fn update_user_secret(&self, secretname: &str, body: CreateOrUpdateSecretOption) -> (r: Request<'_, endpoints::UpdateUserSecret, ()>)
        ensures
            r.client == self,
            r.endpoint.secretname@ == secretname@,
            r.endpoint.body == body,
    {
        Request {
            client: self,
            endpoint: endpoints::UpdateUserSecret {
                secretname: secretname.to_owned(),
                body: body,
            },
            response: core::marker::PhantomData,
        }
    }

    /// Delete a secret in a user scope
    ///
    /// - `secretname`: name of the secret
    pub fn delete_user_secret(&self, secretname: &str) -> (r: Request<'_, endpoints::DeleteUserSecret, ()>)
        ensures
            r.client == self,
            r.endpoint.secretname@ == secretname@,
    {
        Request {
            client: self,
            endpoint: endpoints::DeleteUserSecret {
                secretname: secretname.to_owned(),
            },
            response: core::marker::PhantomData,
        }
    }

    /// Get the user-level list of variables which is created by current doer
    ///
    pub fn get_user_variables_list(&self) -> (r: Request<'_, endpoints::GetUserVariablesList, (VariableListHeaders, Vec<ActionVariable>)>)
        ensures
            r.client == self,
    {
        Request {
            client: self,
            endpoint: endpoints::GetUserVariablesList {},
            response: core::marker::PhantomData,
        }
    }

    /// Get a user-level variable which is created by current doer
    ///
    /// - `variablename`: name of the variable
    pub fn get_user_variable(&self, variablename: &str) -> (r: Request<'_, endpoints::GetUserVariable, ActionVariable>)
        ensures
            r.client == self,
            r.endpoint.variablename@ == variablename@,
    {
        Request {
            client: self,
            endpoint: endpoints::GetUserVariable {
                variablename: variablename.to_owned(),
            },
            response: core::marker::PhantomData,
        }
    }

    /// Update a user-level variable which is created by current doer
    ///
    /// - `variablename`: name of the variable
    /// - `body`: See [`UpdateVariableOption`]
    pub fn update_user_variable(&self, variablename: &str, body: UpdateVariableOption) -> (r: Request<'_, endpoints::UpdateUserVariable, ()>)
        ensures
            r.client == self,
            r.endpoint.variablename@ == variablename@,
            r.endpoint.body == body,
    {
        Request {
            client: self,
            endpoint: endpoints::UpdateUserVariable {
                variablename: variablename.to_owned(),
                body: body,
            },
            response: core::marker::PhantomData,
        }
    }

    /// Create a user-level variable
    ///
    /// - `variablename`: name of the variable
    /// - `body`: See [`CreateVariableOption`]
    pub fn create_user_variable(&self, variablename: &str, body: CreateVariableOption) -> (r: Request<'_, endpoints::CreateUserVariable, ()>)
        ensures
            r.client == self,
            r.endpoint.variablename@ == variablename@,
            r.endpoint.body == body,
    {
        Request {
            client: self,
            endpoint: endpoints::CreateUserVariable {
                variablename: variablename.to_owned(),
                body: body,
            },
            response: core::marker::PhantomData,
        }
    }

    /// Delete a user-level variable which is created by current doer
    ///
    /// - `variablename`: name of the variable
    pub fn delete_user_variable(&self, variablename: &str) -> (r: Request<'_, endpoints::DeleteUserVariable, ()>)
        ensures
            r.client == self,
            r.endpoint.variablename@ == variablename@,
    {
        Request {
            client: self,
            endpoint: endpoints::DeleteUserVariable {
                variablename: variablename.to_owned(),
            },
            response: core::marker::PhantomData,
        }
    }

    /// List the authenticated user's oauth2 applications
    ///
    pub fn user_get_oauth2_applications(&self) -> (r: Request<'_, endpoints::UserGetOAuth2Applications, (OAuth2ApplicationListHeaders, Vec<OAuth2Application>)>)
        ensures
            r.client == self,
    {
        Request {
            client: self,
            endpoint: endpoints::UserGetOAuth2Applications {},
            response: core::marker::PhantomData,
        }
    }

    /// Creates a new OAuth2 application
    ///
    /// - `body`: See [`CreateOAuth2ApplicationOptions`]
    pub fn user_create_oauth2_application(&self, body: CreateOAuth2ApplicationOptions) -> (r: Request<'_, endpoints::UserCreateOAuth2Application, OAuth2Application>)
        ensures
            r.client == self,
            r.endpoint.body == body,
    {
        Request {
            client: self,
            endpoint: endpoints::UserCreateOAuth2Application {
                body: body,
            },
            response: core::marker::PhantomData,
        }
    }

    /// Get an OAuth2 application
    ///
    /// - `id`: Application ID to be found
    pub fn user_get_oauth2_application(&self, id: i64) -> (r: Request<'_, endpoints::UserGetOAuth2Application, OAuth2Application>)
        ensures
            r.client == self,
            r.endpoint.id == id,
    {
        Request {
            client: self,
            endpoint: endpoints::UserGetOAuth2Application {
                id: id,
            },
            response: core::marker::PhantomData,
        }
    }

    /// Delete an OAuth2 application
    ///
    /// - `id`: token to be deleted
    pub fn user_delete_oauth2_application(&self, id: i64) -> (r: Request<'_, endpoints::UserDeleteOAuth2Application, ()>)
        ensures
            r.client == self,
            r.endpoint.id == id,
    {
        Request {
            client: self,
            endpoint: endpoints::UserDeleteOAuth2Application {
                id: id,
            },
            response: core::marker::PhantomData,
        }
    }

    /// Update an OAuth2 application, this includes regenerating the client secret
    ///
    /// - `id`: application to be updated
    /// - `body`: See [`CreateOAuth2ApplicationOptions`]
    pub fn user_update_oauth2_application(&self, id: i64, body: CreateOAuth2ApplicationOptions) -> (r: Request<'_, endpoints::UserUpdateOAuth2Application, OAuth2Application>)
        ensures
            r.client == self,
            r.endpoint.id == id,
            r.endpoint.body == body,
    {
        Request {
            client: self,
            endpoint: endpoints::UserUpdateOAuth2Application {
                id: id,
                body: body,
            },
            response: core::marker::PhantomData,
        }
    }

    /// Update avatar of the current user
    ///
    /// - `body`: See [`UpdateUserAvatarOption`]
    pub fn user_update_avatar(&self, body: UpdateUserAvatarOption) -> (r: Request<'_, endpoints::UserUpdateAvatar, ()>)
        ensures
            r.client == self,
            r.endpoint.body == body,
    {
        Request {
            client: self,
            endpoint: endpoints::UserUpdateAvatar {
                body: body,
            },
            response: core::marker::PhantomData,
        }
    }

    /// Delete avatar of the current user. It will be replaced by a default one
    pub fn user_delete_avatar(&self) -> (r: Request<'_, endpoints::UserDeleteAvatar, ()>)
        ensures
            r.client == self,
    {
        Request {
            client: self,
            endpoint: endpoints::UserDeleteAvatar {},
            response: core::marker::PhantomData,
        }
    }

    /// Blocks a user from the doer
    ///
    /// - `username`: username of the user
    pub fn user_block_user(&self, username: &str) -> (r: Request<'_, endpoints::UserBlockUser, ()>)
        ensures
            r.client == self,
            r.endpoint.username@ == username@,
    {
        Request {
            client: self,
            endpoint: endpoints::UserBlockUser {
                username: username.to_owned(),
            },
            response: core::marker::PhantomData,
        }
    }

    /// List all email addresses of the current user
    pub fn user_list_emails(&self) -> (r: Request<'_, endpoints::UserListEmails, Vec<Email>>)
        ensures
            r.client == self,
    {
        Request {
            client: self,
            endpoint: endpoints::UserListEmails {},
            response: core::marker::PhantomData,
        }
    }

    /// Add an email addresses to the current user's account
    ///
    /// - `body`: See [`CreateEmailOption`]
    pub fn user_add_email(&self, body: CreateEmailOption) -> (r: Request<'_, endpoints::UserAddEmail, Vec<Email>>)
        ensures
            r.client == self,
            r.endpoint.body == body,
    {
        Request {
            client: self,
            endpoint: endpoints::UserAddEmail {
                body: body,
            },
            response: core::marker::PhantomData,
        }
    }

    /// Delete email addresses from the current user's account
    ///
    /// - `body`: See [`DeleteEmailOption`]
    pub fn user_delete_email(&self, body: DeleteEmailOption) -> (r: Request<'_, endpoints::UserDeleteEmail, ()>)
        ensures
            r.client == self,
            r.endpoint.body == body,
    {
        Request {
            client: self,
            endpoint: endpoints::UserDeleteEmail {
                body: body,
            },
            response: core::marker::PhantomData,
        }
    }

    /// List the authenticated user's followers
    ///
    pub fn user_current_list_followers(&self) -> (r: Request<'_, endpoints::UserCurrentListFollowers, (UserListHeaders, Vec<User>)>)
        ensures
            r.client == self,
    {
        Request {
            client: self,
            endpoint: endpoints::UserCurrentListFollowers {},
            response: core::marker::PhantomData,
        }
    }

    /// List the users that the authenticated user is following
    ///
    pub fn user_current_list_following(&self) -> (r: Request<'_, endpoints::UserCurrentListFollowing, (UserListHeaders, Vec<User>)>)
        ensures
            r.client == self,
    {
        Request {
            client: self,
            endpoint: endpoints::UserCurrentListFollowing {},
            response: core::marker::PhantomData,
        }
    }

    /// Check whether a user is followed by the authenticated user
    ///
    /// - `username`: username of followed user
    pub fn user_current_check_following(&self, username: &str) -> (r: Request<'_, endpoints::UserCurrentCheckFollowing, ()>)
        ensures
            r.client == self,
            r.endpoint.username@ == username@,
    {
        Request {
            client: self,
            endpoint: endpoints::UserCurrentCheckFollowing {
                username: username.to_owned(),
            },
            response: core::marker::PhantomData,
        }
    }

    /// Follow a user
    ///
    /// - `username`: username of user to follow
    pub fn user_current_put_follow(&self, username: &str) -> (r: Request<'_, endpoints::UserCurrentPutFollow, ()>)
        ensures
            r.client == self,
            r.endpoint.username@ == username@,
    {
        Request {
            client: self,
            endpoint: endpoints::UserCurrentPutFollow {
                username: username.to_owned(),
            },
            response: core::marker::PhantomData,
        }
    }

    /// Unfollow a user
    ///
    /// - `username`: username of user to unfollow
    pub fn user_current_delete_follow(&self, username: &str) -> (r: Request<'_, endpoints::UserCurrentDeleteFollow, ()>)
        ensures
            r.client == self,
            r.endpoint.username@ == username@,
    {
        Request {
            client: self,
            endpoint: endpoints::UserCurrentDeleteFollow {
                username: username.to_owned(),
            },
            response: core::marker::PhantomData,
        }
    }

    /// Get a Token to verify
    pub fn get_verification_token(&self) -> (r: Request<'_, endpoints::GetVerificationToken, String>)
        ensures
            r.client == self,
    {
        Request {
            client: self,
            endpoint: endpoints::GetVerificationToken {},
            response: core::marker::PhantomData,
        }
    }

    /// Verify a GPG key
    ///
    /// - `body`: See [`VerifyGPGKeyOption`]
    pub fn user_verify_gpg_key(&self, body: VerifyGPGKeyOption) -> (r: Request<'_, endpoints::UserVerifyGpgKey, GPGKey>)
        ensures
            r.client == self,
            r.endpoint.body == body,
    {
        Request {
            client: self,
            endpoint: endpoints::UserVerifyGpgKey {
                body: body,
            },
            response: core::marker::PhantomData,
        }
    }

    /// List the authenticated user's GPG keys
    ///
    pub fn user_current_list_gpg_keys(&self) -> (r: Request<'_, endpoints::UserCurrentListGpgKeys, (GpgKeyListHeaders, Vec<GPGKey>)>)
        ensures
            r.client == self,
    {
        Request {
            client: self,
            endpoint: endpoints::UserCurrentListGpgKeys {},
            response: core::marker::PhantomData,
        }
    }

    /// Add a GPG public key to current user's account
    ///
    /// - `Form`: See [`CreateGPGKeyOption`]
    pub fn user_current_post_gpg_key(&self, form: CreateGPGKeyOption) -> (r: Request<'_, endpoints::UserCurrentPostGpgKey, GPGKey>)
        ensures
            r.client == self,
            r.endpoint.body == form,
    {
        Request {
            client: self,
            endpoint: endpoints::UserCurrentPostGpgKey {
                body: form,
            },
            response: core::marker::PhantomData,
        }
    }

    /// Get a GPG key
    ///
    /// - `id`: id of key to get
    pub fn user_current_get_gpg_key(&self, id: i64) -> (r: Request<'_, endpoints::UserCurrentGetGpgKey, GPGKey>)
        ensures
            r.client == self,
            r.endpoint.id == id,
    {
        Request {
            client: self,
            endpoint: endpoints::UserCurrentGetGpgKey {
                id: id,
            },
            response: core::marker::PhantomData,
        }
    }

    /// Remove a GPG public key from current user's account
    ///
    /// - `id`: id of key to delete
    pub fn user_current_delete_gpg_key(&self, id: i64) -> (r: Request<'_, endpoints::UserCurrentDeleteGpgKey, ()>)
        ensures
            r.client == self,
            r.endpoint.id == id,
    {
        Request {
            client: self,
            endpoint: endpoints::UserCurrentDeleteGpgKey {
                id: id,
            },
            response: core::marker::PhantomData,
        }
    }

    /// List the authenticated user's webhooks
    ///
    pub fn user_list_hooks(&self) -> (r: Request<'_, endpoints::UserListHooks, Vec<Hook>>)
        ensures
            r.client == self,
    {
        Request {
            client: self,
            endpoint: endpoints::UserListHooks {},
            response: core::marker::PhantomData,
        }
    }

    /// Create a hook
    ///
    /// - `body`: See [`CreateHookOption`]
    pub fn user_create_hook(&self, body: CreateHookOption) -> (r: Request<'_, endpoints::UserCreateHook, Hook>)
        ensures
            r.client == self,
            r.endpoint.body == body,
    {
        Request {
            client: self,
            endpoint: endpoints::UserCreateHook {
                body: body,
            },
            response: core::marker::PhantomData,
        }
    }

    /// Get a hook
    ///
    /// - `id`: id of the hook to get
    pub fn user_get_hook(&self, id: i64) -> (r: Request<'_, endpoints::UserGetHook, Hook>)
        ensures
            r.client == self,
            r.endpoint.id == id,
    {
        Request {
            client: self,
            endpoint: endpoints::UserGetHook {
                id: id,
            },
            response: core::marker::PhantomData,
        }
    }

    /// Delete a hook
    ///
    /// - `id`: id of the hook to delete
    pub fn user_delete_hook(&self, id: i64) -> (r: Request<'_, endpoints::UserDeleteHook, ()>)
        ensures
            r.client == self,
            r.endpoint.id == id,
    {
        Request {
            client: self,
            endpoint: endpoints::UserDeleteHook {
                id: id,
            },
            response: core::marker::PhantomData,
        }
    }

    /// Update a hook
    ///
    /// - `id`: id of the hook to update
    /// - `body`: See [`EditHookOption`]
    pub fn user_edit_hook(&self, id: i64, body: EditHookOption) -> (r: Request<'_, endpoints::UserEditHook, Hook>)
        ensures
            r.client == self,
            r.endpoint.id == id,
            r.endpoint.body == body,
    {
        Request {
            client: self,
            endpoint: endpoints::UserEditHook {
                id: id,
                body: body,
            },
            response: core::marker::PhantomData,
        }
    }

    /// List the authenticated user's public keys
    ///
    pub fn user_current_list_keys(&self, query: UserCurrentListKeysQuery) -> (r: Request<'_, endpoints::UserCurrentListKeys, (PublicKeyListHeaders, Vec<PublicKey>)>)
        ensures
            r.client == self,
            r.endpoint.query == query,
    {
        Request {
            client: self,
            endpoint: endpoints::UserCurrentListKeys {
                query: query,
            },
            response: core::marker::PhantomData,
        }
    }

    /// Create a public key
    ///
    /// - `body`: See [`CreateKeyOption`]
    pub fn user_current_post_key(&self, body: CreateKeyOption) -> (r: Request<'_, endpoints::UserCurrentPostKey, PublicKey>)
        ensures
            r.client == self,
            r.endpoint.body == body,
    {
        Request {
            client: self,
            endpoint: endpoints::UserCurrentPostKey {
                body: body,
            },
            response: core::marker::PhantomData,
        }
    }

    /// Get a public key
    ///
    /// - `id`: id of key to get
    pub fn user_current_get_key(&self, id: i64) -> (r: Request<'_, endpoints::UserCurrentGetKey, PublicKey>)
        ensures
            r.client == self,
            r.endpoint.id == id,
    {
        Request {
            client: self,
            endpoint: endpoints::UserCurrentGetKey {
                id: id,
            },
            response: core::marker::PhantomData,
        }
    }

    /// Delete a public key
    ///
    /// - `id`: id of key to delete
    pub fn user_current_delete_key(&self, id: i64) -> (r: Request<'_, endpoints::UserCurrentDeleteKey, ()>)
        ensures
            r.client == self,
            r.endpoint.id == id,
    {
        Request {
            client: self,
            endpoint: endpoints::UserCurrentDeleteKey {
                id: id,
            },
            response: core::marker::PhantomData,
        }
    }

    /// List the authenticated user's blocked users
    ///
    pub fn user_list_blocked_users(&self) -> (r: Request<'_, endpoints::UserListBlockedUsers, (BlockedUserListHeaders, Vec<BlockedUser>)>)
        ensures
            r.client == self,
    {
        Request {
            client: self,
            endpoint: endpoints::UserListBlockedUsers {},
            response: core::marker::PhantomData,
        }
    }

    /// List the current user's organizations
    ///
    pub fn org_list_current_user_orgs(&self) -> (r: Request<'_, endpoints::OrgListCurrentUserOrgs, Vec<Organization>>)
        ensures
            r.client == self,
    {
        Request {
            client: self,
            endpoint: endpoints::OrgListCurrentUserOrgs {},
            response: core::marker::PhantomData,
        }
    }

    /// Get quota information for the authenticated user
    pub fn user_get_quota(&self) -> (r: Request<'_, endpoints::UserGetQuota, QuotaInfo>)
        ensures
            r.client == self,
    {
        Request {
            client: self,
            endpoint: endpoints::UserGetQuota {},
            response: core::marker::PhantomData,
        }
    }

    /// List the artifacts affecting the authenticated user's quota
    ///
    pub fn user_list_quota_artifacts(&self) -> (r: Request<'_, endpoints::UserListQuotaArtifacts, (QuotaUsedArtifactListHeaders, Vec<QuotaUsedArtifact>)>)
        ensures
            r.client == self,
    {
        Request {
            client: self,
            endpoint: endpoints::UserListQuotaArtifacts {},
            response: core::marker::PhantomData,
        }
    }

    /// List the attachments affecting the authenticated user's quota
    ///
    pub fn user_list_quota_attachments(&self) -> (r: Request<'_, endpoints::UserListQuotaAttachments, (QuotaUsedAttachmentListHeaders, Vec<QuotaUsedAttachment>)>)
        ensures
            r.client == self,
    {
        Request {
            client: self,
            endpoint: endpoints::UserListQuotaAttachments {},
            response: core::marker::PhantomData,
        }
    }

    /// Check if the authenticated user is over quota for a given subject
    ///
    pub fn user_check_quota(&self, query: UserCheckQuotaQuery) -> (r: Request<'_, endpoints::UserCheckQuota, bool>)
        ensures
            r.client == self,
            r.endpoint.query == query,
    {
        Request {
            client: self,
            endpoint: endpoints::UserCheckQuota {
                query: query,
            },
            response: core::marker::PhantomData,
        }
    }

    /// List the packages affecting the authenticated user's quota
    ///
    pub fn user_list_quota_packages(&self) -> (r: Request<'_, endpoints::UserListQuotaPackages, (QuotaUsedPackageListHeaders, Vec<QuotaUsedPackage>)>)
        ensures
            r.client == self,
    {
        Request {
            client: self,
            endpoint: endpoints::UserListQuotaPackages {},
            response: core::marker::PhantomData,
        }
    }

    /// List the repos that the authenticated user owns
    ///
    pub fn user_current_list_repos(&self, query: UserCurrentListReposQuery) -> (r: Request<'_, endpoints::UserCurrentListRepos, (RepositoryListHeaders, Vec<Repository>)>)
        ensures
            r.client == self,
            r.endpoint.query == query,
    {
        Request {
            client: self,
            endpoint: endpoints::UserCurrentListRepos {
                query: query,
            },
            response: core::marker::PhantomData,
        }
    }

    /// Create a repository
    ///
    /// - `body`: See [`CreateRepoOption`]
    pub fn create_current_user_repo(&self, body: CreateRepoOption) -> (r: Request<'_, endpoints::CreateCurrentUserRepo, Repository>)
        ensures
            r.client == self,
            r.endpoint.body == body,
    {
        Request {
            client: self,
            endpoint: endpoints::CreateCurrentUserRepo {
                body: body,
            },
            response: core::marker::PhantomData,
        }
    }

    /// Get current user's account settings
    pub fn get_user_settings(&self) -> (r: Request<'_, endpoints::GetUserSettings, UserSettings>)
        ensures
            r.client == self,
    {
        Request {
            client: self,
            endpoint: endpoints::GetUserSettings {},
            response: core::marker::PhantomData,
        }
    }

    /// Update settings in current user's account
    ///
    /// - `body`: See [`UserSettingsOptions`]
    pub fn update_user_settings(&self, body: UserSettingsOptions) -> (r: Request<'_, endpoints::UpdateUserSettings, UserSettings>)
        ensures
            r.client == self,
            r.endpoint.body == body,
    {
        Request {
            client: self,
            endpoint: endpoints::UpdateUserSettings {
                body: body,
            },
            response: core::marker::PhantomData,
        }
    }

    /// The repos that the authenticated user has starred
    ///
    pub fn user_current_list_starred(&self) -> (r: Request<'_, endpoints::UserCurrentListStarred, (RepositoryListHeaders, Vec<Repository>)>)
        ensures
            r.client == self,
    {
        Request {
            client: self,
            endpoint: endpoints::UserCurrentListStarred {},
            response: core::marker::PhantomData,
        }
    }

    /// Whether the authenticated is starring the repo
    ///
    /// - `owner`: owner of the repo
    /// - `repo`: name of the repo
    pub fn user_current_check_starring(&self, owner: &str, repo: &str) -> (r: Request<'_, endpoints::UserCurrentCheckStarring, ()>)
        ensures
            r.client == self,
            r.endpoint.owner@ == owner@,
            r.endpoint.repo@ == repo@,
    {
        Request {
            client: self,
            endpoint: endpoints::UserCurrentCheckStarring {
                owner: owner.to_owned(),
                repo: repo.to_owned(),
            },
            response: core::marker::PhantomData,
        }
    }

    /// Star the given repo
    ///
    /// - `owner`: owner of the repo to star
    /// - `repo`: name of the repo to star
    pub fn user_current_put_star(&self, owner: &str, repo: &str) -> (r: Request<'_, endpoints::UserCurrentPutStar, ()>)
        ensures
            r.client == self,
            r.endpoint.owner@ == owner@,
            r.endpoint.repo@ == repo@,
    {
        Request {
            client: self,
            endpoint: endpoints::UserCurrentPutStar {
                owner: owner.to_owned(),
                repo: repo.to_owned(),
            },
            response: core::marker::PhantomData,
        }
    }

    /// Unstar the given repo
    ///
    /// - `owner`: owner of the repo to unstar
    /// - `repo`: name of the repo to unstar
    pub fn user_current_delete_star(&self, owner: &str, repo: &str) -> (r: Request<'_, endpoints::UserCurrentDeleteStar, ()>)
        ensures
            r.client == self,
            r.endpoint.owner@ == owner@,
            r.endpoint.repo@ == repo@,
    {
        Request {
            client: self,
            endpoint: endpoints::UserCurrentDeleteStar {
                owner: owner.to_owned(),
                repo: repo.to_owned(),
            },
            response: core::marker::PhantomData,
        }
    }

    /// Get list of all existing stopwatches
    ///
    pub fn user_get_stop_watches(&self) -> (r: Request<'_, endpoints::UserGetStopWatches, (StopWatchListHeaders, Vec<StopWatch>)>)
        ensures
            r.client == self,
    {
        Request {
            client: self,
            endpoint: endpoints::UserGetStopWatches {},
            response: core::marker::PhantomData,
        }
    }

    /// List repositories watched by the authenticated user
    ///
    pub fn user_current_list_subscriptions(&self) -> (r: Request<'_, endpoints::UserCurrentListSubscriptions, (RepositoryListHeaders, Vec<Repository>)>)
        ensures
            r.client == self,
    {
        Request {
            client: self,
            endpoint: endpoints::UserCurrentListSubscriptions {},
            response: core::marker::PhantomData,
        }
    }

    /// List all the teams a user belongs to
    ///
    pub fn user_list_teams(&self) -> (r: Request<'_, endpoints::UserListTeams, (TeamListHeaders, Vec<Team>)>)
        ensures
            r.client == self,
    {
        Request {
            client: self,
            endpoint: endpoints::UserListTeams {},
            response: core::marker::PhantomData,
        }
    }

    /// List the current user's tracked times
    ///
    pub fn user_current_tracked_times(&self, query: UserCurrentTrackedTimesQuery) -> (r: Request<'_, endpoints::UserCurrentTrackedTimes, (TrackedTimeListHeaders, Vec<TrackedTime>)>)
        ensures
            r.client == self,
            r.endpoint.query == query,
    {
        Request {
            client: self,
            endpoint: endpoints::UserCurrentTrackedTimes {
                query: query,
            },
            response: core::marker::PhantomData,
        }
    }

    /// Unblocks a user from the doer
    ///
    /// - `username`: username of the user
    pub fn user_unblock_user(&self, username: &str) -> (r: Request<'_, endpoints::UserUnblockUser, ()>)
        ensures
            r.client == self,
            r.endpoint.username@ == username@,
    {
        Request {
            client: self,
            endpoint: endpoints::UserUnblockUser {
                username: username.to_owned(),
            },
            response: core::marker::PhantomData,
        }
    }

    /// Search for users
    ///
    pub fn user_search(&self, query: UserSearchQuery) -> (r: Request<'_, endpoints::UserSearch, UserSearchResults>)
        ensures
            r.client == self,
            r.endpoint.query == query,
    {
        Request {
            client: self,
            endpoint: endpoints::UserSearch {
                query: query,
            },
            response: core::marker::PhantomData,
        }
    }

    /// Get a user
    ///
    /// - `username`: username of user to get
    pub fn user_get(&self, username: &str) -> (r: Request<'_, endpoints::UserGet, User>)
        ensures
            r.client == self,
            r.endpoint.username@ == username@,
    {
        Request {
            client: self,
            endpoint: endpoints::UserGet {
                username: username.to_owned(),
            },
            response: core::marker::PhantomData,
        }
    }

    /// List a user's activity feeds
    ///
    /// - `username`: username of user
    pub fn user_list_activity_feeds(&self, username: &str, query: UserListActivityFeedsQuery) -> (r: Request<'_, endpoints::UserListActivityFeeds, (ActivityFeedsListHeaders, Vec<Activity>)>)
        ensures
            r.client == self,
            r.endpoint.username@ == username@,
            r.endpoint.query == query,
    {
        Request {
            client: self,
            endpoint: endpoints::UserListActivityFeeds {
                username: username.to_owned(),
                query: query,
            },
            response: core::marker::PhantomData,
        }
    }

    /// List the given user's followers
    ///
    /// - `username`: username of user
    pub fn user_list_followers(&self, username: &str) -> (r: Request<'_, endpoints::UserListFollowers, (UserListHeaders, Vec<User>)>)
        ensures
            r.client == self,
            r.endpoint.username@ == username@,
    {
        Request {
            client: self,
            endpoint: endpoints::UserListFollowers {
                username: username.to_owned(),
            },
            response: core::marker::PhantomData,
        }
    }

    /// List the users that the given user is following
    ///
    /// - `username`: username of user
    pub fn user_list_following(&self, username: &str) -> (r: Request<'_, endpoints::UserListFollowing, (UserListHeaders, Vec<User>)>)
        ensures
            r.client == self,
            r.endpoint.username@ == username@,
    {
        Request {
            client: self,
            endpoint: endpoints::UserListFollowing {
                username: username.to_owned(),
            },
            response: core::marker::PhantomData,
        }
    }

    /// Check if one user is following another user
    ///
    /// - `username`: username of following user
    /// - `target`: username of followed user
    pub fn user_check_following(&self, username: &str, target: &str) -> (r: Request<'_, endpoints::UserCheckFollowing, ()>)
        ensures
            r.client == self,
            r.endpoint.username@ == username@,
            r.endpoint.target@ == target@,
    {
        Request {
            client: self,
            endpoint: endpoints::UserCheckFollowing {
                username: username.to_owned(),
                target: target.to_owned(),
            },
            response: core::marker::PhantomData,
        }
    }

    /// List the given user's GPG keys
    ///
    /// - `username`: username of user
    pub fn user_list_gpg_keys(&self, username: &str) -> (r: Request<'_, endpoints::UserListGpgKeys, (GpgKeyListHeaders, Vec<GPGKey>)>)
        ensures
            r.client == self,
            r.endpoint.username@ == username@,
    {
        Request {
            client: self,
            endpoint: endpoints::UserListGpgKeys {
                username: username.to_owned(),
            },
            response: core::marker::PhantomData,
        }
    }

    /// Get a user's heatmap
    ///
    /// - `username`: username of user to get
    pub fn user_get_heatmap_data(&self, username: &str) -> (r: Request<'_, endpoints::UserGetHeatmapData, Vec<UserHeatmapData>>)
        ensures
            r.client == self,
            r.endpoint.username@ == username@,
    {
        Request {
            client: self,
            endpoint: endpoints::UserGetHeatmapData {
                username: username.to_owned(),
            },
            response: core::marker::PhantomData,
        }
    }

    /// List the given user's public keys
    ///
    /// - `username`: username of user
    pub fn user_list_keys(&self, username: &str, query: UserListKeysQuery) -> (r: Request<'_, endpoints::UserListKeys, (PublicKeyListHeaders, Vec<PublicKey>)>)
        ensures
            r.client == self,
            r.endpoint.username@ == username@,
            r.endpoint.query == query,
    {
        Request {
            client: self,
            endpoint: endpoints::UserListKeys {
                username: username.to_owned(),
                query: query,
            },
            response: core::marker::PhantomData,
        }
    }

    /// List a user's organizations
    ///
    /// - `username`: username of user
    pub fn org_list_user_orgs(&self, username: &str) -> (r: Request<'_, endpoints::OrgListUserOrgs, Vec<Organization>>)
        ensures
            r.client == self,
            r.endpoint.username@ == username@,
    {
        Request {
            client: self,
            endpoint: endpoints::OrgListUserOrgs {
                username: username.to_owned(),
            },
            response: core::marker::PhantomData,
        }
    }

    /// Get user permissions in organization
    ///
    /// - `username`: username of user
    /// - `org`: name of the organization
    pub fn org_get_user_permissions(&self, username: &str, org: &str) -> (r: Request<'_, endpoints::OrgGetUserPermissions, OrganizationPermissions>)
        ensures
            r.client == self,
            r.endpoint.username@ == username@,
            r.endpoint.org@ == org@,
    {
        Request {
            client: self,
            endpoint: endpoints::OrgGetUserPermissions {
                username: username.to_owned(),
                org: org.to_owned(),
            },
            response: core::marker::PhantomData,
        }
    }

    /// List the repos owned by the given user
    ///
    /// - `username`: username of user
    pub fn user_list_repos(&self, username: &str) -> (r: Request<'_, endpoints::UserListRepos, (RepositoryListHeaders, Vec<Repository>)>)
        ensures
            r.client == self,
            r.endpoint.username@ == username@,
    {
        Request {
            client: self,
            endpoint: endpoints::UserListRepos {
                username: username.to_owned(),
            },
            response: core::marker::PhantomData,
        }
    }

    /// The repos that the given user has starred
    ///
    /// - `username`: username of user
    pub fn user_list_starred(&self, username: &str) -> (r: Request<'_, endpoints::UserListStarred, (RepositoryListHeaders, Vec<Repository>)>)
        ensures
            r.client == self,
            r.endpoint.username@ == username@,
    {
        Request {
            client: self,
            endpoint: endpoints::UserListStarred {
                username: username.to_owned(),
            },
            response: core::marker::PhantomData,
        }
    }

    /// List the repositories watched by a user
    ///
    /// - `username`: username of the user
    pub fn user_list_subscriptions(&self, username: &str) -> (r: Request<'_, endpoints::UserListSubscriptions, (RepositoryListHeaders, Vec<Repository>)>)
        ensures
            r.client == self,
            r.endpoint.username@ == username@,
    {
        Request {
            client: self,
            endpoint: endpoints::UserListSubscriptions {
                username: username.to_owned(),
            },
            response: core::marker::PhantomData,
        }
    }

    /// List the specified user's access tokens
    ///
    /// - `username`: username of user
    pub fn user_get_tokens(&self, username: &str) -> (r: Request<'_, endpoints::UserGetTokens, (AccessTokenListHeaders, Vec<AccessToken>)>)
        ensures
            r.client == self,
            r.endpoint.username@ == username@,
    {
        Request {
            client: self,
            endpoint: endpoints::UserGetTokens {
                username: username.to_owned(),
            },
            response: core::marker::PhantomData,
        }
    }

    /// Generate an access token for the specified user
    ///
    /// - `username`: username of user
    /// - `body`: See [`CreateAccessTokenOption`]
    pub fn user_create_token(&self, username: &str, body: CreateAccessTokenOption) -> (r: Request<'_, endpoints::UserCreateToken, AccessToken>)
        ensures
            r.client == self,
            r.endpoint.username@ == username@,
            r.endpoint.body == body,
    {
        Request {
            client: self,
            endpoint: endpoints::UserCreateToken {
                username: username.to_owned(),
                body: body,
            },
            response: core::marker::PhantomData,
        }
    }

    /// Delete an access token from the specified user's account
    ///
    /// - `username`: username of user
    /// - `token`: token to be deleted, identified by ID and if not available by name
    pub fn user_delete_access_token(&self, username: &str, token: &str) -> (r: Request<'_, endpoints::UserDeleteAccessToken, ()>)
        ensures
            r.client == self,
            r.endpoint.username@ == username@,
            r.endpoint.token@ == token@,
    {
        Request {
            client: self,
            endpoint: endpoints::UserDeleteAccessToken {
                username: username.to_owned(),
                token: token.to_owned(),
            },
            response: core::marker::PhantomData,
        }
    }

    /// Returns the version of the running application
    pub fn get_version(&self) -> (r: Request<'_, endpoints::GetVersion, ServerVersion>)
        ensures
            r.client == self,
    {
        Request {
            client: self,
            endpoint: endpoints::GetVersion {},
            response: core::marker::PhantomData,
        }
    }
}

} // verus!
