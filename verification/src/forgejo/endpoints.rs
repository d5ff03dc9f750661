//! One description per endpoint: the arguments a request to it carries.
use vstd::prelude::*;
use super::structs;

verus! {

/// The arguments of [`super::Forgejo::activitypub_instance_actor`].
pub struct ActivitypubInstanceActor {}

/// The arguments of [`super::Forgejo::activitypub_instance_actor_inbox`].
pub struct ActivitypubInstanceActorInbox {}

/// The arguments of [`super::Forgejo::activitypub_instance_actor_outbox`].
pub struct ActivitypubInstanceActorOutbox {}

/// The arguments of [`super::Forgejo::activitypub_repository`].
pub struct ActivitypubRepository {
    pub repository_id: i64,
}

/// The arguments of [`super::Forgejo::activitypub_repository_inbox`].
pub struct ActivitypubRepositoryInbox {
    pub repository_id: i64,
    pub body: structs::ForgeLike,
}

/// The arguments of [`super::Forgejo::activitypub_repository_outbox`].
pub struct ActivitypubRepositoryOutbox {
    pub repository_id: i64,
}

/// The arguments of [`super::Forgejo::activitypub_person`].
pub struct ActivitypubPerson {
    pub user_id: i64,
}

/// The arguments of [`super::Forgejo::activitypub_person_activity_note`].
pub struct ActivitypubPersonActivityNote {
    pub user_id: u32,
    pub activity_id: u32,
}

/// The arguments of [`super::Forgejo::activitypub_person_activity`].
pub struct ActivitypubPersonActivity {
    pub user_id: u32,
    pub activity_id: u32,
}

/// The arguments of [`super::Forgejo::activitypub_person_inbox`].
pub struct ActivitypubPersonInbox {
    pub user_id: i64,
}

/// The arguments of [`super::Forgejo::activitypub_person_feed`].
pub struct ActivitypubPersonFeed {
    pub user_id: u32,
}

/// The arguments of [`super::Forgejo::admin_cron_list`].
pub struct AdminCronList {}

/// The arguments of [`super::Forgejo::admin_cron_run`].
pub struct AdminCronRun {
    pub task: String,
}

/// The arguments of [`super::Forgejo::admin_get_all_emails`].
pub struct AdminGetAllEmails {}

/// The arguments of [`super::Forgejo::admin_search_emails`].
pub struct AdminSearchEmails {
    pub query: structs::AdminSearchEmailsQuery,
}

/// The arguments of [`super::Forgejo::admin_list_hooks`].
pub struct AdminListHooks {}

/// The arguments of [`super::Forgejo::admin_create_hook`].
pub struct AdminCreateHook {
    pub body: structs::CreateHookOption,
}

/// The arguments of [`super::Forgejo::admin_get_hook`].
pub struct AdminGetHook {
    pub id: i64,
}

/// The arguments of [`super::Forgejo::admin_delete_hook`].
pub struct AdminDeleteHook {
    pub id: i64,
}

/// The arguments of [`super::Forgejo::admin_edit_hook`].
pub struct AdminEditHook {
    pub id: i64,
    pub body: structs::EditHookOption,
}

/// The arguments of [`super::Forgejo::admin_get_all_orgs`].
pub struct AdminGetAllOrgs {}

/// The arguments of [`super::Forgejo::admin_list_quota_groups`].
pub struct AdminListQuotaGroups {}

/// The arguments of [`super::Forgejo::admin_create_quota_group`].
pub struct AdminCreateQuotaGroup {
    pub body: structs::CreateQuotaGroupOptions,
}

/// The arguments of [`super::Forgejo::admin_get_quota_group`].
pub struct AdminGetQuotaGroup {
    pub quotagroup: String,
}

/// The arguments of [`super::Forgejo::admin_delete_quota_group`].
pub struct AdminDeleteQuotaGroup {
    pub quotagroup: String,
}

/// The arguments of [`super::Forgejo::admin_add_rule_to_quota_group`].
pub struct AdminAddRuleToQuotaGroup {
    pub quotagroup: String,
    pub quotarule: String,
}

/// The arguments of [`super::Forgejo::admin_remove_rule_from_quota_group`].
pub struct AdminRemoveRuleFromQuotaGroup {
    pub quotagroup: String,
    pub quotarule: String,
}

/// The arguments of [`super::Forgejo::admin_list_users_in_quota_group`].
pub struct AdminListUsersInQuotaGroup {
    pub quotagroup: String,
}

/// The arguments of [`super::Forgejo::admin_add_user_to_quota_group`].
pub struct AdminAddUserToQuotaGroup {
    pub quotagroup: String,
    pub username: String,
}

/// The arguments of [`super::Forgejo::admin_remove_user_from_quota_group`].
pub struct AdminRemoveUserFromQuotaGroup {
    pub quotagroup: String,
    pub username: String,
}

/// The arguments of [`super::Forgejo::admin_list_quota_rules`].
pub struct AdminListQuotaRules {}

/// The arguments of [`super::Forgejo::admin_create_quota_rule`].
pub struct AdminCreateQuotaRule {
    pub body: structs::CreateQuotaRuleOptions,
}

/// The arguments of [`super::Forgejo::admin_get_quota_rule`].
pub struct AdminGetQuotaRule {
    pub quotarule: String,
}

/// The arguments of [`super::Forgejo::admin_delete_quota_rule`].
pub struct AdminDeleteQuotaRule {
    pub quotarule: String,
}

/// The arguments of [`super::Forgejo::admin_edit_quota_rule`].
pub struct AdminEditQuotaRule {
    pub quotarule: String,
    pub body: structs::EditQuotaRuleOptions,
}

/// The arguments of [`super::Forgejo::admin_search_run_jobs`].
pub struct AdminSearchRunJobs {
    pub query: structs::AdminSearchRunJobsQuery,
}

/// The arguments of [`super::Forgejo::admin_get_runner_registration_token`].
pub struct AdminGetRunnerRegistrationToken {}

/// The arguments of [`super::Forgejo::admin_unadopted_list`].
pub struct AdminUnadoptedList {
    pub query: structs::AdminUnadoptedListQuery,
}

/// The arguments of [`super::Forgejo::admin_adopt_repository`].
pub struct AdminAdoptRepository {
    pub owner: String,
    pub repo: String,
}

/// The arguments of [`super::Forgejo::admin_delete_unadopted_repository`].
pub struct AdminDeleteUnadoptedRepository {
    pub owner: String,
    pub repo: String,
}

/// The arguments of [`super::Forgejo::admin_search_users`].
pub struct AdminSearchUsers {
    pub query: structs::AdminSearchUsersQuery,
}

/// The arguments of [`super::Forgejo::admin_create_user`].
pub struct AdminCreateUser {
    pub body: structs::CreateUserOption,
}

/// The arguments of [`super::Forgejo::admin_delete_user`].
pub struct AdminDeleteUser {
    pub username: String,
    pub query: structs::AdminDeleteUserQuery,
}

/// The arguments of [`super::Forgejo::admin_edit_user`].
pub struct AdminEditUser {
    pub username: String,
    pub body: structs::EditUserOption,
}

/// The arguments of [`super::Forgejo::admin_list_user_emails`].
pub struct AdminListUserEmails {
    pub username: String,
}

/// The arguments of [`super::Forgejo::admin_delete_user_emails`].
pub struct AdminDeleteUserEmails {
    pub username: String,
    pub body: structs::DeleteEmailOption,
}

/// The arguments of [`super::Forgejo::admin_create_public_key`].
pub struct AdminCreatePublicKey {
    pub username: String,
    pub body: structs::CreateKeyOption,
}

/// The arguments of [`super::Forgejo::admin_delete_user_public_key`].
pub struct AdminDeleteUserPublicKey {
    pub username: String,
    pub id: i64,
}

/// The arguments of [`super::Forgejo::admin_create_org`].
pub struct AdminCreateOrg {
    pub username: String,
    pub body: structs::CreateOrgOption,
}

/// The arguments of [`super::Forgejo::admin_get_user_quota`].
pub struct AdminGetUserQuota {
    pub username: String,
}

/// The arguments of [`super::Forgejo::admin_set_user_quota_groups`].
pub struct AdminSetUserQuotaGroups {
    pub username: String,
    pub body: structs::SetUserQuotaGroupsOptions,
}

/// The arguments of [`super::Forgejo::admin_rename_user`].
pub struct AdminRenameUser {
    pub username: String,
    pub body: structs::RenameUserOption,
}

/// The arguments of [`super::Forgejo::admin_create_repo`].
pub struct AdminCreateRepo {
    pub username: String,
    pub body: structs::CreateRepoOption,
}

/// The arguments of [`super::Forgejo::list_gitignores_templates`].
pub struct ListGitignoresTemplates {}

/// The arguments of [`super::Forgejo::get_gitignore_template_info`].
pub struct GetGitignoreTemplateInfo {
    pub name: String,
}

/// The arguments of [`super::Forgejo::list_label_templates`].
pub struct ListLabelTemplates {}

/// The arguments of [`super::Forgejo::get_label_template_info`].
pub struct GetLabelTemplateInfo {
    pub name: String,
}

/// The arguments of [`super::Forgejo::list_license_templates`].
pub struct ListLicenseTemplates {}

/// The arguments of [`super::Forgejo::get_license_template_info`].
pub struct GetLicenseTemplateInfo {
    pub name: String,
}

/// The arguments of [`super::Forgejo::render_markdown`].
pub struct RenderMarkdown {
    pub body: structs::MarkdownOption,
}

/// The arguments of [`super::Forgejo::render_markdown_raw`].
pub struct RenderMarkdownRaw {
    pub body: String,
}

/// The arguments of [`super::Forgejo::render_markup`].
pub struct RenderMarkup {
    pub body: structs::MarkupOption,
}

/// The arguments of [`super::Forgejo::get_node_info`].
pub struct GetNodeInfo {}

/// The arguments of [`super::Forgejo::notify_get_list`].
pub struct NotifyGetList {
    pub query: structs::NotifyGetListQuery,
}

/// The arguments of [`super::Forgejo::notify_read_list`].
pub struct NotifyReadList {
    pub query: structs::NotifyReadListQuery,
}

/// The arguments of [`super::Forgejo::notify_new_available`].
pub struct NotifyNewAvailable {}

/// The arguments of [`super::Forgejo::notify_get_thread`].
pub struct NotifyGetThread {
    pub id: i64,
}

/// The arguments of [`super::Forgejo::notify_read_thread`].
pub struct NotifyReadThread {
    pub id: i64,
    pub query: structs::NotifyReadThreadQuery,
}

/// The arguments of [`super::Forgejo::create_org_repo_deprecated`].
pub struct CreateOrgRepoDeprecated {
    pub org: String,
    pub body: structs::CreateRepoOption,
}

/// The arguments of [`super::Forgejo::org_get_all`].
pub struct OrgGetAll {}

/// The arguments of [`super::Forgejo::org_create`].
pub struct OrgCreate {
    pub body: structs::CreateOrgOption,
}

/// The arguments of [`super::Forgejo::org_get`].
pub struct OrgGet {
    pub org: String,
}

/// The arguments of [`super::Forgejo::org_delete`].
pub struct OrgDelete {
    pub org: String,
}

/// The arguments of [`super::Forgejo::org_edit`].
pub struct OrgEdit {
    pub org: String,
    pub body: structs::EditOrgOption,
}

/// The arguments of [`super::Forgejo::org_search_run_jobs`].
pub struct OrgSearchRunJobs {
    pub org: String,
    pub query: structs::OrgSearchRunJobsQuery,
}

/// The arguments of [`super::Forgejo::org_get_runner_registration_token`].
pub struct OrgGetRunnerRegistrationToken {
    pub org: String,
}

/// The arguments of [`super::Forgejo::org_list_actions_secrets`].
pub struct OrgListActionsSecrets {
    pub org: String,
}

/// The arguments of [`super::Forgejo::update_org_secret`].
pub struct UpdateOrgSecret {
    pub org: String,
    pub secretname: String,
    pub body: structs::CreateOrUpdateSecretOption,
}

/// The arguments of [`super::Forgejo::delete_org_secret`].
pub struct DeleteOrgSecret {
    pub org: String,
    pub secretname: String,
}

/// The arguments of [`super::Forgejo::get_org_variables_list`].
pub struct GetOrgVariablesList {
    pub org: String,
}

/// The arguments of [`super::Forgejo::get_org_variable`].
pub struct GetOrgVariable {
    pub org: String,
    pub variablename: String,
}

/// The arguments of [`super::Forgejo::update_org_variable`].
pub struct UpdateOrgVariable {
    pub org: String,
    pub variablename: String,
    pub body: structs::UpdateVariableOption,
}

/// The arguments of [`super::Forgejo::create_org_variable`].
pub struct CreateOrgVariable {
    pub org: String,
    pub variablename: String,
    pub body: structs::CreateVariableOption,
}

/// The arguments of [`super::Forgejo::delete_org_variable`].
pub struct DeleteOrgVariable {
    pub org: String,
    pub variablename: String,
}

/// The arguments of [`super::Forgejo::org_list_activity_feeds`].
pub struct OrgListActivityFeeds {
    pub org: String,
    pub query: structs::OrgListActivityFeedsQuery,
}

/// The arguments of [`super::Forgejo::org_update_avatar`].
pub struct OrgUpdateAvatar {
    pub org: String,
    pub body: structs::UpdateUserAvatarOption,
}

/// The arguments of [`super::Forgejo::org_delete_avatar`].
pub struct OrgDeleteAvatar {
    pub org: String,
}

/// The arguments of [`super::Forgejo::org_block_user`].
pub struct OrgBlockUser {
    pub org: String,
    pub username: String,
}

/// The arguments of [`super::Forgejo::org_list_hooks`].
pub struct OrgListHooks {
    pub org: String,
}

/// The arguments of [`super::Forgejo::org_create_hook`].
pub struct OrgCreateHook {
    pub org: String,
    pub body: structs::CreateHookOption,
}

/// The arguments of [`super::Forgejo::org_get_hook`].
pub struct OrgGetHook {
    pub org: String,
    pub id: i64,
}

/// The arguments of [`super::Forgejo::org_delete_hook`].
pub struct OrgDeleteHook {
    pub org: String,
    pub id: i64,
}

/// The arguments of [`super::Forgejo::org_edit_hook`].
pub struct OrgEditHook {
    pub org: String,
    pub id: i64,
    pub body: structs::EditHookOption,
}

/// The arguments of [`super::Forgejo::org_list_labels`].
pub struct OrgListLabels {
    pub org: String,
    pub query: structs::OrgListLabelsQuery,
}

/// The arguments of [`super::Forgejo::org_create_label`].
pub struct OrgCreateLabel {
    pub org: String,
    pub body: structs::CreateLabelOption,
}

/// The arguments of [`super::Forgejo::org_get_label`].
pub struct OrgGetLabel {
    pub org: String,
    pub id: i64,
}

/// The arguments of [`super::Forgejo::org_delete_label`].
pub struct OrgDeleteLabel {
    pub org: String,
    pub id: i64,
}

/// The arguments of [`super::Forgejo::org_edit_label`].
pub struct OrgEditLabel {
    pub org: String,
    pub id: i64,
    pub body: structs::EditLabelOption,
}

/// The arguments of [`super::Forgejo::org_list_blocked_users`].
pub struct OrgListBlockedUsers {
    pub org: String,
}

/// The arguments of [`super::Forgejo::org_list_members`].
pub struct OrgListMembers {
    pub org: String,
}

/// The arguments of [`super::Forgejo::org_is_member`].
pub struct OrgIsMember {
    pub org: String,
    pub username: String,
}

/// The arguments of [`super::Forgejo::org_delete_member`].
pub struct OrgDeleteMember {
    pub org: String,
    pub username: String,
}

/// The arguments of [`super::Forgejo::org_list_public_members`].
pub struct OrgListPublicMembers {
    pub org: String,
}

/// The arguments of [`super::Forgejo::org_is_public_member`].
pub struct OrgIsPublicMember {
    pub org: String,
    pub username: String,
}

/// The arguments of [`super::Forgejo::org_publicize_member`].
pub struct OrgPublicizeMember {
    pub org: String,
    pub username: String,
}

/// The arguments of [`super::Forgejo::org_conceal_member`].
pub struct OrgConcealMember {
    pub org: String,
    pub username: String,
}

/// The arguments of [`super::Forgejo::org_get_quota`].
pub struct OrgGetQuota {
    pub org: String,
}

/// The arguments of [`super::Forgejo::org_list_quota_artifacts`].
pub struct OrgListQuotaArtifacts {
    pub org: String,
}

/// The arguments of [`super::Forgejo::org_list_quota_attachments`].
pub struct OrgListQuotaAttachments {
    pub org: String,
}

/// The arguments of [`super::Forgejo::org_check_quota`].
pub struct OrgCheckQuota {
    pub org: String,
    pub query: structs::OrgCheckQuotaQuery,
}

/// The arguments of [`super::Forgejo::org_list_quota_packages`].
pub struct OrgListQuotaPackages {
    pub org: String,
}

/// The arguments of [`super::Forgejo::rename_org`].
pub struct RenameOrg {
    pub org: String,
    pub body: structs::RenameOrgOption,
}

/// The arguments of [`super::Forgejo::org_list_repos`].
pub struct OrgListRepos {
    pub org: String,
}

/// The arguments of [`super::Forgejo::create_org_repo`].
pub struct CreateOrgRepo {
    pub org: String,
    pub body: structs::CreateRepoOption,
}

/// The arguments of [`super::Forgejo::org_list_teams`].
pub struct OrgListTeams {
    pub org: String,
}

/// The arguments of [`super::Forgejo::org_create_team`].
pub struct OrgCreateTeam {
    pub org: String,
    pub body: structs::CreateTeamOption,
}

/// The arguments of [`super::Forgejo::team_search`].
pub struct TeamSearch {
    pub org: String,
    pub query: structs::TeamSearchQuery,
}

/// The arguments of [`super::Forgejo::org_unblock_user`].
pub struct OrgUnblockUser {
    pub org: String,
    pub username: String,
}

/// The arguments of [`super::Forgejo::list_packages`].
pub struct ListPackages {
    pub owner: String,
    pub query: structs::ListPackagesQuery,
}

/// The arguments of [`super::Forgejo::link_package`].
pub struct LinkPackage {
    pub owner: String,
    pub type_: String,
    pub name: String,
    pub repo_name: String,
}

/// The arguments of [`super::Forgejo::unlink_package`].
pub struct UnlinkPackage {
    pub owner: String,
    pub type_: String,
    pub name: String,
}

/// The arguments of [`super::Forgejo::get_package`].
pub struct GetPackage {
    pub owner: String,
    pub type_: String,
    pub name: String,
    pub version: String,
}

/// The arguments of [`super::Forgejo::delete_package`].
pub struct DeletePackage {
    pub owner: String,
    pub type_: String,
    pub name: String,
    pub version: String,
}

/// The arguments of [`super::Forgejo::list_package_files`].
pub struct ListPackageFiles {
    pub owner: String,
    pub type_: String,
    pub name: String,
    pub version: String,
}

/// The arguments of [`super::Forgejo::issue_search_issues`].
pub struct IssueSearchIssues {
    pub query: structs::IssueSearchIssuesQuery,
}

/// The arguments of [`super::Forgejo::repo_migrate`].
pub struct RepoMigrate {
    pub body: structs::MigrateRepoOptions,
}

/// The arguments of [`super::Forgejo::repo_search`].
pub struct RepoSearch {
    pub query: structs::RepoSearchQuery,
}

/// The arguments of [`super::Forgejo::repo_get`].
pub struct RepoGet {
    pub owner: String,
    pub repo: String,
}

/// The arguments of [`super::Forgejo::repo_delete`].
pub struct RepoDelete {
    pub owner: String,
    pub repo: String,
}

/// The arguments of [`super::Forgejo::repo_edit`].
pub struct RepoEdit {
    pub owner: String,
    pub repo: String,
    pub body: structs::EditRepoOption,
}

/// The arguments of [`super::Forgejo::repo_search_run_jobs`].
pub struct RepoSearchRunJobs {
    pub owner: String,
    pub repo: String,
    pub query: structs::RepoSearchRunJobsQuery,
}

/// The arguments of [`super::Forgejo::repo_get_runner_registration_token`].
pub struct RepoGetRunnerRegistrationToken {
    pub owner: String,
    pub repo: String,
}

/// The arguments of [`super::Forgejo::list_action_runs`].
pub struct ListActionRuns {
    pub owner: String,
    pub repo: String,
    pub query: structs::ListActionRunsQuery,
}

/// The arguments of [`super::Forgejo::get_action_run`].
pub struct GetActionRun {
    pub owner: String,
    pub repo: String,
    pub run_id: i64,
}

/// The arguments of [`super::Forgejo::repo_list_actions_secrets`].
pub struct RepoListActionsSecrets {
    pub owner: String,
    pub repo: String,
}

/// The arguments of [`super::Forgejo::update_repo_secret`].
pub struct UpdateRepoSecret {
    pub owner: String,
    pub repo: String,
    pub secretname: String,
    pub body: structs::CreateOrUpdateSecretOption,
}

/// The arguments of [`super::Forgejo::delete_repo_secret`].
pub struct DeleteRepoSecret {
    pub owner: String,
    pub repo: String,
    pub secretname: String,
}

/// The arguments of [`super::Forgejo::list_action_tasks`].
pub struct ListActionTasks {
    pub owner: String,
    pub repo: String,
}

/// The arguments of [`super::Forgejo::get_repo_variables_list`].
pub struct GetRepoVariablesList {
    pub owner: String,
    pub repo: String,
}

/// The arguments of [`super::Forgejo::get_repo_variable`].
pub struct GetRepoVariable {
    pub owner: String,
    pub repo: String,
    pub variablename: String,
}

/// The arguments of [`super::Forgejo::update_repo_variable`].
pub struct UpdateRepoVariable {
    pub owner: String,
    pub repo: String,
    pub variablename: String,
    pub body: structs::UpdateVariableOption,
}

/// The arguments of [`super::Forgejo::create_repo_variable`].
pub struct CreateRepoVariable {
    pub owner: String,
    pub repo: String,
    pub variablename: String,
    pub body: structs::CreateVariableOption,
}

/// The arguments of [`super::Forgejo::delete_repo_variable`].
pub struct DeleteRepoVariable {
    pub owner: String,
    pub repo: String,
    pub variablename: String,
}

/// The arguments of [`super::Forgejo::dispatch_workflow`].
pub struct DispatchWorkflow {
    pub owner: String,
    pub repo: String,
    pub workflowfilename: String,
    pub body: structs::DispatchWorkflowOption,
}

/// The arguments of [`super::Forgejo::repo_list_activity_feeds`].
pub struct RepoListActivityFeeds {
    pub owner: String,
    pub repo: String,
    pub query: structs::RepoListActivityFeedsQuery,
}

/// The arguments of [`super::Forgejo::repo_get_archive`].
pub struct RepoGetArchive {
    pub owner: String,
    pub repo: String,
    pub archive: String,
}

/// The arguments of [`super::Forgejo::repo_get_assignees`].
pub struct RepoGetAssignees {
    pub owner: String,
    pub repo: String,
}

/// The arguments of [`super::Forgejo::repo_update_avatar`].
pub struct RepoUpdateAvatar {
    pub owner: String,
    pub repo: String,
    pub body: structs::UpdateRepoAvatarOption,
}

/// The arguments of [`super::Forgejo::repo_delete_avatar`].
pub struct RepoDeleteAvatar {
    pub owner: String,
    pub repo: String,
}

/// The arguments of [`super::Forgejo::repo_list_branch_protection`].
pub struct RepoListBranchProtection {
    pub owner: String,
    pub repo: String,
}

/// The arguments of [`super::Forgejo::repo_create_branch_protection`].
pub struct RepoCreateBranchProtection {
    pub owner: String,
    pub repo: String,
    pub body: structs::CreateBranchProtectionOption,
}

/// The arguments of [`super::Forgejo::repo_get_branch_protection`].
pub struct RepoGetBranchProtection {
    pub owner: String,
    pub repo: String,
    pub name: String,
}

/// The arguments of [`super::Forgejo::repo_delete_branch_protection`].
pub struct RepoDeleteBranchProtection {
    pub owner: String,
    pub repo: String,
    pub name: String,
}

/// The arguments of [`super::Forgejo::repo_edit_branch_protection`].
pub struct RepoEditBranchProtection {
    pub owner: String,
    pub repo: String,
    pub name: String,
    pub body: structs::EditBranchProtectionOption,
}

/// The arguments of [`super::Forgejo::repo_list_branches`].
pub struct RepoListBranches {
    pub owner: String,
    pub repo: String,
}

/// The arguments of [`super::Forgejo::repo_create_branch`].
pub struct RepoCreateBranch {
    pub owner: String,
    pub repo: String,
    pub body: structs::CreateBranchRepoOption,
}

/// The arguments of [`super::Forgejo::repo_get_branch`].
pub struct RepoGetBranch {
    pub owner: String,
    pub repo: String,
    pub branch: String,
}

/// The arguments of [`super::Forgejo::repo_delete_branch`].
pub struct RepoDeleteBranch {
    pub owner: String,
    pub repo: String,
    pub branch: String,
}

/// The arguments of [`super::Forgejo::repo_update_branch`].
pub struct RepoUpdateBranch {
    pub owner: String,
    pub repo: String,
    pub branch: String,
    pub body: structs::UpdateBranchRepoOption,
}

/// The arguments of [`super::Forgejo::repo_list_collaborators`].
pub struct RepoListCollaborators {
    pub owner: String,
    pub repo: String,
}

/// The arguments of [`super::Forgejo::repo_check_collaborator`].
pub struct RepoCheckCollaborator {
    pub owner: String,
    pub repo: String,
    pub collaborator: String,
}

/// The arguments of [`super::Forgejo::repo_add_collaborator`].
pub struct RepoAddCollaborator {
    pub owner: String,
    pub repo: String,
    pub collaborator: String,
    pub body: structs::AddCollaboratorOption,
}

/// The arguments of [`super::Forgejo::repo_delete_collaborator`].
pub struct RepoDeleteCollaborator {
    pub owner: String,
    pub repo: String,
    pub collaborator: String,
}

/// The arguments of [`super::Forgejo::repo_get_repo_permissions`].
pub struct RepoGetRepoPermissions {
    pub owner: String,
    pub repo: String,
    pub collaborator: String,
}

/// The arguments of [`super::Forgejo::repo_get_all_commits`].
pub struct RepoGetAllCommits {
    pub owner: String,
    pub repo: String,
    pub query: structs::RepoGetAllCommitsQuery,
}

/// The arguments of [`super::Forgejo::repo_get_combined_status_by_ref`].
pub struct RepoGetCombinedStatusByRef {
    pub owner: String,
    pub repo: String,
    pub ref_: String,
}

/// The arguments of [`super::Forgejo::repo_list_statuses_by_ref`].
pub struct RepoListStatusesByRef {
    pub owner: String,
    pub repo: String,
    pub ref_: String,
    pub query: structs::RepoListStatusesByRefQuery,
}

/// The arguments of [`super::Forgejo::repo_get_commit_pull_request`].
pub struct RepoGetCommitPullRequest {
    pub owner: String,
    pub repo: String,
    pub sha: String,
}

/// The arguments of [`super::Forgejo::repo_compare_diff`].
pub struct RepoCompareDiff {
    pub owner: String,
    pub repo: String,
    pub basehead: String,
}

/// The arguments of [`super::Forgejo::repo_get_contents_list`].
pub struct RepoGetContentsList {
    pub owner: String,
    pub repo: String,
    pub query: structs::RepoGetContentsListQuery,
}

/// The arguments of [`super::Forgejo::repo_change_files`].
pub struct RepoChangeFiles {
    pub owner: String,
    pub repo: String,
    pub body: structs::ChangeFilesOptions,
}

/// The arguments of [`super::Forgejo::repo_get_contents`].
pub struct RepoGetContents {
    pub owner: String,
    pub repo: String,
    pub filepath: String,
    pub query: structs::RepoGetContentsQuery,
}

/// The arguments of [`super::Forgejo::repo_update_file`].
pub struct RepoUpdateFile {
    pub owner: String,
    pub repo: String,
    pub filepath: String,
    pub body: structs::UpdateFileOptions,
}

/// The arguments of [`super::Forgejo::repo_create_file`].
pub struct RepoCreateFile {
    pub owner: String,
    pub repo: String,
    pub filepath: String,
    pub body: structs::CreateFileOptions,
}

/// The arguments of [`super::Forgejo::repo_delete_file`].
pub struct RepoDeleteFile {
    pub owner: String,
    pub repo: String,
    pub filepath: String,
    pub body: structs::DeleteFileOptions,
}

/// The arguments of [`super::Forgejo::repo_convert`].
pub struct RepoConvert {
    pub owner: String,
    pub repo: String,
}

/// The arguments of [`super::Forgejo::repo_apply_diff_patch`].
pub struct RepoApplyDiffPatch {
    pub owner: String,
    pub repo: String,
    pub body: structs::UpdateFileOptions,
}

/// The arguments of [`super::Forgejo::repo_get_editor_config`].
pub struct RepoGetEditorConfig {
    pub owner: String,
    pub repo: String,
    pub filepath: String,
    pub query: structs::RepoGetEditorConfigQuery,
}

/// The arguments of [`super::Forgejo::repo_list_flags`].
pub struct RepoListFlags {
    pub owner: String,
    pub repo: String,
}

/// The arguments of [`super::Forgejo::repo_replace_all_flags`].
pub struct RepoReplaceAllFlags {
    pub owner: String,
    pub repo: String,
    pub body: structs::ReplaceFlagsOption,
}

/// The arguments of [`super::Forgejo::repo_delete_all_flags`].
pub struct RepoDeleteAllFlags {
    pub owner: String,
    pub repo: String,
}

/// The arguments of [`super::Forgejo::repo_check_flag`].
pub struct RepoCheckFlag {
    pub owner: String,
    pub repo: String,
    pub flag: String,
}

/// The arguments of [`super::Forgejo::repo_add_flag`].
pub struct RepoAddFlag {
    pub owner: String,
    pub repo: String,
    pub flag: String,
}

/// The arguments of [`super::Forgejo::repo_delete_flag`].
pub struct RepoDeleteFlag {
    pub owner: String,
    pub repo: String,
    pub flag: String,
}

/// The arguments of [`super::Forgejo::list_forks`].
pub struct ListForks {
    pub owner: String,
    pub repo: String,
}

/// The arguments of [`super::Forgejo::create_fork`].
pub struct CreateFork {
    pub owner: String,
    pub repo: String,
    pub body: structs::CreateForkOption,
}

/// The arguments of [`super::Forgejo::get_blobs`].
pub struct GetBlobs {
    pub owner: String,
    pub repo: String,
    pub query: structs::GetBlobsQuery,
}

/// The arguments of [`super::Forgejo::get_blob`].
pub struct GetBlob {
    pub owner: String,
    pub repo: String,
    pub sha: String,
}

/// The arguments of [`super::Forgejo::repo_get_single_commit`].
pub struct RepoGetSingleCommit {
    pub owner: String,
    pub repo: String,
    pub sha: String,
    pub query: structs::RepoGetSingleCommitQuery,
}

/// The arguments of [`super::Forgejo::repo_download_commit_diff_or_patch`].
pub struct RepoDownloadCommitDiffOrPatch {
    pub owner: String,
    pub repo: String,
    pub sha: String,
    pub diff_type: String,
}

/// The arguments of [`super::Forgejo::repo_get_note`].
pub struct RepoGetNote {
    pub owner: String,
    pub repo: String,
    pub sha: String,
    pub query: structs::RepoGetNoteQuery,
}

/// The arguments of [`super::Forgejo::repo_set_note`].
pub struct RepoSetNote {
    pub owner: String,
    pub repo: String,
    pub sha: String,
    pub body: structs::NoteOptions,
}

/// The arguments of [`super::Forgejo::repo_remove_note`].
pub struct RepoRemoveNote {
    pub owner: String,
    pub repo: String,
    pub sha: String,
}

/// The arguments of [`super::Forgejo::repo_list_all_git_refs`].
pub struct RepoListAllGitRefs {
    pub owner: String,
    pub repo: String,
}

/// The arguments of [`super::Forgejo::repo_list_git_refs`].
pub struct RepoListGitRefs {
    pub owner: String,
    pub repo: String,
    pub ref_: String,
}

/// The arguments of [`super::Forgejo::get_annotated_tag`].
pub struct GetAnnotatedTag {
    pub owner: String,
    pub repo: String,
    pub sha: String,
}

/// The arguments of [`super::Forgejo::get_tree`].
pub struct GetTree {
    pub owner: String,
    pub repo: String,
    pub sha: String,
    pub query: structs::GetTreeQuery,
}

/// The arguments of [`super::Forgejo::repo_list_hooks`].
pub struct RepoListHooks {
    pub owner: String,
    pub repo: String,
}

/// The arguments of [`super::Forgejo::repo_create_hook`].
pub struct RepoCreateHook {
    pub owner: String,
    pub repo: String,
    pub body: structs::CreateHookOption,
}

/// The arguments of [`super::Forgejo::repo_list_git_hooks`].
pub struct RepoListGitHooks {
    pub owner: String,
    pub repo: String,
}

/// The arguments of [`super::Forgejo::repo_get_git_hook`].
pub struct RepoGetGitHook {
    pub owner: String,
    pub repo: String,
    pub id: String,
}

/// The arguments of [`super::Forgejo::repo_delete_git_hook`].
pub struct RepoDeleteGitHook {
    pub owner: String,
    pub repo: String,
    pub id: String,
}

/// The arguments of [`super::Forgejo::repo_edit_git_hook`].
pub struct RepoEditGitHook {
    pub owner: String,
    pub repo: String,
    pub id: String,
    pub body: structs::EditGitHookOption,
}

/// The arguments of [`super::Forgejo::repo_get_hook`].
pub struct RepoGetHook {
    pub owner: String,
    pub repo: String,
    pub id: i64,
}

/// The arguments of [`super::Forgejo::repo_delete_hook`].
pub struct RepoDeleteHook {
    pub owner: String,
    pub repo: String,
    pub id: i64,
}

/// The arguments of [`super::Forgejo::repo_edit_hook`].
pub struct RepoEditHook {
    pub owner: String,
    pub repo: String,
    pub id: i64,
    pub body: structs::EditHookOption,
}

/// The arguments of [`super::Forgejo::repo_test_hook`].
pub struct RepoTestHook {
    pub owner: String,
    pub repo: String,
    pub id: i64,
    pub query: structs::RepoTestHookQuery,
}

/// The arguments of [`super::Forgejo::repo_get_issue_config`].
pub struct RepoGetIssueConfig {
    pub owner: String,
    pub repo: String,
}

/// The arguments of [`super::Forgejo::repo_validate_issue_config`].
pub struct RepoValidateIssueConfig {
    pub owner: String,
    pub repo: String,
}

/// The arguments of [`super::Forgejo::repo_get_issue_templates`].
pub struct RepoGetIssueTemplates {
    pub owner: String,
    pub repo: String,
}

/// The arguments of [`super::Forgejo::issue_list_issues`].
pub struct IssueListIssues {
    pub owner: String,
    pub repo: String,
    pub query: structs::IssueListIssuesQuery,
}

/// The arguments of [`super::Forgejo::issue_create_issue`].
pub struct IssueCreateIssue {
    pub owner: String,
    pub repo: String,
    pub body: structs::CreateIssueOption,
}

/// The arguments of [`super::Forgejo::issue_get_repo_comments`].
pub struct IssueGetRepoComments {
    pub owner: String,
    pub repo: String,
    pub query: structs::IssueGetRepoCommentsQuery,
}

/// The arguments of [`super::Forgejo::issue_get_comment`].
pub struct IssueGetComment {
    pub owner: String,
    pub repo: String,
    pub id: i64,
}

/// The arguments of [`super::Forgejo::issue_delete_comment`].
pub struct IssueDeleteComment {
    pub owner: String,
    pub repo: String,
    pub id: i64,
}

/// The arguments of [`super::Forgejo::issue_edit_comment`].
pub struct IssueEditComment {
    pub owner: String,
    pub repo: String,
    pub id: i64,
    pub body: structs::EditIssueCommentOption,
}

/// The arguments of [`super::Forgejo::issue_list_issue_comment_attachments`].
pub struct IssueListIssueCommentAttachments {
    pub owner: String,
    pub repo: String,
    pub id: i64,
}

/// The arguments of [`super::Forgejo::issue_create_issue_comment_attachment`].
pub struct IssueCreateIssueCommentAttachment {
    pub owner: String,
    pub repo: String,
    pub id: i64,
    pub attachment: Vec<u8>,
    pub query: structs::IssueCreateIssueCommentAttachmentQuery,
}

/// The arguments of [`super::Forgejo::issue_get_issue_comment_attachment`].
pub struct IssueGetIssueCommentAttachment {
    pub owner: String,
    pub repo: String,
    pub id: i64,
    pub attachment_id: i64,
}

/// The arguments of [`super::Forgejo::issue_delete_issue_comment_attachment`].
pub struct IssueDeleteIssueCommentAttachment {
    pub owner: String,
    pub repo: String,
    pub id: i64,
    pub attachment_id: i64,
}

/// The arguments of [`super::Forgejo::issue_edit_issue_comment_attachment`].
pub struct IssueEditIssueCommentAttachment {
    pub owner: String,
    pub repo: String,
    pub id: i64,
    pub attachment_id: i64,
    pub body: structs::EditAttachmentOptions,
}

/// The arguments of [`super::Forgejo::issue_get_comment_reactions`].
pub struct IssueGetCommentReactions {
    pub owner: String,
    pub repo: String,
    pub id: i64,
}

/// The arguments of [`super::Forgejo::issue_post_comment_reaction`].
pub struct IssuePostCommentReaction {
    pub owner: String,
    pub repo: String,
    pub id: i64,
    pub body: structs::EditReactionOption,
}

/// The arguments of [`super::Forgejo::issue_delete_comment_reaction`].
pub struct IssueDeleteCommentReaction {
    pub owner: String,
    pub repo: String,
    pub id: i64,
    pub body: structs::EditReactionOption,
}

/// The arguments of [`super::Forgejo::repo_list_pinned_issues`].
pub struct RepoListPinnedIssues {
    pub owner: String,
    pub repo: String,
}

/// The arguments of [`super::Forgejo::issue_get_issue`].
pub struct IssueGetIssue {
    pub owner: String,
    pub repo: String,
    pub index: i64,
}

/// The arguments of [`super::Forgejo::issue_delete`].
pub struct IssueDelete {
    pub owner: String,
    pub repo: String,
    pub index: i64,
}

/// The arguments of [`super::Forgejo::issue_edit_issue`].
pub struct IssueEditIssue {
    pub owner: String,
    pub repo: String,
    pub index: i64,
    pub body: structs::EditIssueOption,
}

/// The arguments of [`super::Forgejo::issue_list_issue_attachments`].
pub struct IssueListIssueAttachments {
    pub owner: String,
    pub repo: String,
    pub index: i64,
}

/// The arguments of [`super::Forgejo::issue_create_issue_attachment`].
pub struct IssueCreateIssueAttachment {
    pub owner: String,
    pub repo: String,
    pub index: i64,
    pub attachment: Vec<u8>,
    pub query: structs::IssueCreateIssueAttachmentQuery,
}

/// The arguments of [`super::Forgejo::issue_get_issue_attachment`].
pub struct IssueGetIssueAttachment {
    pub owner: String,
    pub repo: String,
    pub index: i64,
    pub attachment_id: i64,
}

/// The arguments of [`super::Forgejo::issue_delete_issue_attachment`].
pub struct IssueDeleteIssueAttachment {
    pub owner: String,
    pub repo: String,
    pub index: i64,
    pub attachment_id: i64,
}

/// The arguments of [`super::Forgejo::issue_edit_issue_attachment`].
pub struct IssueEditIssueAttachment {
    pub owner: String,
    pub repo: String,
    pub index: i64,
    pub attachment_id: i64,
    pub body: structs::EditAttachmentOptions,
}

/// The arguments of [`super::Forgejo::issue_list_blocks`].
pub struct IssueListBlocks {
    pub owner: String,
    pub repo: String,
    pub index: i64,
}

/// The arguments of [`super::Forgejo::issue_create_issue_blocking`].
pub struct IssueCreateIssueBlocking {
    pub owner: String,
    pub repo: String,
    pub index: i64,
    pub body: structs::IssueMeta,
}

/// The arguments of [`super::Forgejo::issue_remove_issue_blocking`].
pub struct IssueRemoveIssueBlocking {
    pub owner: String,
    pub repo: String,
    pub index: i64,
    pub body: structs::IssueMeta,
}

/// The arguments of [`super::Forgejo::issue_get_comments`].
pub struct IssueGetComments {
    pub owner: String,
    pub repo: String,
    pub index: i64,
    pub query: structs::IssueGetCommentsQuery,
}

/// The arguments of [`super::Forgejo::issue_create_comment`].
pub struct IssueCreateComment {
    pub owner: String,
    pub repo: String,
    pub index: i64,
    pub body: structs::CreateIssueCommentOption,
}

/// The arguments of [`super::Forgejo::issue_delete_comment_deprecated`].
pub struct IssueDeleteCommentDeprecated {
    pub owner: String,
    pub repo: String,
    pub index: u32,
    pub id: i64,
}

/// The arguments of [`super::Forgejo::issue_edit_comment_deprecated`].
pub struct IssueEditCommentDeprecated {
    pub owner: String,
    pub repo: String,
    pub index: u32,
    pub id: i64,
    pub body: structs::EditIssueCommentOption,
}

/// The arguments of [`super::Forgejo::issue_edit_issue_deadline`].
pub struct IssueEditIssueDeadline {
    pub owner: String,
    pub repo: String,
    pub index: i64,
    pub body: structs::EditDeadlineOption,
}

/// The arguments of [`super::Forgejo::issue_list_issue_dependencies`].
pub struct IssueListIssueDependencies {
    pub owner: String,
    pub repo: String,
    pub index: i64,
}

/// The arguments of [`super::Forgejo::issue_create_issue_dependencies`].
pub struct IssueCreateIssueDependencies {
    pub owner: String,
    pub repo: String,
    pub index: i64,
    pub body: structs::IssueMeta,
}

/// The arguments of [`super::Forgejo::issue_remove_issue_dependencies`].
pub struct IssueRemoveIssueDependencies {
    pub owner: String,
    pub repo: String,
    pub index: i64,
    pub body: structs::IssueMeta,
}

/// The arguments of [`super::Forgejo::issue_get_labels`].
pub struct IssueGetLabels {
    pub owner: String,
    pub repo: String,
    pub index: i64,
}

/// The arguments of [`super::Forgejo::issue_replace_labels`].
pub struct IssueReplaceLabels {
    pub owner: String,
    pub repo: String,
    pub index: i64,
    pub body: structs::IssueLabelsOption,
}

/// The arguments of [`super::Forgejo::issue_add_label`].
pub struct IssueAddLabel {
    pub owner: String,
    pub repo: String,
    pub index: i64,
    pub body: structs::IssueLabelsOption,
}

/// The arguments of [`super::Forgejo::issue_clear_labels`].
pub struct IssueClearLabels {
    pub owner: String,
    pub repo: String,
    pub index: i64,
    pub body: structs::DeleteLabelsOption,
}

/// The arguments of [`super::Forgejo::issue_remove_label`].
pub struct IssueRemoveLabel {
    pub owner: String,
    pub repo: String,
    pub index: i64,
    pub identifier: String,
    pub body: structs::DeleteLabelsOption,
}

/// The arguments of [`super::Forgejo::pin_issue`].
pub struct PinIssue {
    pub owner: String,
    pub repo: String,
    pub index: i64,
}

/// The arguments of [`super::Forgejo::unpin_issue`].
pub struct UnpinIssue {
    pub owner: String,
    pub repo: String,
    pub index: i64,
}

/// The arguments of [`super::Forgejo::move_issue_pin`].
pub struct MoveIssuePin {
    pub owner: String,
    pub repo: String,
    pub index: i64,
    pub position: i64,
}

/// The arguments of [`super::Forgejo::issue_get_issue_reactions`].
pub struct IssueGetIssueReactions {
    pub owner: String,
    pub repo: String,
    pub index: i64,
}

/// The arguments of [`super::Forgejo::issue_post_issue_reaction`].
pub struct IssuePostIssueReaction {
    pub owner: String,
    pub repo: String,
    pub index: i64,
    pub body: structs::EditReactionOption,
}

/// The arguments of [`super::Forgejo::issue_delete_issue_reaction`].
pub struct IssueDeleteIssueReaction {
    pub owner: String,
    pub repo: String,
    pub index: i64,
    pub body: structs::EditReactionOption,
}

/// The arguments of [`super::Forgejo::issue_delete_stop_watch`].
pub struct IssueDeleteStopWatch {
    pub owner: String,
    pub repo: String,
    pub index: i64,
}

/// The arguments of [`super::Forgejo::issue_start_stop_watch`].
pub struct IssueStartStopWatch {
    pub owner: String,
    pub repo: String,
    pub index: i64,
}

/// The arguments of [`super::Forgejo::issue_stop_stop_watch`].
pub struct IssueStopStopWatch {
    pub owner: String,
    pub repo: String,
    pub index: i64,
}

/// The arguments of [`super::Forgejo::issue_subscriptions`].
pub struct IssueSubscriptions {
    pub owner: String,
    pub repo: String,
    pub index: i64,
}

/// The arguments of [`super::Forgejo::issue_check_subscription`].
pub struct IssueCheckSubscription {
    pub owner: String,
    pub repo: String,
    pub index: i64,
}

/// The arguments of [`super::Forgejo::issue_add_subscription`].
pub struct IssueAddSubscription {
    pub owner: String,
    pub repo: String,
    pub index: i64,
    pub user: String,
}

/// The arguments of [`super::Forgejo::issue_delete_subscription`].
pub struct IssueDeleteSubscription {
    pub owner: String,
    pub repo: String,
    pub index: i64,
    pub user: String,
}

/// The arguments of [`super::Forgejo::issue_get_comments_and_timeline`].
pub struct IssueGetCommentsAndTimeline {
    pub owner: String,
    pub repo: String,
    pub index: i64,
    pub query: structs::IssueGetCommentsAndTimelineQuery,
}

/// The arguments of [`super::Forgejo::issue_tracked_times`].
pub struct IssueTrackedTimes {
    pub owner: String,
    pub repo: String,
    pub index: i64,
    pub query: structs::IssueTrackedTimesQuery,
}

/// The arguments of [`super::Forgejo::issue_add_time`].
pub struct IssueAddTime {
    pub owner: String,
    pub repo: String,
    pub index: i64,
    pub body: structs::AddTimeOption,
}

/// The arguments of [`super::Forgejo::issue_reset_time`].
pub struct IssueResetTime {
    pub owner: String,
    pub repo: String,
    pub index: i64,
}

/// The arguments of [`super::Forgejo::issue_delete_time`].
pub struct IssueDeleteTime {
    pub owner: String,
    pub repo: String,
    pub index: i64,
    pub id: i64,
}

/// The arguments of [`super::Forgejo::repo_list_keys`].
pub struct RepoListKeys {
    pub owner: String,
    pub repo: String,
    pub query: structs::RepoListKeysQuery,
}

/// The arguments of [`super::Forgejo::repo_create_key`].
pub struct RepoCreateKey {
    pub owner: String,
    pub repo: String,
    pub body: structs::CreateKeyOption,
}

/// The arguments of [`super::Forgejo::repo_get_key`].
pub struct RepoGetKey {
    pub owner: String,
    pub repo: String,
    pub id: i64,
}

/// The arguments of [`super::Forgejo::repo_delete_key`].
pub struct RepoDeleteKey {
    pub owner: String,
    pub repo: String,
    pub id: i64,
}

/// The arguments of [`super::Forgejo::issue_list_labels`].
pub struct IssueListLabels {
    pub owner: String,
    pub repo: String,
    pub query: structs::IssueListLabelsQuery,
}

/// The arguments of [`super::Forgejo::issue_create_label`].
pub struct IssueCreateLabel {
    pub owner: String,
    pub repo: String,
    pub body: structs::CreateLabelOption,
}

/// The arguments of [`super::Forgejo::issue_get_label`].
pub struct IssueGetLabel {
    pub owner: String,
    pub repo: String,
    pub id: i64,
}

/// The arguments of [`super::Forgejo::issue_delete_label`].
pub struct IssueDeleteLabel {
    pub owner: String,
    pub repo: String,
    pub id: i64,
}

/// The arguments of [`super::Forgejo::issue_edit_label`].
pub struct IssueEditLabel {
    pub owner: String,
    pub repo: String,
    pub id: i64,
    pub body: structs::EditLabelOption,
}

/// The arguments of [`super::Forgejo::repo_get_languages`].
pub struct RepoGetLanguages {
    pub owner: String,
    pub repo: String,
}

/// The arguments of [`super::Forgejo::repo_get_raw_file_or_lfs`].
pub struct RepoGetRawFileOrLfs {
    pub owner: String,
    pub repo: String,
    pub filepath: String,
    pub query: structs::RepoGetRawFileOrLfsQuery,
}

/// The arguments of [`super::Forgejo::issue_get_milestones_list`].
pub struct IssueGetMilestonesList {
    pub owner: String,
    pub repo: String,
    pub query: structs::IssueGetMilestonesListQuery,
}

/// The arguments of [`super::Forgejo::issue_create_milestone`].
pub struct IssueCreateMilestone {
    pub owner: String,
    pub repo: String,
    pub body: structs::CreateMilestoneOption,
}

/// The arguments of [`super::Forgejo::issue_get_milestone`].
pub struct IssueGetMilestone {
    pub owner: String,
    pub repo: String,
    pub id: i64,
}

/// The arguments of [`super::Forgejo::issue_delete_milestone`].
pub struct IssueDeleteMilestone {
    pub owner: String,
    pub repo: String,
    pub id: i64,
}

/// The arguments of [`super::Forgejo::issue_edit_milestone`].
pub struct IssueEditMilestone {
    pub owner: String,
    pub repo: String,
    pub id: i64,
    pub body: structs::EditMilestoneOption,
}

/// The arguments of [`super::Forgejo::repo_mirror_sync`].
pub struct RepoMirrorSync {
    pub owner: String,
    pub repo: String,
}

/// The arguments of [`super::Forgejo::repo_new_pin_allowed`].
pub struct RepoNewPinAllowed {
    pub owner: String,
    pub repo: String,
}

/// The arguments of [`super::Forgejo::notify_get_repo_list`].
pub struct NotifyGetRepoList {
    pub owner: String,
    pub repo: String,
    pub query: structs::NotifyGetRepoListQuery,
}

/// The arguments of [`super::Forgejo::notify_read_repo_list`].
pub struct NotifyReadRepoList {
    pub owner: String,
    pub repo: String,
    pub query: structs::NotifyReadRepoListQuery,
}

/// The arguments of [`super::Forgejo::repo_list_pull_requests`].
pub struct RepoListPullRequests {
    pub owner: String,
    pub repo: String,
    pub query: structs::RepoListPullRequestsQuery,
}

/// The arguments of [`super::Forgejo::repo_create_pull_request`].
pub struct RepoCreatePullRequest {
    pub owner: String,
    pub repo: String,
    pub body: structs::CreatePullRequestOption,
}

/// The arguments of [`super::Forgejo::repo_list_pinned_pull_requests`].
pub struct RepoListPinnedPullRequests {
    pub owner: String,
    pub repo: String,
}

/// The arguments of [`super::Forgejo::repo_get_pull_request_by_base_head`].
pub struct RepoGetPullRequestByBaseHead {
    pub owner: String,
    pub repo: String,
    pub base: String,
    pub head: String,
}

/// The arguments of [`super::Forgejo::repo_get_pull_request`].
pub struct RepoGetPullRequest {
    pub owner: String,
    pub repo: String,
    pub index: i64,
}

/// The arguments of [`super::Forgejo::repo_edit_pull_request`].
pub struct RepoEditPullRequest {
    pub owner: String,
    pub repo: String,
    pub index: i64,
    pub body: structs::EditPullRequestOption,
}

/// The arguments of [`super::Forgejo::repo_download_pull_diff_or_patch`].
pub struct RepoDownloadPullDiffOrPatch {
    pub owner: String,
    pub repo: String,
    pub index: i64,
    pub diff_type: String,
    pub query: structs::RepoDownloadPullDiffOrPatchQuery,
}

/// The arguments of [`super::Forgejo::repo_get_pull_request_commits`].
pub struct RepoGetPullRequestCommits {
    pub owner: String,
    pub repo: String,
    pub index: i64,
    pub query: structs::RepoGetPullRequestCommitsQuery,
}

/// The arguments of [`super::Forgejo::repo_get_pull_request_files`].
pub struct RepoGetPullRequestFiles {
    pub owner: String,
    pub repo: String,
    pub index: i64,
    pub query: structs::RepoGetPullRequestFilesQuery,
}

/// The arguments of [`super::Forgejo::repo_pull_request_is_merged`].
pub struct RepoPullRequestIsMerged {
    pub owner: String,
    pub repo: String,
    pub index: i64,
}

/// The arguments of [`super::Forgejo::repo_merge_pull_request`].
pub struct RepoMergePullRequest {
    pub owner: String,
    pub repo: String,
    pub index: i64,
    pub body: structs::MergePullRequestOption,
}

/// The arguments of [`super::Forgejo::repo_cancel_scheduled_auto_merge`].
pub struct RepoCancelScheduledAutoMerge {
    pub owner: String,
    pub repo: String,
    pub index: i64,
}

/// The arguments of [`super::Forgejo::repo_create_pull_review_requests`].
pub struct RepoCreatePullReviewRequests {
    pub owner: String,
    pub repo: String,
    pub index: i64,
    pub body: structs::PullReviewRequestOptions,
}

/// The arguments of [`super::Forgejo::repo_delete_pull_review_requests`].
pub struct RepoDeletePullReviewRequests {
    pub owner: String,
    pub repo: String,
    pub index: i64,
    pub body: structs::PullReviewRequestOptions,
}

/// The arguments of [`super::Forgejo::repo_list_pull_reviews`].
pub struct RepoListPullReviews {
    pub owner: String,
    pub repo: String,
    pub index: i64,
}

/// The arguments of [`super::Forgejo::repo_create_pull_review`].
pub struct RepoCreatePullReview {
    pub owner: String,
    pub repo: String,
    pub index: i64,
    pub body: structs::CreatePullReviewOptions,
}

/// The arguments of [`super::Forgejo::repo_get_pull_review`].
pub struct RepoGetPullReview {
    pub owner: String,
    pub repo: String,
    pub index: i64,
    pub id: i64,
}

/// The arguments of [`super::Forgejo::repo_submit_pull_review`].
pub struct RepoSubmitPullReview {
    pub owner: String,
    pub repo: String,
    pub index: i64,
    pub id: i64,
    pub body: structs::SubmitPullReviewOptions,
}

/// The arguments of [`super::Forgejo::repo_delete_pull_review`].
pub struct RepoDeletePullReview {
    pub owner: String,
    pub repo: String,
    pub index: i64,
    pub id: i64,
}

/// The arguments of [`super::Forgejo::repo_get_pull_review_comments`].
pub struct RepoGetPullReviewComments {
    pub owner: String,
    pub repo: String,
    pub index: i64,
    pub id: i64,
}

/// The arguments of [`super::Forgejo::repo_create_pull_review_comment`].
pub struct RepoCreatePullReviewComment {
    pub owner: String,
    pub repo: String,
    pub index: i64,
    pub id: i64,
    pub body: serde_json::Value,
}

/// The arguments of [`super::Forgejo::repo_get_pull_review_comment`].
pub struct RepoGetPullReviewComment {
    pub owner: String,
    pub repo: String,
    pub index: i64,
    pub id: i64,
    pub comment: i64,
}

/// The arguments of [`super::Forgejo::repo_delete_pull_review_comment`].
pub struct RepoDeletePullReviewComment {
    pub owner: String,
    pub repo: String,
    pub index: i64,
    pub id: i64,
    pub comment: i64,
}

/// The arguments of [`super::Forgejo::repo_dismiss_pull_review`].
pub struct RepoDismissPullReview {
    pub owner: String,
    pub repo: String,
    pub index: i64,
    pub id: i64,
    pub body: structs::DismissPullReviewOptions,
}

/// The arguments of [`super::Forgejo::repo_un_dismiss_pull_review`].
pub struct RepoUnDismissPullReview {
    pub owner: String,
    pub repo: String,
    pub index: i64,
    pub id: i64,
}

/// The arguments of [`super::Forgejo::repo_update_pull_request`].
pub struct RepoUpdatePullRequest {
    pub owner: String,
    pub repo: String,
    pub index: i64,
    pub query: structs::RepoUpdatePullRequestQuery,
}

/// The arguments of [`super::Forgejo::repo_list_push_mirrors`].
pub struct RepoListPushMirrors {
    pub owner: String,
    pub repo: String,
}

/// The arguments of [`super::Forgejo::repo_add_push_mirror`].
pub struct RepoAddPushMirror {
    pub owner: String,
    pub repo: String,
    pub body: structs::CreatePushMirrorOption,
}

/// The arguments of [`super::Forgejo::repo_push_mirror_sync`].
pub struct RepoPushMirrorSync {
    pub owner: String,
    pub repo: String,
}

/// The arguments of [`super::Forgejo::repo_get_push_mirror_by_remote_name`].
pub struct RepoGetPushMirrorByRemoteName {
    pub owner: String,
    pub repo: String,
    pub name: String,
}

/// The arguments of [`super::Forgejo::repo_delete_push_mirror`].
pub struct RepoDeletePushMirror {
    pub owner: String,
    pub repo: String,
    pub name: String,
}

/// The arguments of [`super::Forgejo::repo_get_raw_file`].
pub struct RepoGetRawFile {
    pub owner: String,
    pub repo: String,
    pub filepath: String,
    pub query: structs::RepoGetRawFileQuery,
}

/// The arguments of [`super::Forgejo::repo_list_releases`].
pub struct RepoListReleases {
    pub owner: String,
    pub repo: String,
    pub query: structs::RepoListReleasesQuery,
}

/// The arguments of [`super::Forgejo::repo_create_release`].
pub struct RepoCreateRelease {
    pub owner: String,
    pub repo: String,
    pub body: structs::CreateReleaseOption,
}

/// The arguments of [`super::Forgejo::repo_get_latest_release`].
pub struct RepoGetLatestRelease {
    pub owner: String,
    pub repo: String,
}

/// The arguments of [`super::Forgejo::repo_get_release_by_tag`].
pub struct RepoGetReleaseByTag {
    pub owner: String,
    pub repo: String,
    pub tag: String,
}

/// The arguments of [`super::Forgejo::repo_delete_release_by_tag`].
pub struct RepoDeleteReleaseByTag {
    pub owner: String,
    pub repo: String,
    pub tag: String,
}

/// The arguments of [`super::Forgejo::repo_get_release`].
pub struct RepoGetRelease {
    pub owner: String,
    pub repo: String,
    pub id: i64,
}

/// The arguments of [`super::Forgejo::repo_delete_release`].
pub struct RepoDeleteRelease {
    pub owner: String,
    pub repo: String,
    pub id: i64,
}

/// The arguments of [`super::Forgejo::repo_edit_release`].
pub struct RepoEditRelease {
    pub owner: String,
    pub repo: String,
    pub id: i64,
    pub body: structs::EditReleaseOption,
}

/// The arguments of [`super::Forgejo::repo_list_release_attachments`].
pub struct RepoListReleaseAttachments {
    pub owner: String,
    pub repo: String,
    pub id: i64,
}

/// The arguments of [`super::Forgejo::repo_create_release_attachment`].
pub struct RepoCreateReleaseAttachment {
    pub owner: String,
    pub repo: String,
    pub id: i64,
    pub attachment: Option<Vec<u8>>,
    pub external_url: Option<String>,
    pub query: structs::RepoCreateReleaseAttachmentQuery,
}

/// The arguments of [`super::Forgejo::repo_get_release_attachment`].
pub struct RepoGetReleaseAttachment {
    pub owner: String,
    pub repo: String,
    pub id: i64,
    pub attachment_id: i64,
}

/// The arguments of [`super::Forgejo::repo_delete_release_attachment`].
pub struct RepoDeleteReleaseAttachment {
    pub owner: String,
    pub repo: String,
    pub id: i64,
    pub attachment_id: i64,
}

/// The arguments of [`super::Forgejo::repo_edit_release_attachment`].
pub struct RepoEditReleaseAttachment {
    pub owner: String,
    pub repo: String,
    pub id: i64,
    pub attachment_id: i64,
    pub body: structs::EditAttachmentOptions,
}

/// The arguments of [`super::Forgejo::repo_get_reviewers`].
pub struct RepoGetReviewers {
    pub owner: String,
    pub repo: String,
}

/// The arguments of [`super::Forgejo::repo_signing_key`].
pub struct RepoSigningKey {
    pub owner: String,
    pub repo: String,
}

/// The arguments of [`super::Forgejo::repo_list_stargazers`].
pub struct RepoListStargazers {
    pub owner: String,
    pub repo: String,
}

/// The arguments of [`super::Forgejo::repo_list_statuses`].
pub struct RepoListStatuses {
    pub owner: String,
    pub repo: String,
    pub sha: String,
    pub query: structs::RepoListStatusesQuery,
}

/// The arguments of [`super::Forgejo::repo_create_status`].
pub struct RepoCreateStatus {
    pub owner: String,
    pub repo: String,
    pub sha: String,
    pub body: structs::CreateStatusOption,
}

/// The arguments of [`super::Forgejo::repo_list_subscribers`].
pub struct RepoListSubscribers {
    pub owner: String,
    pub repo: String,
}

/// The arguments of [`super::Forgejo::user_current_check_subscription`].
pub struct UserCurrentCheckSubscription {
    pub owner: String,
    pub repo: String,
}

/// The arguments of [`super::Forgejo::user_current_put_subscription`].
pub struct UserCurrentPutSubscription {
    pub owner: String,
    pub repo: String,
}

/// The arguments of [`super::Forgejo::user_current_delete_subscription`].
pub struct UserCurrentDeleteSubscription {
    pub owner: String,
    pub repo: String,
}

/// The arguments of [`super::Forgejo::repo_sync_fork_default_info`].
pub struct RepoSyncForkDefaultInfo {
    pub owner: String,
    pub repo: String,
}

/// The arguments of [`super::Forgejo::repo_sync_fork_default`].
pub struct RepoSyncForkDefault {
    pub owner: String,
    pub repo: String,
}

/// The arguments of [`super::Forgejo::repo_sync_fork_branch_info`].
pub struct RepoSyncForkBranchInfo {
    pub owner: String,
    pub repo: String,
    pub branch: String,
}

/// The arguments of [`super::Forgejo::repo_sync_fork_branch`].
pub struct RepoSyncForkBranch {
    pub owner: String,
    pub repo: String,
    pub branch: String,
}

/// The arguments of [`super::Forgejo::repo_list_tag_protection`].
pub struct RepoListTagProtection {
    pub owner: String,
    pub repo: String,
}

/// The arguments of [`super::Forgejo::repo_create_tag_protection`].
pub struct RepoCreateTagProtection {
    pub owner: String,
    pub repo: String,
    pub body: structs::CreateTagProtectionOption,
}

/// The arguments of [`super::Forgejo::repo_get_tag_protection`].
pub struct RepoGetTagProtection {
    pub owner: String,
    pub repo: String,
    pub id: i64,
}

/// The arguments of [`super::Forgejo::repo_delete_tag_protection`].
pub struct RepoDeleteTagProtection {
    pub owner: String,
    pub repo: String,
    pub id: i64,
}

/// The arguments of [`super::Forgejo::repo_edit_tag_protection`].
pub struct RepoEditTagProtection {
    pub owner: String,
    pub repo: String,
    pub id: i64,
    pub body: structs::EditTagProtectionOption,
}

/// The arguments of [`super::Forgejo::repo_list_tags`].
pub struct RepoListTags {
    pub owner: String,
    pub repo: String,
}

/// The arguments of [`super::Forgejo::repo_create_tag`].
pub struct RepoCreateTag {
    pub owner: String,
    pub repo: String,
    pub body: structs::CreateTagOption,
}

/// The arguments of [`super::Forgejo::repo_get_tag`].
pub struct RepoGetTag {
    pub owner: String,
    pub repo: String,
    pub tag: String,
}

/// The arguments of [`super::Forgejo::repo_delete_tag`].
pub struct RepoDeleteTag {
    pub owner: String,
    pub repo: String,
    pub tag: String,
}

/// The arguments of [`super::Forgejo::repo_list_teams`].
pub struct RepoListTeams {
    pub owner: String,
    pub repo: String,
}

/// The arguments of [`super::Forgejo::repo_check_team`].
pub struct RepoCheckTeam {
    pub owner: String,
    pub repo: String,
    pub team: String,
}

/// The arguments of [`super::Forgejo::repo_add_team`].
pub struct RepoAddTeam {
    pub owner: String,
    pub repo: String,
    pub team: String,
}

/// The arguments of [`super::Forgejo::repo_delete_team`].
pub struct RepoDeleteTeam {
    pub owner: String,
    pub repo: String,
    pub team: String,
}

/// The arguments of [`super::Forgejo::repo_tracked_times`].
pub struct RepoTrackedTimes {
    pub owner: String,
    pub repo: String,
    pub query: structs::RepoTrackedTimesQuery,
}

/// The arguments of [`super::Forgejo::user_tracked_times`].
pub struct UserTrackedTimes {
    pub owner: String,
    pub repo: String,
    pub user: String,
}

/// The arguments of [`super::Forgejo::repo_list_topics`].
pub struct RepoListTopics {
    pub owner: String,
    pub repo: String,
}

/// The arguments of [`super::Forgejo::repo_update_topics`].
pub struct RepoUpdateTopics {
    pub owner: String,
    pub repo: String,
    pub body: structs::RepoTopicOptions,
}

/// The arguments of [`super::Forgejo::repo_add_topic`].
pub struct RepoAddTopic {
    pub owner: String,
    pub repo: String,
    pub topic: String,
}

/// The arguments of [`super::Forgejo::repo_delete_topic`].
pub struct RepoDeleteTopic {
    pub owner: String,
    pub repo: String,
    pub topic: String,
}

/// The arguments of [`super::Forgejo::repo_transfer`].
pub struct RepoTransfer {
    pub owner: String,
    pub repo: String,
    pub body: structs::TransferRepoOption,
}

/// The arguments of [`super::Forgejo::accept_repo_transfer`].
pub struct AcceptRepoTransfer {
    pub owner: String,
    pub repo: String,
}

/// The arguments of [`super::Forgejo::reject_repo_transfer`].
pub struct RejectRepoTransfer {
    pub owner: String,
    pub repo: String,
}

/// The arguments of [`super::Forgejo::repo_create_wiki_page`].
pub struct RepoCreateWikiPage {
    pub owner: String,
    pub repo: String,
    pub body: structs::CreateWikiPageOptions,
}

/// The arguments of [`super::Forgejo::repo_get_wiki_page`].
pub struct RepoGetWikiPage {
    pub owner: String,
    pub repo: String,
    pub page_name: String,
}

/// The arguments of [`super::Forgejo::repo_delete_wiki_page`].
pub struct RepoDeleteWikiPage {
    pub owner: String,
    pub repo: String,
    pub page_name: String,
}

/// The arguments of [`super::Forgejo::repo_edit_wiki_page`].
pub struct RepoEditWikiPage {
    pub owner: String,
    pub repo: String,
    pub page_name: String,
    pub body: structs::CreateWikiPageOptions,
}

/// The arguments of [`super::Forgejo::repo_get_wiki_pages`].
pub struct RepoGetWikiPages {
    pub owner: String,
    pub repo: String,
}

/// The arguments of [`super::Forgejo::repo_get_wiki_page_revisions`].
pub struct RepoGetWikiPageRevisions {
    pub owner: String,
    pub repo: String,
    pub page_name: String,
}

/// The arguments of [`super::Forgejo::generate_repo`].
pub struct GenerateRepo {
    pub template_owner: String,
    pub template_repo: String,
    pub body: structs::GenerateRepoOption,
}

/// The arguments of [`super::Forgejo::repo_get_by_id`].
pub struct RepoGetById {
    pub id: i64,
}

/// The arguments of [`super::Forgejo::get_general_api_settings`].
pub struct GetGeneralApiSettings {}

/// The arguments of [`super::Forgejo::get_general_attachment_settings`].
pub struct GetGeneralAttachmentSettings {}

/// The arguments of [`super::Forgejo::get_general_repository_settings`].
pub struct GetGeneralRepositorySettings {}

/// The arguments of [`super::Forgejo::get_general_ui_settings`].
pub struct GetGeneralUiSettings {}

/// The arguments of [`super::Forgejo::get_signing_key`].
pub struct GetSigningKey {}

/// The arguments of [`super::Forgejo::get_ssh_signing_key`].
pub struct GetSshSigningKey {}

/// The arguments of [`super::Forgejo::org_get_team`].
pub struct OrgGetTeam {
    pub id: i64,
}

/// The arguments of [`super::Forgejo::org_delete_team`].
pub struct OrgDeleteTeam {
    pub id: i64,
}

/// The arguments of [`super::Forgejo::org_edit_team`].
pub struct OrgEditTeam {
    pub id: i64,
    pub body: structs::EditTeamOption,
}

/// The arguments of [`super::Forgejo::org_list_team_activity_feeds`].
pub struct OrgListTeamActivityFeeds {
    pub id: i64,
    pub query: structs::OrgListTeamActivityFeedsQuery,
}

/// The arguments of [`super::Forgejo::org_list_team_members`].
pub struct OrgListTeamMembers {
    pub id: i64,
}

/// The arguments of [`super::Forgejo::org_list_team_member`].
pub struct OrgListTeamMember {
    pub id: i64,
    pub username: String,
}

/// The arguments of [`super::Forgejo::org_add_team_member`].
pub struct OrgAddTeamMember {
    pub id: i64,
    pub username: String,
}

/// The arguments of [`super::Forgejo::org_remove_team_member`].
pub struct OrgRemoveTeamMember {
    pub id: i64,
    pub username: String,
}

/// The arguments of [`super::Forgejo::org_list_team_repos`].
pub struct OrgListTeamRepos {
    pub id: i64,
}

/// The arguments of [`super::Forgejo::org_list_team_repo`].
pub struct OrgListTeamRepo {
    pub id: i64,
    pub org: String,
    pub repo: String,
}

/// The arguments of [`super::Forgejo::org_add_team_repository`].
pub struct OrgAddTeamRepository {
    pub id: i64,
    pub org: String,
    pub repo: String,
}

/// The arguments of [`super::Forgejo::org_remove_team_repository`].
pub struct OrgRemoveTeamRepository {
    pub id: i64,
    pub org: String,
    pub repo: String,
}

/// The arguments of [`super::Forgejo::topic_search`].
pub struct TopicSearch {
    pub query: structs::TopicSearchQuery,
}

/// The arguments of [`super::Forgejo::user_get_current`].
pub struct UserGetCurrent {}

/// The arguments of [`super::Forgejo::user_search_run_jobs`].
pub struct UserSearchRunJobs {
    pub query: structs::UserSearchRunJobsQuery,
}

/// The arguments of [`super::Forgejo::user_get_runner_registration_token`].
pub struct UserGetRunnerRegistrationToken {}

/// The arguments of [`super::Forgejo::update_user_secret`].
pub struct UpdateUserSecret {
    pub secretname: String,
    pub body: structs::CreateOrUpdateSecretOption,
}

/// The arguments of [`super::Forgejo::delete_user_secret`].
pub struct DeleteUserSecret {
    pub secretname: String,
}

/// The arguments of [`super::Forgejo::get_user_variables_list`].
pub struct GetUserVariablesList {}

/// The arguments of [`super::Forgejo::get_user_variable`].
pub struct GetUserVariable {
    pub variablename: String,
}

/// The arguments of [`super::Forgejo::update_user_variable`].
pub struct UpdateUserVariable {
    pub variablename: String,
    pub body: structs::UpdateVariableOption,
}

/// The arguments of [`super::Forgejo::create_user_variable`].
pub struct CreateUserVariable {
    pub variablename: String,
    pub body: structs::CreateVariableOption,
}

/// The arguments of [`super::Forgejo::delete_user_variable`].
pub struct DeleteUserVariable {
    pub variablename: String,
}

/// The arguments of [`super::Forgejo::user_get_oauth2_applications`].
pub struct UserGetOAuth2Applications {}

/// The arguments of [`super::Forgejo::user_create_oauth2_application`].
pub struct UserCreateOAuth2Application {
    pub body: structs::CreateOAuth2ApplicationOptions,
}

/// The arguments of [`super::Forgejo::user_get_oauth2_application`].
pub struct UserGetOAuth2Application {
    pub id: i64,
}

/// The arguments of [`super::Forgejo::user_delete_oauth2_application`].
pub struct UserDeleteOAuth2Application {
    pub id: i64,
}

/// The arguments of [`super::Forgejo::user_update_oauth2_application`].
pub struct UserUpdateOAuth2Application {
    pub id: i64,
    pub body: structs::CreateOAuth2ApplicationOptions,
}

/// The arguments of [`super::Forgejo::user_update_avatar`].
pub struct UserUpdateAvatar {
    pub body: structs::UpdateUserAvatarOption,
}

/// The arguments of [`super::Forgejo::user_delete_avatar`].
pub struct UserDeleteAvatar {}

/// The arguments of [`super::Forgejo::user_block_user`].
pub struct UserBlockUser {
    pub username: String,
}

/// The arguments of [`super::Forgejo::user_list_emails`].
pub struct UserListEmails {}

/// The arguments of [`super::Forgejo::user_add_email`].
pub struct UserAddEmail {
    pub body: structs::CreateEmailOption,
}

/// The arguments of [`super::Forgejo::user_delete_email`].
pub struct UserDeleteEmail {
    pub body: structs::DeleteEmailOption,
}

/// The arguments of [`super::Forgejo::user_current_list_followers`].
pub struct UserCurrentListFollowers {}

/// The arguments of [`super::Forgejo::user_current_list_following`].
pub struct UserCurrentListFollowing {}

/// The arguments of [`super::Forgejo::user_current_check_following`].
pub struct UserCurrentCheckFollowing {
    pub username: String,
}

/// The arguments of [`super::Forgejo::user_current_put_follow`].
pub struct UserCurrentPutFollow {
    pub username: String,
}

/// The arguments of [`super::Forgejo::user_current_delete_follow`].
pub struct UserCurrentDeleteFollow {
    pub username: String,
}

/// The arguments of [`super::Forgejo::get_verification_token`].
pub struct GetVerificationToken {}

/// The arguments of [`super::Forgejo::user_verify_gpg_key`].
pub struct UserVerifyGpgKey {
    pub body: structs::VerifyGPGKeyOption,
}

/// The arguments of [`super::Forgejo::user_current_list_gpg_keys`].
pub struct UserCurrentListGpgKeys {}

/// The arguments of [`super::Forgejo::user_current_post_gpg_key`].
pub struct UserCurrentPostGpgKey {
    pub body: structs::CreateGPGKeyOption,
}

/// The arguments of [`super::Forgejo::user_current_get_gpg_key`].
pub struct UserCurrentGetGpgKey {
    pub id: i64,
}

/// The arguments of [`super::Forgejo::user_current_delete_gpg_key`].
pub struct UserCurrentDeleteGpgKey {
    pub id: i64,
}

/// The arguments of [`super::Forgejo::user_list_hooks`].
pub struct UserListHooks {}

/// The arguments of [`super::Forgejo::user_create_hook`].
pub struct UserCreateHook {
    pub body: structs::CreateHookOption,
}

/// The arguments of [`super::Forgejo::user_get_hook`].
pub struct UserGetHook {
    pub id: i64,
}

/// The arguments of [`super::Forgejo::user_delete_hook`].
pub struct UserDeleteHook {
    pub id: i64,
}

/// The arguments of [`super::Forgejo::user_edit_hook`].
pub struct UserEditHook {
    pub id: i64,
    pub body: structs::EditHookOption,
}

/// The arguments of [`super::Forgejo::user_current_list_keys`].
pub struct UserCurrentListKeys {
    pub query: structs::UserCurrentListKeysQuery,
}

/// The arguments of [`super::Forgejo::user_current_post_key`].
pub struct UserCurrentPostKey {
    pub body: structs::CreateKeyOption,
}

/// The arguments of [`super::Forgejo::user_current_get_key`].
pub struct UserCurrentGetKey {
    pub id: i64,
}

/// The arguments of [`super::Forgejo::user_current_delete_key`].
pub struct UserCurrentDeleteKey {
    pub id: i64,
}

/// The arguments of [`super::Forgejo::user_list_blocked_users`].
pub struct UserListBlockedUsers {}

/// The arguments of [`super::Forgejo::org_list_current_user_orgs`].
pub struct OrgListCurrentUserOrgs {}

/// The arguments of [`super::Forgejo::user_get_quota`].
pub struct UserGetQuota {}

/// The arguments of [`super::Forgejo::user_list_quota_artifacts`].
pub struct UserListQuotaArtifacts {}

/// The arguments of [`super::Forgejo::user_list_quota_attachments`].
pub struct UserListQuotaAttachments {}

/// The arguments of [`super::Forgejo::user_check_quota`].
pub struct UserCheckQuota {
    pub query: structs::UserCheckQuotaQuery,
}

/// The arguments of [`super::Forgejo::user_list_quota_packages`].
pub struct UserListQuotaPackages {}

/// The arguments of [`super::Forgejo::user_current_list_repos`].
pub struct UserCurrentListRepos {
    pub query: structs::UserCurrentListReposQuery,
}

/// The arguments of [`super::Forgejo::create_current_user_repo`].
pub struct CreateCurrentUserRepo {
    pub body: structs::CreateRepoOption,
}

/// The arguments of [`super::Forgejo::get_user_settings`].
pub struct GetUserSettings {}

/// The arguments of [`super::Forgejo::update_user_settings`].
pub struct UpdateUserSettings {
    pub body: structs::UserSettingsOptions,
}

/// The arguments of [`super::Forgejo::user_current_list_starred`].
pub struct UserCurrentListStarred {}

/// The arguments of [`super::Forgejo::user_current_check_starring`].
pub struct UserCurrentCheckStarring {
    pub owner: String,
    pub repo: String,
}

/// The arguments of [`super::Forgejo::user_current_put_star`].
pub struct UserCurrentPutStar {
    pub owner: String,
    pub repo: String,
}

/// The arguments of [`super::Forgejo::user_current_delete_star`].
pub struct UserCurrentDeleteStar {
    pub owner: String,
    pub repo: String,
}

/// The arguments of [`super::Forgejo::user_get_stop_watches`].
pub struct UserGetStopWatches {}

/// The arguments of [`super::Forgejo::user_current_list_subscriptions`].
pub struct UserCurrentListSubscriptions {}

/// The arguments of [`super::Forgejo::user_list_teams`].
pub struct UserListTeams {}

/// The arguments of [`super::Forgejo::user_current_tracked_times`].
pub struct UserCurrentTrackedTimes {
    pub query: structs::UserCurrentTrackedTimesQuery,
}

/// The arguments of [`super::Forgejo::user_unblock_user`].
pub struct UserUnblockUser {
    pub username: String,
}

/// The arguments of [`super::Forgejo::user_search`].
pub struct UserSearch {
    pub query: structs::UserSearchQuery,
}

/// The arguments of [`super::Forgejo::user_get`].
pub struct UserGet {
    pub username: String,
}

/// The arguments of [`super::Forgejo::user_list_activity_feeds`].
pub struct UserListActivityFeeds {
    pub username: String,
    pub query: structs::UserListActivityFeedsQuery,
}

/// The arguments of [`super::Forgejo::user_list_followers`].
pub struct UserListFollowers {
    pub username: String,
}

/// The arguments of [`super::Forgejo::user_list_following`].
pub struct UserListFollowing {
    pub username: String,
}

/// The arguments of [`super::Forgejo::user_check_following`].
pub struct UserCheckFollowing {
    pub username: String,
    pub target: String,
}

/// The arguments of [`super::Forgejo::user_list_gpg_keys`].
pub struct UserListGpgKeys {
    pub username: String,
}

/// The arguments of [`super::Forgejo::user_get_heatmap_data`].
pub struct UserGetHeatmapData {
    pub username: String,
}

/// The arguments of [`super::Forgejo::user_list_keys`].
pub struct UserListKeys {
    pub username: String,
    pub query: structs::UserListKeysQuery,
}

/// The arguments of [`super::Forgejo::org_list_user_orgs`].
pub struct OrgListUserOrgs {
    pub username: String,
}

/// The arguments of [`super::Forgejo::org_get_user_permissions`].
pub struct OrgGetUserPermissions {
    pub username: String,
    pub org: String,
}

/// The arguments of [`super::Forgejo::user_list_repos`].
pub struct UserListRepos {
    pub username: String,
}

/// The arguments of [`super::Forgejo::user_list_starred`].
pub struct UserListStarred {
    pub username: String,
}

/// The arguments of [`super::Forgejo::user_list_subscriptions`].
pub struct UserListSubscriptions {
    pub username: String,
}

/// The arguments of [`super::Forgejo::user_get_tokens`].
pub struct UserGetTokens {
    pub username: String,
}

/// The arguments of [`super::Forgejo::user_create_token`].
pub struct UserCreateToken {
    pub username: String,
    pub body: structs::CreateAccessTokenOption,
}

/// The arguments of [`super::Forgejo::user_delete_access_token`].
pub struct UserDeleteAccessToken {
    pub username: String,
    pub token: String,
}

/// The arguments of [`super::Forgejo::get_version`].
pub struct GetVersion {}

} // verus!
