use tw_rs::tw::shell::{unique_uuid_step, UniqueUuidStep};
use tw_rs::git::GitCommit;
use tw_rs::tw::collection::{
    check_not_merge_commit, check_pr_commits, commit_filter, is_tip_of, reports_conflicts, commit_update_fields, created_task_uuid, dependency_links,
    merge_fields, pr_add_fields, pr_task_fields, ApprovalAction, TaskCollection,
    TaskCollectionError, UpdateError,
};
use tw_rs::gh::PrInfo;
use tw_rs::tw::serde_types::{CiStatus, MergeStatus, ReviewStatus, Task};
use tw_rs::tw::task::{CommitTask, PrOrCommitTask, PrTask, TaskParseError, TaskParseErrorInner};

const C1: &str = "1111111111111111111111111111111111111111";
const C2: &str = "2222222222222222222222222222222222222222";
const C3: &str = "3333333333333333333333333333333333333333";
const M: &str = "4444444444444444444444444444444444444444";
const BASE: &str = "5555555555555555555555555555555555555555";

fn commit_id(s: &str) -> GitCommit {
    GitCommit::from_str(s).unwrap()
}

fn blank_task() -> Task {
    Task {
        depends: vec![],
        tags: vec![],
        project: "local-ci.org.repo".to_string(),
        repo_root: "/src/repo".to_string(),
        description: String::new(),
        ci_status: CiStatus::Unstarted,
        merge_status: MergeStatus::Unstarted,
        review_status: ReviewStatus::Unreviewed,
        review_notes: String::new(),
        commit_id: None,
        derivation: None,
        claimed_by: None,
        pr_title: None,
        pr_author: None,
        pr_number: None,
        base_commit: None,
        merge_change_id: None,
        merge_uuid: None,
        base_ref: None,
    }
}

fn commit_task(uuid: u128, id: &str, parent: Option<u128>, tags: &[&str]) -> CommitTask {
    let mut t = blank_task();
    t.commit_id = Some(commit_id(id));
    t.depends = parent.into_iter().collect();
    t.tags = tags.iter().map(|s| s.to_string()).collect();
    t.description = format!("Commit {id}");
    match PrOrCommitTask::from_task(uuid, t) {
        Ok(PrOrCommitTask::Commit(c)) => c,
        _ => panic!("not a commit task"),
    }
}

fn pr_task(uuid: u128, number: usize, tip: u128, merge: u128) -> PrTask {
    let mut t = blank_task();
    t.depends = vec![tip];
    t.pr_title = Some(format!("PR {number}"));
    t.pr_author = Some("alice".to_string());
    t.pr_number = Some(number);
    t.base_commit = Some(commit_id(BASE));
    t.merge_change_id = Some("zzzz".to_string());
    t.merge_uuid = Some(merge);
    match PrOrCommitTask::from_task(uuid, t) {
        Ok(PrOrCommitTask::Pr(p)) => p,
        _ => panic!("not a pr task"),
    }
}

/// Commits 1 <- 2 <- 3 (3 depends on 2, 2 on 1), merge commit 9, and pull
/// request 100 whose tip is 3.
fn sample() -> TaskCollection {
    let commits = vec![
        commit_task(1, C1, None, &[]),
        commit_task(2, C2, Some(1), &[]),
        commit_task(3, C3, Some(2), &["TIP_COMMIT"]),
        commit_task(9, M, None, &["MERGE_COMMIT", "CLEAN_MERGE"]),
    ];
    let pulls = vec![pr_task(100, 7, 3, 9)];
    TaskCollection::from_tasks(commits, pulls).unwrap()
}

#[test]
fn has_tag_is_exact() {
    let mut t = blank_task();
    t.tags = vec!["TIP_COMMIT".to_string()];
    assert!(t.has_tag("TIP_COMMIT"));
    assert!(!t.has_tag("tip_commit"));
    assert!(!t.has_tag("TIP"));
}

#[test]
fn status_names() {
    assert_eq!(CiStatus::Success.as_str(), "success");
    assert_eq!(MergeStatus::NeedSig.as_str(), "needsig");
    assert_eq!(ReviewStatus::NeedsChange.as_str(), "needschange");
    assert_eq!(CiStatus::default(), CiStatus::Unstarted);
    assert_eq!(MergeStatus::default(), MergeStatus::Unstarted);
    assert_eq!(ReviewStatus::default(), ReviewStatus::Unreviewed);
}

#[test]
fn commit_task_from_record() {
    let c = commit_task(5, C1, Some(4), &["TIP_COMMIT", "MERGE_COMMIT"]);
    assert_eq!(c.uuid(), 5);
    assert_eq!(c.project(), "org.repo");
    assert_eq!(c.repo_dir(), "/src/repo");
    assert_eq!(c.commit_id().as_str(), C1);
    assert_eq!(c.dep_uuid(), Some(4));
    assert!(c.is_tip());
    assert!(c.is_merge_commit());
    assert!(!c.is_clean_merge());
    assert!(c.prs().is_empty());
}

#[test]
fn project_without_prefix_is_kept() {
    let mut t = blank_task();
    t.project = "plain".to_string();
    t.commit_id = Some(commit_id(C1));
    match PrOrCommitTask::from_task(1, t) {
        Ok(PrOrCommitTask::Commit(c)) => assert_eq!(c.project(), "plain"),
        _ => panic!(),
    }
}

#[test]
fn pr_task_from_record() {
    let p = pr_task(100, 7, 3, 9);
    assert_eq!(p.uuid(), 100);
    assert_eq!(p.number(), 7);
    assert_eq!(p.title(), "PR 7");
    assert_eq!(p.author(), "alice");
    assert_eq!(p.dep_uuid(), 3);
    assert_eq!(p.merge_uuid(), 9);
    assert_eq!(p.merge_change_id(), "zzzz");
    assert_eq!(p.base_commit().as_str(), BASE);
}

fn refused(t: Task) -> TaskParseErrorInner {
    match PrOrCommitTask::from_task(0xabc, t) {
        Err(TaskParseError { uuid, error }) => {
            assert_eq!(uuid, Some(0xabc));
            error
        }
        Ok(_) => panic!("accepted"),
    }
}

#[test]
fn records_are_refused_for_each_reason() {
    let mut t = blank_task();
    t.repo_root = "relative".to_string();
    assert!(matches!(refused(t), TaskParseErrorInner::InvalidRepoRoot));
    let mut t = blank_task();
    t.commit_id = Some(commit_id(C1));
    t.depends = vec![1, 2];
    assert!(matches!(refused(t), TaskParseErrorInner::CommitMultipleDependencies));
    let t = blank_task();
    assert!(matches!(refused(t), TaskParseErrorInner::PrMissingTipCommit));
    let mut t = blank_task();
    t.depends = vec![1, 2];
    assert!(matches!(refused(t), TaskParseErrorInner::PrMultipleDependencies));
    let mut t = blank_task();
    t.depends = vec![1];
    t.pr_title = Some("x".to_string());
    match refused(t) {
        TaskParseErrorInner::MissingField { task_ty, field } => {
            assert_eq!(task_ty, "pr");
            assert_eq!(field, "pr_author");
        }
        _ => panic!(),
    }
}

#[test]
fn parse_error_messages_name_the_task() {
    let e = TaskParseError {
        uuid: Some(0x0123456789abcdef0123456789abcdef),
        error: TaskParseErrorInner::MissingField { task_ty: "pr", field: "pr_number" },
    };
    assert_eq!(
        e.to_string(),
        "[task 01234567-89ab-cdef-0123-456789abcdef] missing field pr_number for pr"
    );
    let e = TaskParseError { uuid: None, error: TaskParseErrorInner::InvalidRepoRoot };
    assert_eq!(e.to_string(), "Invalid repo_root path");
}

#[test]
fn unparsed_json_is_reported_without_uuid() {
    let bad = serde_json::from_str::<u32>("nope").unwrap_err();
    match PrOrCommitTask::from_parsed(Err(bad), Ok(blank_task())) {
        Err(TaskParseError { uuid: None, error: TaskParseErrorInner::TaskWarriorParse(_) }) => {}
        _ => panic!(),
    }
    let bad = serde_json::from_str::<u32>("nope").unwrap_err();
    match PrOrCommitTask::from_parsed(Ok(5), Err(bad)) {
        Err(TaskParseError { uuid: Some(5), error: TaskParseErrorInner::TaskWarriorParse(_) }) => {}
        _ => panic!(),
    }
}

#[test]
fn collection_notes_pull_requests_in_their_commits() {
    let tc = sample();
    for u in [1u128, 2, 3] {
        assert_eq!(tc.commit(u).unwrap().prs(), &[7]);
    }
    assert_eq!(tc.commit(9).unwrap().prs(), &[7]);
    assert!(tc.commit(42).is_none());
    assert_eq!(tc.pull_by_number("org.repo", 7).unwrap().uuid(), 100);
    assert!(tc.pull_by_number("org.repo", 8).is_none());
    assert!(tc.pull_by_number("other", 7).is_none());
    assert_eq!(tc.commit_by_id("org.repo", &commit_id(C2)).unwrap().uuid(), 2);
    assert!(tc.commit_by_id("other", &commit_id(C2)).is_none());
}

#[test]
fn pull_request_commits_run_from_tip_to_root() {
    let tc = sample();
    let pr = tc.pull(100).unwrap();
    let uuids: Vec<u128> = pr.commits(&tc).iter().map(|c| c.uuid()).collect();
    assert_eq!(uuids, vec![3, 2, 1]);
}

#[test]
fn missing_tasks_are_reported() {
    let commits = vec![commit_task(2, C2, Some(1), &[]), commit_task(9, M, None, &[])];
    let pulls = vec![pr_task(100, 7, 2, 9)];
    match TaskCollection::from_tasks(commits, pulls) {
        Err(TaskCollectionError::MissingUuid { missing, needed_by }) => {
            assert_eq!((missing, needed_by), (1, 100));
        }
        _ => panic!(),
    }
    let commits = vec![commit_task(2, C2, None, &[])];
    let pulls = vec![pr_task(100, 7, 2, 9)];
    match TaskCollection::from_tasks(commits, pulls) {
        Err(TaskCollectionError::MissingUuid { missing, needed_by }) => {
            assert_eq!((missing, needed_by), (9, 100));
        }
        _ => panic!(),
    }
    let commits = vec![commit_task(2, C2, Some(8), &[])];
    match TaskCollection::from_tasks(commits, vec![]) {
        Err(TaskCollectionError::MissingUuid { missing, needed_by }) => {
            assert_eq!((missing, needed_by), (8, 2));
        }
        _ => panic!(),
    }
}

#[test]
fn collection_error_messages() {
    let e = TaskCollectionError::MissingUuid { missing: 1, needed_by: 2 };
    assert_eq!(
        e.to_string(),
        "Missing task UUID 00000000-0000-0000-0000-000000000001 needed by task 00000000-0000-0000-0000-000000000002"
    );
    let e = TaskCollectionError::IllegalMergeCommit { commit_id: commit_id(C1), pr_number: 12 };
    assert_eq!(e.to_string(), format!("Illegal merge commit {C1} in PR #12"));
    assert_eq!(UpdateError::UnknownUuid(3).to_string(), "unknown UUID 00000000-0000-0000-0000-000000000003");
}

#[test]
fn updates_change_only_their_task() {
    let mut tc = sample();
    tc.update_commit_ci_status(2, CiStatus::Success).unwrap();
    assert_eq!(tc.commit(2).unwrap().ci_status(), CiStatus::Success);
    assert_eq!(tc.commit(1).unwrap().ci_status(), CiStatus::Unstarted);
    tc.update_commit_review_status(1, ReviewStatus::Approved, "ok".to_string()).unwrap();
    assert_eq!(tc.commit(1).unwrap().review_status(), ReviewStatus::Approved);
    tc.update_pr_merge_status(100, MergeStatus::Pushed).unwrap();
    assert_eq!(tc.pull(100).unwrap().merge_status(), MergeStatus::Pushed);
    assert!(matches!(
        tc.update_commit_derivation(77, "/nix/store/x".to_string()),
        Err(UpdateError::UnknownUuid(77))
    ));
    assert!(matches!(
        tc.update_pr_review_status(77, ReviewStatus::Nacked, String::new()),
        Err(UpdateError::UnknownUuid(77))
    ));
}

#[test]
fn inserted_tasks_read_back() {
    let mut tc = sample();
    tc.insert_commit(commit_task(2, C2, Some(1), &["TIP_COMMIT"]));
    assert!(tc.commit(2).unwrap().is_tip());
    assert_eq!(tc.commits().len(), 4);
    tc.insert_commit(commit_task(50, C1, None, &[]));
    assert_eq!(tc.commits().len(), 5);
    assert_eq!(tc.commit(50).unwrap().uuid(), 50);
    let p200 = pr_task(200, 8, 1, 9);
    assert!(tc.numbers_agree(&p200));
    tc.insert_pull(p200);
    tc.insert_pull_number("org.repo".to_string(), 8, 200);
    assert_eq!(tc.pull_by_number("org.repo", 8).unwrap().uuid(), 200);
    // A later pull request recorded under the same number is the one found.
    tc.insert_pull_number("org.repo".to_string(), 8, 201);
    assert!(tc.pull_by_number("org.repo", 8).is_none());
    let p201 = pr_task(201, 8, 1, 9);
    assert!(tc.numbers_agree(&p201));
    tc.insert_pull(p201);
    assert_eq!(tc.pull_by_number("org.repo", 8).unwrap().uuid(), 201);
    // Pull request 200 is named under number 8, so it cannot be stored as 7.
    assert!(!tc.numbers_agree(&pr_task(200, 7, 1, 9)));
}

#[test]
fn pull_by_number_gives_that_number() {
    let tc = sample();
    let p = tc.pull_by_number("org.repo", 7).unwrap();
    assert_eq!(p.project(), "org.repo");
    assert_eq!(p.number(), 7);
    assert!(tc.pull_by_number("org.repo", 8).is_none());
    assert!(tc.pull_by_number("other.repo", 7).is_none());
}

fn approve_all(tc: &mut TaskCollection) {
    for u in [1u128, 2, 3] {
        tc.update_commit_review_status(u, ReviewStatus::Approved, String::new()).unwrap();
        tc.update_commit_ci_status(u, CiStatus::Success).unwrap();
    }
}

#[test]
fn readiness_auto_approves_clean_merge_and_asks_for_signature() {
    let mut tc = sample();
    approve_all(&mut tc);
    tc.update_pr_review_status(100, ReviewStatus::Approved, String::new()).unwrap();
    tc.update_commit_ci_status(9, CiStatus::Success).unwrap();
    let plan = tc.plan_merge_readiness(100).unwrap();
    assert_eq!(
        plan.approve_merge_commit,
        Some((9, "Auto-approved clean merge commit for PR #7".to_string()))
    );
    assert!(plan.mark_needsig);
}

#[test]
fn readiness_waits_for_every_commit() {
    let mut tc = sample();
    approve_all(&mut tc);
    tc.update_commit_ci_status(2, CiStatus::Failed).unwrap();
    tc.update_pr_review_status(100, ReviewStatus::Approved, String::new()).unwrap();
    tc.update_commit_ci_status(9, CiStatus::Success).unwrap();
    let plan = tc.plan_merge_readiness(100).unwrap();
    assert!(!plan.mark_needsig);
    assert!(plan.approve_merge_commit.is_none());
}

#[test]
fn readiness_does_nothing_for_unapproved_or_pushed() {
    let tc = sample();
    let plan = tc.plan_merge_readiness(100).unwrap();
    assert!(plan.approve_merge_commit.is_none() && !plan.mark_needsig);
    assert!(matches!(tc.plan_merge_readiness(5), Err(UpdateError::UnknownUuid(5))));
}

#[test]
fn approvals_follow_commit_results() {
    let mut tc = sample();
    assert!(tc.approval_actions().is_empty());
    approve_all(&mut tc);
    assert!(matches!(tc.approval_actions()[..], [ApprovalAction::WarnUnapproved(7)]));
    tc.update_pr_review_status(100, ReviewStatus::Approved, String::new()).unwrap();
    assert!(matches!(tc.approval_actions()[..], [ApprovalAction::Post(100)]));
    tc.update_pr_merge_status(100, MergeStatus::Pushed).unwrap();
    assert!(tc.approval_actions().is_empty());
}

#[test]
fn pulls_waiting_for_signature() {
    let mut tc = sample();
    assert!(tc.needsig_pulls().is_empty());
    tc.update_pr_merge_status(100, MergeStatus::NeedSig).unwrap();
    assert_eq!(tc.needsig_pulls(), vec![(100, 7, "org.repo".to_string())]);
}

#[test]
fn task_fields_for_commits_and_pulls() {
    assert_eq!(
        commit_filter("org.repo", &commit_id(C1)),
        vec!["project:local-ci.org.repo".to_string(), format!("commit_id:{C1}")]
    );
    assert_eq!(
        commit_update_fields("/r", &commit_id(C1), 2, Some(" \n")),
        vec!["repo_root:/r".to_string(), format!("description:Commit {C1}"), "+MERGE_COMMIT".to_string(), "+CLEAN_MERGE".to_string()]
    );
    assert_eq!(
        commit_update_fields("/r", &commit_id(C1), 2, Some("diff")),
        vec!["repo_root:/r".to_string(), format!("description:Commit {C1}"), "+MERGE_COMMIT".to_string()]
    );
    assert_eq!(commit_update_fields("/r", &commit_id(C1), 1, None).len(), 2);
    assert_eq!(pr_add_fields("org.repo", 12), vec!["project:local-ci.org.repo".to_string(), "pr_number:12".to_string()]);
    assert_eq!(
        merge_fields(1, "kxyz"),
        vec![
            "merge_uuid:00000000-0000-0000-0000-000000000001".to_string(),
            "merge_status:unstarted".to_string(),
            "merge_change_id:kxyz".to_string()
        ]
    );
    let info = PrInfo {
        commits: vec![commit_id(C1), commit_id(C2)],
        title: "Fix it".to_string(),
        author: "bob".to_string(),
        head_commit: commit_id(C2),
        base_ref: "master".to_string(),
    };
    assert_eq!(
        pr_task_fields("/r", "org.repo", 12, &info, &commit_id(BASE)),
        vec![
            "repo_root:/r".to_string(),
            "pr_title:Fix it".to_string(),
            "pr_author:bob".to_string(),
            "pr_url:https://github.com/org/repo/pull/12".to_string(),
            "description:PR #12: Fix it".to_string(),
            format!("base_commit:{BASE}"),
            "base_ref:master".to_string(),
        ]
    );
    assert!(check_pr_commits(&info).is_ok());
}

#[test]
fn inconsistent_pull_request_data_is_refused() {
    let mut info = PrInfo {
        commits: vec![],
        title: String::new(),
        author: String::new(),
        head_commit: commit_id(C2),
        base_ref: String::new(),
    };
    match check_pr_commits(&info) {
        Err(TaskCollectionError::InvalidPrData { message }) => assert_eq!(message, "PR has no commits"),
        _ => panic!(),
    }
    info.commits = vec![commit_id(C1)];
    match check_pr_commits(&info) {
        Err(TaskCollectionError::InvalidPrData { message }) => {
            assert_eq!(message, format!("headRefOid {C2} does not match last commit {C1}"))
        }
        _ => panic!(),
    }
}

#[test]
fn new_task_uuid_is_read_from_task_add() {
    let out = "Created task 1 (0123abcd-0000-4000-8000-00000000beef).";
    assert!(created_task_uuid(out).unwrap().is_err());
    let out = "Created task 0123abcd-0000-4000-8000-00000000beef.";
    assert_eq!(created_task_uuid(out).unwrap().unwrap(), 0x0123abcd_0000_4000_8000_00000000beef);
    assert!(created_task_uuid("nothing here").is_none());
    assert!(created_task_uuid("Created task 0123").is_none());
    assert!(created_task_uuid("Created task zzzzzzzz-0000-4000-8000-00000000beef").unwrap().is_err());
}

#[test]
fn new_merge_needed_when_base_or_tip_moves() {
    let tc = sample();
    assert!(tc.needs_new_merge(None, &commit_id(BASE), &commit_id(C3)));
    assert!(!tc.needs_new_merge(Some(100), &commit_id(BASE), &commit_id(C3)));
    assert!(tc.needs_new_merge(Some(100), &commit_id(C1), &commit_id(C3)));
    assert!(tc.needs_new_merge(Some(100), &commit_id(BASE), &commit_id(C2)));
}

#[test]
fn commit_dependencies_within_a_pull_request() {
    let ids = vec![commit_id(C1), commit_id(C2), commit_id(C3)];
    let uuids = vec![11, 12, 13];
    let parents = vec![commit_id(BASE), commit_id(C1), commit_id(C2)];
    assert_eq!(dependency_links(&ids, &uuids, &parents), vec![(12, 11), (13, 12)]);
}

#[test]
fn unique_uuid_steps() {
    assert!(matches!(unique_uuid_step(""), UniqueUuidStep::Create));
    assert!(matches!(unique_uuid_step(" \n "), UniqueUuidStep::Create));
    match unique_uuid_step("67e55044-10b1-426f-9247-bb680e5fe0c8\n") {
        UniqueUuidStep::Update(u) => assert_eq!(u, 0x67e5504410b1426f9247bb680e5fe0c8),
        other => panic!("{other:?}"),
    }
    assert!(matches!(unique_uuid_step("not-a-uuid"), UniqueUuidStep::Invalid(_)));
    assert!(matches!(
        unique_uuid_step("67e55044-10b1-426f-9247-bb680e5fe0c8 67e55044-10b1-426f-9247-bb680e5fe0c9"),
        UniqueUuidStep::Several(2)
    ));
}

#[test]
fn merge_commits_are_refused() {
    assert!(check_not_merge_commit(commit_id(C1), 0, 12).is_ok());
    assert!(check_not_merge_commit(commit_id(C1), 1, 12).is_ok());
    match check_not_merge_commit(commit_id(C2), 2, 12) {
        Err(TaskCollectionError::IllegalMergeCommit { commit_id: c, pr_number }) => {
            assert_eq!(c.as_str(), C2);
            assert_eq!(pr_number, 12);
        }
        _ => panic!("expected IllegalMergeCommit"),
    }
}

#[test]
fn tip_is_the_last_commit() {
    let info = PrInfo {
        commits: vec![commit_id(C1), commit_id(C2)],
        title: "Fix it".to_string(),
        author: "bob".to_string(),
        head_commit: commit_id(C2),
        base_ref: "master".to_string(),
    };
    assert!(is_tip_of(&info, &commit_id(C2)));
    assert!(!is_tip_of(&info, &commit_id(C1)));
    let empty = PrInfo { commits: vec![], ..info };
    assert!(!is_tip_of(&empty, &commit_id(C2)));
}

#[test]
fn conflicts_are_reported_by_any_output() {
    assert!(reports_conflicts("x"));
    assert!(!reports_conflicts(""));
}
