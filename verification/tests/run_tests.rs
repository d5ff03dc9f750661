use tw_rs::git::GitCommit;
use tw_rs::run::log::Logger;
use tw_rs::run::state::{ci_check_due, ci_repo_warnings, nix_file_relative, recorded_commit_id, CiRepoWarning};
use tw_rs::run::{
    aux_lockfile_names, cargo_nixes, commit_expression, commit_list, commit_lockfiles, error_file_name,
    failure_report, find_next_commit_for_ci, has_cargo_toml, idle_message_text, instantiate_config,
    missing_lockfiles, nixfile_name, signature_present, IdleStep, RunLoop,
};
use tw_rs::tw::collection::TaskCollection;
use tw_rs::tw::serde_types::{CiStatus, MergeStatus, ReviewStatus, Task};
use tw_rs::tw::task::{CommitTask, PrOrCommitTask};

const C1: &str = "1111111111111111111111111111111111111111";

fn commit(uuid: u128, review: ReviewStatus, ci: CiStatus) -> CommitTask {
    let t = Task {
        depends: vec![],
        tags: vec![],
        project: "local-ci.org.repo".to_string(),
        repo_root: "/src/repo".to_string(),
        description: String::new(),
        ci_status: ci,
        merge_status: MergeStatus::Unstarted,
        review_status: review,
        review_notes: String::new(),
        commit_id: Some(GitCommit::from_str(C1).unwrap()),
        derivation: None,
        claimed_by: None,
        pr_title: None,
        pr_author: None,
        pr_number: None,
        base_commit: None,
        merge_change_id: None,
        merge_uuid: None,
        base_ref: None,
    };
    match PrOrCommitTask::from_task(uuid, t) {
        Ok(PrOrCommitTask::Commit(c)) => c,
        _ => panic!(),
    }
}

#[test]
fn backoff_doubles_to_its_cap_and_resets_after_work() {
    let mut l = RunLoop::new();
    assert_eq!(l.backoff_secs(), 30);
    assert_eq!(l.on_idle(), IdleStep::Sleep);
    assert_eq!(l.after_sleep(10), None);
    assert_eq!(l.after_sleep(30), Some(1));
    assert_eq!(l.backoff_secs(), 60);
    let mut minutes = vec![];
    for _ in 0..8 {
        minutes.push(l.after_sleep(u64::MAX).unwrap());
    }
    assert_eq!(minutes, vec![2, 4, 8, 16, 32, 64, 64, 64]);
    assert_eq!(l.backoff_secs(), 3840);
    l.on_commit_found();
    assert_eq!(l.on_idle(), IdleStep::CheckAndReset);
    assert_eq!(l.backoff_secs(), 30);
    assert_eq!(l.on_idle(), IdleStep::Sleep);
}

#[test]
fn idle_message() {
    assert_eq!(idle_message_text(4), "Nothing to do. Reloading task database. (Next message in 4 minutes.)");
}

#[test]
fn next_commit_is_first_approved_unstarted() {
    let commits = vec![
        commit(1, ReviewStatus::Unreviewed, CiStatus::Unstarted),
        commit(2, ReviewStatus::Approved, CiStatus::Success),
        commit(3, ReviewStatus::Approved, CiStatus::Unstarted),
        commit(4, ReviewStatus::Approved, CiStatus::Unstarted),
    ];
    let tc = TaskCollection::from_tasks(commits, vec![]).unwrap();
    assert_eq!(find_next_commit_for_ci(&tc), Some(3));
    let tc = TaskCollection::from_tasks(vec![commit(1, ReviewStatus::Nacked, CiStatus::Unstarted)], vec![]).unwrap();
    assert_eq!(find_next_commit_for_ci(&tc), None);
}

#[test]
fn lockfiles_and_cargo_manifests() {
    let listing = "Cargo.toml\nCargo.lock\nsub/Cargo-msrv.lock\nREADME.lock\nsrc/lib.rs\n";
    assert!(has_cargo_toml(listing));
    assert!(!has_cargo_toml("src/lib.rs\n"));
    assert_eq!(commit_lockfiles(listing), vec!["Cargo.lock".to_string(), "sub/Cargo-msrv.lock".to_string()]);
    assert_eq!(aux_lockfile_names("  ../Cargo.lock \n\n../other.lock\n"), vec!["../Cargo.lock".to_string()]);
    assert!(missing_lockfiles("Cargo.toml\n", &vec![]));
    assert!(!missing_lockfiles("Cargo.toml\n", &vec!["x".to_string()]));
    assert!(!missing_lockfiles("README\n", &vec![]));
}

#[test]
fn nix_expressions() {
    assert_eq!(cargo_nixes(&vec![]), "{}");
    assert_eq!(
        cargo_nixes(&vec!["Cargo.lock".to_string(), "b/Cargo.lock".to_string()]),
        "{ \"Cargo.lock\" = null; \"b/Cargo.lock\" = null; }"
    );
    let e = commit_expression(C1, true, "/src/repo", "{}");
    assert_eq!(e, format!("{{ commit = \"{C1}\"; isTip = true; gitUrl = \"/src/repo\"; cargoNixes = {{}}; }}"));
    assert_eq!(commit_list("X"), "[ X ]");
    assert_eq!(instantiate_config("/r", "org.repo"), "{ gitDir = \"/r\"; projectName = \"org.repo\"; }");
    assert_eq!(nixfile_name("org.repo"), "org.repo.check-pr.nix");
}

#[test]
fn failure_files() {
    assert_eq!(error_file_name("abc", "build", "20240101-000000"), "nix-error-abc-build-20240101-000000.log");
    assert_eq!(
        failure_report("nix-build", "abc", "out", "err"),
        "nix-build failed for commit abc\n\nSTDOUT:\nout\n\nSTDERR:\nerr"
    );
}

#[test]
fn signature_check_reads_true() {
    assert!(signature_present("true\n"));
    assert!(!signature_present("false\n"));
    assert!(!signature_present("truee"));
}

#[test]
fn log_prefix_names_commit_and_pulls() {
    let mut l = Logger::new();
    assert_eq!(l.prefix("2024-01-01 00:00:00"), "[2024-01-01 00:00:00] ");
    l.set_task(Some(commit(1, ReviewStatus::Approved, CiStatus::Unstarted)));
    assert_eq!(l.prefix("T"), format!("[T] [org.repo {C1}] "));
}

#[test]
fn log_prefix_lists_pull_requests() {
    let commits = vec![commit(1, ReviewStatus::Approved, CiStatus::Unstarted), commit(9, ReviewStatus::Unreviewed, CiStatus::Unstarted)];
    let t = p_task_fields();
    let p5 = match PrOrCommitTask::from_task(50, t) {
        Ok(PrOrCommitTask::Pr(p)) => p,
        _ => panic!(),
    };
    let t = Task { pr_number: Some(6), ..p_task_fields() };
    let p6 = match PrOrCommitTask::from_task(60, t) {
        Ok(PrOrCommitTask::Pr(p)) => p,
        _ => panic!(),
    };
    let tc = TaskCollection::from_tasks(commits, vec![p5, p6]).unwrap();
    let mut l = Logger::new();
    l.set_task(Some(tc.commit(1).unwrap().clone()));
    assert_eq!(l.prefix("T"), format!("[T] [org.repo #5 #6 {C1}] "));
}

fn p_task_fields() -> Task {
    Task {
        depends: vec![1],
        tags: vec![],
        project: "local-ci.org.repo".to_string(),
        repo_root: "/src/repo".to_string(),
        description: String::new(),
        ci_status: CiStatus::Unstarted,
        merge_status: MergeStatus::Unstarted,
        review_status: ReviewStatus::Unreviewed,
        review_notes: String::new(),
        commit_id: None,
        derivation: None,
        claimed_by: None,
        pr_title: Some("t".to_string()),
        pr_author: Some("a".to_string()),
        pr_number: Some(5),
        base_commit: Some(GitCommit::from_str(C1).unwrap()),
        merge_change_id: Some("k".to_string()),
        merge_uuid: Some(9),
        base_ref: None,
    }
}

#[test]
fn ci_repo_state() {
    assert_eq!(recorded_commit_id("abc\n", false), "abc");
    assert_eq!(recorded_commit_id(" abc\n", true), "abc-dirty");
    assert_eq!(nix_file_relative("./a.check-pr.nix\n"), Some("a.check-pr.nix".to_string()));
    assert_eq!(nix_file_relative("././x/y.nix"), Some("x/y.nix".to_string()));
    assert_eq!(nix_file_relative("   "), None);
    assert!(!ci_check_due(899));
    assert!(ci_check_due(900));
}

#[test]
fn ci_repo_warnings_on_change() {
    assert!(ci_repo_warnings("abc", "abc\n", false).is_empty());
    assert!(ci_repo_warnings("abc-dirty", "abc\n", true).is_empty());
    let w = ci_repo_warnings("abc", "def\n", true);
    assert_eq!(w.len(), 2);
    assert_eq!(
        w[0].to_string(),
        "WARNING: LOCAL_CI commit ID changed from abc to def. Please restart the program."
    );
    assert!(matches!(w[1], CiRepoWarning::BecameDirty));
    let w = ci_repo_warnings("abc-dirty", "abc", false);
    assert!(matches!(w[..], [CiRepoWarning::NoLongerDirty]));
    assert_eq!(
        w[0].to_string(),
        "WARNING: LOCAL_CI repo is no longer dirty but was dirty on startup. Please restart the program."
    );
}
