use tw_rs::git::{fetch_remote, fetch_step, parse_parents, FetchOutcome, FetchStage, GitCommit, GitError};
use tw_rs::repo::parse_github_url;

const A: &str = "0123456789abcdef0123456789abcdef01234567";
const B: &str = "89abcdef0123456789abcdef0123456789ABCDEF";

#[test]
fn commit_ids_parse_and_print_back() {
    let c = GitCommit::from_str(A).unwrap();
    assert_eq!(c.to_string(), A);
    assert_eq!(c.as_str(), A);
    let d = GitCommit::from_str(B).unwrap();
    assert_eq!(d.to_string(), B);
    assert!(!c.same_as(&d));
    assert!(c.same_as(&GitCommit::from_str(A).unwrap()));
}

#[test]
fn bad_commit_ids_are_refused() {
    for s in ["", "0123", "g123456789abcdef0123456789abcdef01234567", &format!("{A}0")] {
        match GitCommit::from_str(s) {
            Err(GitError::CommitParse(t, _)) => assert_eq!(t, s),
            _ => panic!("accepted {s}"),
        }
    }
}

#[test]
fn git_error_messages() {
    let e = GitCommit::from_str("xyz").unwrap_err();
    assert_eq!(e.to_string(), "failed to parse xyz as git commit");
    assert_eq!(
        GitError::CommitNotFound("abc".to_string()).to_string(),
        "commit abc not found after fetching from all remotes"
    );
}

#[test]
fn parents_follow_the_commit_itself() {
    let out = format!("{A} {B} {A}\n");
    let ps = parse_parents(&out).unwrap();
    assert_eq!(ps.len(), 2);
    assert_eq!(ps[0].as_str(), B);
    assert_eq!(ps[1].as_str(), A);
    assert!(parse_parents(&format!("{A}\n")).unwrap().is_empty());
    assert!(parse_parents("").unwrap().is_empty());
}

#[test]
fn first_bad_parent_is_reported() {
    let out = format!("{A} {B} nope also-bad");
    match parse_parents(&out) {
        Err(GitError::CommitParse(t, _)) => assert_eq!(t, "nope"),
        _ => panic!("expected an error"),
    }
}

#[test]
fn github_urls_name_their_project() {
    assert_eq!(parse_github_url("git@github.com:Org/Repo.git"), Some("org.repo".to_string()));
    assert_eq!(parse_github_url("https://github.com/org/repo"), Some("org.repo".to_string()));
    assert_eq!(parse_github_url("https://www.github.com/org/repo/"), Some("org.repo".to_string()));
    assert_eq!(parse_github_url("https://github.com/org/repo.git/"), Some("org.repo".to_string()));
    assert_eq!(parse_github_url("https://gitlab.com/org/repo"), None);
}

#[test]
fn commits_are_sought_locally_then_origin_then_upstream() {
    assert_eq!(fetch_remote(FetchStage::Local), None);
    assert_eq!(fetch_remote(FetchStage::Origin), Some("origin"));
    assert_eq!(fetch_remote(FetchStage::Upstream), Some("upstream"));
    assert_eq!(fetch_step(FetchStage::Local, false), FetchOutcome::Next(FetchStage::Origin));
    assert_eq!(fetch_step(FetchStage::Origin, false), FetchOutcome::Next(FetchStage::Upstream));
    assert_eq!(fetch_step(FetchStage::Upstream, false), FetchOutcome::NotFound);
    for stage in [FetchStage::Local, FetchStage::Origin, FetchStage::Upstream] {
        assert_eq!(fetch_step(stage, true), FetchOutcome::Have);
    }
}
