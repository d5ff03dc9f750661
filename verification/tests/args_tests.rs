use tw_rs::args::lexer::{lex_arg, lexed_args, ArgToken};
use tw_rs::args::{dispatch, parse_args, Action, CliArguments, Dispatch, ParseError, Target};

fn argv(items: &[&str]) -> Vec<String> {
    let mut v = vec!["tw-rs".to_string()];
    for i in items {
        v.push(i.to_string());
    }
    v
}

#[test]
fn lexer_reads_pr_numbers_of_up_to_six_digits() {
    assert!(matches!(lex_arg("123".to_string()), ArgToken::PrNumber(123)));
    assert!(matches!(lex_arg("999999".to_string()), ArgToken::PrNumber(999999)));
    assert!(matches!(lex_arg("1234567".to_string()), ArgToken::MaybeRef(ref s) if s == "1234567"));
    assert!(matches!(lex_arg("12a".to_string()), ArgToken::MaybeRef(ref s) if s == "12a"));
}

#[test]
fn lexer_reads_merge_refs() {
    assert!(matches!(lex_arg("merge-42".to_string()), ArgToken::MergeRef(42)));
    assert!(matches!(lex_arg("merge-".to_string()), ArgToken::MaybeRef(ref s) if s == "merge-"));
    assert!(matches!(lex_arg("merge-x".to_string()), ArgToken::MaybeRef(ref s) if s == "merge-x"));
}

#[test]
fn lexer_reads_keywords_as_themselves() {
    assert!(matches!(lex_arg("info".to_string()), ArgToken::Info));
    assert!(matches!(lex_arg("task-edit".to_string()), ArgToken::TaskEdit));
    assert!(matches!(lex_arg("task-info".to_string()), ArgToken::TaskInfo));
    assert!(matches!(lex_arg("refresh".to_string()), ArgToken::Refresh));
    assert!(matches!(lex_arg("review".to_string()), ArgToken::Review));
    assert!(matches!(lex_arg("run".to_string()), ArgToken::Run));
    assert!(matches!(lex_arg("commit".to_string()), ArgToken::Commit));
    assert!(matches!(lex_arg("pr".to_string()), ArgToken::Pr));
}

#[test]
fn lexer_keeps_the_program_name_first() {
    let toks = lexed_args(argv(&["info", "7"]));
    assert_eq!(toks.len(), 3);
    assert!(matches!(toks[0], ArgToken::ProgramName(ref s) if s == "tw-rs"));
    assert!(matches!(toks[1], ArgToken::Info));
    assert!(matches!(toks[2], ArgToken::PrNumber(7)));
}

#[test]
fn parse_defaults_to_info_without_target() {
    let r = parse_args(argv(&[])).unwrap();
    assert_eq!(r, CliArguments { action: Action::Info, target: Target::NoTarget });
}

#[test]
fn parse_reads_action_and_pr() {
    let r = parse_args(argv(&["review", "pr", "456"])).unwrap();
    assert_eq!(r, CliArguments { action: Action::Review, target: Target::Pr(456) });
    let r = parse_args(argv(&["info", "123"])).unwrap();
    assert_eq!(r, CliArguments { action: Action::Info, target: Target::Pr(123) });
}

#[test]
fn parse_reads_commit_targets() {
    let r = parse_args(argv(&["run", "commit", "merge-789"])).unwrap();
    assert_eq!(r.target, Target::Commit("merge-789".to_string()));
    assert_eq!(r.action, Action::Run);
    let r = parse_args(argv(&["commit", "123"])).unwrap();
    assert_eq!(r.target, Target::Commit("123".to_string()));
    let r = parse_args(argv(&["main"])).unwrap();
    assert_eq!(r.target, Target::Commit("main".to_string()));
    let r = parse_args(argv(&["merge-5"])).unwrap();
    assert_eq!(r.target, Target::Commit("merge-5".to_string()));
}

#[test]
fn parse_accepts_long_numbers_after_pr() {
    let r = parse_args(argv(&["pr", "1234567"])).unwrap();
    assert_eq!(r.target, Target::Pr(1234567));
}

#[test]
fn parse_reports_each_error() {
    assert_eq!(
        parse_args(argv(&["info", "run"])),
        Err(ParseError::MultipleActions("info".to_string(), "run".to_string()))
    );
    assert_eq!(
        parse_args(argv(&["pr", "commit", "1"])),
        Err(ParseError::MultipleTargetTypes("pr".to_string(), "commit".to_string()))
    );
    assert_eq!(
        parse_args(argv(&["pr", "pr", "1"])),
        Err(ParseError::MultipleTargetTypes("pr".to_string(), "pr".to_string()))
    );
    assert_eq!(parse_args(argv(&["1", "2"])), Err(ParseError::MultipleTargets));
    assert_eq!(parse_args(argv(&["pr", "merge-3"])), Err(ParseError::MergeRefWithPrType(3)));
    assert_eq!(
        parse_args(argv(&["pr", "main"])),
        Err(ParseError::InvalidPrNumber("main".to_string()))
    );
    assert_eq!(parse_args(argv(&["pr"])), Err(ParseError::MissingTarget("pr".to_string())));
    assert_eq!(
        parse_args(argv(&["commit"])),
        Err(ParseError::MissingTarget("commit".to_string()))
    );
}

#[test]
fn parse_error_messages() {
    assert_eq!(
        ParseError::MultipleActions("info".to_string(), "run".to_string()).to_string(),
        "Multiple actions provided: 'info' and 'run'. If 'run' is meant to be a git reference, try 'refs/heads/run'."
    );
    assert_eq!(
        ParseError::MultipleTargets.to_string(),
        "Multiple targets provided. Please specify only one target."
    );
    assert_eq!(
        ParseError::MergeRefWithPrType(12).to_string(),
        "Cannot use merge reference 'merge-12' with target type 'pr'. Did you mean to use 'commit' instead of 'pr'?"
    );
    assert_eq!(
        ParseError::InvalidPrNumber("x".to_string()).to_string(),
        "Invalid PR number: 'x'. PR numbers must be numeric."
    );
    assert_eq!(
        ParseError::MissingTarget("pr".to_string()).to_string(),
        "Target type 'pr' specified but no target provided."
    );
    assert_eq!(
        ParseError::InvalidTargetForCommitType("y".to_string()).to_string(),
        "Invalid target 'y' for commit type."
    );
}

#[test]
fn dispatch_without_target() {
    let a = |action| CliArguments { action, target: Target::NoTarget };
    assert_eq!(dispatch(&a(Action::Info)), Dispatch::ListPulls);
    assert_eq!(dispatch(&a(Action::Refresh)), Dispatch::Note("[invoking gh here]"));
    assert_eq!(dispatch(&a(Action::Run)), Dispatch::Note("[run loop here]"));
    assert_eq!(
        dispatch(&a(Action::Review)),
        Dispatch::Usage("Nothing to review. (Did you mean to provide a PR number or commit ID?")
    );
    assert_eq!(
        dispatch(&a(Action::TaskEdit)),
        Dispatch::Usage("Nothing to query taskwarrior for. (Did you mean to provide a PR number or commit ID?")
    );
}

#[test]
fn dispatch_with_target() {
    let run = CliArguments { action: Action::Run, target: Target::Pr(1) };
    assert_eq!(dispatch(&run), Dispatch::Usage("'run' cannot be invoked with any target."));
    let info = CliArguments { action: Action::Info, target: Target::Commit("main".to_string()) };
    assert_eq!(dispatch(&info), Dispatch::OnTarget);
}
