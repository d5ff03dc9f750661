//! Command-line parsing.
use vstd::prelude::*;

pub mod lexer;

use crate::text::{decimal, parse_usize, push_all, push_str, string_of, u64_decimal, usize_from_str};
use lexer::{lexed_args, ArgToken};

verus! {

#[derive(Debug, Clone, Copy, PartialEq, Eq, Structural)]
pub enum Action {
    Info,
    TaskEdit,
    TaskInfo,
    Refresh,
    Review,
    Run,
}

#[derive(Debug, Clone, PartialEq, Eq)]
pub enum Target {
    Pr(usize),
    Commit(String),
    NoTarget,
}

#[derive(Debug, Clone, PartialEq, Eq)]
pub struct CliArguments {
    pub action: Action,
    pub target: Target,
}

#[derive(Debug, Clone, PartialEq, Eq)]
pub enum ParseError {
    MultipleActions(String, String),
    MultipleTargetTypes(String, String),
    MultipleTargets,
    MergeRefWithPrType(usize),
    InvalidPrNumber(String),
    MissingTarget(String),
    InvalidTargetForCommitType(String),
}

/// A token that selects the action.
pub open spec fn is_action_token(t: ArgToken) -> bool {
    ||| t is Info
    ||| t is TaskEdit
    ||| t is TaskInfo
    ||| t is Refresh
    ||| t is Review
    ||| t is Run
}

/// A token that selects the kind of target (`pr` or `commit`).
pub open spec fn is_type_token(t: ArgToken) -> bool {
    t is Pr || t is Commit
}

/// A token that names the target itself.
pub open spec fn is_target_token(t: ArgToken) -> bool {
    t is PrNumber || t is MergeRef || t is MaybeRef
}

/// The action an action token selects.
pub open spec fn action_of(t: ArgToken) -> Action {
    match t {
        ArgToken::TaskEdit => Action::TaskEdit,
        ArgToken::TaskInfo => Action::TaskInfo,
        ArgToken::Refresh => Action::Refresh,
        ArgToken::Review => Action::Review,
        ArgToken::Run => Action::Run,
        _ => Action::Info,
    }
}

/// How an action token is spelled on the command line.
pub open spec fn action_literal(a: Action) -> Seq<char> {
    match a {
        Action::Info => "info"@,
        Action::TaskEdit => "task-edit"@,
        Action::TaskInfo => "task-info"@,
        Action::Refresh => "refresh"@,
        Action::Review => "review"@,
        Action::Run => "run"@,
    }
}

/// The lower-cased debug name of an action, as the error for a repeated action shows it.
pub open spec fn action_debug_name(a: Action) -> Seq<char> {
    match a {
        Action::Info => "info"@,
        Action::TaskEdit => "taskedit"@,
        Action::TaskInfo => "taskinfo"@,
        Action::Refresh => "refresh"@,
        Action::Review => "review"@,
        Action::Run => "run"@,
    }
}

/// The name of a target type (`true` for `pr`, `false` for `commit`).
pub open spec fn target_type_name(is_pr: bool) -> Seq<char> {
    if is_pr {
        "pr"@
    } else {
        "commit"@
    }
}

/// The state of the scan over the tokens after the program name: the action,
/// the target type (`true` for `pr`), the target token, and the index of the
/// first token that repeats a category already seen, if any.
pub open spec fn scan(t: Seq<ArgToken>) -> (Option<Action>, Option<bool>, Option<ArgToken>, Option<int>)
    decreases t.len(),
{
    if t.len() == 0 {
        (None, None, None, None)
    } else {
        let s = scan(t.drop_last());
        let k = t.len() - 1;
        let tok = t.last();
        if s.3 is Some {
            s
        } else if is_action_token(tok) {
            if s.0 is Some {
                (s.0, s.1, s.2, Some(k))
            } else {
                (Some(action_of(tok)), s.1, s.2, None)
            }
        } else if is_type_token(tok) {
            if s.1 is Some {
                (s.0, s.1, s.2, Some(k))
            } else {
                (s.0, Some(tok is Pr), s.2, None)
            }
        } else if is_target_token(tok) {
            if s.2 is Some {
                (s.0, s.1, s.2, Some(k))
            } else {
                (s.0, s.1, Some(tok), None)
            }
        } else {
            s
        }
    }
}

/// The error reported for the token at which a category repeats, given the
/// scan state before that token.
pub open spec fn conflict_error(
    tok: ArgToken,
    before: (Option<Action>, Option<bool>, Option<ArgToken>, Option<int>),
    e: ParseError,
) -> bool {
    if is_action_token(tok) {
        e matches ParseError::MultipleActions(a, b) && a@ == action_debug_name(before.0.unwrap())
            && b@ == action_literal(action_of(tok))
    } else if tok is Pr {
        e matches ParseError::MultipleTargetTypes(a, b) && a@ == "pr"@ && b@ == "pr"@
    } else if tok is Commit {
        e matches ParseError::MultipleTargetTypes(a, b) && a@ == target_type_name(before.1.unwrap())
            && b@ == "commit"@
    } else {
        e is MultipleTargets
    }
}

/// The text `merge-<n>`.
pub open spec fn merge_ref_text(n: nat) -> Seq<char> {
    "merge-"@ + decimal(n)
}

/// The outcome of resolving the target type and target token once every token
/// has been read without a repeated category.
pub open spec fn resolves(
    action: Option<Action>,
    ttype: Option<bool>,
    target: Option<ArgToken>,
    r: Result<CliArguments, ParseError>,
) -> bool {
    let act = match action {
        Some(a) => a,
        None => Action::Info,
    };
    let ok_with = |t: Target| r matches Ok(c) && c.action == act && c.target == t;
    let ok_commit = |text: Seq<char>|
        r matches Ok(c) && c.action == act && (c.target matches Target::Commit(s) && s@ == text);
    match (ttype, target) {
        (None, None) => ok_with(Target::NoTarget),
        (Some(is_pr), None) => r matches Err(ParseError::MissingTarget(s)) && s@ == target_type_name(is_pr),
        (tt, Some(ArgToken::PrNumber(n))) => if tt == Some(false) {
            ok_commit(decimal(n as nat))
        } else {
            ok_with(Target::Pr(n))
        },
        (tt, Some(ArgToken::MergeRef(n))) => if tt == Some(true) {
            r == Err::<CliArguments, ParseError>(ParseError::MergeRefWithPrType(n))
        } else {
            ok_commit(merge_ref_text(n as nat))
        },
        (tt, Some(ArgToken::MaybeRef(s))) => if tt == Some(true) {
            match usize_from_str(s@) {
                Some(n) => ok_with(Target::Pr(n as usize)),
                None => r matches Err(ParseError::InvalidPrNumber(e)) && e@ == s@,
            }
        } else {
            ok_commit(s@)
        },
        _ => false,
    }
}

/// The tokens that follow the program name.
pub open spec fn after_program_name(toks: Seq<ArgToken>) -> Seq<ArgToken> {
    if toks.len() == 0 {
        Seq::empty()
    } else {
        toks.skip(1)
    }
}

/// What parsing a lexed command line gives: the tokens after the program name
/// are scanned; a repeated category is an error at the repeating token, and
/// otherwise the target is resolved.
pub open spec fn parses_to(toks: Seq<ArgToken>, r: Result<CliArguments, ParseError>) -> bool {
    let body = after_program_name(toks);
    let s = scan(body);
    match s.3 {
        Some(k) => r matches Err(e) && conflict_error(body[k], scan(body.take(k)), e),
        None => resolves(s.0, s.1, s.2, r),
    }
}

/// Each action keyword selects its own action: `info`, `task-edit`,
/// `task-info`, `refresh`, `review` and `run`, followed by a PR number, parse
/// to that action on that pull request.
pub proof fn lemma_action_keywords_select_their_action(
    prog: ArgToken,
    tok: ArgToken,
    n: usize,
    r: Result<CliArguments, ParseError>,
)
    requires
        parses_to(seq![prog, tok, ArgToken::PrNumber(n)], r),
    ensures
        tok is Info ==> (r matches Ok(c) && c.action == Action::Info && c.target == Target::Pr(n)),
        tok is TaskEdit ==> (r matches Ok(c) && c.action == Action::TaskEdit && c.target == Target::Pr(n)),
        tok is TaskInfo ==> (r matches Ok(c) && c.action == Action::TaskInfo && c.target == Target::Pr(n)),
        tok is Refresh ==> (r matches Ok(c) && c.action == Action::Refresh && c.target == Target::Pr(n)),
        tok is Review ==> (r matches Ok(c) && c.action == Action::Review && c.target == Target::Pr(n)),
        tok is Run ==> (r matches Ok(c) && c.action == Action::Run && c.target == Target::Pr(n)),
{
    let body = seq![tok, ArgToken::PrNumber(n)];
    assert(after_program_name(seq![prog, tok, ArgToken::PrNumber(n)]) =~= body);
    assert(body.drop_last() =~= seq![tok]);
    assert(seq![tok].drop_last() =~= Seq::<ArgToken>::empty());
    if is_action_token(tok) {
        assert(scan(Seq::<ArgToken>::empty()) == (None::<Action>, None::<bool>, None::<ArgToken>, None::<int>));
        assert(scan(seq![tok]) == (Some(action_of(tok)), None::<bool>, None::<ArgToken>, None::<int>));
        assert(scan(body) == (Some(action_of(tok)), None::<bool>, Some(ArgToken::PrNumber(n)), None::<int>));
    }
}

/// Each action keyword alone selects its own action, with no target.
pub proof fn lemma_action_keyword_alone(prog: ArgToken, tok: ArgToken, r: Result<CliArguments, ParseError>)
    requires
        parses_to(seq![prog, tok], r),
    ensures
        tok is Info ==> (r matches Ok(c) && c.action == Action::Info && c.target == Target::NoTarget),
        tok is TaskEdit ==> (r matches Ok(c) && c.action == Action::TaskEdit && c.target == Target::NoTarget),
        tok is TaskInfo ==> (r matches Ok(c) && c.action == Action::TaskInfo && c.target == Target::NoTarget),
        tok is Refresh ==> (r matches Ok(c) && c.action == Action::Refresh && c.target == Target::NoTarget),
        tok is Review ==> (r matches Ok(c) && c.action == Action::Review && c.target == Target::NoTarget),
        tok is Run ==> (r matches Ok(c) && c.action == Action::Run && c.target == Target::NoTarget),
{
    assert(after_program_name(seq![prog, tok]) =~= seq![tok]);
    assert(seq![tok].drop_last() =~= Seq::<ArgToken>::empty());
    if is_action_token(tok) {
        assert(scan(Seq::<ArgToken>::empty()) == (None::<Action>, None::<bool>, None::<ArgToken>, None::<int>));
        assert(scan(seq![tok]) == (Some(action_of(tok)), None::<bool>, None::<ArgToken>, None::<int>));
    }
}

/// Once a category has repeated, later tokens do not change the scan.
proof fn lemma_scan_prefix_after_conflict(t: Seq<ArgToken>, j: int)
    requires
        0 <= j <= t.len(),
        scan(t.take(j)).3 is Some,
    ensures
        scan(t) == scan(t.take(j)),
    decreases t.len(),
{
    if j < t.len() {
        assert(t.drop_last().take(j) =~= t.take(j));
        lemma_scan_prefix_after_conflict(t.drop_last(), j);
    } else {
        assert(t.take(j) =~= t);
    }
}

/// The index recorded for a repeated category is the position of the token
/// that repeated it, and the state stored alongside is the state before it.
proof fn lemma_scan_conflict_point(t: Seq<ArgToken>, k: int)
    requires
        0 <= k < t.len(),
        scan(t.take(k)).3 is None,
        scan(t.take(k + 1)).3 == Some(k),
    ensures
        scan(t).3 == Some(k),
        scan(t.take(k + 1)).0 == scan(t.take(k)).0,
        scan(t.take(k + 1)).1 == scan(t.take(k)).1,
{
    assert(t.take(k + 1).drop_last() =~= t.take(k));
    lemma_scan_prefix_after_conflict(t, k + 1);
}

fn action_debug_text(a: Action) -> (s: String)
    ensures
        s@ == action_debug_name(a),
{
    match a {
        Action::Info => "info".to_owned(),
        Action::TaskEdit => "taskedit".to_owned(),
        Action::TaskInfo => "taskinfo".to_owned(),
        Action::Refresh => "refresh".to_owned(),
        Action::Review => "review".to_owned(),
        Action::Run => "run".to_owned(),
    }
}

fn action_literal_text(a: Action) -> (s: String)
    ensures
        s@ == action_literal(a),
{
    match a {
        Action::Info => "info".to_owned(),
        Action::TaskEdit => "task-edit".to_owned(),
        Action::TaskInfo => "task-info".to_owned(),
        Action::Refresh => "refresh".to_owned(),
        Action::Review => "review".to_owned(),
        Action::Run => "run".to_owned(),
    }
}

fn type_name_text(is_pr: bool) -> (s: String)
    ensures
        s@ == target_type_name(is_pr),
{
    if is_pr {
        "pr".to_owned()
    } else {
        "commit".to_owned()
    }
}

fn merge_ref_string(n: usize) -> (s: String)
    ensures
        s@ == merge_ref_text(n as nat),
{
    let mut v = crate::text::chars_of("merge-");
    let digits = u64_decimal(n as u64);
    push_all(&mut v, digits.as_slice());
    string_of(v.as_slice())
}

/// Parses a lexed command line (the first token is the program name, which is
/// skipped).
pub fn parse_tokens(toks: Vec<ArgToken>) -> (r: Result<CliArguments, ParseError>)
    requires
        forall|i: int| 1 <= i < toks@.len() ==> !(#[trigger] toks@[i] is ProgramName),
    ensures
        parses_to(toks@, r),
{
    let ghost all = toks@;
    let ghost body = after_program_name(toks@);
    let mut action: Option<Action> = None;
    let mut target_type: Option<bool> = None;
    let mut target: Option<ArgToken> = None;
    let mut is_first = true;
    let ghost mut idx: int = 0;
    for token in it: toks
        invariant
            it.seq() == all,
            body == after_program_name(all),
            forall|i: int| 1 <= i < all.len() ==> !(#[trigger] all[i] is ProgramName),
            idx == it.index(),
            is_first <==> idx == 0,
            target is Some ==> is_target_token(target.unwrap()),
            idx >= 1 ==> ({
                let s = scan(body.take(idx - 1));
                &&& s.3 is None
                &&& s.0 == action
                &&& s.1 == target_type
                &&& s.2 == target
            }),
            idx == 0 ==> action is None && target_type is None && target is None,
    {
        if is_first {
            is_first = false;
            assert(body.take(0) =~= Seq::<ArgToken>::empty());
        } else {
            let ghost k = idx - 1;
            let ghost before = scan(body.take(k));
            proof {
                assert(body.take(k + 1).drop_last() =~= body.take(k));
                assert(body[k] == all[idx as int]);
                assert(body.take(k + 1).last() == body[k]);
            }
            match token {
                ArgToken::ProgramName(_) => {
                    assert(false);
                },
                ArgToken::Info | ArgToken::TaskEdit | ArgToken::TaskInfo | ArgToken::Refresh
                | ArgToken::Review | ArgToken::Run => {
                    let this = match token {
                        ArgToken::TaskEdit => Action::TaskEdit,
                        ArgToken::TaskInfo => Action::TaskInfo,
                        ArgToken::Refresh => Action::Refresh,
                        ArgToken::Review => Action::Review,
                        ArgToken::Run => Action::Run,
                        _ => Action::Info,
                    };
                    if let Some(existing) = action {
                        proof {
                            lemma_scan_conflict_point(body, k);
                        }
                        return Err(
                            ParseError::MultipleActions(
                                action_debug_text(existing),
                                action_literal_text(this),
                            ),
                        );
                    }
                    action = Some(this);
                },
                ArgToken::Pr => {
                    if target_type.is_some() {
                        proof {
                            lemma_scan_conflict_point(body, k);
                        }
                        return Err(ParseError::MultipleTargetTypes("pr".to_owned(), "pr".to_owned()));
                    }
                    target_type = Some(true);
                },
                ArgToken::Commit => {
                    if let Some(existing) = target_type {
                        proof {
                            lemma_scan_conflict_point(body, k);
                        }
                        return Err(
                            ParseError::MultipleTargetTypes(
                                type_name_text(existing),
                                "commit".to_owned(),
                            ),
                        );
                    }
                    target_type = Some(false);
                },
                ArgToken::PrNumber(_) | ArgToken::MergeRef(_) | ArgToken::MaybeRef(_) => {
                    if target.is_some() {
                        proof {
                            lemma_scan_conflict_point(body, k);
                        }
                        return Err(ParseError::MultipleTargets);
                    }
                    target = Some(token);
                },
            }
        }
        proof {
            idx = idx + 1;
        }
    }
    let ghost n = body.len();
    proof {
        if all.len() > 0 {
            assert(body.take(n as int) =~= body);
        } else {
            assert(body =~= Seq::<ArgToken>::empty());
        }
    }
    let act = match action {
        Some(a) => a,
        None => Action::Info,
    };
    let final_target = match (target_type, target) {
        (None, None) => Target::NoTarget,
        (Some(is_pr), None) => {
            return Err(ParseError::MissingTarget(type_name_text(is_pr)));
        },
        (tt, Some(ArgToken::PrNumber(num))) => {
            if tt == Some(false) {
                let digits = u64_decimal(num as u64);
                Target::Commit(string_of(digits.as_slice()))
            } else {
                Target::Pr(num)
            }
        },
        (tt, Some(ArgToken::MergeRef(num))) => {
            if tt == Some(true) {
                return Err(ParseError::MergeRefWithPrType(num));
            } else {
                Target::Commit(merge_ref_string(num))
            }
        },
        (tt, Some(ArgToken::MaybeRef(s))) => {
            if tt == Some(true) {
                match parse_usize(s.as_str()) {
                    Some(num) => Target::Pr(num),
                    None => return Err(ParseError::InvalidPrNumber(s)),
                }
            } else {
                Target::Commit(s)
            }
        },
        (_, Some(_)) => {
            assert(false);
            Target::NoTarget
        },
    };
    Ok(CliArguments { action: act, target: final_target })
}

/// Lexes and parses the command-line arguments (the first is the program name).
pub fn parse_args(args: Vec<String>) -> (r: Result<CliArguments, ParseError>)
    ensures
        exists|toks: Seq<ArgToken>|
            {
                &&& toks.len() == args@.len()
                &&& forall|i: int| 1 <= i < args@.len() ==> lexer::lexes_to(args@[i]@, #[trigger] toks[i])
                &&& parses_to(toks, r)
            },
{
    let toks = lexed_args(args);
    proof {
        assert forall|i: int| 1 <= i < toks@.len() implies !(#[trigger] toks@[i] is ProgramName) by {
            let s = args@[i]@;
            assert(lexer::lexes_to(s, toks@[i]));
        }
    }
    let ghost t = toks@;
    let r = parse_tokens(toks);
    assert(parses_to(t, r));
    r
}

impl ParseError {
    /// The message shown for this error.
    pub open spec fn message(&self) -> Seq<char> {
        match self {
            ParseError::MultipleActions(first, second) => "Multiple actions provided: '"@ + first@
                + "' and '"@ + second@ + "'. If '"@ + second@
                + "' is meant to be a git reference, try 'refs/heads/"@ + second@ + "'."@,
            ParseError::MultipleTargetTypes(first, second) => "Multiple target types provided: '"@
                + first@ + "' and '"@ + second@ + "'. If '"@ + second@
                + "' is meant to be a git reference, try 'refs/heads/"@ + second@ + "'."@,
            ParseError::MultipleTargets => "Multiple targets provided. Please specify only one target."@,
            ParseError::MergeRefWithPrType(pr_num) => "Cannot use merge reference 'merge-"@ + decimal(
                *pr_num as nat,
            ) + "' with target type 'pr'. Did you mean to use 'commit' instead of 'pr'?"@,
            ParseError::InvalidPrNumber(s) => "Invalid PR number: '"@ + s@
                + "'. PR numbers must be numeric."@,
            ParseError::MissingTarget(target_type) => "Target type '"@ + target_type@
                + "' specified but no target provided."@,
            ParseError::InvalidTargetForCommitType(s) => "Invalid target '"@ + s@ + "' for commit type."@,
        }
    }

    /// Renders the error message.
    pub fn to_string(&self) -> (s: String)
        ensures
            s@ == self.message(),
    {
        let mut v: Vec<char> = Vec::new();
        match self {
            ParseError::MultipleActions(first, second) => {
                push_str(&mut v, "Multiple actions provided: '");
                push_str(&mut v, first.as_str());
                push_str(&mut v, "' and '");
                push_str(&mut v, second.as_str());
                push_str(&mut v, "'. If '");
                push_str(&mut v, second.as_str());
                push_str(&mut v, "' is meant to be a git reference, try 'refs/heads/");
                push_str(&mut v, second.as_str());
                push_str(&mut v, "'.");
            },
            ParseError::MultipleTargetTypes(first, second) => {
                push_str(&mut v, "Multiple target types provided: '");
                push_str(&mut v, first.as_str());
                push_str(&mut v, "' and '");
                push_str(&mut v, second.as_str());
                push_str(&mut v, "'. If '");
                push_str(&mut v, second.as_str());
                push_str(&mut v, "' is meant to be a git reference, try 'refs/heads/");
                push_str(&mut v, second.as_str());
                push_str(&mut v, "'.");
            },
            ParseError::MultipleTargets => {
                push_str(&mut v, "Multiple targets provided. Please specify only one target.");
            },
            ParseError::MergeRefWithPrType(pr_num) => {
                push_str(&mut v, "Cannot use merge reference 'merge-");
                let digits = u64_decimal(*pr_num as u64);
                push_all(&mut v, digits.as_slice());
                push_str(
                    &mut v,
                    "' with target type 'pr'. Did you mean to use 'commit' instead of 'pr'?",
                );
            },
            ParseError::InvalidPrNumber(s) => {
                push_str(&mut v, "Invalid PR number: '");
                push_str(&mut v, s.as_str());
                push_str(&mut v, "'. PR numbers must be numeric.");
            },
            ParseError::MissingTarget(target_type) => {
                push_str(&mut v, "Target type '");
                push_str(&mut v, target_type.as_str());
                push_str(&mut v, "' specified but no target provided.");
            },
            ParseError::InvalidTargetForCommitType(s) => {
                push_str(&mut v, "Invalid target '");
                push_str(&mut v, s.as_str());
                push_str(&mut v, "' for commit type.");
            },
        }
        assert(v@ =~= self.message());
        string_of(v.as_slice())
    }
}


/// What the program does with its arguments before it looks at a repository.
#[derive(Debug, Clone, Copy, PartialEq, Eq)]
pub enum Dispatch {
    /// Print this complaint and the usage message, and exit with failure.
    Usage(&'static str),
    /// List the pull requests of the database.
    ListPulls,
    /// Print this note and stop.
    Note(&'static str),
    /// Go on to act on the target in the current repository.
    OnTarget,
}

/// What the program does with `action` when no target was given.
pub open spec fn untargeted(action: Action) -> (Seq<char>, bool) {
    match action {
        Action::Review => ("Nothing to review. (Did you mean to provide a PR number or commit ID?"@, true),
        Action::TaskEdit => ("Nothing to query taskwarrior for. (Did you mean to provide a PR number or commit ID?"@, true),
        Action::TaskInfo => ("Nothing to query taskwarrior for. (Did you mean to provide a PR number or commit ID?"@, true),
        Action::Info => (seq![], false),
        Action::Refresh => ("[invoking gh here]"@, false),
        Action::Run => ("[run loop here]"@, false),
    }
}

/// Decides what the program does with its arguments: without a target, the
/// actions that need one are refused, `info` lists the pull requests and the
/// others only say what they would do; with one, `run` is refused and the
/// rest go on to the repository.
pub fn dispatch(args: &CliArguments) -> (r: Dispatch)
    ensures
        args.target is NoTarget ==> match args.action {
            Action::Info => r == Dispatch::ListPulls,
            Action::Refresh | Action::Run => r matches Dispatch::Note(m) && m@ == untargeted(
                args.action,
            ).0,
            _ => r matches Dispatch::Usage(m) && m@ == untargeted(args.action).0,
        },
        !(args.target is NoTarget) ==> if args.action == Action::Run {
            r matches Dispatch::Usage(m) && m@ == "'run' cannot be invoked with any target."@
        } else {
            r == Dispatch::OnTarget
        },
{
    match args.target {
        Target::NoTarget => match args.action {
            Action::Review => Dispatch::Usage(
                "Nothing to review. (Did you mean to provide a PR number or commit ID?",
            ),
            Action::TaskEdit | Action::TaskInfo => Dispatch::Usage(
                "Nothing to query taskwarrior for. (Did you mean to provide a PR number or commit ID?",
            ),
            Action::Info => Dispatch::ListPulls,
            Action::Refresh => Dispatch::Note("[invoking gh here]"),
            Action::Run => Dispatch::Note("[run loop here]"),
        },
        _ => if args.action == Action::Run {
            Dispatch::Usage("'run' cannot be invoked with any target.")
        } else {
            Dispatch::OnTarget
        },
    }
}
} // verus!
