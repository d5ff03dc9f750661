//! Splitting the command line into tokens.
use vstd::prelude::*;
use crate::text::{all_ascii_digits, chars_eq, chars_of, digits_value, str_eq, string_of};

verus! {

/// A command-line argument.
#[derive(Debug)]
pub enum ArgToken {
    /// The 0th argument, which is typically the string used to invoke the program.
    ProgramName(String),
    /// A PR number. Any string of 1-6 (inclusive) numeric digits will be
    /// lexed as a PR number.
    PrNumber(usize),
    /// A reference to the merge commit of a PR. The string `merge-` followed
    /// by a `PrNumber` will be lexed as this.
    MergeRef(usize),
    /// The literal `info`. (Never interpreted as a number or ref.)
    Info,
    /// The literal `task-edit`. (Never interpreted as a number or ref.)
    TaskEdit,
    /// The literal `task-info`. (Never interpreted as a number or ref.)
    TaskInfo,
    /// The literal `refresh`. (Never interpreted as a number or ref.)
    Refresh,
    /// The literal `review`. (Never interpreted as a number or ref.)
    Review,
    /// The literal `run`. (Never interpreted as a number or ref.)
    Run,
    /// The literal `commit`. (Never interpreted as a number or ref.)
    Commit,
    /// The literal `pr`. (Never interpreted as a number or ref.)
    Pr,
    /// Anything else is assumed to be a git ref or jj change ID.
    MaybeRef(String),
}

/// A string of one to six ASCII digits.
pub open spec fn is_pr_number(s: Seq<char>) -> bool {
    1 <= s.len() <= 6 && all_ascii_digits(s)
}

/// What `parse_as_pr_number` returns.
pub open spec fn pr_number_of(s: Seq<char>) -> Option<nat> {
    if is_pr_number(s) {
        Some(digits_value(s))
    } else {
        None
    }
}

/// The prefix of a merge-commit reference.
pub open spec fn merge_prefix() -> Seq<char> {
    "merge-"@
}

/// `s` is `merge-` followed by at least one more character.
pub open spec fn has_merge_prefix(s: Seq<char>) -> bool {
    s.len() > 6 && s.subrange(0, 6) == merge_prefix()
}

/// The token that an argument other than the first is lexed to.
pub open spec fn lexes_to(s: Seq<char>, t: ArgToken) -> bool {
    if s == "info"@ {
        t is Info
    } else if s == "task-edit"@ {
        t is TaskEdit
    } else if s == "task-info"@ {
        t is TaskInfo
    } else if s == "refresh"@ {
        t is Refresh
    } else if s == "review"@ {
        t is Review
    } else if s == "run"@ {
        t is Run
    } else if s == "commit"@ {
        t is Commit
    } else if s == "pr"@ {
        t is Pr
    } else if has_merge_prefix(s) && is_pr_number(s.skip(6)) {
        t == ArgToken::MergeRef(digits_value(s.skip(6)) as usize)
    } else if !has_merge_prefix(s) && is_pr_number(s) {
        t == ArgToken::PrNumber(digits_value(s) as usize)
    } else {
        t matches ArgToken::MaybeRef(r) && r@ == s
    }
}

/// The value of a string of at most six digits is below one million.
proof fn lemma_short_digits_bound(s: Seq<char>)
    requires
        s.len() <= 6,
        all_ascii_digits(s),
    ensures
        digits_value(s) < 1000000,
{
    lemma_digits_bound_by_len(s);
    reveal_with_fuel(pow10, 7);
    assert(pow10(s.len()) <= 1000000);
}

spec fn pow10(n: nat) -> nat
    decreases n,
{
    if n == 0 {
        1
    } else {
        10 * pow10((n - 1) as nat)
    }
}

proof fn lemma_digits_bound_by_len(s: Seq<char>)
    requires
        all_ascii_digits(s),
    ensures
        digits_value(s) < pow10(s.len()),
    decreases s.len(),
{
    if s.len() > 0 {
        let t = s.drop_last();
        assert(all_ascii_digits(t)) by {
            assert forall|i: int| 0 <= i < t.len() implies crate::text::is_ascii_digit(#[trigger] t[i]) by {
                assert(t[i] == s[i]);
            }
        }
        lemma_digits_bound_by_len(t);
        assert(crate::text::is_ascii_digit(s[s.len() - 1]));
        assert(digits_value(s) == digits_value(t) * 10 + crate::text::digit_value(s.last()));
        assert(digits_value(t) + 1 <= pow10(t.len()));
        assert(digits_value(t) * 10 + 10 <= pow10(t.len()) * 10) by (nonlinear_arith)
            requires
                digits_value(t) + 1 <= pow10(t.len()),
        ;
    }
}

/// Reads a PR number: one to six ASCII digits.
fn parse_as_pr_number(s: &[char]) -> (r: Option<usize>)
    ensures
        match pr_number_of(s@) {
            Some(n) => r == Some(n as usize) && n < 1000000,
            None => r is None,
        },
{
    if s.len() == 0 || s.len() > 6 {
        return None;
    }
    let mut val: usize = 0;
    let mut i: usize = 0;
    while i < s.len()
        invariant
            1 <= s@.len() <= 6,
            i <= s@.len(),
            all_ascii_digits(s@.take(i as int)),
            val as nat == digits_value(s@.take(i as int)),
            val < 1000000,
        decreases s@.len() - i,
    {
        let c = s[i];
        if !('0' <= c && c <= '9') {
            assert(!all_ascii_digits(s@)) by {
                assert(!crate::text::is_ascii_digit(s@[i as int]));
            }
            return None;
        }
        let d = (c as u32 - '0' as u32) as usize;
        proof {
            let t = s@.take(i + 1);
            assert(t.drop_last() =~= s@.take(i as int));
            assert(all_ascii_digits(t)) by {
                assert forall|j: int| 0 <= j < t.len() implies crate::text::is_ascii_digit(#[trigger] t[j]) by {
                    if j < i {
                        assert(t[j] == s@.take(i as int)[j]);
                    }
                }
            }
            lemma_short_digits_bound(t);
        }
        val = val * 10 + d;
        i = i + 1;
    }
    assert(s@.take(s@.len() as int) =~= s@);
    Some(val)
}

/// Lexes an argument that is not the program name.
pub fn lex_arg(s_arg: String) -> (t: ArgToken)
    ensures
        lexes_to(s_arg@, t),
{
    if str_eq(s_arg.as_str(), "info") {
        return ArgToken::Info;
    }
    if str_eq(s_arg.as_str(), "task-edit") {
        return ArgToken::TaskEdit;
    }
    if str_eq(s_arg.as_str(), "task-info") {
        return ArgToken::TaskInfo;
    }
    if str_eq(s_arg.as_str(), "refresh") {
        return ArgToken::Refresh;
    }
    if str_eq(s_arg.as_str(), "review") {
        return ArgToken::Review;
    }
    if str_eq(s_arg.as_str(), "run") {
        return ArgToken::Run;
    }
    if str_eq(s_arg.as_str(), "commit") {
        return ArgToken::Commit;
    }
    if str_eq(s_arg.as_str(), "pr") {
        return ArgToken::Pr;
    }
    let cs = chars_of(s_arg.as_str());
    let prefix = chars_of("merge-");
    proof {
        reveal_strlit("merge-");
    }
    if cs.len() > 6 && chars_eq(&cs.as_slice()[0..6], prefix.as_slice()) {
        let rest = &cs.as_slice()[6..cs.len()];
        assert(rest@ =~= s_arg@.skip(6));
        if let Some(res) = parse_as_pr_number(rest) {
            return ArgToken::MergeRef(res);
        }
    } else if let Some(res) = parse_as_pr_number(cs.as_slice()) {
        return ArgToken::PrNumber(res);
    }
    ArgToken::MaybeRef(s_arg)
}

/// Lexes the whole command line: the first argument is the program name,
/// every other argument is lexed with [`lex_arg`].
pub fn lexed_args(args: Vec<String>) -> (toks: Vec<ArgToken>)
    ensures
        toks@.len() == args@.len(),
        args@.len() > 0 ==> (toks@[0] matches ArgToken::ProgramName(p) && p@ == args@[0]@),
        forall|i: int| 1 <= i < args@.len() ==> lexes_to(args@[i]@, #[trigger] toks@[i]),
{
    let mut toks: Vec<ArgToken> = Vec::new();
    let mut is_first = true;
    let ghost n = args@.len();
    let ghost orig = args@;
    for s_arg in it: args
        invariant
            it.seq() == orig,
            toks@.len() == it.index(),
            is_first <==> it.index() == 0,
            it.index() > 0 ==> (toks@[0] matches ArgToken::ProgramName(p) && p@ == orig[0]@),
            forall|i: int| 1 <= i < it.index() ==> lexes_to(orig[i]@, #[trigger] toks@[i]),
    {
        if is_first {
            is_first = false;
            toks.push(ArgToken::ProgramName(s_arg));
        } else {
            toks.push(lex_arg(s_arg));
        }
    }
    toks
}


/// Any string of one to six digits is lexed as a PR number: no keyword and
/// no merge reference is made of digits.
pub proof fn lemma_digits_lex_as_pr_number(s: Seq<char>)
    requires
        is_pr_number(s),
    ensures
        lexes_to(s, ArgToken::PrNumber(digits_value(s) as usize)),
{
    reveal_strlit("info");
    reveal_strlit("task-edit");
    reveal_strlit("task-info");
    reveal_strlit("refresh");
    reveal_strlit("review");
    reveal_strlit("run");
    reveal_strlit("commit");
    reveal_strlit("pr");
    reveal_strlit("merge-");
    assert(crate::text::is_ascii_digit(s[0]));
    assert(s != "info"@ && s != "task-edit"@ && s != "task-info"@ && s != "refresh"@ && s
        != "review"@ && s != "run"@ && s != "commit"@ && s != "pr"@);
    assert(!has_merge_prefix(s)) by {
        if has_merge_prefix(s) {
            assert(s.subrange(0, 6)[0] == s[0]);
        }
    }
}

/// `merge-` followed by one to six digits is lexed as a reference to the
/// merge commit of that PR.
pub proof fn lemma_merge_ref_lexes(n: Seq<char>)
    requires
        is_pr_number(n),
    ensures
        lexes_to("merge-"@ + n, ArgToken::MergeRef(digits_value(n) as usize)),
{
    reveal_strlit("info");
    reveal_strlit("task-edit");
    reveal_strlit("task-info");
    reveal_strlit("refresh");
    reveal_strlit("review");
    reveal_strlit("run");
    reveal_strlit("commit");
    reveal_strlit("pr");
    reveal_strlit("merge-");
    let s = "merge-"@ + n;
    assert(s[0] == 'm');
    assert(s.len() >= 7);
    assert(s != "info"@ && s != "task-edit"@ && s != "task-info"@ && s != "refresh"@ && s
        != "review"@ && s != "run"@ && s != "commit"@ && s != "pr"@);
    assert(s.subrange(0, 6) =~= merge_prefix());
    assert(s.skip(6) =~= n);
}

/// The keywords are lexed as themselves, never as a number or a reference.
pub proof fn lemma_keywords_lex_as_themselves()
    ensures
        forall|t: ArgToken| lexes_to("info"@, t) ==> t is Info,
        forall|t: ArgToken| lexes_to("task-edit"@, t) ==> t is TaskEdit,
        forall|t: ArgToken| lexes_to("task-info"@, t) ==> t is TaskInfo,
        forall|t: ArgToken| lexes_to("refresh"@, t) ==> t is Refresh,
        forall|t: ArgToken| lexes_to("review"@, t) ==> t is Review,
        forall|t: ArgToken| lexes_to("run"@, t) ==> t is Run,
        forall|t: ArgToken| lexes_to("commit"@, t) ==> t is Commit,
        forall|t: ArgToken| lexes_to("pr"@, t) ==> t is Pr,
{
    reveal_strlit("info");
    reveal_strlit("task-edit");
    reveal_strlit("task-info");
    reveal_strlit("refresh");
    reveal_strlit("review");
    reveal_strlit("run");
    reveal_strlit("commit");
    reveal_strlit("pr");
    assert("info"@.len() == 4 && "task-edit"@.len() == 9 && "task-info"@.len() == 9
        && "refresh"@.len() == 7 && "review"@.len() == 6 && "run"@.len() == 3 && "commit"@.len()
        == 6 && "pr"@.len() == 2);
    assert("task-info"@ != "task-edit"@) by {
        assert("task-info"@[5] != "task-edit"@[5]);
    }
    assert("commit"@ != "review"@) by {
        assert("commit"@[0] != "review"@[0]);
    }
}
} // verus!
