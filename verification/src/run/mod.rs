//! The CI loop's decisions: which commit to test next, how long to wait when
//! there is nothing to do, and the Nix expressions that describe a commit.
use vstd::prelude::*;
use crate::text::{
    bool_text, chars_of, contains, contains_chars, decimal, ends_with, ends_with_chars, lines,
    lines_of, push_all, push_str, str_eq, string_of, trim, trim_chars, u64_to_string,
};
use crate::tw::collection::TaskCollection;
use crate::tw::serde_types::{CiStatus, ReviewStatus};
use crate::tw::task::{CommitTask, CommitTaskView};

pub mod log;
pub mod merge_description;
pub mod state;

verus! {

/// How long, in seconds, the loop first waits when there is nothing to do.
pub const INITIAL_BACKOFF_SECS: u64 = 30;

/// The wait, in seconds, beyond which it stops doubling.
pub const MAXIMUM_BACKOFF_SECS: u64 = 3600;

/// How long, in seconds, the loop sleeps between two looks at the database.
pub const IDLE_SLEEP_SECS: u64 = 3;

/// What the loop does when it finds no commit to test.
#[derive(Debug, Clone, Copy, PartialEq, Eq, Structural)]
pub enum IdleStep {
    /// It just finished work: push what is ready, and start waiting afresh.
    CheckAndReset,
    /// It was idle already: sleep, then see whether the wait is over.
    Sleep,
}

/// The waiting state of the CI loop.
pub struct RunLoop {
    busy: bool,
    backoff_secs: u64,
}

impl RunLoop {
    /// Whether the loop worked on a commit since it last found nothing to do.
    pub closed spec fn is_busy(&self) -> bool {
        self.busy
    }

    /// How long, in seconds, the loop waits before it reports again.
    pub closed spec fn backoff(&self) -> u64 {
        self.backoff_secs
    }

    /// The wait stays between its first value and twice its cap.
    pub open spec fn wf(&self) -> bool {
        INITIAL_BACKOFF_SECS <= self.backoff() <= 2 * MAXIMUM_BACKOFF_SECS
    }

    /// A loop that has not worked yet, with the first wait.
    pub fn new() -> (r: RunLoop)
        ensures
            r.wf(),
            !r.is_busy(),
            r.backoff() == INITIAL_BACKOFF_SECS,
    {
        RunLoop { busy: false, backoff_secs: INITIAL_BACKOFF_SECS }
    }

    /// The current wait, in seconds.
    pub fn backoff_secs(&self) -> (r: u64)
        ensures
            r == self.backoff(),
    {
        self.backoff_secs
    }

    /// Notes that a commit was found to work on.
    pub fn on_commit_found(&mut self)
        requires
            old(self).wf(),
        ensures
            final(self).wf(),
            final(self).is_busy(),
            final(self).backoff() == old(self).backoff(),
    {
        self.busy = true;
    }

    /// Decides what to do when no commit waits for CI: after work, push what
    /// is ready and start waiting afresh; otherwise sleep.
    pub fn on_idle(&mut self) -> (r: IdleStep)
        requires
            old(self).wf(),
        ensures
            final(self).wf(),
            !final(self).is_busy(),
            old(self).is_busy() ==> r == IdleStep::CheckAndReset && final(self).backoff()
                == INITIAL_BACKOFF_SECS,
            !old(self).is_busy() ==> r == IdleStep::Sleep && final(self).backoff()
                == old(self).backoff(),
    {
        if self.busy {
            self.busy = false;
            self.backoff_secs = INITIAL_BACKOFF_SECS;
            IdleStep::CheckAndReset
        } else {
            IdleStep::Sleep
        }
    }

    /// Decides, after an idle sleep, whether the wait is over, given the
    /// seconds since the last report. When it is, the wait doubles while it
    /// is under its cap, and the result is the new wait in whole minutes, to
    /// report; the caller then pushes what is ready and restarts its clock.
    pub fn after_sleep(&mut self, elapsed_secs: u64) -> (r: Option<u64>)
        requires
            old(self).wf(),
        ensures
            final(self).wf(),
            final(self).is_busy() == old(self).is_busy(),
            elapsed_secs < old(self).backoff() ==> r is None && final(self).backoff() == old(
                self,
            ).backoff(),
            elapsed_secs >= old(self).backoff() ==> {
                &&& final(self).backoff() == if old(self).backoff() < MAXIMUM_BACKOFF_SECS {
                    2 * old(self).backoff()
                } else {
                    old(self).backoff() as int
                }
                &&& r == Some((final(self).backoff() / 60) as u64)
            },
    {
        if elapsed_secs >= self.backoff_secs {
            if self.backoff_secs < MAXIMUM_BACKOFF_SECS {
                self.backoff_secs = self.backoff_secs * 2;
            }
            Some(self.backoff_secs / 60)
        } else {
            None
        }
    }
}

/// What the loop reports when it has had nothing to do for a while.
pub open spec fn idle_message(minutes: u64) -> Seq<char> {
    "Nothing to do. Reloading task database. (Next message in "@ + decimal(minutes as nat)
        + " minutes.)"@
}

/// Writes the report of an idle loop.
pub fn idle_message_text(minutes: u64) -> (r: String)
    ensures
        r@ == idle_message(minutes),
{
    let mut v: Vec<char> = Vec::new();
    push_str(&mut v, "Nothing to do. Reloading task database. (Next message in ");
    push_str(&mut v, u64_to_string(minutes).as_str());
    push_str(&mut v, " minutes.)");
    string_of(v.as_slice())
}

/// A commit that waits for CI: approved, and not yet started.
pub open spec fn awaits_ci(c: CommitTaskView) -> bool {
    c.review_status == ReviewStatus::Approved && c.ci_status == CiStatus::Unstarted
}

/// The UUID of the first commit that waits for CI, if any.
pub open spec fn next_commit_for_ci(cs: Seq<CommitTaskView>) -> Option<u128> {
    if exists|i: int| 0 <= i < cs.len() && awaits_ci(cs[i]) {
        let i = choose|i: int|
            0 <= i < cs.len() && awaits_ci(cs[i]) && forall|j: int|
                0 <= j < i ==> !awaits_ci(#[trigger] cs[j]);
        Some(cs[i].uuid)
    } else {
        None
    }
}

/// The commit picked for CI is the first one that is approved and whose CI
/// has not started; none is picked only when no commit is both.
pub proof fn lemma_next_commit_for_ci(cs: Seq<CommitTaskView>)
    ensures
        next_commit_for_ci(cs) matches Some(u) ==> exists|i: int|
            0 <= i < cs.len() && cs[i].uuid == u && cs[i].review_status == ReviewStatus::Approved
                && cs[i].ci_status == CiStatus::Unstarted && forall|j: int|
                0 <= j < i ==> !(#[trigger] cs[j].review_status == ReviewStatus::Approved
                    && cs[j].ci_status == CiStatus::Unstarted),
        next_commit_for_ci(cs) is None ==> forall|i: int|
            0 <= i < cs.len() ==> !(#[trigger] cs[i].review_status == ReviewStatus::Approved
                && cs[i].ci_status == CiStatus::Unstarted),
{
    if exists|i: int| 0 <= i < cs.len() && awaits_ci(cs[i]) {
        let i = choose|i: int|
            0 <= i < cs.len() && awaits_ci(cs[i]) && forall|j: int|
                0 <= j < i ==> !awaits_ci(#[trigger] cs[j]);
        assert(exists|i: int|
            0 <= i < cs.len() && awaits_ci(cs[i]) && forall|j: int|
                0 <= j < i ==> !awaits_ci(#[trigger] cs[j])) by {
            lemma_first_awaiting(cs);
        }
        assert(forall|j: int| 0 <= j < i ==> !awaits_ci(#[trigger] cs[j]));
    }
}

/// Where some commit waits for CI, there is a first one.
proof fn lemma_first_awaiting(cs: Seq<CommitTaskView>)
    requires
        exists|i: int| 0 <= i < cs.len() && awaits_ci(cs[i]),
    ensures
        exists|i: int|
            0 <= i < cs.len() && awaits_ci(cs[i]) && forall|j: int|
                0 <= j < i ==> !awaits_ci(#[trigger] cs[j]),
    decreases cs.len(),
{
    if awaits_ci(cs[0]) {
        assert(forall|j: int| 0 <= j < 0 ==> !awaits_ci(#[trigger] cs[j]));
    } else {
        let t = cs.drop_first();
        let w = choose|i: int| 0 <= i < cs.len() && awaits_ci(cs[i]);
        assert(t[w - 1] == cs[w]);
        lemma_first_awaiting(t);
        let i = choose|i: int|
            0 <= i < t.len() && awaits_ci(t[i]) && forall|j: int| 0 <= j < i ==> !awaits_ci(#[trigger] t[j]);
        assert(t[i] == cs[i + 1]);
        assert forall|j: int| 0 <= j < i + 1 implies !awaits_ci(#[trigger] cs[j]) by {
            if j > 0 {
                assert(cs[j] == t[j - 1]);
            }
        }
    }
}

/// Finds the next approved commit that needs CI.
pub fn find_next_commit_for_ci(tasks: &TaskCollection) -> (r: Option<u128>)
    ensures
        r == next_commit_for_ci(tasks.commits_view()),
        r matches Some(u) ==> exists|i: int|
            0 <= i < tasks.commits_view().len() && tasks.commits_view()[i].uuid == u
                && tasks.commits_view()[i].review_status == ReviewStatus::Approved
                && tasks.commits_view()[i].ci_status == CiStatus::Unstarted,
        r is None ==> forall|i: int|
            0 <= i < tasks.commits_view().len() ==> !(tasks.commits_view()[i].review_status
                == ReviewStatus::Approved && tasks.commits_view()[i].ci_status == CiStatus::Unstarted),
{
    proof {
        lemma_next_commit_for_ci(tasks.commits_view());
    }
    let commits = tasks.commits();
    let ghost cs = tasks.commits_view();
    let mut i: usize = 0;
    while i < commits.len()
        invariant
            i <= cs.len(),
            commits@.map_values(|c: CommitTask| c@) == cs,
            cs == tasks.commits_view(),
            forall|j: int| 0 <= j < i ==> !awaits_ci(#[trigger] cs[j]),
        decreases cs.len() - i,
    {
        let c = &commits[i];
        assert(c@ == cs[i as int]);
        if c.review_status() == ReviewStatus::Approved && c.ci_status() == CiStatus::Unstarted {
            assert(awaits_ci(cs[i as int]) && forall|j: int|
                0 <= j < i ==> !awaits_ci(#[trigger] cs[j]));
            let ghost k = choose|k: int|
                0 <= k < cs.len() && awaits_ci(cs[k]) && forall|j: int|
                    0 <= j < k ==> !awaits_ci(#[trigger] cs[j]);
            assert(k == i) by {
                if k > i {
                    assert(!awaits_ci(cs[i as int]));
                }
            }
            return Some(c.uuid());
        }
        i = i + 1;
    }
    None
}

/// The name of the Nix file that checks commits of `project`.
pub open spec fn nixfile_name_of(project: Seq<char>) -> Seq<char> {
    project + ".check-pr.nix"@
}

/// Writes the name of the Nix file that checks commits of `project`.
pub fn nixfile_name(project: &str) -> (r: String)
    ensures
        r@ == nixfile_name_of(project@),
{
    let mut v = chars_of(project);
    push_str(&mut v, ".check-pr.nix");
    string_of(v.as_slice())
}

/// Whether a listing of paths (one per line) names a `Cargo.toml`.
pub open spec fn lists_cargo_toml(listing: Seq<char>) -> bool {
    exists|i: int|
        0 <= i < lines(listing).len() && ends_with(#[trigger] lines(listing)[i], "Cargo.toml"@)
}

/// Whether the listing of a commit's files names a `Cargo.toml`.
pub fn has_cargo_toml(listing: &str) -> (r: bool)
    ensures
        r == lists_cargo_toml(listing@),
{
    let cs = chars_of(listing);
    let ls = lines_of(cs.as_slice());
    let ghost lv = ls@.map_values(|l: Vec<char>| l@);
    let toml = chars_of("Cargo.toml");
    let mut i: usize = 0;
    while i < ls.len()
        invariant
            i <= lv.len(),
            lv == ls@.map_values(|l: Vec<char>| l@),
            lv == lines(listing@),
            toml@ == "Cargo.toml"@,
            forall|j: int| 0 <= j < i ==> !ends_with(#[trigger] lv[j], "Cargo.toml"@),
        decreases lv.len() - i,
    {
        assert(ls@[i as int]@ == lv[i as int]);
        if ends_with_chars(ls[i].as_slice(), toml.as_slice()) {
            return true;
        }
        i = i + 1;
    }
    false
}

/// A path that names a Cargo lock file: it says `Cargo` and ends in `.lock`.
pub open spec fn is_lockfile(path: Seq<char>) -> bool {
    contains(path, "Cargo"@) && ends_with(path, ".lock"@)
}

/// The lines of `ls` that name lock files, in order.
pub open spec fn lockfiles_of(ls: Seq<Seq<char>>) -> Seq<Seq<char>>
    decreases ls.len(),
{
    if ls.len() == 0 {
        seq![]
    } else {
        lockfiles_of(ls.drop_last()) + if is_lockfile(ls.last()) {
            seq![ls.last()]
        } else {
            seq![]
        }
    }
}

/// The lock files among the paths of a commit's listing, in order.
pub fn commit_lockfiles(listing: &str) -> (r: Vec<String>)
    ensures
        r@.map_values(|s: String| s@) == lockfiles_of(lines(listing@)),
{
    let cs = chars_of(listing);
    let ls = lines_of(cs.as_slice());
    let ghost lv = ls@.map_values(|l: Vec<char>| l@);
    let cargo = chars_of("Cargo");
    let lock = chars_of(".lock");
    let mut out: Vec<String> = Vec::new();
    let mut i: usize = 0;
    assert(lv.take(0) =~= Seq::<Seq<char>>::empty());
    while i < ls.len()
        invariant
            i <= lv.len(),
            lv == ls@.map_values(|l: Vec<char>| l@),
            cargo@ == "Cargo"@,
            lock@ == ".lock"@,
            out@.map_values(|s: String| s@) == lockfiles_of(lv.take(i as int)),
        decreases lv.len() - i,
    {
        assert(lv.take(i as int + 1).drop_last() =~= lv.take(i as int));
        assert(lv.take(i as int + 1).last() == lv[i as int]);
        assert(ls@[i as int]@ == lv[i as int]);
        let ghost before = out@.map_values(|s: String| s@);
        if contains_chars(ls[i].as_slice(), cargo.as_slice()) && ends_with_chars(
            ls[i].as_slice(),
            lock.as_slice(),
        ) {
            out.push(string_of(ls[i].as_slice()));
            assert(out@.map_values(|s: String| s@) =~= before.push(lv[i as int]));
        } else {
            assert(before + Seq::<Seq<char>>::empty() =~= before);
        }
        i = i + 1;
    }
    assert(lv.take(lv.len() as int) =~= lv);
    out
}

/// The names, among the lines of `ls`, of lock files beside the repository:
/// each line trimmed, kept when it is not empty and says `Cargo`.
pub open spec fn aux_lockfiles_of(ls: Seq<Seq<char>>) -> Seq<Seq<char>>
    decreases ls.len(),
{
    if ls.len() == 0 {
        seq![]
    } else {
        aux_lockfiles_of(ls.drop_last()) + if trim(ls.last()).len() > 0 && contains(
            trim(ls.last()),
            "Cargo"@,
        ) {
            seq![trim(ls.last())]
        } else {
            seq![]
        }
    }
}

/// The names of lock files that `ls ../*.lock` printed and that the commit's
/// build may use.
pub fn aux_lockfile_names(output: &str) -> (r: Vec<String>)
    ensures
        r@.map_values(|s: String| s@) == aux_lockfiles_of(lines(output@)),
{
    let cs = chars_of(output);
    let ls = lines_of(cs.as_slice());
    let ghost lv = ls@.map_values(|l: Vec<char>| l@);
    let cargo = chars_of("Cargo");
    let mut out: Vec<String> = Vec::new();
    let mut i: usize = 0;
    assert(lv.take(0) =~= Seq::<Seq<char>>::empty());
    while i < ls.len()
        invariant
            i <= lv.len(),
            lv == ls@.map_values(|l: Vec<char>| l@),
            cargo@ == "Cargo"@,
            out@.map_values(|s: String| s@) == aux_lockfiles_of(lv.take(i as int)),
        decreases lv.len() - i,
    {
        assert(lv.take(i as int + 1).drop_last() =~= lv.take(i as int));
        assert(lv.take(i as int + 1).last() == lv[i as int]);
        assert(ls@[i as int]@ == lv[i as int]);
        let ghost before = out@.map_values(|s: String| s@);
        let name = trim_chars(ls[i].as_slice());
        if name.len() > 0 && contains_chars(name.as_slice(), cargo.as_slice()) {
            out.push(string_of(name.as_slice()));
            assert(out@.map_values(|s: String| s@) =~= before.push(trim(lv[i as int])));
        } else {
            assert(before + Seq::<Seq<char>>::empty() =~= before);
        }
        i = i + 1;
    }
    assert(lv.take(lv.len() as int) =~= lv);
    out
}

/// Whether a commit's build lacks lock files: its listing names a
/// `Cargo.toml`, and no lock file was found.
pub fn missing_lockfiles(listing: &str, lockfiles: &Vec<String>) -> (r: bool)
    ensures
        r == (lists_cargo_toml(listing@) && lockfiles@.len() == 0),
{
    has_cargo_toml(listing) && lockfiles.len() == 0
}

/// The entries of the Nix attribute set of lock files: `"path" = null` for
/// each, separated by `; `.
pub open spec fn lockfile_entries(ls: Seq<Seq<char>>) -> Seq<char>
    decreases ls.len(),
{
    if ls.len() == 0 {
        seq![]
    } else if ls.len() == 1 {
        "\""@ + ls[0] + "\" = null"@
    } else {
        lockfile_entries(ls.drop_last()) + "; "@ + "\""@ + ls.last() + "\" = null"@
    }
}

/// The Nix attribute set naming the lock files of a build.
pub open spec fn cargo_nixes_of(ls: Seq<Seq<char>>) -> Seq<char> {
    if ls.len() == 0 {
        "{}"@
    } else {
        "{ "@ + lockfile_entries(ls) + "; }"@
    }
}

/// Writes the Nix attribute set naming the lock files of a build.
pub fn cargo_nixes(lockfiles: &Vec<String>) -> (r: String)
    ensures
        r@ == cargo_nixes_of(lockfiles@.map_values(|s: String| s@)),
{
    let ghost lv = lockfiles@.map_values(|s: String| s@);
    let mut v: Vec<char> = Vec::new();
    if lockfiles.len() == 0 {
        push_str(&mut v, "{}");
        return string_of(v.as_slice());
    }
    push_str(&mut v, "{ ");
    let ghost head = v@;
    let mut k: usize = 0;
    assert(lv.take(0) =~= Seq::<Seq<char>>::empty());
    assert(head =~= head + lockfile_entries(lv.take(0)));
    while k < lockfiles.len()
        invariant
            k <= lv.len(),
            lv == lockfiles@.map_values(|s: String| s@),
            v@ == head + lockfile_entries(lv.take(k as int)),
        decreases lv.len() - k,
    {
        assert(lv.take(k as int + 1).drop_last() =~= lv.take(k as int));
        assert(lv.take(k as int + 1).last() == lv[k as int]);
        if k > 0 {
            push_str(&mut v, "; ");
        } else {
            assert(lv.take(1)[0] == lv[0]);
        }
        push_str(&mut v, "\"");
        push_str(&mut v, lockfiles[k].as_str());
        push_str(&mut v, "\" = null");
        assert(v@ =~= head + lockfile_entries(lv.take(k as int + 1)));
        k = k + 1;
    }
    assert(lv.take(lv.len() as int) =~= lv);
    push_str(&mut v, "; }");
    string_of(v.as_slice())
}

/// The Nix expression describing a commit to check.
pub open spec fn commit_expression_of(
    commit_id: Seq<char>,
    is_tip: bool,
    repo_root: Seq<char>,
    cargo_nixes: Seq<char>,
) -> Seq<char> {
    "{ commit = \""@ + commit_id + "\"; isTip = "@ + bool_text(is_tip) + "; gitUrl = \""@
        + repo_root + "\"; cargoNixes = "@ + cargo_nixes + "; }"@
}

/// Writes the Nix expression describing a commit to check.
pub fn commit_expression(commit_id: &str, is_tip: bool, repo_root: &str, cargo_nixes: &str) -> (r:
    String)
    ensures
        r@ == commit_expression_of(commit_id@, is_tip, repo_root@, cargo_nixes@),
{
    let mut v: Vec<char> = Vec::new();
    push_str(&mut v, "{ commit = \"");
    push_str(&mut v, commit_id);
    push_str(&mut v, "\"; isTip = ");
    push_str(&mut v, crate::text::bool_to_string(is_tip).as_str());
    push_str(&mut v, "; gitUrl = \"");
    push_str(&mut v, repo_root);
    push_str(&mut v, "\"; cargoNixes = ");
    push_str(&mut v, cargo_nixes);
    push_str(&mut v, "; }");
    string_of(v.as_slice())
}

/// The configuration handed to `nix-instantiate`.
pub open spec fn instantiate_config_of(repo_root: Seq<char>, project: Seq<char>) -> Seq<char> {
    "{ gitDir = \""@ + repo_root + "\"; projectName = \""@ + project + "\"; }"@
}

/// Writes the configuration handed to `nix-instantiate`.
pub fn instantiate_config(repo_root: &str, project: &str) -> (r: String)
    ensures
        r@ == instantiate_config_of(repo_root@, project@),
{
    let mut v: Vec<char> = Vec::new();
    push_str(&mut v, "{ gitDir = \"");
    push_str(&mut v, repo_root);
    push_str(&mut v, "\"; projectName = \"");
    push_str(&mut v, project);
    push_str(&mut v, "\"; }");
    string_of(v.as_slice())
}

/// Writes the Nix list of the commits to check: here, the one expression.
pub fn commit_list(commit_expression: &str) -> (r: String)
    ensures
        r@ == "[ "@ + commit_expression@ + " ]"@,
{
    let mut v: Vec<char> = Vec::new();
    push_str(&mut v, "[ ");
    push_str(&mut v, commit_expression);
    push_str(&mut v, " ]");
    string_of(v.as_slice())
}

/// The name of the file that keeps the output of a failed step.
pub open spec fn error_file_name_of(commit_id: Seq<char>, operation: Seq<char>, timestamp: Seq<char>) -> Seq<char> {
    "nix-error-"@ + commit_id + "-"@ + operation + "-"@ + timestamp + ".log"@
}

/// Writes the name of the file that keeps the output of a failed step.
pub fn error_file_name(commit_id: &str, operation: &str, timestamp: &str) -> (r: String)
    ensures
        r@ == error_file_name_of(commit_id@, operation@, timestamp@),
{
    let mut v: Vec<char> = Vec::new();
    push_str(&mut v, "nix-error-");
    push_str(&mut v, commit_id);
    push_str(&mut v, "-");
    push_str(&mut v, operation);
    push_str(&mut v, "-");
    push_str(&mut v, timestamp);
    push_str(&mut v, ".log");
    string_of(v.as_slice())
}

/// The report of a failed Nix command: what failed, and its output.
pub open spec fn failure_report_of(tool: Seq<char>, commit_id: Seq<char>, stdout: Seq<char>, stderr: Seq<char>) -> Seq<char> {
    tool + " failed for commit "@ + commit_id + "\n\nSTDOUT:\n"@ + stdout + "\n\nSTDERR:\n"@
        + stderr
}

/// Writes the report of a failed Nix command.
pub fn failure_report(tool: &str, commit_id: &str, stdout: &str, stderr: &str) -> (r: String)
    ensures
        r@ == failure_report_of(tool@, commit_id@, stdout@, stderr@),
{
    let mut v: Vec<char> = Vec::new();
    push_str(&mut v, tool);
    push_str(&mut v, " failed for commit ");
    push_str(&mut v, commit_id);
    push_str(&mut v, "\n\nSTDOUT:\n");
    push_str(&mut v, stdout);
    push_str(&mut v, "\n\nSTDERR:\n");
    push_str(&mut v, stderr);
    string_of(v.as_slice())
}

/// Whether `jj` reported a signature on the merge change: it printed `true`.
pub fn signature_present(output: &str) -> (r: bool)
    ensures
        r == (trim(output@) == "true"@),
{
    let cs = chars_of(output);
    let t = trim_chars(cs.as_slice());
    let expected = chars_of("true");
    crate::text::chars_eq(t.as_slice(), expected.as_slice())
}

} // verus!
