//! The set of tasks the tool works on: commits, pull requests, and which
//! pull request a project and number name.
use vstd::prelude::*;
use crate::git::{GitCommit, GitError};
use crate::gh::PrInfo;
use crate::outside::{parse_uuid, uuid_parse, uuid_text, uuid_to_string};
use crate::text::{decimal, push_str, string_of, trim, u64_to_string};
use super::serde_types::{CiStatus, MergeStatus, ReviewStatus};
use crate::gh::merge_description::MergeDescriptionError;
use super::task::{
    commit_updated, pr_updated, CommitTask, CommitTaskView, CommitUpdate, PrTask, PrTaskView, PrUpdate,
    TaskParseError,
};

verus! {

/// The UUID of each commit task and the UUID of the task it depends on.
pub open spec fn links(cs: Seq<CommitTaskView>) -> Seq<(u128, Option<u128>)> {
    cs.map_values(|c: CommitTaskView| (c.uuid, c.parent_commit_uuid))
}

/// No two commit tasks share a UUID.
pub open spec fn commit_uuids_distinct(cs: Seq<CommitTaskView>) -> bool {
    forall|i: int, j: int| 0 <= i < j < cs.len() ==> cs[i].uuid != cs[j].uuid
}

/// No two pull-request tasks share a UUID.
pub open spec fn pull_uuids_distinct(ps: Seq<PrTaskView>) -> bool {
    forall|i: int, j: int| 0 <= i < j < ps.len() ==> ps[i].uuid != ps[j].uuid
}

/// The position of the task with UUID `u`, if there is one.
pub open spec fn link_index(ls: Seq<(u128, Option<u128>)>, u: u128) -> Option<int> {
    if exists|j: int| 0 <= j < ls.len() && ls[j].0 == u {
        Some(choose|j: int| 0 <= j < ls.len() && ls[j].0 == u)
    } else {
        None
    }
}

/// The position of the pull request with UUID `u`, if there is one.
pub open spec fn pull_index(ps: Seq<PrTaskView>, u: u128) -> Option<int> {
    if exists|j: int| 0 <= j < ps.len() && ps[j].uuid == u {
        Some(choose|j: int| 0 <= j < ps.len() && ps[j].uuid == u)
    } else {
        None
    }
}

/// The positions of the commits met when following dependencies from the task
/// `start`, for at most `fuel` steps: the walk stops at a task with no parent
/// or at a UUID that names no task.
pub open spec fn chain_indices(ls: Seq<(u128, Option<u128>)>, start: u128, fuel: nat) -> Seq<int>
    decreases fuel,
{
    if fuel == 0 {
        seq![]
    } else {
        match link_index(ls, start) {
            None => seq![],
            Some(i) => seq![i] + match ls[i].1 {
                None => seq![],
                Some(p) => chain_indices(ls, p, (fuel - 1) as nat),
            },
        }
    }
}

/// The UUID naming no task at which the same walk stops, if it does.
pub open spec fn chain_end(ls: Seq<(u128, Option<u128>)>, start: u128, fuel: nat) -> Option<u128>
    decreases fuel,
{
    if fuel == 0 {
        None
    } else {
        match link_index(ls, start) {
            None => Some(start),
            Some(i) => match ls[i].1 {
                None => None,
                Some(p) => chain_end(ls, p, (fuel - 1) as nat),
            },
        }
    }
}

/// How many steps a walk along dependencies may take: one more than there
/// are commits, which no walk without a cycle needs.
pub open spec fn walk_fuel(cs: Seq<CommitTaskView>) -> nat {
    cs.len() + 1
}

/// The commits met when following dependencies from `start`.
pub open spec fn chain_commits(cs: Seq<CommitTaskView>, start: u128) -> Seq<CommitTaskView> {
    chain_indices(links(cs), start, walk_fuel(cs)).map_values(|i: int| cs[i])
}

/// The commit task with UUID `u`, if there is one.
pub open spec fn lookup_commit(cs: Seq<CommitTaskView>, u: u128) -> Option<CommitTaskView> {
    match link_index(links(cs), u) {
        Some(i) => Some(cs[i]),
        None => None,
    }
}

/// The pull-request task with UUID `u`, if there is one.
pub open spec fn lookup_pull(ps: Seq<PrTaskView>, u: u128) -> Option<PrTaskView> {
    match pull_index(ps, u) {
        Some(i) => Some(ps[i]),
        None => None,
    }
}

/// The view of a found commit task.
pub open spec fn found_commit(r: Option<&CommitTask>) -> Option<CommitTaskView> {
    match r {
        Some(c) => Some(c@),
        None => None,
    }
}

/// The view of a found pull-request task.
pub open spec fn found_pull(r: Option<&PrTask>) -> Option<PrTaskView> {
    match r {
        Some(p) => Some(p@),
        None => None,
    }
}

/// Where in `cs` the task with UUID `u` is.
fn find_commit(cs: &Vec<CommitTask>, u: u128) -> (r: Option<usize>)
    requires
        commit_uuids_distinct(cs@.map_values(|c: CommitTask| c@)),
    ensures
        match r {
            Some(i) => i < cs@.len() && link_index(links(cs@.map_values(|c: CommitTask| c@)), u)
                == Some(i as int),
            None => link_index(links(cs@.map_values(|c: CommitTask| c@)), u) is None,
        },
{
    let ghost vs = cs@.map_values(|c: CommitTask| c@);
    let ghost ls = links(vs);
    let mut i: usize = 0;
    while i < cs.len()
        invariant
            i <= cs@.len(),
            vs == cs@.map_values(|c: CommitTask| c@),
            ls == links(vs),
            commit_uuids_distinct(vs),
            forall|j: int| 0 <= j < i ==> (#[trigger] ls[j]).0 != u,
        decreases cs@.len() - i,
    {
        if cs[i].uuid() == u {
            assert(ls[i as int].0 == u);
            let ghost k = choose|j: int| 0 <= j < ls.len() && ls[j].0 == u;
            assert(ls[k].0 == u);
            assert(k == i) by {
                if k < i {
                    assert(vs[k].uuid != vs[i as int].uuid);
                } else if k > i {
                    assert(vs[i as int].uuid != vs[k].uuid);
                }
            }
            return Some(i);
        }
        i = i + 1;
    }
    None
}

/// Where in `ps` the pull request with UUID `u` is.
fn find_pull(ps: &Vec<PrTask>, u: u128) -> (r: Option<usize>)
    requires
        pull_uuids_distinct(ps@.map_values(|p: PrTask| p@)),
    ensures
        match r {
            Some(i) => i < ps@.len() && pull_index(ps@.map_values(|p: PrTask| p@), u) == Some(
                i as int,
            ),
            None => pull_index(ps@.map_values(|p: PrTask| p@), u) is None,
        },
{
    let ghost vs = ps@.map_values(|p: PrTask| p@);
    let mut i: usize = 0;
    while i < ps.len()
        invariant
            i <= ps@.len(),
            vs == ps@.map_values(|p: PrTask| p@),
            pull_uuids_distinct(vs),
            forall|j: int| 0 <= j < i ==> (#[trigger] vs[j]).uuid != u,
        decreases ps@.len() - i,
    {
        if ps[i].uuid() == u {
            assert(vs[i as int].uuid == u);
            let ghost k = choose|j: int| 0 <= j < vs.len() && vs[j].uuid == u;
            assert(vs[k].uuid == u);
            assert(k == i) by {
                if k < i {
                    assert(vs[k].uuid != vs[i as int].uuid);
                } else if k > i {
                    assert(vs[i as int].uuid != vs[k].uuid);
                }
            }
            return Some(i);
        }
        i = i + 1;
    }
    None
}

/// Follows dependencies from `start`: the positions of the commits met, and
/// the UUID naming no task at which the walk stopped, if it did.
fn walk_chain(cs: &Vec<CommitTask>, start: u128) -> (r: (Vec<usize>, Option<u128>))
    requires
        commit_uuids_distinct(cs@.map_values(|c: CommitTask| c@)),
    ensures
        r.0@.map_values(|i: usize| i as int) == chain_indices(
            links(cs@.map_values(|c: CommitTask| c@)),
            start,
            walk_fuel(cs@.map_values(|c: CommitTask| c@)),
        ),
        r.1 == chain_end(
            links(cs@.map_values(|c: CommitTask| c@)),
            start,
            walk_fuel(cs@.map_values(|c: CommitTask| c@)),
        ),
        forall|k: int| 0 <= k < r.0@.len() ==> (#[trigger] r.0@[k]) < cs@.len(),
{
    let ghost vs = cs@.map_values(|c: CommitTask| c@);
    let ghost ls = links(vs);
    let ghost full = walk_fuel(vs);
    let mut out: Vec<usize> = Vec::new();
    let mut cur = start;
    let mut fuel: u128 = cs.len() as u128 + 1;
    assert(out@.map_values(|i: usize| i as int) =~= Seq::<int>::empty());
    loop
        invariant
            vs == cs@.map_values(|c: CommitTask| c@),
            ls == links(vs),
            full == walk_fuel(vs),
            commit_uuids_distinct(vs),
            out@.map_values(|i: usize| i as int) + chain_indices(ls, cur, fuel as nat)
                == chain_indices(ls, start, full),
            chain_end(ls, cur, fuel as nat) == chain_end(ls, start, full),
            forall|k: int| 0 <= k < out@.len() ==> (#[trigger] out@[k]) < cs@.len(),
        decreases fuel,
    {
        if fuel == 0 {
            assert(out@.map_values(|i: usize| i as int) + chain_indices(ls, cur, 0)
                =~= out@.map_values(|i: usize| i as int));
            return (out, None);
        }
        match find_commit(cs, cur) {
            None => {
                assert(out@.map_values(|i: usize| i as int) + chain_indices(ls, cur, fuel as nat)
                    =~= out@.map_values(|i: usize| i as int));
                return (out, Some(cur));
            },
            Some(i) => {
                let ghost before = out@.map_values(|i: usize| i as int);
                out.push(i);
                assert(out@.map_values(|i: usize| i as int) =~= before.push(i as int));
                match cs[i].dep_uuid() {
                    None => {
                        assert(chain_indices(ls, cur, fuel as nat) =~= seq![i as int]);
                        assert(before + seq![i as int] =~= before.push(i as int));
                        return (out, None);
                    },
                    Some(p) => {
                        assert(chain_indices(ls, cur, fuel as nat) =~= seq![i as int]
                            + chain_indices(ls, p, (fuel - 1) as nat));
                        assert(before + (seq![i as int] + chain_indices(ls, p, (fuel - 1) as nat))
                            =~= before.push(i as int) + chain_indices(ls, p, (fuel - 1) as nat));
                        cur = p;
                        fuel = fuel - 1;
                    },
                }
            },
        }
    }
}


/// Why the task collection could not be built or changed.
#[derive(Debug)]
pub enum TaskCollectionError {
    MissingUuid { missing: u128, needed_by: u128 },
    ParseJson(serde_json::Error),
    ParseTask(TaskParseError),
    ParseUuid(uuid::Error),
    GetAcks(MergeDescriptionError),
    MergeDescription(MergeDescriptionError),
    UniqueUuid(String),
    Shell(xshell::Error),
    Utf8(std::io::Error),
    InvalidPrData { message: String },
    Git(GitError),
    Jj(xshell::Error),
    IllegalMergeCommit { commit_id: GitCommit, pr_number: usize },
}

/// Why a task could not be updated.
#[derive(Debug)]
pub enum UpdateError {
    CreateShell(xshell::Error),
    UnknownUuid(u128),
    ExecuteModify(u128, xshell::Error),
}

/// Whether the pull request `p` names a commit that is not there: the UUID
/// at which the walk from its tip commit falls off, or else its merge commit.
pub open spec fn pull_problem(ls: Seq<(u128, Option<u128>)>, p: PrTaskView, fuel: nat) -> Option<
    u128,
> {
    match chain_end(ls, p.tip_commit_uuid, fuel) {
        Some(m) => Some(m),
        None => if link_index(ls, p.merge_uuid) is None {
            Some(p.merge_uuid)
        } else {
            None
        },
    }
}

/// Whether the commit at position `i` depends on a task that is not there.
pub open spec fn commit_problem(ls: Seq<(u128, Option<u128>)>, i: int) -> Option<u128> {
    match ls[i].1 {
        Some(u) => if link_index(ls, u) is None {
            Some(u)
        } else {
            None
        },
        None => None,
    }
}

/// The numbers the pull request `p` adds to the commit at position `i`: once
/// if the commit lies on its chain, once if it is its merge commit.
pub open spec fn pr_marks(ls: Seq<(u128, Option<u128>)>, p: PrTaskView, i: int, fuel: nat) -> Seq<
    usize,
> {
    (if chain_indices(ls, p.tip_commit_uuid, fuel).contains(i) {
        seq![p.number]
    } else {
        seq![]
    }) + (if ls[i].0 == p.merge_uuid {
        seq![p.number]
    } else {
        seq![]
    })
}

/// The numbers the pull requests `ps`, in order, add to the commit at `i`.
pub open spec fn marks_of(ls: Seq<(u128, Option<u128>)>, ps: Seq<PrTaskView>, i: int, fuel: nat) -> Seq<
    usize,
>
    decreases ps.len(),
{
    if ps.len() == 0 {
        seq![]
    } else {
        marks_of(ls, ps.drop_last(), i, fuel) + pr_marks(ls, ps.last(), i, fuel)
    }
}

/// The entries naming each pull request by project and number, in order; a
/// later entry for the same project and number takes the place of earlier ones.
pub open spec fn number_entries(ps: Seq<PrTaskView>) -> Seq<(Seq<char>, usize, u128)> {
    ps.map_values(|p: PrTaskView| (p.project, p.number, p.uuid))
}

/// Every entry whose UUID is that of a pull request in `ps` gives that pull
/// request's project and number.
pub open spec fn numbers_consistent(es: Seq<(Seq<char>, usize, u128)>, ps: Seq<PrTaskView>) -> bool {
    forall|i: int, j: int|
        #![trigger es[i], ps[j]]
        0 <= i < es.len() && 0 <= j < ps.len() && es[i].2 == ps[j].uuid ==> ps[j].project == es[i].0
            && ps[j].number == es[i].1
}

/// The UUID the last entry for `project` and `num` names.
pub open spec fn number_lookup(es: Seq<(Seq<char>, usize, u128)>, project: Seq<char>, num: usize) -> Option<
    u128,
>
    decreases es.len(),
{
    if es.len() == 0 {
        None
    } else if es.last().0 == project && es.last().1 == num {
        Some(es.last().2)
    } else {
        number_lookup(es.drop_last(), project, num)
    }
}

/// The entry that a lookup by project and number finds.
proof fn lemma_number_lookup_entry(es: Seq<(Seq<char>, usize, u128)>, project: Seq<char>, num: usize) -> (k: int)
    requires
        number_lookup(es, project, num) is Some,
    ensures
        0 <= k < es.len(),
        es[k] == (project, num, number_lookup(es, project, num)->0),
    decreases es.len(),
{
    if es.last().0 == project && es.last().1 == num {
        es.len() - 1
    } else {
        let k = lemma_number_lookup_entry(es.drop_last(), project, num);
        assert(es.drop_last()[k] == es[k]);
        k
    }
}

/// The commit `c` with the pull requests of `prs` appended to those it lists.
pub open spec fn with_prs(c: CommitTaskView, prs: Seq<usize>) -> CommitTaskView {
    CommitTaskView { prs: c.prs + prs, ..c }
}

/// The set of tasks the tool works on.
#[derive(Debug)]
pub struct TaskCollection {
    commits: Vec<CommitTask>,
    pulls: Vec<PrTask>,
    // Which pull request a project and number name; the last entry wins.
    pull_numbers: Vec<(String, usize, u128)>,
}

impl TaskCollection {
    /// The commit tasks, in order.
    pub closed spec fn commits_view(&self) -> Seq<CommitTaskView> {
        self.commits@.map_values(|c: CommitTask| c@)
    }

    /// The pull-request tasks, in order.
    pub closed spec fn pulls_view(&self) -> Seq<PrTaskView> {
        self.pulls@.map_values(|p: PrTask| p@)
    }

    /// The entries naming pull requests by project and number.
    pub closed spec fn numbers_view(&self) -> Seq<(Seq<char>, usize, u128)> {
        self.pull_numbers@.map_values(|e: (String, usize, u128)| (e.0@, e.1, e.2))
    }

    /// No two commits and no two pull requests share a UUID, and every entry
    /// naming a stored pull request by project and number gives that pull
    /// request's own project and number.
    #[verifier::type_invariant]
    pub open spec fn wf(&self) -> bool {
        &&& commit_uuids_distinct(self.commits_view())
        &&& pull_uuids_distinct(self.pulls_view())
        &&& numbers_consistent(self.numbers_view(), self.pulls_view())
    }
}

/// Whether `i` is among `v`.
fn contains_index(v: &Vec<usize>, i: usize) -> (r: bool)
    ensures
        r == v@.map_values(|x: usize| x as int).contains(i as int),
{
    let ghost w = v@.map_values(|x: usize| x as int);
    let mut k: usize = 0;
    while k < v.len()
        invariant
            k <= v@.len(),
            w == v@.map_values(|x: usize| x as int),
            forall|j: int| 0 <= j < k ==> w[j] != i as int,
        decreases v@.len() - k,
    {
        if v[k] == i {
            assert(w[k as int] == i as int);
            return true;
        }
        k = k + 1;
    }
    false
}


/// What building a collection from `cs` and `ps` gives when nothing is
/// missing: the commits, each with the numbers of the pull requests that
/// contain it; the pull requests; and the pull requests named by number.
pub open spec fn built_from(tc: TaskCollection, cs: Seq<CommitTaskView>, ps: Seq<PrTaskView>) -> bool {
    &&& tc.commits_view().len() == cs.len()
    &&& forall|i: int|
        0 <= i < cs.len() ==> #[trigger] tc.commits_view()[i] == with_prs(
            cs[i],
            marks_of(links(cs), ps, i, walk_fuel(cs)),
        )
    &&& tc.pulls_view() == ps
    &&& tc.numbers_view() == number_entries(ps)
}

/// The first missing task that building a collection from `cs` and `ps`
/// reports, as the missing UUID and the UUID of the task that needs it: first
/// the pull requests in order (their chain, then their merge commit), then
/// the commits in order.
pub open spec fn build_reports(cs: Seq<CommitTaskView>, ps: Seq<PrTaskView>, missing: u128, needed_by: u128) -> bool {
    let ls = links(cs);
    let f = walk_fuel(cs);
    ||| exists|k: int|
        0 <= k < ps.len() && pull_problem(ls, ps[k], f) == Some(missing) && needed_by == ps[k].uuid
            && forall|j: int| 0 <= j < k ==> (#[trigger] pull_problem(ls, ps[j], f)) is None
    ||| (forall|k: int| 0 <= k < ps.len() ==> (#[trigger] pull_problem(ls, ps[k], f)) is None)
        && exists|i: int|
        0 <= i < cs.len() && commit_problem(ls, i) == Some(missing) && needed_by == cs[i].uuid
            && forall|j: int| 0 <= j < i ==> (#[trigger] commit_problem(ls, j)) is None
}

/// Whether some task that `cs` and `ps` need is missing.
pub open spec fn build_fails(cs: Seq<CommitTaskView>, ps: Seq<PrTaskView>) -> bool {
    let ls = links(cs);
    let f = walk_fuel(cs);
    ||| exists|k: int| 0 <= k < ps.len() && (#[trigger] pull_problem(ls, ps[k], f)) is Some
    ||| exists|i: int| 0 <= i < cs.len() && (#[trigger] commit_problem(ls, i)) is Some
}

proof fn lemma_marks_step(ls: Seq<(u128, Option<u128>)>, ps: Seq<PrTaskView>, i: int, f: nat, k: int)
    requires
        0 <= k < ps.len(),
    ensures
        marks_of(ls, ps.take(k + 1), i, f) == marks_of(ls, ps.take(k), i, f) + pr_marks(
            ls,
            ps[k],
            i,
            f,
        ),
{
    assert(ps.take(k + 1).drop_last() =~= ps.take(k));
    assert(ps.take(k + 1).last() == ps[k]);
}

/// Walks the chain of each pull request, in order, and checks that it and the
/// merge commit are there; gives the chains' positions.
fn check_pulls(commits: &Vec<CommitTask>, pulls: &Vec<PrTask>) -> (r: Result<
    Vec<Vec<usize>>,
    TaskCollectionError,
>)
    requires
        commit_uuids_distinct(commits@.map_values(|c: CommitTask| c@)),
    ensures
        ({
            let cs = commits@.map_values(|c: CommitTask| c@);
            let ps = pulls@.map_values(|p: PrTask| p@);
            let ls = links(cs);
            let f = walk_fuel(cs);
            match r {
                Ok(chains) => chains@.len() == ps.len() && (forall|j: int|
                    0 <= j < ps.len() ==> (#[trigger] chains@[j])@.map_values(|x: usize| x as int)
                        == chain_indices(ls, ps[j].tip_commit_uuid, f)) && (forall|j: int|
                    0 <= j < ps.len() ==> (#[trigger] chains@[j])@.len() >= 0 && forall|q: int|
                        0 <= q < chains@[j]@.len() ==> (#[trigger] chains@[j]@[q]) < cs.len())
                    && forall|j: int|
                    0 <= j < ps.len() ==> (#[trigger] pull_problem(ls, ps[j], f)) is None,
                Err(e) => e matches TaskCollectionError::MissingUuid { missing, needed_by }
                    && exists|k: int|
                    0 <= k < ps.len() && pull_problem(ls, ps[k], f) == Some(missing) && needed_by
                        == ps[k].uuid && forall|j: int|
                        0 <= j < k ==> (#[trigger] pull_problem(ls, ps[j], f)) is None,
            }
        }),
{
    let ghost cs = commits@.map_values(|c: CommitTask| c@);
    let ghost ps = pulls@.map_values(|p: PrTask| p@);
    let ghost ls = links(cs);
    let ghost f = walk_fuel(cs);
    let mut chains: Vec<Vec<usize>> = Vec::new();
    let mut k: usize = 0;
    while k < pulls.len()
        invariant
            k <= pulls@.len(),
            cs == commits@.map_values(|c: CommitTask| c@),
            ps == pulls@.map_values(|p: PrTask| p@),
            ls == links(cs),
            f == walk_fuel(cs),
            commit_uuids_distinct(cs),
            chains@.len() == k,
            forall|j: int|
                0 <= j < k ==> (#[trigger] chains@[j])@.map_values(|x: usize| x as int)
                    == chain_indices(ls, ps[j].tip_commit_uuid, f),
            forall|j: int|
                0 <= j < k ==> (#[trigger] chains@[j])@.len() >= 0 && forall|q: int|
                    0 <= q < chains@[j]@.len() ==> (#[trigger] chains@[j]@[q]) < cs.len(),
            forall|j: int| 0 <= j < k ==> (#[trigger] pull_problem(ls, ps[j], f)) is None,
        decreases pulls@.len() - k,
    {
        let (chain, end) = walk_chain(commits, pulls[k].dep_uuid());
        if let Some(m) = end {
            assert(pull_problem(ls, ps[k as int], f) == Some(m));
            return Err(TaskCollectionError::MissingUuid { missing: m, needed_by: pulls[k].uuid() });
        }
        if find_commit(commits, pulls[k].merge_uuid()).is_none() {
            assert(pull_problem(ls, ps[k as int], f) == Some(ps[k as int].merge_uuid));
            return Err(
                TaskCollectionError::MissingUuid {
                    missing: pulls[k].merge_uuid(),
                    needed_by: pulls[k].uuid(),
                },
            );
        }
        chains.push(chain);
        k = k + 1;
    }
    Ok(chains)
}

/// Checks, in order, that every commit's parent is there.
fn check_parents(commits: &Vec<CommitTask>) -> (r: Option<(u128, u128)>)
    requires
        commit_uuids_distinct(commits@.map_values(|c: CommitTask| c@)),
    ensures
        ({
            let cs = commits@.map_values(|c: CommitTask| c@);
            let ls = links(cs);
            match r {
                None => forall|j: int| 0 <= j < cs.len() ==> (#[trigger] commit_problem(ls, j)) is None,
                Some((missing, needed_by)) => exists|i: int|
                    0 <= i < cs.len() && commit_problem(ls, i) == Some(missing) && needed_by
                        == cs[i].uuid && forall|j: int|
                        0 <= j < i ==> (#[trigger] commit_problem(ls, j)) is None,
            }
        }),
{
    let ghost cs = commits@.map_values(|c: CommitTask| c@);
    let ghost ls = links(cs);
    let mut i: usize = 0;
    while i < commits.len()
        invariant
            i <= commits@.len(),
            cs == commits@.map_values(|c: CommitTask| c@),
            ls == links(cs),
            commit_uuids_distinct(cs),
            forall|j: int| 0 <= j < i ==> (#[trigger] commit_problem(ls, j)) is None,
        decreases commits@.len() - i,
    {
        if let Some(u) = commits[i].dep_uuid() {
            if find_commit(commits, u).is_none() {
                assert(commit_problem(ls, i as int) == Some(u));
                return Some((u, commits[i].uuid()));
            }
        }
        i = i + 1;
    }
    None
}

/// Appends to the commit at position `i` the numbers of the pull requests
/// that contain it.
fn mark_commit(commits: &mut Vec<CommitTask>, i: usize, pulls: &Vec<PrTask>, chains: &Vec<Vec<usize>>, Ghost(cs): Ghost<Seq<CommitTaskView>>)
    requires
        i < old(commits)@.len(),
        old(commits)@[i as int]@ == cs[i as int],
        links(cs)[i as int].0 == cs[i as int].uuid,
        cs.len() == old(commits)@.len(),
        chains@.len() == pulls@.len(),
        forall|j: int|
            0 <= j < pulls@.len() ==> (#[trigger] chains@[j])@.map_values(|x: usize| x as int)
                == chain_indices(links(cs), pulls@.map_values(|p: PrTask| p@)[j].tip_commit_uuid, walk_fuel(cs)),
    ensures
        final(commits)@.len() == old(commits)@.len(),
        final(commits)@[i as int]@ == with_prs(
            cs[i as int],
            marks_of(links(cs), pulls@.map_values(|p: PrTask| p@), i as int, walk_fuel(cs)),
        ),
        forall|j: int| 0 <= j < old(commits)@.len() && j != i ==> final(commits)@[j] == old(commits)@[j],
{
    let ghost ps = pulls@.map_values(|p: PrTask| p@);
    let ghost ls = links(cs);
    let ghost f = walk_fuel(cs);
    let u = commits[i].uuid();
    let mut k: usize = 0;
    assert(ps.take(0) =~= Seq::<PrTaskView>::empty());
    assert(cs[i as int].prs + marks_of(ls, ps.take(0), i as int, f) =~= cs[i as int].prs);
    while k < pulls.len()
        invariant
            k <= pulls@.len(),
            i < commits@.len(),
            commits@.len() == old(commits)@.len(),
            ps == pulls@.map_values(|p: PrTask| p@),
            ls == links(cs),
            f == walk_fuel(cs),
            u == cs[i as int].uuid,
            ls[i as int].0 == u,
            chains@.len() == ps.len(),
            forall|j: int|
                0 <= j < ps.len() ==> (#[trigger] chains@[j])@.map_values(|x: usize| x as int)
                    == chain_indices(ls, ps[j].tip_commit_uuid, f),
            forall|j: int| 0 <= j < old(commits)@.len() && j != i ==> commits@[j] == old(commits)@[j],
            commits@[i as int]@ == with_prs(cs[i as int], marks_of(ls, ps.take(k as int), i as int, f)),
        decreases pulls@.len() - k,
    {
        proof {
            lemma_marks_step(ls, ps, i as int, f, k as int);
        }
        let ghost before = commits@[i as int]@;
        let number = pulls[k].number();
        let on_chain = contains_index(&chains[k], i);
        if on_chain {
            commits[i].push_pr(number);
        }
        let ghost middle = commits@[i as int]@;
        let ghost a = marks_of(ls, ps.take(k as int), i as int, f);
        let ghost b = if chain_indices(ls, ps[k as int].tip_commit_uuid, f).contains(i as int) {
            seq![ps[k as int].number]
        } else {
            seq![]
        };
        assert(on_chain == chain_indices(ls, ps[k as int].tip_commit_uuid, f).contains(i as int));
        assert(middle == with_prs(cs[i as int], a + b)) by {
            if on_chain {
                assert(before.prs.push(number) =~= cs[i as int].prs + (a + b));
            } else {
                assert(before.prs =~= cs[i as int].prs + (a + b));
            }
        }
        if pulls[k].merge_uuid() == u {
            commits[i].push_pr(number);
        }
        assert(commits@[i as int]@ == with_prs(
            cs[i as int],
            marks_of(ls, ps.take(k as int + 1), i as int, f),
        )) by {
            let c = if ls[i as int].0 == ps[k as int].merge_uuid {
                seq![ps[k as int].number]
            } else {
                seq![]
            };
            assert(pr_marks(ls, ps[k as int], i as int, f) == b + c);
            if ls[i as int].0 == ps[k as int].merge_uuid {
                assert(middle.prs.push(number) =~= cs[i as int].prs + (a + (b + c)));
            } else {
                assert(middle.prs =~= cs[i as int].prs + (a + (b + c)));
            }
        }
        k = k + 1;
    }
    assert(ps.take(ps.len() as int) =~= ps);
}

/// The entries naming each pull request by project and number.
fn number_pulls(pulls: &Vec<PrTask>) -> (r: Vec<(String, usize, u128)>)
    ensures
        r@.map_values(|e: (String, usize, u128)| (e.0@, e.1, e.2)) == number_entries(
            pulls@.map_values(|p: PrTask| p@),
        ),
{
    let ghost ps = pulls@.map_values(|p: PrTask| p@);
    let mut numbers: Vec<(String, usize, u128)> = Vec::new();
    let mut k: usize = 0;
    assert(ps.take(0) =~= Seq::<PrTaskView>::empty());
    assert(numbers@.map_values(|e: (String, usize, u128)| (e.0@, e.1, e.2)) =~= number_entries(ps.take(0)));
    while k < pulls.len()
        invariant
            k <= pulls@.len(),
            ps == pulls@.map_values(|p: PrTask| p@),
            numbers@.map_values(|e: (String, usize, u128)| (e.0@, e.1, e.2)) == number_entries(
                ps.take(k as int),
            ),
        decreases pulls@.len() - k,
    {
        let project = string_of(crate::text::chars_of(pulls[k].project()).as_slice());
        let entry = (project, pulls[k].number(), pulls[k].uuid());
        let ghost before = numbers@.map_values(|e: (String, usize, u128)| (e.0@, e.1, e.2));
        numbers.push(entry);
        assert(ps.take(k as int + 1) =~= ps.take(k as int).push(ps[k as int]));
        assert(numbers@.map_values(|e: (String, usize, u128)| (e.0@, e.1, e.2))
            =~= before.push((ps[k as int].project, ps[k as int].number, ps[k as int].uuid)));
        assert(numbers@.map_values(|e: (String, usize, u128)| (e.0@, e.1, e.2))
            =~= number_entries(ps.take(k as int + 1)));
        k = k + 1;
    }
    assert(ps.take(ps.len() as int) =~= ps);
    numbers
}

impl TaskCollection {
    /// Builds the collection from the commit and pull-request tasks that
    /// Taskwarrior holds, checking that every task they depend on is there,
    /// and noting in each commit which pull requests contain it.
    pub fn from_tasks(commits: Vec<CommitTask>, pulls: Vec<PrTask>) -> (r: Result<
        TaskCollection,
        TaskCollectionError,
    >)
        requires
            commit_uuids_distinct(commits@.map_values(|c: CommitTask| c@)),
            pull_uuids_distinct(pulls@.map_values(|p: PrTask| p@)),
        ensures
            match r {
                Ok(tc) => !build_fails(
                    commits@.map_values(|c: CommitTask| c@),
                    pulls@.map_values(|p: PrTask| p@),
                ) && built_from(
                    tc,
                    commits@.map_values(|c: CommitTask| c@),
                    pulls@.map_values(|p: PrTask| p@),
                ),
                Err(e) => e matches TaskCollectionError::MissingUuid { missing, needed_by }
                    && build_reports(
                    commits@.map_values(|c: CommitTask| c@),
                    pulls@.map_values(|p: PrTask| p@),
                    missing,
                    needed_by,
                ),
            },
    {
        let ghost cs = commits@.map_values(|c: CommitTask| c@);
        let ghost ps = pulls@.map_values(|p: PrTask| p@);
        let ghost ls = links(cs);
        let ghost f = walk_fuel(cs);
        let chains = match check_pulls(&commits, &pulls) {
            Ok(chains) => chains,
            Err(e) => {
                return Err(e);
            },
        };
        if let Some((missing, needed_by)) = check_parents(&commits) {
            return Err(TaskCollectionError::MissingUuid { missing, needed_by });
        }
        let mut commits = commits;
        let mut i: usize = 0;
        while i < commits.len()
            invariant
                i <= commits@.len(),
                commits@.len() == cs.len(),
                ps == pulls@.map_values(|p: PrTask| p@),
                ls == links(cs),
                f == walk_fuel(cs),
                chains@.len() == ps.len(),
                forall|j: int|
                    0 <= j < ps.len() ==> (#[trigger] chains@[j])@.map_values(|x: usize| x as int)
                        == chain_indices(ls, ps[j].tip_commit_uuid, f),
                forall|j: int|
                    0 <= j < i ==> (#[trigger] commits@[j])@ == with_prs(
                        cs[j],
                        marks_of(ls, ps, j, f),
                    ),
                forall|j: int| i <= j < cs.len() ==> (#[trigger] commits@[j])@ == cs[j],
            decreases commits@.len() - i,
        {
            mark_commit(&mut commits, i, &pulls, &chains, Ghost(cs));
            i = i + 1;
        }
        let numbers = number_pulls(&pulls);
        assert(commit_uuids_distinct(commits@.map_values(|c: CommitTask| c@))) by {
            let vs = commits@.map_values(|c: CommitTask| c@);
            assert forall|a: int, b: int| 0 <= a < b < vs.len() implies #[trigger] vs[a].uuid
                != #[trigger] vs[b].uuid by {
                assert(commits@[a]@.uuid == cs[a].uuid);
                assert(commits@[b]@.uuid == cs[b].uuid);
            }
        }
        let tc = TaskCollection { commits, pulls, pull_numbers: numbers };
        assert(tc.pulls_view() == ps);
        Ok(tc)
    }
}


/// The first commit of `project` with the commit ID `commit_id`, if any.
pub open spec fn commit_by_id_spec(cs: Seq<CommitTaskView>, project: Seq<char>, commit_id: Seq<char>) -> Option<
    CommitTaskView,
> {
    if exists|i: int| 0 <= i < cs.len() && cs[i].project == project && cs[i].commit_id == commit_id {
        let i = choose|i: int|
            0 <= i < cs.len() && cs[i].project == project && cs[i].commit_id == commit_id && forall|
                j: int,
            |
                0 <= j < i ==> !((#[trigger] cs[j]).project == project && cs[j].commit_id
                    == commit_id);
        Some(cs[i])
    } else {
        None
    }
}

impl TaskCollection {
    /// Looks up a commit by UUID.
    pub fn commit(&self, uuid: u128) -> (r: Option<&CommitTask>)
        ensures
            found_commit(r) == lookup_commit(self.commits_view(), uuid),
    {
        proof {
            use_type_invariant(self);
        }
        match find_commit(&self.commits, uuid) {
            Some(i) => Some(&self.commits[i]),
            None => None,
        }
    }

    /// Looks up a pull request by UUID.
    pub fn pull(&self, uuid: u128) -> (r: Option<&PrTask>)
        ensures
            found_pull(r) == lookup_pull(self.pulls_view(), uuid),
    {
        proof {
            use_type_invariant(self);
        }
        match find_pull(&self.pulls, uuid) {
            Some(i) => Some(&self.pulls[i]),
            None => None,
        }
    }

    /// All the commits in the database.
    pub fn commits(&self) -> (r: &[CommitTask])
        ensures
            r@.map_values(|c: CommitTask| c@) == self.commits_view(),
    {
        self.commits.as_slice()
    }

    /// All the pull requests in the database.
    pub fn pulls(&self) -> (r: &[PrTask])
        ensures
            r@.map_values(|p: PrTask| p@) == self.pulls_view(),
    {
        self.pulls.as_slice()
    }

    /// Query a pull request task given the project name (e.g.
    /// `apoelstra.local-nix-ci`) and PR number.
    pub fn pull_by_number(&self, project: &str, num: usize) -> (r: Option<&PrTask>)
        ensures
            found_pull(r) == match number_lookup(self.numbers_view(), project@, num) {
                Some(u) => lookup_pull(self.pulls_view(), u),
                None => None,
            },
            r matches Some(p) ==> p@.project == project@ && p@.number == num,
    {
        let ghost found = match number_lookup(self.numbers_view(), project@, num) {
            Some(u) => lookup_pull(self.pulls_view(), u),
            None => None,
        };
        proof {
            use_type_invariant(self);
            if let Some(u) = number_lookup(self.numbers_view(), project@, num) {
                let k = lemma_number_lookup_entry(self.numbers_view(), project@, num);
                if let Some(j) = pull_index(self.pulls_view(), u) {
                    assert(self.numbers_view()[k].2 == self.pulls_view()[j].uuid);
                }
            }
            assert(found matches Some(p) ==> p.project == project@ && p.number == num);
        }
        let ghost es = self.numbers_view();
        let mut i: usize = self.pull_numbers.len();
        assert(es.take(i as int) =~= es);
        while i > 0
            invariant
                i <= es.len(),
                es == self.numbers_view(),
                number_lookup(es.take(i as int), project@, num) == number_lookup(es, project@, num),
                found == match number_lookup(es, project@, num) {
                    Some(u) => lookup_pull(self.pulls_view(), u),
                    None => None,
                },
                found matches Some(p) ==> p.project == project@ && p.number == num,
            decreases i,
        {
            let e = &self.pull_numbers[i - 1];
            assert(es.take(i as int).drop_last() =~= es.take(i - 1));
            assert(es.take(i as int).last() == es[i - 1]);
            if e.1 == num && crate::text::str_eq(e.0.as_str(), project) {
                return self.pull(e.2);
            }
            i = i - 1;
        }
        None
    }

    /// Query a commit task given the project name and commit ID.
    pub fn commit_by_id(&self, project: &str, commit_id: &GitCommit) -> (r: Option<&CommitTask>)
        ensures
            found_commit(r) == commit_by_id_spec(self.commits_view(), project@, commit_id@),
    {
        let ghost cs = self.commits_view();
        let mut i: usize = 0;
        while i < self.commits.len()
            invariant
                i <= cs.len(),
                cs == self.commits_view(),
                forall|j: int|
                    0 <= j < i ==> !((#[trigger] cs[j]).project == project@ && cs[j].commit_id
                        == commit_id@),
            decreases cs.len() - i,
        {
            let c = &self.commits[i];
            if crate::text::str_eq(c.project(), project) && c.commit_id().same_as(commit_id) {
                let ghost k = choose|k: int|
                    0 <= k < cs.len() && cs[k].project == project@ && cs[k].commit_id == commit_id@
                        && forall|j: int|
                        0 <= j < k ==> !((#[trigger] cs[j]).project == project@ && cs[j].commit_id
                            == commit_id@);
                assert(cs[i as int].project == project@ && cs[i as int].commit_id == commit_id@);
                assert(k == i) by {
                    if k < i {
                    } else if k > i {
                        assert(!((cs[i as int]).project == project@ && cs[i as int].commit_id
                            == commit_id@));
                    }
                }
                return Some(c);
            }
            i = i + 1;
        }
        None
    }
}

impl PrTask {
    /// The commits of the pull request, from its tip down along parents.
    pub fn commits<'tc>(&self, collection: &'tc TaskCollection) -> (r: Vec<&'tc CommitTask>)
        ensures
            r@.map_values(|c: &CommitTask| c@) == chain_commits(
                collection.commits_view(),
                self@.tip_commit_uuid,
            ),
    {
        proof {
            use_type_invariant(collection);
        }
        let ghost cs = collection.commits_view();
        let (idx, _) = walk_chain(&collection.commits, self.dep_uuid());
        let ghost w = idx@.map_values(|x: usize| x as int);
        let mut out: Vec<&'tc CommitTask> = Vec::new();
        let mut k: usize = 0;
        while k < idx.len()
            invariant
                k <= idx@.len(),
                cs == collection.commits_view(),
                w == idx@.map_values(|x: usize| x as int),
                forall|q: int| 0 <= q < idx@.len() ==> (#[trigger] idx@[q]) < cs.len(),
                out@.map_values(|c: &CommitTask| c@) == w.take(k as int).map_values(|i: int| cs[i]),
            decreases idx@.len() - k,
        {
            let ghost before = out@.map_values(|c: &CommitTask| c@);
            let c = &collection.commits[idx[k]];
            assert(c@ == cs[w[k as int]]);
            out.push(c);
            assert(out@.map_values(|c: &CommitTask| c@) =~= before.push(cs[w[k as int]]));
            assert(w.take(k as int + 1) =~= w.take(k as int).push(w[k as int]));
            assert(out@.map_values(|c: &CommitTask| c@) =~= w.take(k as int + 1).map_values(
                |i: int| cs[i],
            ));
            k = k + 1;
        }
        assert(w.take(w.len() as int) =~= w);
        out
    }
}

fn update_commit_at(cs: &mut Vec<CommitTask>, i: usize, upd: CommitUpdate)
    requires
        i < old(cs)@.len(),
        commit_uuids_distinct(old(cs)@.map_values(|c: CommitTask| c@)),
    ensures
        final(cs)@.map_values(|c: CommitTask| c@) == old(cs)@.map_values(|c: CommitTask| c@).update(
            i as int,
            commit_updated(old(cs)@[i as int]@, upd),
        ),
        commit_uuids_distinct(final(cs)@.map_values(|c: CommitTask| c@)),
{
    let ghost before = cs@.map_values(|c: CommitTask| c@);
    cs[i].apply_update(upd);
    let ghost after = cs@.map_values(|c: CommitTask| c@);
    assert(after =~= before.update(i as int, cs@[i as int]@));
    assert forall|a: int, b: int| 0 <= a < b < after.len() implies #[trigger] after[a].uuid
        != #[trigger] after[b].uuid by {
        assert(after[a].uuid == before[a].uuid);
        assert(after[b].uuid == before[b].uuid);
    }
}

fn update_pull_at(ps: &mut Vec<PrTask>, i: usize, upd: PrUpdate)
    requires
        i < old(ps)@.len(),
        pull_uuids_distinct(old(ps)@.map_values(|p: PrTask| p@)),
    ensures
        final(ps)@.map_values(|p: PrTask| p@) == old(ps)@.map_values(|p: PrTask| p@).update(
            i as int,
            pr_updated(old(ps)@[i as int]@, upd),
        ),
        pull_uuids_distinct(final(ps)@.map_values(|p: PrTask| p@)),
{
    let ghost before = ps@.map_values(|p: PrTask| p@);
    ps[i].apply_update(upd);
    let ghost after = ps@.map_values(|p: PrTask| p@);
    assert(after =~= before.update(i as int, ps@[i as int]@));
    assert forall|a: int, b: int| 0 <= a < b < after.len() implies #[trigger] after[a].uuid
        != #[trigger] after[b].uuid by {
        assert(after[a].uuid == before[a].uuid);
        assert(after[b].uuid == before[b].uuid);
    }
}

fn put_commit(cs: &mut Vec<CommitTask>, c: CommitTask)
    requires
        commit_uuids_distinct(old(cs)@.map_values(|c: CommitTask| c@)),
    ensures
        final(cs)@.map_values(|c: CommitTask| c@) == match link_index(
            links(old(cs)@.map_values(|c: CommitTask| c@)),
            c@.uuid,
        ) {
            Some(i) => old(cs)@.map_values(|c: CommitTask| c@).update(i, c@),
            None => old(cs)@.map_values(|c: CommitTask| c@).push(c@),
        },
        commit_uuids_distinct(final(cs)@.map_values(|c: CommitTask| c@)),
{
    let ghost before = cs@.map_values(|c: CommitTask| c@);
    let ghost v = c@;
    match find_commit(cs, c.uuid()) {
        Some(i) => {
            cs.set(i, c);
            let ghost after = cs@.map_values(|c: CommitTask| c@);
            assert(after =~= before.update(i as int, v));
            assert(links(before)[i as int].0 == v.uuid);
            assert forall|a: int, b: int| 0 <= a < b < after.len() implies #[trigger] after[a].uuid
                != #[trigger] after[b].uuid by {
                assert(after[a].uuid == before[a].uuid);
                assert(after[b].uuid == before[b].uuid);
            }
        },
        None => {
            cs.push(c);
            let ghost after = cs@.map_values(|c: CommitTask| c@);
            assert(after =~= before.push(v));
            assert forall|a: int, b: int| 0 <= a < b < after.len() implies #[trigger] after[a].uuid
                != #[trigger] after[b].uuid by {
                if b == before.len() {
                    assert(links(before)[a].0 == before[a].uuid);
                }
            }
        },
    }
}

fn put_pull(ps: &mut Vec<PrTask>, p: PrTask)
    requires
        pull_uuids_distinct(old(ps)@.map_values(|p: PrTask| p@)),
    ensures
        final(ps)@.map_values(|p: PrTask| p@) == match pull_index(
            old(ps)@.map_values(|p: PrTask| p@),
            p@.uuid,
        ) {
            Some(i) => old(ps)@.map_values(|p: PrTask| p@).update(i, p@),
            None => old(ps)@.map_values(|p: PrTask| p@).push(p@),
        },
        pull_uuids_distinct(final(ps)@.map_values(|p: PrTask| p@)),
{
    let ghost before = ps@.map_values(|p: PrTask| p@);
    let ghost v = p@;
    match find_pull(ps, p.uuid()) {
        Some(i) => {
            ps.set(i, p);
            let ghost after = ps@.map_values(|p: PrTask| p@);
            assert(after =~= before.update(i as int, v));
            assert forall|a: int, b: int| 0 <= a < b < after.len() implies #[trigger] after[a].uuid
                != #[trigger] after[b].uuid by {
                assert(after[a].uuid == before[a].uuid);
                assert(after[b].uuid == before[b].uuid);
            }
        },
        None => {
            ps.push(p);
            let ghost after = ps@.map_values(|p: PrTask| p@);
            assert(after =~= before.push(v));
            assert forall|a: int, b: int| 0 <= a < b < after.len() implies #[trigger] after[a].uuid
                != #[trigger] after[b].uuid by {
                if b == before.len() {
                    assert(before[a].uuid != v.uuid);
                }
            }
        },
    }
}

/// What changing the commit `uuid` does to the commits, and what it returns.
pub open spec fn commit_change(
    before: Seq<CommitTaskView>,
    after: Seq<CommitTaskView>,
    uuid: u128,
    upd: CommitUpdate,
    r: Result<(), UpdateError>,
) -> bool {
    match link_index(links(before), uuid) {
        Some(i) => r is Ok && after == before.update(i, commit_updated(before[i], upd)),
        None => (r matches Err(UpdateError::UnknownUuid(u)) && u == uuid) && after == before,
    }
}

/// What changing the pull request `uuid` does to the pull requests, and
/// what it returns.
pub open spec fn pull_change(
    before: Seq<PrTaskView>,
    after: Seq<PrTaskView>,
    uuid: u128,
    upd: PrUpdate,
    r: Result<(), UpdateError>,
) -> bool {
    match pull_index(before, uuid) {
        Some(i) => r is Ok && after == before.update(i, pr_updated(before[i], upd)),
        None => (r matches Err(UpdateError::UnknownUuid(u)) && u == uuid) && after == before,
    }
}

impl TaskCollection {
    fn update_commit(&mut self, uuid: u128, upd: CommitUpdate) -> (r: Result<(), UpdateError>)
        ensures
            commit_change(old(self).commits_view(), final(self).commits_view(), uuid, upd, r),
            final(self).pulls_view() == old(self).pulls_view(),
            final(self).numbers_view() == old(self).numbers_view(),
    {
        proof {
            use_type_invariant(&*self);
        }
        match find_commit(&self.commits, uuid) {
            None => Err(UpdateError::UnknownUuid(uuid)),
            Some(i) => {
                let mut cs: Vec<CommitTask> = Vec::new();
                std::mem::swap(&mut cs, &mut self.commits);
                update_commit_at(&mut cs, i, upd);
                self.commits = cs;
                Ok(())
            },
        }
    }

    fn update_pull(&mut self, uuid: u128, upd: PrUpdate) -> (r: Result<(), UpdateError>)
        ensures
            pull_change(old(self).pulls_view(), final(self).pulls_view(), uuid, upd, r),
            final(self).commits_view() == old(self).commits_view(),
            final(self).numbers_view() == old(self).numbers_view(),
    {
        proof {
            use_type_invariant(&*self);
        }
        match find_pull(&self.pulls, uuid) {
            None => Err(UpdateError::UnknownUuid(uuid)),
            Some(i) => {
                let mut ps: Vec<PrTask> = Vec::new();
                std::mem::swap(&mut ps, &mut self.pulls);
                update_pull_at(&mut ps, i, upd);
                self.pulls = ps;
                Ok(())
            },
        }
    }

    /// Records the commit of the CI configuration that the commit `uuid` is
    /// tested with.
    pub fn update_commit_local_ci_commit_id(&mut self, uuid: u128, commit_id: String) -> (r: Result<
        (),
        UpdateError,
    >)
        ensures
            commit_change(
                old(self).commits_view(),
                final(self).commits_view(),
                uuid,
                CommitUpdate::LocalCiCommitId(commit_id),
                r,
            ),
            final(self).pulls_view() == old(self).pulls_view(),
            final(self).numbers_view() == old(self).numbers_view(),
    {
        self.update_commit(uuid, CommitUpdate::LocalCiCommitId(commit_id))
    }

    /// Records the Nix derivation built for the commit `uuid`.
    pub fn update_commit_derivation(&mut self, uuid: u128, derivation: String) -> (r: Result<
        (),
        UpdateError,
    >)
        ensures
            commit_change(
                old(self).commits_view(),
                final(self).commits_view(),
                uuid,
                CommitUpdate::Derivation(derivation),
                r,
            ),
            final(self).pulls_view() == old(self).pulls_view(),
            final(self).numbers_view() == old(self).numbers_view(),
    {
        self.update_commit(uuid, CommitUpdate::Derivation(derivation))
    }

    /// Records the CI status of the commit `uuid`.
    pub fn update_commit_ci_status(&mut self, uuid: u128, status: CiStatus) -> (r: Result<
        (),
        UpdateError,
    >)
        ensures
            commit_change(
                old(self).commits_view(),
                final(self).commits_view(),
                uuid,
                CommitUpdate::CiStatus(status),
                r,
            ),
            final(self).pulls_view() == old(self).pulls_view(),
            final(self).numbers_view() == old(self).numbers_view(),
    {
        self.update_commit(uuid, CommitUpdate::CiStatus(status))
    }

    /// Records the review of the commit `uuid`.
    pub fn update_commit_review_status(
        &mut self,
        uuid: u128,
        status: ReviewStatus,
        review_notes: String,
    ) -> (r: Result<(), UpdateError>)
        ensures
            commit_change(
                old(self).commits_view(),
                final(self).commits_view(),
                uuid,
                CommitUpdate::Review(status, review_notes),
                r,
            ),
            final(self).pulls_view() == old(self).pulls_view(),
            final(self).numbers_view() == old(self).numbers_view(),
    {
        self.update_commit(uuid, CommitUpdate::Review(status, review_notes))
    }

    /// Records the merge status of the pull request `uuid`.
    pub fn update_pr_merge_status(&mut self, uuid: u128, status: MergeStatus) -> (r: Result<
        (),
        UpdateError,
    >)
        ensures
            pull_change(
                old(self).pulls_view(),
                final(self).pulls_view(),
                uuid,
                PrUpdate::MergeStatus(status),
                r,
            ),
            final(self).commits_view() == old(self).commits_view(),
            final(self).numbers_view() == old(self).numbers_view(),
    {
        self.update_pull(uuid, PrUpdate::MergeStatus(status))
    }

    /// Records the review of the pull request `uuid`.
    pub fn update_pr_review_status(
        &mut self,
        uuid: u128,
        status: ReviewStatus,
        review_notes: String,
    ) -> (r: Result<(), UpdateError>)
        ensures
            pull_change(
                old(self).pulls_view(),
                final(self).pulls_view(),
                uuid,
                PrUpdate::Review(status, review_notes),
                r,
            ),
            final(self).commits_view() == old(self).commits_view(),
            final(self).numbers_view() == old(self).numbers_view(),
    {
        self.update_pull(uuid, PrUpdate::Review(status, review_notes))
    }

    /// Stores a commit task, in place of the one with the same UUID if there
    /// is one.
    pub fn insert_commit(&mut self, c: CommitTask)
        ensures
            final(self).commits_view() == commits_with(old(self).commits_view(), c@),
            final(self).pulls_view() == old(self).pulls_view(),
            final(self).numbers_view() == old(self).numbers_view(),
    {
        proof {
            use_type_invariant(&*self);
        }
        let mut cs: Vec<CommitTask> = Vec::new();
        std::mem::swap(&mut cs, &mut self.commits);
        put_commit(&mut cs, c);
        self.commits = cs;
    }

    /// Whether every entry that names the pull request `p`'s UUID gives its
    /// project and number, so that `p` can be stored.
    pub fn numbers_agree(&self, p: &PrTask) -> (r: bool)
        ensures
            r == forall|i: int|
                0 <= i < self.numbers_view().len() && (#[trigger] self.numbers_view()[i]).2 == p@.uuid
                    ==> self.numbers_view()[i].0 == p@.project && self.numbers_view()[i].1 == p@.number,
    {
        let ghost es = self.numbers_view();
        let mut i: usize = 0;
        while i < self.pull_numbers.len()
            invariant
                i <= es.len(),
                es == self.numbers_view(),
                forall|k: int|
                    0 <= k < i && (#[trigger] es[k]).2 == p@.uuid ==> es[k].0 == p@.project && es[k].1
                        == p@.number,
            decreases es.len() - i,
        {
            let e = &self.pull_numbers[i];
            assert(es[i as int] == (e.0@, e.1, e.2));
            if e.2 == p.uuid() && !(e.1 == p.number() && crate::text::str_eq(e.0.as_str(), p.project())) {
                return false;
            }
            i = i + 1;
        }
        true
    }

    /// Stores a pull-request task, in place of the one with the same UUID if
    /// there is one.
    pub fn insert_pull(&mut self, p: PrTask)
        requires
            forall|i: int|
                0 <= i < old(self).numbers_view().len() && (#[trigger] old(self).numbers_view()[i]).2
                    == p@.uuid ==> old(self).numbers_view()[i].0 == p@.project
                    && old(self).numbers_view()[i].1 == p@.number,
        ensures
            final(self).pulls_view() == pulls_with(old(self).pulls_view(), p@),
            final(self).commits_view() == old(self).commits_view(),
            final(self).numbers_view() == old(self).numbers_view(),
    {
        proof {
            use_type_invariant(&*self);
        }
        let mut ps: Vec<PrTask> = Vec::new();
        std::mem::swap(&mut ps, &mut self.pulls);
        put_pull(&mut ps, p);
        self.pulls = ps;
    }

    /// Records that `project` and `num` name the pull request `uuid`.
    pub fn insert_pull_number(&mut self, project: String, num: usize, uuid: u128)
        requires
            forall|j: int|
                0 <= j < old(self).pulls_view().len() && (#[trigger] old(self).pulls_view()[j]).uuid
                    == uuid ==> old(self).pulls_view()[j].project == project@
                    && old(self).pulls_view()[j].number == num,
        ensures
            final(self).numbers_view() == old(self).numbers_view().push((project@, num, uuid)),
            final(self).commits_view() == old(self).commits_view(),
            final(self).pulls_view() == old(self).pulls_view(),
    {
        proof {
            use_type_invariant(&*self);
        }
        let ghost before = self.numbers_view();
        let ghost pv = project@;
        let mut es: Vec<(String, usize, u128)> = Vec::new();
        std::mem::swap(&mut es, &mut self.pull_numbers);
        es.push((project, num, uuid));
        let ghost after = es@.map_values(|e: (String, usize, u128)| (e.0@, e.1, e.2));
        assert(after =~= before.push((pv, num, uuid)));
        assert(numbers_consistent(after, self.pulls_view())) by {
            let ps = self.pulls_view();
            assert forall|i: int, j: int|
                0 <= i < after.len() && 0 <= j < ps.len() && after[i].2 == ps[j].uuid implies ps[j].project
                == after[i].0 && ps[j].number == after[i].1 by {
                if i < before.len() {
                    assert(after[i] == before[i]);
                }
            }
        }
        self.pull_numbers = es;
        assert(self.numbers_view() =~= before.push((pv, num, uuid)));
    }
}

/// A commit that does not hold back its pull request's merge: a merge
/// commit, or one that is approved and passed CI.
pub open spec fn commit_ready(c: CommitTaskView) -> bool {
    c.is_merge_commit || (c.review_status == ReviewStatus::Approved && c.ci_status
        == CiStatus::Success)
}

/// A commit that is approved and passed CI.
pub open spec fn commit_passed(c: CommitTaskView) -> bool {
    c.review_status == ReviewStatus::Approved && c.ci_status == CiStatus::Success
}

/// Every commit of the pull request `p` is ready.
pub open spec fn chain_ready(cs: Seq<CommitTaskView>, p: PrTaskView) -> bool {
    forall|k: int|
        0 <= k < chain_commits(cs, p.tip_commit_uuid).len() ==> commit_ready(
            #[trigger] chain_commits(cs, p.tip_commit_uuid)[k],
        )
}

/// Every commit of the pull request `p` is approved and passed CI.
pub open spec fn chain_passed(cs: Seq<CommitTaskView>, p: PrTaskView) -> bool {
    forall|k: int|
        0 <= k < chain_commits(cs, p.tip_commit_uuid).len() ==> commit_passed(
            #[trigger] chain_commits(cs, p.tip_commit_uuid)[k],
        )
}

/// A pull request that may still become ready for merge: not pushed, and
/// approved.
pub open spec fn readiness_applies(p: PrTaskView) -> bool {
    p.merge_status != MergeStatus::Pushed && p.review_status == ReviewStatus::Approved
}

/// A merge commit that is approved on its pull request's behalf: a clean
/// merge that nobody has reviewed, of a pull request whose commits are all
/// ready.
pub open spec fn auto_approves(cs: Seq<CommitTaskView>, p: PrTaskView, m: CommitTaskView) -> bool {
    chain_ready(cs, p) && m.is_clean_merge && m.review_status == ReviewStatus::Unreviewed
}

/// Whether the pull request `p`, with merge commit `m`, now needs a signature.
pub open spec fn becomes_needsig(cs: Seq<CommitTaskView>, p: PrTaskView, m: CommitTaskView) -> bool {
    &&& chain_ready(cs, p)
    &&& auto_approves(cs, p, m) || m.review_status == ReviewStatus::Approved
    &&& m.ci_status == CiStatus::Success
    &&& p.merge_status != MergeStatus::NeedSig
}

/// A pull request is marked as needing a signature only when it is approved
/// and neither pushed nor already marked, all its commits are ready, and its
/// merge commit has a successful CI status and an approval, explicit or
/// automatic.
pub proof fn lemma_needsig_requires_readiness(cs: Seq<CommitTaskView>, p: PrTaskView, m: CommitTaskView)
    requires
        readiness_applies(p),
        becomes_needsig(cs, p, m),
    ensures
        p.review_status == ReviewStatus::Approved,
        p.merge_status == MergeStatus::Unstarted,
        chain_ready(cs, p),
        m.ci_status == CiStatus::Success,
        m.review_status == ReviewStatus::Approved || (m.is_clean_merge && m.review_status
            == ReviewStatus::Unreviewed),
{
}

/// Every commit on the chain of `p` is a merge commit, or approved with a
/// successful CI run.
pub open spec fn chain_commits_pass(cs: Seq<CommitTaskView>, p: PrTaskView) -> bool {
    forall|k: int|
        #![trigger chain_commits(cs, p.tip_commit_uuid)[k]]
        0 <= k < chain_commits(cs, p.tip_commit_uuid).len() ==> {
            let c = chain_commits(cs, p.tip_commit_uuid)[k];
            c.is_merge_commit || (c.review_status == ReviewStatus::Approved && c.ci_status
                == CiStatus::Success)
        }
}

/// An approved pull request that is neither pushed nor already waiting for a
/// signature, whose commits all passed, needs a signature once its merge
/// commit passed CI and is approved: explicitly, or automatically when it is
/// a clean merge still unreviewed.
pub proof fn lemma_passed_merge_needs_sig(cs: Seq<CommitTaskView>, p: PrTaskView, m: CommitTaskView)
    requires
        p.review_status == ReviewStatus::Approved,
        p.merge_status == MergeStatus::Unstarted,
        chain_commits_pass(cs, p),
        m.ci_status == CiStatus::Success,
        m.review_status == ReviewStatus::Approved || (m.is_clean_merge && m.review_status
            == ReviewStatus::Unreviewed),
    ensures
        readiness_applies(p),
        becomes_needsig(cs, p, m),
{
    assert forall|k: int| 0 <= k < chain_commits(cs, p.tip_commit_uuid).len() implies commit_ready(
        #[trigger] chain_commits(cs, p.tip_commit_uuid)[k],
    ) by {
        let c = chain_commits(cs, p.tip_commit_uuid)[k];
        assert(c.is_merge_commit || (c.review_status == ReviewStatus::Approved && c.ci_status
            == CiStatus::Success));
    }
}

/// The review notes left when a clean merge commit is approved automatically.
pub open spec fn auto_approval_notes(number: usize) -> Seq<char> {
    "Auto-approved clean merge commit for PR #"@ + decimal(number as nat)
}

/// What to record when checking whether a pull request is ready for merge:
/// the automatic approval of its merge commit, if any, then whether the pull
/// request now needs a signature.
pub struct MergeReadiness {
    pub approve_merge_commit: Option<(u128, String)>,
    pub mark_needsig: bool,
}

/// What to do for a pull request once a commit passed CI.
pub enum ApprovalAction {
    /// Post the approval of the pull request with this UUID on GitHub.
    Post(u128),
    /// Warn that the pull request with this number waits for its own approval.
    WarnUnapproved(usize),
}

/// The actions for one pull request: none once pushed or while a commit
/// has not passed; otherwise post its approval, or warn that it lacks one.
pub open spec fn approval_actions_for(cs: Seq<CommitTaskView>, p: PrTaskView) -> Seq<ApprovalAction> {
    if p.merge_status == MergeStatus::Pushed || !chain_passed(cs, p) {
        seq![]
    } else if p.review_status == ReviewStatus::Approved {
        seq![ApprovalAction::Post(p.uuid)]
    } else {
        seq![ApprovalAction::WarnUnapproved(p.number)]
    }
}

/// The actions for the pull requests `ps`, in order.
pub open spec fn approval_actions_of(cs: Seq<CommitTaskView>, ps: Seq<PrTaskView>) -> Seq<
    ApprovalAction,
>
    decreases ps.len(),
{
    if ps.len() == 0 {
        seq![]
    } else {
        approval_actions_of(cs, ps.drop_last()) + approval_actions_for(cs, ps.last())
    }
}

/// The pull requests of `ps` that wait for a signature: UUID, number and project.
pub open spec fn needsig_of(ps: Seq<PrTaskView>) -> Seq<(u128, usize, Seq<char>)>
    decreases ps.len(),
{
    if ps.len() == 0 {
        seq![]
    } else {
        needsig_of(ps.drop_last()) + if ps.last().merge_status == MergeStatus::NeedSig {
            seq![(ps.last().uuid, ps.last().number, ps.last().project)]
        } else {
            seq![]
        }
    }
}

/// A commit that is ready, or, when merge commits are not skipped, passed.
pub open spec fn commit_ok(c: CommitTaskView, skip_merge_commits: bool) -> bool {
    if skip_merge_commits {
        commit_ready(c)
    } else {
        commit_passed(c)
    }
}

fn all_ready(commits: &Vec<&CommitTask>, skip_merge_commits: bool) -> (r: bool)
    ensures
        r == forall|k: int|
            0 <= k < commits@.len() ==> #[trigger] commit_ok(commits@[k]@, skip_merge_commits),
{
    let mut k: usize = 0;
    while k < commits.len()
        invariant
            k <= commits@.len(),
            forall|j: int| 0 <= j < k ==> #[trigger] commit_ok(commits@[j]@, skip_merge_commits),
        decreases commits@.len() - k,
    {
        let c = commits[k];
        let skip = skip_merge_commits && c.is_merge_commit();
        if !skip && !(c.review_status() == ReviewStatus::Approved && c.ci_status()
            == CiStatus::Success) {
            assert(!commit_ok(commits@[k as int]@, skip_merge_commits));
            return false;
        }
        k = k + 1;
    }
    true
}

impl TaskCollection {
    /// Decides what checking whether the pull request `pr_uuid` is ready for
    /// merge records. Nothing, unless the pull request is approved and not
    /// pushed. Then, when all its commits are ready, a clean merge commit
    /// nobody reviewed is approved on its behalf; and when moreover its merge
    /// commit is approved and passed CI, the pull request needs a signature,
    /// unless it already does.
    pub fn plan_merge_readiness(&self, pr_uuid: u128) -> (r: Result<MergeReadiness, UpdateError>)
        requires
            match lookup_pull(self.pulls_view(), pr_uuid) {
                Some(p) => readiness_applies(p) ==> lookup_commit(
                    self.commits_view(),
                    p.merge_uuid,
                ) is Some,
                None => true,
            },
        ensures
            match lookup_pull(self.pulls_view(), pr_uuid) {
                None => r matches Err(UpdateError::UnknownUuid(u)) && u == pr_uuid,
                Some(p) => r matches Ok(plan) && if !readiness_applies(p) {
                    plan.approve_merge_commit is None && !plan.mark_needsig
                } else {
                    let m = lookup_commit(self.commits_view(), p.merge_uuid).unwrap();
                    &&& if auto_approves(self.commits_view(), p, m) {
                        plan.approve_merge_commit matches Some((u, notes)) && u == m.uuid && notes@
                            == auto_approval_notes(p.number)
                    } else {
                        plan.approve_merge_commit is None
                    }
                    &&& plan.mark_needsig == becomes_needsig(self.commits_view(), p, m)
                },
            },
            match lookup_pull(self.pulls_view(), pr_uuid) {
                Some(p) => (p.review_status == ReviewStatus::Approved && p.merge_status
                    == MergeStatus::Unstarted && chain_commits_pass(self.commits_view(), p) && (lookup_commit(
                    self.commits_view(),
                    p.merge_uuid,
                ) matches Some(m) && m.ci_status == CiStatus::Success && (m.review_status
                    == ReviewStatus::Approved || (m.is_clean_merge && m.review_status
                    == ReviewStatus::Unreviewed)))) ==> (r matches Ok(plan) && plan.mark_needsig),
                None => true,
            },
    {
        proof {
            if let Some(p) = lookup_pull(self.pulls_view(), pr_uuid) {
                if let Some(m) = lookup_commit(self.commits_view(), p.merge_uuid) {
                    if p.review_status == ReviewStatus::Approved && p.merge_status
                        == MergeStatus::Unstarted && chain_commits_pass(self.commits_view(), p)
                        && m.ci_status == CiStatus::Success && (m.review_status
                        == ReviewStatus::Approved || (m.is_clean_merge && m.review_status
                        == ReviewStatus::Unreviewed)) {
                        lemma_passed_merge_needs_sig(self.commits_view(), p, m);
                    }
                }
            }
        }
        let pr = match self.pull(pr_uuid) {
            Some(pr) => pr,
            None => {
                return Err(UpdateError::UnknownUuid(pr_uuid));
            },
        };
        // Check if PR is pushed -- then don't do anything.
        if pr.merge_status() == MergeStatus::Pushed {
            return Ok(MergeReadiness { approve_merge_commit: None, mark_needsig: false });
        }
        // Check if PR itself is approved
        if pr.review_status() != ReviewStatus::Approved {
            return Ok(MergeReadiness { approve_merge_commit: None, mark_needsig: false });
        }
        // Check if all commits are approved and CI successful, skipping
        // merge commits.
        let commits = pr.commits(self);
        let all_commits_ready = all_ready(&commits, true);
        proof {
            let ch = chain_commits(self.commits_view(), pr@.tip_commit_uuid);
            assert(commits@.len() == ch.len());
            assert(forall|k: int| 0 <= k < ch.len() ==> commits@[k]@ == #[trigger] ch[k]);
            if all_commits_ready {
                assert forall|k: int| 0 <= k < ch.len() implies commit_ready(#[trigger] ch[k]) by {
                    assert(commit_ok(commits@[k]@, true));
                }
            } else {
                let k = choose|k: int| 0 <= k < commits@.len() && !commit_ok(commits@[k]@, true);
                assert(!commit_ready(ch[k]));
            }
            assert(all_commits_ready == chain_ready(self.commits_view(), pr@));
        }
        let merge_commit = match self.commit(pr.merge_uuid()) {
            Some(m) => m,
            None => {
                return Ok(MergeReadiness { approve_merge_commit: None, mark_needsig: false });
            },
        };
        let auto = all_commits_ready && merge_commit.is_clean_merge() && merge_commit.review_status()
            == ReviewStatus::Unreviewed;
        let approve_merge_commit = if auto {
            let mut v: Vec<char> = Vec::new();
            push_str(&mut v, "Auto-approved clean merge commit for PR #");
            push_str(&mut v, u64_to_string(pr.number() as u64).as_str());
            Some((merge_commit.uuid(), string_of(v.as_slice())))
        } else {
            None
        };
        let approved = auto || merge_commit.review_status() == ReviewStatus::Approved;
        let mark_needsig = all_commits_ready && approved && merge_commit.ci_status()
            == CiStatus::Success && pr.merge_status() != MergeStatus::NeedSig;
        Ok(MergeReadiness { approve_merge_commit, mark_needsig })
    }

    /// What to do for each pull request, in order, once a commit passed CI.
    pub fn approval_actions(&self) -> (r: Vec<ApprovalAction>)
        ensures
            r@ == approval_actions_of(self.commits_view(), self.pulls_view()),
    {
        let ghost cs = self.commits_view();
        let ghost ps = self.pulls_view();
        let mut out: Vec<ApprovalAction> = Vec::new();
        let mut k: usize = 0;
        assert(ps.take(0) =~= Seq::<PrTaskView>::empty());
        while k < self.pulls.len()
            invariant
                k <= ps.len(),
                cs == self.commits_view(),
                ps == self.pulls_view(),
                out@ == approval_actions_of(cs, ps.take(k as int)),
            decreases ps.len() - k,
        {
            let pr = &self.pulls[k];
            assert(pr@ == ps[k as int]);
            assert(ps.take(k as int + 1).drop_last() =~= ps.take(k as int));
            assert(ps.take(k as int + 1).last() == ps[k as int]);
            if pr.merge_status() != MergeStatus::Pushed {
                let commits = pr.commits(self);
                let passed = all_ready(&commits, false);
                proof {
                    let ch = chain_commits(cs, pr@.tip_commit_uuid);
                    assert(commits@.len() == ch.len());
                    assert(forall|q: int| 0 <= q < ch.len() ==> commits@[q]@ == #[trigger] ch[q]);
                    if passed {
                        assert forall|q: int| 0 <= q < ch.len() implies commit_passed(
                            #[trigger] ch[q],
                        ) by {
                            assert(commit_ok(commits@[q]@, false));
                        }
                    } else {
                        let q = choose|q: int|
                            0 <= q < commits@.len() && !commit_ok(commits@[q]@, false);
                        assert(!commit_passed(ch[q]));
                    }
                    assert(passed == chain_passed(cs, pr@));
                }
                if passed {
                    if pr.review_status() == ReviewStatus::Approved {
                        out.push(ApprovalAction::Post(pr.uuid()));
                    } else {
                        out.push(ApprovalAction::WarnUnapproved(pr.number()));
                    }
                } else {
                    assert(out@ + approval_actions_for(cs, ps[k as int]) =~= out@);
                }
            } else {
                assert(out@ + approval_actions_for(cs, ps[k as int]) =~= out@);
            }
            k = k + 1;
        }
        assert(ps.take(ps.len() as int) =~= ps);
        out
    }

    /// The pull requests that wait for a signature, in order: UUID, number
    /// and project.
    pub fn needsig_pulls(&self) -> (r: Vec<(u128, usize, String)>)
        ensures
            r@.map_values(|e: (u128, usize, String)| (e.0, e.1, e.2@)) == needsig_of(
                self.pulls_view(),
            ),
    {
        let ghost ps = self.pulls_view();
        let mut out: Vec<(u128, usize, String)> = Vec::new();
        let mut k: usize = 0;
        assert(ps.take(0) =~= Seq::<PrTaskView>::empty());
        assert(out@.map_values(|e: (u128, usize, String)| (e.0, e.1, e.2@)) =~= needsig_of(ps.take(0)));
        while k < self.pulls.len()
            invariant
                k <= ps.len(),
                ps == self.pulls_view(),
                out@.map_values(|e: (u128, usize, String)| (e.0, e.1, e.2@)) == needsig_of(
                    ps.take(k as int),
                ),
            decreases ps.len() - k,
        {
            let pr = &self.pulls[k];
            assert(pr@ == ps[k as int]);
            assert(ps.take(k as int + 1).drop_last() =~= ps.take(k as int));
            assert(ps.take(k as int + 1).last() == ps[k as int]);
            let ghost before = out@.map_values(|e: (u128, usize, String)| (e.0, e.1, e.2@));
            if pr.merge_status() == MergeStatus::NeedSig {
                let project = string_of(crate::text::chars_of(pr.project()).as_slice());
                out.push((pr.uuid(), pr.number(), project));
                assert(out@.map_values(|e: (u128, usize, String)| (e.0, e.1, e.2@))
                    =~= before.push((ps[k as int].uuid, ps[k as int].number, ps[k as int].project)));
            } else {
                assert(before + Seq::<(u128, usize, Seq<char>)>::empty() =~= before);
            }
            k = k + 1;
        }
        assert(ps.take(ps.len() as int) =~= ps);
        out
    }
}

impl TaskCollectionError {
    /// The message shown for this error.
    pub open spec fn message(&self) -> Seq<char> {
        match self {
            TaskCollectionError::MissingUuid { missing, needed_by } => "Missing task UUID "@
                + uuid_text(*missing) + " needed by task "@ + uuid_text(*needed_by),
            TaskCollectionError::ParseJson(_) => "failed to parse json"@,
            TaskCollectionError::ParseTask(_) => "failed to parse task"@,
            TaskCollectionError::ParseUuid(_) => "failed to parse uuid"@,
            TaskCollectionError::GetAcks(_) => "failed to get ACKs from Github"@,
            TaskCollectionError::MergeDescription(_) =>
                "failed to compute description for merge commit"@,
            TaskCollectionError::UniqueUuid(_) => "no unique UUID for filter"@,
            TaskCollectionError::Shell(_) => "shell command failed"@,
            TaskCollectionError::Utf8(_) => "UTF-8 encoding error"@,
            TaskCollectionError::InvalidPrData { message } => "Invalid PR data: "@ + message@,
            TaskCollectionError::Git(_) => "failed invoking git"@,
            TaskCollectionError::Jj(_) => "failed invoking jj"@,
            TaskCollectionError::IllegalMergeCommit { commit_id, pr_number } =>
                "Illegal merge commit "@ + commit_id@ + " in PR #"@ + decimal(*pr_number as nat),
        }
    }

    /// Renders the error message.
    pub fn to_string(&self) -> (s: String)
        ensures
            s@ == self.message(),
    {
        let mut v: Vec<char> = Vec::new();
        match self {
            TaskCollectionError::MissingUuid { missing, needed_by } => {
                push_str(&mut v, "Missing task UUID ");
                push_str(&mut v, uuid_to_string(*missing).as_str());
                push_str(&mut v, " needed by task ");
                push_str(&mut v, uuid_to_string(*needed_by).as_str());
            },
            TaskCollectionError::ParseJson(_) => push_str(&mut v, "failed to parse json"),
            TaskCollectionError::ParseTask(_) => push_str(&mut v, "failed to parse task"),
            TaskCollectionError::ParseUuid(_) => push_str(&mut v, "failed to parse uuid"),
            TaskCollectionError::GetAcks(_) => push_str(&mut v, "failed to get ACKs from Github"),
            TaskCollectionError::MergeDescription(_) => push_str(
                &mut v,
                "failed to compute description for merge commit",
            ),
            TaskCollectionError::UniqueUuid(_) => push_str(&mut v, "no unique UUID for filter"),
            TaskCollectionError::Shell(_) => push_str(&mut v, "shell command failed"),
            TaskCollectionError::Utf8(_) => push_str(&mut v, "UTF-8 encoding error"),
            TaskCollectionError::InvalidPrData { message } => {
                push_str(&mut v, "Invalid PR data: ");
                push_str(&mut v, message.as_str());
            },
            TaskCollectionError::Git(_) => push_str(&mut v, "failed invoking git"),
            TaskCollectionError::Jj(_) => push_str(&mut v, "failed invoking jj"),
            TaskCollectionError::IllegalMergeCommit { commit_id, pr_number } => {
                push_str(&mut v, "Illegal merge commit ");
                push_str(&mut v, commit_id.as_str());
                push_str(&mut v, " in PR #");
                push_str(&mut v, u64_to_string(*pr_number as u64).as_str());
            },
        }
        assert(v@ =~= self.message());
        string_of(v.as_slice())
    }
}

impl UpdateError {
    /// The message shown for this error.
    pub open spec fn message(&self) -> Seq<char> {
        match self {
            UpdateError::CreateShell(_) => "failed to create shell"@,
            UpdateError::UnknownUuid(u) => "unknown UUID "@ + uuid_text(*u),
            UpdateError::ExecuteModify(u, _) => "failed to update UUID "@ + uuid_text(*u),
        }
    }

    /// Renders the error message.
    pub fn to_string(&self) -> (s: String)
        ensures
            s@ == self.message(),
    {
        let mut v: Vec<char> = Vec::new();
        match self {
            UpdateError::CreateShell(_) => push_str(&mut v, "failed to create shell"),
            UpdateError::UnknownUuid(u) => {
                push_str(&mut v, "unknown UUID ");
                push_str(&mut v, uuid_to_string(*u).as_str());
            },
            UpdateError::ExecuteModify(u, _) => {
                push_str(&mut v, "failed to update UUID ");
                push_str(&mut v, uuid_to_string(*u).as_str());
            },
        }
        assert(v@ =~= self.message());
        string_of(v.as_slice())
    }
}

/// The commits after storing `c`: in place of the commit with its UUID, or
/// appended when there is none.
pub open spec fn commits_with(cs: Seq<CommitTaskView>, c: CommitTaskView) -> Seq<CommitTaskView> {
    match link_index(links(cs), c.uuid) {
        Some(i) => cs.update(i, c),
        None => cs.push(c),
    }
}

/// The pull requests after storing `p`: in place of the one with its UUID,
/// or appended when there is none.
pub open spec fn pulls_with(ps: Seq<PrTaskView>, p: PrTaskView) -> Seq<PrTaskView> {
    match pull_index(ps, p.uuid) {
        Some(i) => ps.update(i, p),
        None => ps.push(p),
    }
}

proof fn lemma_link_index_found(ls: Seq<(u128, Option<u128>)>, i: int)
    requires
        0 <= i < ls.len(),
        forall|a: int, b: int| 0 <= a < b < ls.len() ==> (#[trigger] ls[a]).0 != (#[trigger] ls[b]).0,
    ensures
        link_index(ls, ls[i].0) == Some(i),
{
    let k = choose|j: int| 0 <= j < ls.len() && ls[j].0 == ls[i].0;
    assert(ls[i].0 == ls[i].0);
    if k != i {
        if k < i {
            assert(ls[k].0 != ls[i].0);
        } else {
            assert(ls[i].0 != ls[k].0);
        }
    }
}

proof fn lemma_links_distinct(cs: Seq<CommitTaskView>)
    requires
        commit_uuids_distinct(cs),
    ensures
        forall|a: int, b: int|
            0 <= a < b < links(cs).len() ==> (#[trigger] links(cs)[a]).0 != (#[trigger] links(
                cs,
            )[b]).0,
{
    assert forall|a: int, b: int| 0 <= a < b < links(cs).len() implies (#[trigger] links(cs)[a]).0
        != (#[trigger] links(cs)[b]).0 by {
        assert(links(cs)[a].0 == cs[a].uuid);
        assert(links(cs)[b].0 == cs[b].uuid);
    }
}

/// A commit reads back as it was stored, and storing it changes no other
/// commit; the commits' UUIDs stay distinct.
pub proof fn lemma_commit_read_after_insert(cs: Seq<CommitTaskView>, c: CommitTaskView, other: u128)
    requires
        commit_uuids_distinct(cs),
    ensures
        commit_uuids_distinct(commits_with(cs, c)),
        lookup_commit(commits_with(cs, c), c.uuid) == Some(c),
        other != c.uuid ==> lookup_commit(commits_with(cs, c), other) == lookup_commit(cs, other),
{
    let after = commits_with(cs, c);
    let ls = links(cs);
    let la = links(after);
    match link_index(ls, c.uuid) {
        Some(i) => {
            assert(ls[i].0 == c.uuid);
            assert forall|a: int, b: int| 0 <= a < b < after.len() implies #[trigger] after[a].uuid
                != #[trigger] after[b].uuid by {
                if a != i && b != i {
                    assert(after[a] == cs[a] && after[b] == cs[b]);
                } else if a == i {
                    assert(after[b] == cs[b]);
                    assert(cs[a].uuid == ls[a].0);
                } else {
                    assert(after[a] == cs[a]);
                    assert(cs[b].uuid == ls[b].0);
                }
            }
        },
        None => {
            assert forall|a: int, b: int| 0 <= a < b < after.len() implies #[trigger] after[a].uuid
                != #[trigger] after[b].uuid by {
                if b == cs.len() {
                    assert(ls[a].0 == cs[a].uuid);
                } else {
                    assert(after[a] == cs[a] && after[b] == cs[b]);
                }
            }
        },
    }
    lemma_links_distinct(after);
    let j = match link_index(ls, c.uuid) {
        Some(i) => i,
        None => cs.len() as int,
    };
    assert(la[j].0 == c.uuid);
    lemma_link_index_found(la, j);
    if other != c.uuid {
        lemma_links_distinct(cs);
        if exists|q: int| 0 <= q < ls.len() && ls[q].0 == other {
            let q = choose|q: int| 0 <= q < ls.len() && ls[q].0 == other;
            lemma_link_index_found(ls, q);
            assert(la[q].0 == other);
            lemma_link_index_found(la, q);
            assert(after[q] == cs[q]);
        } else {
            assert forall|q: int| 0 <= q < la.len() implies (#[trigger] la[q]).0 != other by {
                if q < cs.len() {
                    assert(la[q].0 == ls[q].0);
                }
            }
        }
    }
}

/// A pull request reads back as it was stored, and storing it changes no
/// other pull request; their UUIDs stay distinct.
pub proof fn lemma_pull_read_after_insert(ps: Seq<PrTaskView>, p: PrTaskView, other: u128)
    requires
        pull_uuids_distinct(ps),
    ensures
        pull_uuids_distinct(pulls_with(ps, p)),
        lookup_pull(pulls_with(ps, p), p.uuid) == Some(p),
        other != p.uuid ==> lookup_pull(pulls_with(ps, p), other) == lookup_pull(ps, other),
{
    let after = pulls_with(ps, p);
    match pull_index(ps, p.uuid) {
        Some(i) => {
            assert(ps[i].uuid == p.uuid);
            assert forall|a: int, b: int| 0 <= a < b < after.len() implies #[trigger] after[a].uuid
                != #[trigger] after[b].uuid by {
                if a != i && b != i {
                    assert(after[a] == ps[a] && after[b] == ps[b]);
                } else if a == i {
                    assert(after[b] == ps[b]);
                } else {
                    assert(after[a] == ps[a]);
                }
            }
        },
        None => {
            assert forall|a: int, b: int| 0 <= a < b < after.len() implies #[trigger] after[a].uuid
                != #[trigger] after[b].uuid by {
                if b < ps.len() {
                    assert(after[a] == ps[a] && after[b] == ps[b]);
                }
            }
        },
    }
    let j = match pull_index(ps, p.uuid) {
        Some(i) => i,
        None => ps.len() as int,
    };
    assert(after[j].uuid == p.uuid);
    let k = choose|q: int| 0 <= q < after.len() && after[q].uuid == p.uuid;
    assert(k == j) by {
        if k < j {
            assert(after[k].uuid != after[j].uuid);
        } else if k > j {
            assert(after[j].uuid != after[k].uuid);
        }
    }
    if other != p.uuid {
        if exists|q: int| 0 <= q < ps.len() && ps[q].uuid == other {
            let q = choose|q: int| 0 <= q < ps.len() && ps[q].uuid == other;
            match pull_index(ps, p.uuid) {
                Some(i) => {
                    assert(ps[i].uuid == p.uuid);
                    assert(after[q] == ps[q]);
                },
                None => {
                    assert(after[q] == ps[q]);
                },
            }
            let k2 = choose|z: int| 0 <= z < after.len() && after[z].uuid == other;
            assert(k2 == q) by {
                if k2 < q {
                    assert(after[k2].uuid != after[q].uuid);
                } else if k2 > q {
                    assert(after[q].uuid != after[k2].uuid);
                }
            }
        } else {
            assert forall|q: int| 0 <= q < after.len() implies (#[trigger] after[q]).uuid != other by {
                if q < ps.len() {
                    assert(after[q] == ps[q] || after[q] == p);
                }
            }
        }
    }
}

/// After a change of status of the commit `uuid`: the commit reads back
/// changed and the call succeeded, or there was no such commit, the call
/// failed and nothing changed; no other commit changes either way.
pub proof fn lemma_commit_read_after_change(
    before: Seq<CommitTaskView>,
    after: Seq<CommitTaskView>,
    uuid: u128,
    upd: CommitUpdate,
    r: Result<(), UpdateError>,
    other: u128,
)
    requires
        commit_uuids_distinct(before),
        commit_change(before, after, uuid, upd, r),
    ensures
        match lookup_commit(before, uuid) {
            Some(c) => r is Ok && lookup_commit(after, uuid) == Some(commit_updated(c, upd)),
            None => r is Err && after == before,
        },
        other != uuid ==> lookup_commit(after, other) == lookup_commit(before, other),
{
    let ls = links(before);
    let la = links(after);
    lemma_links_distinct(before);
    match link_index(ls, uuid) {
        Some(i) => {
            assert(la =~= ls) by {
                assert forall|q: int| 0 <= q < la.len() implies la[q] == ls[q] by {
                    if q == i {
                        assert(after[q] == commit_updated(before[i], upd));
                    }
                }
            }
            if other != uuid {
                if exists|q: int| 0 <= q < ls.len() && ls[q].0 == other {
                    let q = choose|q: int| 0 <= q < ls.len() && ls[q].0 == other;
                    lemma_link_index_found(ls, q);
                    assert(q != i);
                }
            }
        },
        None => {},
    }
}

/// After a change of status of the pull request `uuid`: it reads back
/// changed and the call succeeded, or there was no such pull request, the
/// call failed and nothing changed; no other pull request changes.
pub proof fn lemma_pull_read_after_change(
    before: Seq<PrTaskView>,
    after: Seq<PrTaskView>,
    uuid: u128,
    upd: PrUpdate,
    r: Result<(), UpdateError>,
    other: u128,
)
    requires
        pull_uuids_distinct(before),
        pull_change(before, after, uuid, upd, r),
    ensures
        match lookup_pull(before, uuid) {
            Some(p) => r is Ok && lookup_pull(after, uuid) == Some(pr_updated(p, upd)),
            None => r is Err && after == before,
        },
        other != uuid ==> lookup_pull(after, other) == lookup_pull(before, other),
{
    match pull_index(before, uuid) {
        Some(i) => {
            assert forall|q: int| 0 <= q < after.len() implies (#[trigger] after[q]).uuid
                == before[q].uuid by {
                if q == i {
                    assert(after[q] == pr_updated(before[i], upd));
                }
            }
            let k = choose|q: int| 0 <= q < after.len() && after[q].uuid == uuid;
            assert(after[i].uuid == uuid);
            assert(k == i) by {
                if k < i {
                    assert(before[k].uuid != before[i].uuid);
                } else if k > i {
                    assert(before[i].uuid != before[k].uuid);
                }
            }
            if other != uuid {
                if exists|q: int| 0 <= q < before.len() && before[q].uuid == other {
                    let q = choose|q: int| 0 <= q < before.len() && before[q].uuid == other;
                    assert(after[q].uuid == other);
                    let k2 = choose|z: int| 0 <= z < after.len() && after[z].uuid == other;
                    assert(k2 == q) by {
                        if k2 < q {
                            assert(before[k2].uuid != before[q].uuid);
                        } else if k2 > q {
                            assert(before[q].uuid != before[k2].uuid);
                        }
                    }
                    assert(q != i);
                } else {
                    assert forall|q: int| 0 <= q < after.len() implies (#[trigger] after[q]).uuid
                        != other by {
                        assert(after[q].uuid == before[q].uuid);
                    }
                }
            }
        },
        None => {},
    }
}

/// A project and number name the pull request most recently recorded for
/// them; recording one leaves the others as they were.
pub proof fn lemma_pull_number_last_wins(
    es: Seq<(Seq<char>, usize, u128)>,
    project: Seq<char>,
    num: usize,
    uuid: u128,
    other_project: Seq<char>,
    other_num: usize,
)
    ensures
        number_lookup(es.push((project, num, uuid)), project, num) == Some(uuid),
        !(other_project == project && other_num == num) ==> number_lookup(
            es.push((project, num, uuid)),
            other_project,
            other_num,
        ) == number_lookup(es, other_project, other_num),
{
    assert(es.push((project, num, uuid)).drop_last() =~= es);
}

proof fn lemma_marks_include(ls: Seq<(u128, Option<u128>)>, ps: Seq<PrTaskView>, i: int, f: nat, k: int)
    requires
        0 <= k < ps.len(),
        chain_indices(ls, ps[k].tip_commit_uuid, f).contains(i),
    ensures
        marks_of(ls, ps, i, f).contains(ps[k].number),
    decreases ps.len(),
{
    let before = marks_of(ls, ps.drop_last(), i, f);
    let last = pr_marks(ls, ps.last(), i, f);
    if k == ps.len() - 1 {
        assert(last[0] == ps[k].number);
        assert((before + last)[before.len() as int] == ps[k].number);
    } else {
        assert(ps.drop_last()[k] == ps[k]);
        lemma_marks_include(ls, ps.drop_last(), i, f, k);
        let q = choose|q: int| 0 <= q < before.len() && before[q] == ps[k].number;
        assert((before + last)[q] == ps[k].number);
    }
}

/// Once the collection is built, every commit met on a pull request's
/// chain lists that pull request's number.
pub proof fn lemma_chain_commits_list_their_pull(
    tc: TaskCollection,
    cs: Seq<CommitTaskView>,
    ps: Seq<PrTaskView>,
    k: int,
    i: int,
)
    requires
        built_from(tc, cs, ps),
        0 <= k < ps.len(),
        chain_indices(links(cs), ps[k].tip_commit_uuid, walk_fuel(cs)).contains(i),
        0 <= i < cs.len(),
    ensures
        tc.commits_view()[i].prs.contains(ps[k].number),
{
    lemma_marks_include(links(cs), ps, i, walk_fuel(cs), k);
    let m = marks_of(links(cs), ps, i, walk_fuel(cs));
    let q = choose|q: int| 0 <= q < m.len() && m[q] == ps[k].number;
    assert(tc.commits_view()[i].prs == cs[i].prs + m);
    assert((cs[i].prs + m)[cs[i].prs.len() + q] == ps[k].number);
}

/// Whether some commit of `cs` has the UUID `u`.
pub open spec fn has_commit(cs: Seq<CommitTaskView>, u: u128) -> bool {
    exists|j: int| 0 <= j < cs.len() && cs[j].uuid == u
}

/// When a collection is built from `cs` and `ps` (nothing is missing): every
/// commit's parent is a commit; every pull request's tip commit and merge
/// commit are commits, and the walk from the tip along parents meets no UUID
/// that names no commit.
pub proof fn lemma_built_references_present(cs: Seq<CommitTaskView>, ps: Seq<PrTaskView>)
    requires
        !build_fails(cs, ps),
    ensures
        forall|i: int|
            0 <= i < cs.len() && (#[trigger] cs[i]).parent_commit_uuid is Some ==> has_commit(
                cs,
                cs[i].parent_commit_uuid->0,
            ),
        forall|k: int|
            0 <= k < ps.len() ==> has_commit(cs, (#[trigger] ps[k]).merge_uuid) && has_commit(
                cs,
                ps[k].tip_commit_uuid,
            ) && chain_end(links(cs), ps[k].tip_commit_uuid, walk_fuel(cs)) is None,
{
    let ls = links(cs);
    let f = walk_fuel(cs);
    assert forall|i: int|
        0 <= i < cs.len() && (#[trigger] cs[i]).parent_commit_uuid is Some implies has_commit(
            cs,
            cs[i].parent_commit_uuid->0,
        ) by {
        assert(commit_problem(ls, i) is None);
        let u = cs[i].parent_commit_uuid->0;
        assert(ls[i].1 == Some(u));
        let j = choose|j: int| 0 <= j < ls.len() && ls[j].0 == u;
        assert(ls[j].0 == cs[j].uuid);
    }
    assert forall|k: int| 0 <= k < ps.len() implies has_commit(cs, (#[trigger] ps[k]).merge_uuid)
        && has_commit(cs, ps[k].tip_commit_uuid) && chain_end(ls, ps[k].tip_commit_uuid, f) is None by {
        assert(pull_problem(ls, ps[k], f) is None);
        let j = choose|j: int| 0 <= j < ls.len() && ls[j].0 == ps[k].merge_uuid;
        assert(ls[j].0 == cs[j].uuid);
        assert(link_index(ls, ps[k].tip_commit_uuid) is Some);
        let t = choose|j: int| 0 <= j < ls.len() && ls[j].0 == ps[k].tip_commit_uuid;
        assert(ls[t].0 == cs[t].uuid);
    }
}

/// Whether the pull request at position `j` of `ps` is found by its project
/// and number among the entries `es`, as a pull request of `ps`.
pub open spec fn found_at(es: Seq<(Seq<char>, usize, u128)>, ps: Seq<PrTaskView>, j: int) -> bool {
    number_lookup(es, ps[j].project, ps[j].number) matches Some(u) && pull_index(ps, u) is Some
}

/// Whether every pull request of `ps` is found by its project and number
/// among the entries `es`, as a pull request of `ps`.
pub open spec fn pulls_found(es: Seq<(Seq<char>, usize, u128)>, ps: Seq<PrTaskView>) -> bool {
    forall|j: int| 0 <= j < ps.len() ==> #[trigger] found_at(es, ps, j)
}

/// A lookup by project and number finds an entry when one was recorded.
proof fn lemma_number_lookup_some(es: Seq<(Seq<char>, usize, u128)>, k: int)
    requires
        0 <= k < es.len(),
    ensures
        number_lookup(es, es[k].0, es[k].1) is Some,
    decreases es.len(),
{
    if k < es.len() - 1 && !(es.last().0 == es[k].0 && es.last().1 == es[k].1) {
        lemma_number_lookup_some(es.drop_last(), k);
        assert(es.drop_last()[k] == es[k]);
    }
}

/// In a collection built from pull requests, each is found by its project
/// and number (as the last one recorded with them).
pub proof fn lemma_built_pulls_found(ps: Seq<PrTaskView>)
    ensures
        pulls_found(number_entries(ps), ps),
{
    let es = number_entries(ps);
    assert forall|j: int| 0 <= j < ps.len() implies #[trigger] found_at(es, ps, j) by {
        assert(es[j] == (ps[j].project, ps[j].number, ps[j].uuid));
        lemma_number_lookup_some(es, j);
        let k = lemma_number_lookup_entry(es, ps[j].project, ps[j].number);
        assert(es[k].2 == ps[k].uuid);
    }
}

/// A pull request present before another is stored is present after.
proof fn lemma_pull_stays_present(ps: Seq<PrTaskView>, p: PrTaskView, u: u128)
    requires
        pull_index(ps, u) is Some,
    ensures
        pull_index(pulls_with(ps, p), u) is Some,
{
    let ps2 = pulls_with(ps, p);
    let i = pull_index(ps, u)->0;
    match pull_index(ps, p.uuid) {
        Some(q) => {
            if i == q {
                assert(ps2[q].uuid == u);
            } else {
                assert(ps2[i] == ps[i]);
            }
        },
        None => {
            assert(ps2[i] == ps[i]);
        },
    }
}

/// Storing `p` leaves every position that does not hold `p` as it was.
proof fn lemma_pulls_with_others(ps: Seq<PrTaskView>, p: PrTaskView, j: int)
    requires
        0 <= j < pulls_with(ps, p).len(),
        pulls_with(ps, p)[j] != p,
    ensures
        j < ps.len(),
        pulls_with(ps, p)[j] == ps[j],
{
}

/// A collection built from pull requests finds each of them by its project
/// and number.
pub proof fn lemma_built_collection_finds_pulls(tc: TaskCollection, cs: Seq<CommitTaskView>, ps: Seq<PrTaskView>)
    requires
        built_from(tc, cs, ps),
    ensures
        pulls_found(tc.numbers_view(), tc.pulls_view()),
{
    lemma_built_pulls_found(ps);
}

/// A stored pull request is present.
proof fn lemma_stored_pull_present(ps: Seq<PrTaskView>, p: PrTaskView)
    ensures
        pull_index(pulls_with(ps, p), p.uuid) is Some,
{
    let ps2 = pulls_with(ps, p);
    match pull_index(ps, p.uuid) {
        Some(i) => {
            assert(ps2[i].uuid == p.uuid);
        },
        None => {
            assert(ps2[ps.len() as int].uuid == p.uuid);
        },
    }
}

/// One pull request after a refresh: found by its project and number.
proof fn lemma_refresh_finds_one(es: Seq<(Seq<char>, usize, u128)>, ps: Seq<PrTaskView>, p: PrTaskView, j: int)
    requires
        pulls_found(es, ps),
        pull_index(pulls_with(ps, p), p.uuid) is Some,
        0 <= j < pulls_with(ps, p).len(),
    ensures
        found_at(es.push((p.project, p.number, p.uuid)), pulls_with(ps, p), j),
{
    let es2 = es.push((p.project, p.number, p.uuid));
    let ps2 = pulls_with(ps, p);
    let q = ps2[j];
    assert(es2.drop_last() =~= es);
    assert(es2.last() == (p.project, p.number, p.uuid));
    if q.project == p.project && q.number == p.number {
        assert(number_lookup(es2, q.project, q.number) == Some(p.uuid));
    } else {
        lemma_pulls_with_others(ps, p, j);
        assert(number_lookup(es2, q.project, q.number) == number_lookup(es, q.project, q.number));
        assert(ps[j] == q);
        assert(found_at(es, ps, j));
        let u = number_lookup(es, ps[j].project, ps[j].number)->0;
        lemma_pull_stays_present(ps, p, u);
    }
}

/// Recording a pull request's project and number and then storing the pull
/// request keeps every pull request found by its project and number, and
/// the stored one is what its own project and number find.
pub proof fn lemma_refresh_keeps_pulls_found(es: Seq<(Seq<char>, usize, u128)>, ps: Seq<PrTaskView>, p: PrTaskView)
    requires
        pulls_found(es, ps),
    ensures
        pulls_found(es.push((p.project, p.number, p.uuid)), pulls_with(ps, p)),
        number_lookup(es.push((p.project, p.number, p.uuid)), p.project, p.number) == Some(p.uuid),
{
    let es2 = es.push((p.project, p.number, p.uuid));
    let ps2 = pulls_with(ps, p);
    assert(es2.drop_last() =~= es);
    lemma_stored_pull_present(ps, p);
    assert forall|j: int| 0 <= j < ps2.len() implies #[trigger] found_at(es2, ps2, j) by {
        lemma_refresh_finds_one(es, ps, p, j);
    }
}

/// The filter that finds the task of commit `commit_id` of `project`.
pub open spec fn commit_filter_of(project: Seq<char>, commit_id: Seq<char>) -> Seq<Seq<char>> {
    seq!["project:local-ci."@ + project, "commit_id:"@ + commit_id]
}

/// The filter that finds the task of a commit.
pub fn commit_filter(project_name: &str, commit_id: &GitCommit) -> (r: Vec<String>)
    ensures
        r@.map_values(|s: String| s@) == commit_filter_of(project_name@, commit_id@),
{
    let mut out: Vec<String> = Vec::new();
    let mut a: Vec<char> = Vec::new();
    push_str(&mut a, "project:local-ci.");
    push_str(&mut a, project_name);
    out.push(string_of(a.as_slice()));
    let mut b: Vec<char> = Vec::new();
    push_str(&mut b, "commit_id:");
    push_str(&mut b, commit_id.as_str());
    out.push(string_of(b.as_slice()));
    assert(out@.map_values(|s: String| s@) =~= commit_filter_of(project_name@, commit_id@));
    out
}

/// The fields written to a commit's task: where its repository is, its
/// description, and whether it is a merge commit (more than one parent) and
/// a clean one (`git show` prints nothing of it).
pub open spec fn commit_fields_of(
    repo_root: Seq<char>,
    commit_id: Seq<char>,
    parent_count: usize,
    show_output: Option<Seq<char>>,
) -> Seq<Seq<char>> {
    let is_merge = parent_count > 1;
    let is_clean = is_merge && (show_output matches Some(o) && trim(o).len() == 0);
    seq!["repo_root:"@ + repo_root, "description:Commit "@ + commit_id] + (if is_merge {
        seq!["+MERGE_COMMIT"@]
    } else {
        seq![]
    }) + (if is_clean {
        seq!["+CLEAN_MERGE"@]
    } else {
        seq![]
    })
}

/// Writes the fields of a commit's task.
pub fn commit_update_fields(
    repo_root: &str,
    commit_id: &GitCommit,
    parent_count: usize,
    show_output: Option<&str>,
) -> (r: Vec<String>)
    ensures
        r@.map_values(|s: String| s@) == commit_fields_of(
            repo_root@,
            commit_id@,
            parent_count,
            crate::forgejo::opt_str_view(show_output),
        ),
{
    let mut out: Vec<String> = Vec::new();
    let mut a: Vec<char> = Vec::new();
    push_str(&mut a, "repo_root:");
    push_str(&mut a, repo_root);
    out.push(string_of(a.as_slice()));
    let mut b: Vec<char> = Vec::new();
    push_str(&mut b, "description:Commit ");
    push_str(&mut b, commit_id.as_str());
    out.push(string_of(b.as_slice()));
    let ghost base = out@.map_values(|s: String| s@);
    let is_merge_commit = parent_count > 1;
    let is_clean_merge = if is_merge_commit {
        match show_output {
            Some(o) => crate::text::trim_chars(crate::text::chars_of(o).as_slice()).len() == 0,
            None => false,
        }
    } else {
        false
    };
    if is_merge_commit {
        out.push(string_of(crate::text::chars_of("+MERGE_COMMIT").as_slice()));
        if is_clean_merge {
            out.push(string_of(crate::text::chars_of("+CLEAN_MERGE").as_slice()));
        }
    }
    assert(out@.map_values(|s: String| s@) =~= commit_fields_of(
        repo_root@,
        commit_id@,
        parent_count,
        crate::forgejo::opt_str_view(show_output),
    ));
    out
}

/// The message that a pull request's data is inconsistent, if it is: it has
/// no commits, or its head is not its last commit.
pub open spec fn pr_data_problem(commits: Seq<Seq<char>>, head: Seq<char>) -> Option<Seq<char>> {
    if commits.len() == 0 {
        Some("PR has no commits"@)
    } else if commits.last() != head {
        Some("headRefOid "@ + head + " does not match last commit "@ + commits.last())
    } else {
        None
    }
}

/// Refuses a commit of pull request `num` that has more than one parent: a
/// pull request may not contain merge commits. Called for each commit in
/// turn, with the number of parents git lists for it, before the task
/// database is touched.
pub fn check_not_merge_commit(commit_id: GitCommit, parent_count: usize, num: usize) -> (r: Result<
    (),
    TaskCollectionError,
>)
    ensures
        r is Ok <==> parent_count <= 1,
        r matches Err(e) ==> (e matches TaskCollectionError::IllegalMergeCommit { commit_id: c, pr_number }
            && c@ == commit_id@ && pr_number == num),
{
    if parent_count > 1 {
        Err(TaskCollectionError::IllegalMergeCommit { commit_id, pr_number: num })
    } else {
        Ok(())
    }
}

/// Whether `commit_id` is the pull request's tip, its last commit, which is
/// tagged `TIP_COMMIT`.
pub fn is_tip_of(info: &PrInfo, commit_id: &GitCommit) -> (r: bool)
    ensures
        r == (info.commits@.len() > 0 && commit_id@ == info.commits@.last()@),
{
    let n = info.commits.len();
    if n == 0 {
        false
    } else {
        commit_id.same_as(&info.commits[n - 1])
    }
}

/// Whether a merge commit has conflicts, from the output of
/// `jj log -T 'if(conflict,"x","")'` for it: any output means it has, and it
/// is then tagged `HAS_CONFLICTS`.
pub fn reports_conflicts(jj_output: &str) -> (r: bool)
    ensures
        r == (jj_output@.len() > 0),
{
    crate::text::chars_of(jj_output).len() > 0
}

/// Checks that a pull request's head commit is its last commit.
pub fn check_pr_commits(info: &PrInfo) -> (r: Result<(), TaskCollectionError>)
    ensures
        match pr_data_problem(info.commits@.map_values(|c: GitCommit| c@), info.head_commit@) {
            None => r is Ok,
            Some(m) => r matches Err(TaskCollectionError::InvalidPrData { message }) && message@
                == m,
        },
{
    let ghost cv = info.commits@.map_values(|c: GitCommit| c@);
    if info.commits.len() == 0 {
        return Err(
            TaskCollectionError::InvalidPrData {
                message: string_of(crate::text::chars_of("PR has no commits").as_slice()),
            },
        );
    }
    let last = &info.commits[info.commits.len() - 1];
    assert(last@ == cv.last());
    if !last.same_as(&info.head_commit) {
        let mut v: Vec<char> = Vec::new();
        push_str(&mut v, "headRefOid ");
        push_str(&mut v, info.head_commit.as_str());
        push_str(&mut v, " does not match last commit ");
        push_str(&mut v, last.as_str());
        return Err(TaskCollectionError::InvalidPrData { message: string_of(v.as_slice()) });
    }
    Ok(())
}

/// The fields given to `task add` for a new pull request.
pub fn pr_add_fields(project_name: &str, num: usize) -> (r: Vec<String>)
    ensures
        r@.map_values(|s: String| s@) == seq![
            "project:local-ci."@ + project_name@,
            "pr_number:"@ + decimal(num as nat),
        ],
{
    let mut out: Vec<String> = Vec::new();
    let mut a: Vec<char> = Vec::new();
    push_str(&mut a, "project:local-ci.");
    push_str(&mut a, project_name);
    out.push(string_of(a.as_slice()));
    let mut b: Vec<char> = Vec::new();
    push_str(&mut b, "pr_number:");
    push_str(&mut b, u64_to_string(num as u64).as_str());
    out.push(string_of(b.as_slice()));
    assert(out@.map_values(|s: String| s@) =~= seq![
        "project:local-ci."@ + project_name@,
        "pr_number:"@ + decimal(num as nat),
    ]);
    out
}

/// The fields that record a pull request's new merge commit.
pub fn merge_fields(merge_uuid: u128, merge_change_id: &str) -> (r: Vec<String>)
    ensures
        r@.map_values(|s: String| s@) == seq![
            "merge_uuid:"@ + uuid_text(merge_uuid),
            "merge_status:unstarted"@,
            "merge_change_id:"@ + merge_change_id@,
        ],
{
    let mut out: Vec<String> = Vec::new();
    let mut a: Vec<char> = Vec::new();
    push_str(&mut a, "merge_uuid:");
    push_str(&mut a, uuid_to_string(merge_uuid).as_str());
    out.push(string_of(a.as_slice()));
    out.push(string_of(crate::text::chars_of("merge_status:unstarted").as_slice()));
    let mut b: Vec<char> = Vec::new();
    push_str(&mut b, "merge_change_id:");
    push_str(&mut b, merge_change_id);
    out.push(string_of(b.as_slice()));
    assert(out@.map_values(|s: String| s@) =~= seq![
        "merge_uuid:"@ + uuid_text(merge_uuid),
        "merge_status:unstarted"@,
        "merge_change_id:"@ + merge_change_id@,
    ]);
    out
}

/// The fields written to a pull request's task when it is refreshed.
pub open spec fn pr_fields_of(
    repo_root: Seq<char>,
    project_name: Seq<char>,
    num: usize,
    title: Seq<char>,
    author: Seq<char>,
    base_commit: Seq<char>,
    base_ref: Seq<char>,
) -> Seq<Seq<char>> {
    seq![
        "repo_root:"@ + repo_root,
        "pr_title:"@ + title,
        "pr_author:"@ + author,
        "pr_url:https://github.com/"@ + crate::text::replace_char(project_name, '.', "/"@)
            + "/pull/"@ + decimal(num as nat),
        "description:"@ + "PR #"@ + decimal(num as nat) + ": "@ + title,
        "base_commit:"@ + base_commit,
        "base_ref:"@ + base_ref,
    ]
}

/// Writes the fields of a pull request's task.
pub fn pr_task_fields(
    repo_root: &str,
    project_name: &str,
    num: usize,
    info: &PrInfo,
    base_commit: &GitCommit,
) -> (r: Vec<String>)
    ensures
        r@.map_values(|s: String| s@) == pr_fields_of(
            repo_root@,
            project_name@,
            num,
            info.title@,
            info.author@,
            base_commit@,
            info.base_ref@,
        ),
{
    let num_text = u64_to_string(num as u64);
    let mut out: Vec<String> = Vec::new();
    let mut f: Vec<char> = Vec::new();
    push_str(&mut f, "repo_root:");
    push_str(&mut f, repo_root);
    out.push(string_of(f.as_slice()));
    let mut f: Vec<char> = Vec::new();
    push_str(&mut f, "pr_title:");
    push_str(&mut f, info.title.as_str());
    out.push(string_of(f.as_slice()));
    let mut f: Vec<char> = Vec::new();
    push_str(&mut f, "pr_author:");
    push_str(&mut f, info.author.as_str());
    out.push(string_of(f.as_slice()));
    let mut f: Vec<char> = Vec::new();
    push_str(&mut f, "pr_url:https://github.com/");
    let pc = crate::text::chars_of(project_name);
    let slash = crate::text::chars_of("/");
    let path = crate::text::replace_char_exec(pc.as_slice(), '.', slash.as_slice());
    crate::text::push_all(&mut f, path.as_slice());
    push_str(&mut f, "/pull/");
    push_str(&mut f, num_text.as_str());
    out.push(string_of(f.as_slice()));
    let mut f: Vec<char> = Vec::new();
    push_str(&mut f, "description:");
    push_str(&mut f, "PR #");
    push_str(&mut f, num_text.as_str());
    push_str(&mut f, ": ");
    push_str(&mut f, info.title.as_str());
    out.push(string_of(f.as_slice()));
    let mut f: Vec<char> = Vec::new();
    push_str(&mut f, "base_commit:");
    push_str(&mut f, base_commit.as_str());
    out.push(string_of(f.as_slice()));
    let mut f: Vec<char> = Vec::new();
    push_str(&mut f, "base_ref:");
    push_str(&mut f, info.base_ref.as_str());
    out.push(string_of(f.as_slice()));
    assert(out@.map_values(|s: String| s@) =~= pr_fields_of(
        repo_root@,
        project_name@,
        num,
        info.title@,
        info.author@,
        base_commit@,
        info.base_ref@,
    ));
    out
}

impl TaskCollection {
    /// Whether refreshing a pull request needs a new merge commit: always
    /// for a new pull request; for a known one, when its base commit or its
    /// tip commit moved.
    pub fn needs_new_merge(&self, existing: Option<u128>, base_commit: &GitCommit, head_commit: &GitCommit) -> (r: bool)
        requires
            existing matches Some(u) ==> (lookup_pull(self.pulls_view(), u) matches Some(p)
                && lookup_commit(self.commits_view(), p.tip_commit_uuid) is Some),
        ensures
            r == match existing {
                None => true,
                Some(u) => {
                    let old = lookup_pull(self.pulls_view(), u).unwrap();
                    let tip = lookup_commit(self.commits_view(), old.tip_commit_uuid).unwrap();
                    !(base_commit@ == old.base_commit && head_commit@ == tip.commit_id)
                },
            },
    {
        match existing {
            None => true,
            Some(u) => {
                let old = match self.pull(u) {
                    Some(p) => p,
                    None => {
                        return true;
                    },
                };
                let tip = match self.commit(old.dep_uuid()) {
                    Some(c) => c,
                    None => {
                        return true;
                    },
                };
                !(base_commit.same_as(old.base_commit()) && head_commit.same_as(tip.commit_id()))
            },
        }
    }
}

/// Where `needle` first occurs in `hay`, if anywhere.
pub open spec fn first_occurrence(hay: Seq<char>, needle: Seq<char>) -> Option<int> {
    if exists|i: int| 0 <= i && crate::text::occurs_at(hay, needle, i) {
        Some(
            choose|i: int|
                0 <= i && crate::text::occurs_at(hay, needle, i) && forall|j: int|
                    0 <= j < i ==> !crate::text::occurs_at(hay, needle, j),
        )
    } else {
        None
    }
}

/// The 36 characters after the first `Created task ` in the output of
/// `task add`: the new task's UUID, when there are that many.
pub open spec fn created_uuid_text(output: Seq<char>) -> Option<Seq<char>> {
    match first_occurrence(output, "Created task "@) {
        Some(i) => if i + 13 + 36 <= output.len() {
            Some(output.subrange(i + 13, i + 49))
        } else {
            None
        },
        None => None,
    }
}

/// Reads the UUID of a task just created from the output of `task add`:
/// nothing when the output does not announce one, otherwise the parse of
/// the announced UUID.
pub fn created_task_uuid(output: &str) -> (r: Option<Result<u128, uuid::Error>>)
    ensures
        match created_uuid_text(output@) {
            None => r is None,
            Some(t) => match r {
                Some(Ok(u)) => uuid_parse(t) == Some(u),
                Some(Err(_)) => uuid_parse(t) is None,
                None => false,
            },
        },
{
    let cs = crate::text::chars_of(output);
    let marker = crate::text::chars_of("Created task ");
    proof {
        reveal_strlit("Created task ");
    }
    let mut i: usize = 0;
    while i < cs.len()
        invariant
            i <= cs@.len(),
            cs@ == output@,
            marker@ == "Created task "@,
            forall|j: int| 0 <= j < i ==> !crate::text::occurs_at(cs@, marker@, j),
        decreases cs@.len() - i,
    {
        if crate::text::occurs_at_exec(cs.as_slice(), marker.as_slice(), i) {
            assert(crate::text::occurs_at(cs@, marker@, i as int));
            let ghost k = choose|k: int|
                0 <= k && crate::text::occurs_at(cs@, marker@, k) && forall|j: int|
                    0 <= j < k ==> !crate::text::occurs_at(cs@, marker@, j);
            assert(k == i) by {
                if k > i {
                    assert(!crate::text::occurs_at(cs@, marker@, i as int));
                }
            }
            if cs.len() - i < 49 {
                return None;
            }
            let text = crate::text::slice_to_vec_range(cs.as_slice(), i + 13, i + 49);
            let t = string_of(text.as_slice());
            return Some(parse_uuid(t.as_str()));
        }
        i = i + 1;
    }
    assert forall|j: int| 0 <= j implies !crate::text::occurs_at(cs@, marker@, j) by {
        if j >= cs@.len() {
            assert(marker@.len() == 13);
        }
    }
    None
}

/// The UUID of the last commit of `ids` equal to `c`, taken from `uuids`.
pub open spec fn uuid_of_commit(ids: Seq<Seq<char>>, uuids: Seq<u128>, c: Seq<char>) -> Option<u128>
    decreases ids.len(),
{
    if ids.len() == 0 {
        None
    } else if ids.last() == c {
        Some(uuids[ids.len() - 1])
    } else {
        uuid_of_commit(ids.drop_last(), uuids.take(ids.len() - 1), c)
    }
}

/// The dependencies to record between a pull request's commit tasks: each
/// commit, in order, depends on its first parent when that parent is one
/// of the pull request's commits too.
pub open spec fn dependency_links_of(ids: Seq<Seq<char>>, uuids: Seq<u128>, parents: Seq<Seq<char>>, k: int) -> Seq<(u128, u128)>
    decreases k,
{
    if k <= 0 {
        seq![]
    } else {
        dependency_links_of(ids, uuids, parents, k - 1) + match (
            uuid_of_commit(ids, uuids, ids[k - 1]),
            uuid_of_commit(ids, uuids, parents[k - 1]),
        ) {
            (Some(c), Some(p)) => seq![(c, p)],
            _ => seq![],
        }
    }
}

fn find_commit_uuid(ids: &Vec<GitCommit>, uuids: &Vec<u128>, c: &GitCommit) -> (r: Option<u128>)
    requires
        ids@.len() == uuids@.len(),
    ensures
        r == uuid_of_commit(ids@.map_values(|g: GitCommit| g@), uuids@, c@),
{
    let ghost iv = ids@.map_values(|g: GitCommit| g@);
    let mut j: usize = ids.len();
    assert(iv.take(j as int) =~= iv);
    assert(uuids@.take(j as int) =~= uuids@);
    while j > 0
        invariant
            j <= iv.len(),
            iv.len() == uuids@.len(),
            iv == ids@.map_values(|g: GitCommit| g@),
            uuid_of_commit(iv, uuids@, c@) == uuid_of_commit(
                iv.take(j as int),
                uuids@.take(j as int),
                c@,
            ),
        decreases j,
    {
        assert(iv.take(j as int).last() == iv[j - 1]);
        assert(ids@[j - 1]@ == iv[j - 1]);
        if ids[j - 1].same_as(c) {
            assert(uuids@.take(j as int)[j - 1] == uuids@[j - 1]);
            return Some(uuids[j - 1]);
        }
        assert(iv.take(j as int).drop_last() =~= iv.take(j - 1));
        assert(uuids@.take(j as int).take(j - 1) =~= uuids@.take(j - 1));
        j = j - 1;
    }
    None
}

/// Lists the dependencies to record between a pull request's commit tasks,
/// given the commits' IDs, their tasks' UUIDs, and each one's first parent.
pub fn dependency_links(ids: &Vec<GitCommit>, uuids: &Vec<u128>, first_parents: &Vec<GitCommit>) -> (r: Vec<(u128, u128)>)
    requires
        ids@.len() == uuids@.len(),
        ids@.len() == first_parents@.len(),
    ensures
        r@ == dependency_links_of(
            ids@.map_values(|g: GitCommit| g@),
            uuids@,
            first_parents@.map_values(|g: GitCommit| g@),
            ids@.len() as int,
        ),
{
    let ghost iv = ids@.map_values(|g: GitCommit| g@);
    let ghost pv = first_parents@.map_values(|g: GitCommit| g@);
    let mut out: Vec<(u128, u128)> = Vec::new();
    let mut k: usize = 0;
    while k < ids.len()
        invariant
            k <= iv.len(),
            iv.len() == uuids@.len(),
            iv.len() == pv.len(),
            iv == ids@.map_values(|g: GitCommit| g@),
            pv == first_parents@.map_values(|g: GitCommit| g@),
            out@ == dependency_links_of(iv, uuids@, pv, k as int),
        decreases iv.len() - k,
    {
        let c = find_commit_uuid(ids, uuids, &ids[k]);
        let p = find_commit_uuid(ids, uuids, &first_parents[k]);
        assert(ids@[k as int]@ == iv[k as int]);
        assert(first_parents@[k as int]@ == pv[k as int]);
        match (c, p) {
            (Some(cu), Some(pu)) => {
                out.push((cu, pu));
            },
            _ => {
                assert(out@ + Seq::<(u128, u128)>::empty() =~= out@);
            },
        }
        k = k + 1;
    }
    out
}
} // verus!
