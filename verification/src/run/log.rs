//! The prefix of the CI loop's log lines: the time, and the commit being
//! worked on with the pull requests that contain it.
use vstd::prelude::*;
use crate::text::{decimal, push_str, string_of, u64_to_string};
use crate::tw::task::{CommitTask, CommitTaskView};

verus! {

/// `s` padded with spaces on the right to at least `width` characters, as
/// `{:width}` writes a string.
pub open spec fn pad_right(s: Seq<char>, width: nat) -> Seq<char> {
    if s.len() >= width {
        s
    } else {
        s + Seq::new((width - s.len()) as nat, |i: int| ' ')
    }
}

/// ` #n` for each pull request number, in order.
pub open spec fn pr_list(prs: Seq<usize>) -> Seq<char>
    decreases prs.len(),
{
    if prs.len() == 0 {
        seq![]
    } else {
        pr_list(prs.drop_last()) + " #"@ + decimal(prs.last() as nat)
    }
}

/// The prefix of a log line written at time `now` while working on `task`.
pub open spec fn log_prefix(now: Seq<char>, task: Option<CommitTaskView>) -> Seq<char> {
    match task {
        None => "["@ + now + "] "@,
        Some(t) => "["@ + now + "] "@ + "["@ + t.project + pr_list(t.prs) + " "@ + pad_right(
            t.commit_id,
            12,
        ) + "] "@,
    }
}

/// Writes the log lines of the CI loop.
pub struct Logger {
    task: Option<CommitTask>,
}

impl Logger {
    /// The commit being worked on, if any.
    pub closed spec fn task_view(&self) -> Option<CommitTaskView> {
        match self.task {
            Some(t) => Some(t@),
            None => None,
        }
    }

    /// A logger working on no commit.
    pub fn new() -> (l: Logger)
        ensures
            l.task_view() is None,
    {
        Logger { task: None }
    }

    /// Sets the commit being worked on.
    pub fn set_task(&mut self, task: Option<CommitTask>)
        ensures
            final(self).task_view() == match task {
                Some(t) => Some(t@),
                None => None,
            },
    {
        self.task = task;
    }

    /// The prefix of a line logged at time `now`.
    pub fn prefix(&self, now: &str) -> (r: String)
        ensures
            r@ == log_prefix(now@, self.task_view()),
    {
        let mut v: Vec<char> = Vec::new();
        push_str(&mut v, "[");
        push_str(&mut v, now);
        push_str(&mut v, "] ");
        let ghost start = v@;
        assert(start =~= "["@ + now@ + "] "@);
        match &self.task {
            None => {},
            Some(task) => {
                push_str(&mut v, "[");
                push_str(&mut v, task.project());
                assert(v@ =~= "["@ + now@ + "] "@ + "["@ + task@.project);
                let prs = task.prs();
                let ghost head = v@;
                let mut k: usize = 0;
                assert(prs@.take(0) =~= Seq::<usize>::empty());
                assert(head =~= head + pr_list(prs@.take(0)));
                while k < prs.len()
                    invariant
                        k <= prs@.len(),
                        v@ == head + pr_list(prs@.take(k as int)),
                    decreases prs@.len() - k,
                {
                    assert(prs@.take(k as int + 1).drop_last() =~= prs@.take(k as int));
                    assert(prs@.take(k as int + 1).last() == prs@[k as int]);
                    push_str(&mut v, " #");
                    push_str(&mut v, u64_to_string(prs[k] as u64).as_str());
                    assert(v@ =~= head + pr_list(prs@.take(k as int + 1)));
                    k = k + 1;
                }
                assert(prs@.take(prs@.len() as int) =~= prs@);
                push_str(&mut v, " ");
                let id = crate::text::chars_of(task.commit_id().as_str());
                crate::text::push_all(&mut v, id.as_slice());
                let ghost before_pad = v@;
                let mut n: usize = id.len();
                while n < 12
                    invariant
                        id@.len() <= n <= 12 || (n == id@.len() && n >= 12),
                        v@ == before_pad + Seq::new((n - id@.len()) as nat, |i: int| ' '),
                    decreases 12 - n,
                {
                    v.push(' ');
                    assert(v@ =~= before_pad + Seq::new((n + 1 - id@.len()) as nat, |i: int| ' '));
                    n = n + 1;
                }
                assert(v@ =~= head + pr_list(task@.prs) + " "@ + pad_right(task@.commit_id, 12));
                push_str(&mut v, "] ");
                assert(v@ =~= log_prefix(now@, Some(task@)));
            },
        }
        assert(v@ =~= log_prefix(now@, self.task_view()));
        string_of(v.as_slice())
    }
}

} // verus!
