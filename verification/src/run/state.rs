//! What the CI loop records of its own configuration repository, and what it
//! warns about when that repository changes under it.
use vstd::prelude::*;
use crate::text::{
    chars_of, ends_with, ends_with_chars, push_str, slice_to_vec_range, string_of, trim, trim_chars,
};

verus! {

/// How often, in seconds, the configuration repository is checked.
pub const CI_CHECK_INTERVAL_SECS: u64 = 900;

/// The commit ID recorded for the configuration: `HEAD` as git prints it,
/// trimmed, with `-dirty` appended when the working tree has changes.
pub open spec fn recorded_id(head_output: Seq<char>, dirty: bool) -> Seq<char> {
    if dirty {
        trim(head_output) + "-dirty"@
    } else {
        trim(head_output)
    }
}

/// Writes the commit ID recorded for the configuration.
pub fn recorded_commit_id(head_output: &str, dirty: bool) -> (r: String)
    ensures
        r@ == recorded_id(head_output@, dirty),
{
    let cs = chars_of(head_output);
    let mut v = trim_chars(cs.as_slice());
    if dirty {
        push_str(&mut v, "-dirty");
    }
    string_of(v.as_slice())
}

/// `s` without any number of leading `./`, as `trim_start_matches("./")`.
pub open spec fn strip_dot_slash(s: Seq<char>) -> Seq<char>
    decreases s.len(),
{
    if s.len() >= 2 && s[0] == '.' && s[1] == '/' {
        strip_dot_slash(s.skip(2))
    } else {
        s
    }
}

/// The path, relative to the configuration repository, of a Nix file that
/// `find` printed on the line `line`; nothing for a blank line.
pub open spec fn nix_file_path(line: Seq<char>) -> Option<Seq<char>> {
    if trim(line).len() == 0 {
        None
    } else {
        Some(strip_dot_slash(trim(line)))
    }
}

/// Reads the path of a Nix file from a line of `find`'s output.
pub fn nix_file_relative(line: &str) -> (r: Option<String>)
    ensures
        crate::text::opt_string_view(r) == nix_file_path(line@),
{
    let cs = chars_of(line);
    let t = trim_chars(cs.as_slice());
    if t.len() == 0 {
        return None;
    }
    let mut start: usize = 0;
    assert(t@.skip(0) =~= t@);
    while t.len() - start >= 2 && t[start] == '.' && t[start + 1] == '/'
        invariant
            start <= t@.len(),
            strip_dot_slash(t@) == strip_dot_slash(t@.skip(start as int)),
        decreases t@.len() - start,
    {
        assert(t@.skip(start as int).skip(2) =~= t@.skip(start + 2));
        start = start + 2;
    }
    let rest = slice_to_vec_range(t.as_slice(), start, t.len());
    assert(rest@ =~= t@.skip(start as int));
    Some(string_of(rest.as_slice()))
}

/// Whether the configuration repository is due to be checked again, this
/// many seconds after the last check.
pub fn ci_check_due(elapsed_secs: u64) -> (r: bool)
    ensures
        r == (elapsed_secs >= CI_CHECK_INTERVAL_SECS),
{
    elapsed_secs >= CI_CHECK_INTERVAL_SECS
}

/// A change to the configuration repository since the CI loop started.
pub enum CiRepoWarning {
    /// `HEAD` moved from the recorded commit to another.
    CommitChanged { from: String, to: String },
    /// The working tree has changes it did not have.
    BecameDirty,
    /// The working tree no longer has the changes it had.
    NoLongerDirty,
}

/// The view of a warning: the two commit IDs of a moved `HEAD`, or which way
/// the working tree changed.
pub enum CiRepoWarningView {
    CommitChanged(Seq<char>, Seq<char>),
    BecameDirty,
    NoLongerDirty,
}

impl CiRepoWarning {
    /// The view of the warning.
    pub open spec fn view_of(&self) -> CiRepoWarningView {
        match self {
            CiRepoWarning::CommitChanged { from, to } => CiRepoWarningView::CommitChanged(
                from@,
                to@,
            ),
            CiRepoWarning::BecameDirty => CiRepoWarningView::BecameDirty,
            CiRepoWarning::NoLongerDirty => CiRepoWarningView::NoLongerDirty,
        }
    }

    /// The message shown for this warning.
    pub open spec fn message(&self) -> Seq<char> {
        match self {
            CiRepoWarning::CommitChanged { from, to } => "WARNING: LOCAL_CI commit ID changed from "@
                + from@ + " to "@ + to@ + ". Please restart the program."@,
            CiRepoWarning::BecameDirty =>
                "WARNING: LOCAL_CI repo became dirty. Please restart the program."@,
            CiRepoWarning::NoLongerDirty =>
                "WARNING: LOCAL_CI repo is no longer dirty but was dirty on startup. Please restart the program."@,
        }
    }

    /// Renders the warning.
    pub fn to_string(&self) -> (s: String)
        ensures
            s@ == self.message(),
    {
        let mut v: Vec<char> = Vec::new();
        match self {
            CiRepoWarning::CommitChanged { from, to } => {
                push_str(&mut v, "WARNING: LOCAL_CI commit ID changed from ");
                push_str(&mut v, from.as_str());
                push_str(&mut v, " to ");
                push_str(&mut v, to.as_str());
                push_str(&mut v, ". Please restart the program.");
            },
            CiRepoWarning::BecameDirty => push_str(
                &mut v,
                "WARNING: LOCAL_CI repo became dirty. Please restart the program.",
            ),
            CiRepoWarning::NoLongerDirty => push_str(
                &mut v,
                "WARNING: LOCAL_CI repo is no longer dirty but was dirty on startup. Please restart the program.",
            ),
        }
        assert(v@ =~= self.message());
        string_of(v.as_slice())
    }
}

/// The warnings about the configuration repository, given the commit ID
/// recorded at startup, what `git rev-parse HEAD` prints now, and whether the
/// working tree has changes now.
pub open spec fn ci_repo_warnings_of(recorded: Seq<char>, head_output: Seq<char>, dirty: bool) -> Seq<CiRepoWarningView> {
    let already_dirty = ends_with(recorded, "-dirty"@);
    let expected = if already_dirty {
        recorded.take(recorded.len() - 6)
    } else {
        recorded
    };
    let current = trim(head_output);
    (if current != expected {
        seq![CiRepoWarningView::CommitChanged(expected, current)]
    } else {
        seq![]
    }) + if dirty && !already_dirty {
        seq![CiRepoWarningView::BecameDirty]
    } else if !dirty && already_dirty {
        seq![CiRepoWarningView::NoLongerDirty]
    } else {
        seq![]
    }
}

/// Compares the configuration repository with what was recorded at startup.
pub fn ci_repo_warnings(recorded: &str, head_output: &str, dirty: bool) -> (r: Vec<CiRepoWarning>)
    ensures
        r@.map_values(|w: CiRepoWarning| w.view_of()) == ci_repo_warnings_of(
            recorded@,
            head_output@,
            dirty,
        ),
{
    let rc = chars_of(recorded);
    let suffix = chars_of("-dirty");
    proof {
        reveal_strlit("-dirty");
    }
    let already_dirty = ends_with_chars(rc.as_slice(), suffix.as_slice());
    let expected = if already_dirty {
        slice_to_vec_range(rc.as_slice(), 0, rc.len() - 6)
    } else {
        rc
    };
    assert(expected@ =~= (if already_dirty {
        recorded@.take(recorded@.len() - 6)
    } else {
        recorded@
    }));
    let hc = chars_of(head_output);
    let current = trim_chars(hc.as_slice());
    let mut out: Vec<CiRepoWarning> = Vec::new();
    if !crate::text::chars_eq(current.as_slice(), expected.as_slice()) {
        out.push(
            CiRepoWarning::CommitChanged {
                from: string_of(expected.as_slice()),
                to: string_of(current.as_slice()),
            },
        );
    }
    if dirty && !already_dirty {
        out.push(CiRepoWarning::BecameDirty);
    } else if !dirty && already_dirty {
        out.push(CiRepoWarning::NoLongerDirty);
    }
    assert(out@.map_values(|w: CiRepoWarning| w.view_of()) =~= ci_repo_warnings_of(
        recorded@,
        head_output@,
        dirty,
    ));
    out
}

} // verus!
