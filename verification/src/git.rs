//! Git commit identifiers and the output of git commands.
use vstd::prelude::*;
use crate::outside::{check_sha1_hex, is_sha1_hex};
use crate::text::{chars_of, push_str, string_of, words, words_of};

verus! {

/// A representation of a git commit.
///
/// When parsed, validated to be 40 hex digits, but stored
/// as a string to allow efficient use with xshell.
#[derive(Clone, Default, PartialEq, Eq, Debug, Hash)]
pub struct GitCommit(String);

impl View for GitCommit {
    type V = Seq<char>;

    closed spec fn view(&self) -> Seq<char> {
        self.0@
    }
}

#[derive(Debug)]
pub enum GitError {
    Shell(xshell::Error),
    CommitParse(String, bitcoin_hashes::hex::HexToArrayError),
    CommitNotFound(String),
}

impl GitCommit {
    /// Parses a commit ID: exactly 40 hexadecimal digits, kept as written.
    pub fn from_str(s: &str) -> (r: Result<GitCommit, GitError>)
        ensures
            r is Ok <==> is_sha1_hex(s@),
            r matches Ok(c) ==> c@ == s@,
            r matches Err(e) ==> (e matches GitError::CommitParse(t, _) && t@ == s@),
    {
        let owned = s.to_owned();
        match check_sha1_hex(s) {
            Err(e) => Err(GitError::CommitParse(owned, e)),
            Ok(()) => Ok(GitCommit(owned)),
        }
    }

    /// The commit ID as text.
    pub fn as_str(&self) -> (s: &str)
        ensures
            s@ == self@,
    {
        self.0.as_str()
    }

    /// The commit ID as an owned string (its `Display`).
    pub fn to_string(&self) -> (s: String)
        ensures
            s@ == self@,
    {
        self.0.clone()
    }

    /// Whether two commit IDs are the same text.
    pub fn same_as(&self, other: &GitCommit) -> (r: bool)
        ensures
            r == (self@ == other@),
    {
        crate::text::str_eq(self.0.as_str(), other.0.as_str())
    }
}

impl GitError {
    /// The message shown for this error.
    pub open spec fn message(&self) -> Seq<char> {
        match self {
            GitError::Shell(_) => "failed to invoke git"@,
            GitError::CommitParse(s, _) => "failed to parse "@ + s@ + " as git commit"@,
            GitError::CommitNotFound(c) => "commit "@ + c@ + " not found after fetching from all remotes"@,
        }
    }

    /// Renders the error message.
    pub fn to_string(&self) -> (s: String)
        ensures
            s@ == self.message(),
    {
        let mut v: Vec<char> = Vec::new();
        match self {
            GitError::Shell(_) => push_str(&mut v, "failed to invoke git"),
            GitError::CommitParse(s, _) => {
                push_str(&mut v, "failed to parse ");
                push_str(&mut v, s.as_str());
                push_str(&mut v, " as git commit");
            },
            GitError::CommitNotFound(c) => {
                push_str(&mut v, "commit ");
                push_str(&mut v, c.as_str());
                push_str(&mut v, " not found after fetching from all remotes");
            },
        }
        assert(v@ =~= self.message());
        string_of(v.as_slice())
    }
}

/// The parents listed by `git rev-list --parents -n 1 <commit>`: every word
/// after the first (which is the commit itself) must be a commit ID; the
/// first word that is not decides the error.
pub open spec fn parents_parse(output: Seq<char>, r: Result<Vec<GitCommit>, GitError>) -> bool {
    let ws = words(output);
    match r {
        Ok(v) => (forall|i: int| 1 <= i < ws.len() ==> is_sha1_hex(#[trigger] ws[i])) && v@.len()
            == (if ws.len() == 0 { 0 } else { ws.len() - 1 }) && forall|i: int|
            0 <= i < v@.len() ==> (#[trigger] v@[i])@ == ws[i + 1],
        Err(e) => exists|k: int|
            1 <= k < ws.len() && !is_sha1_hex(ws[k]) && (forall|j: int|
                1 <= j < k ==> is_sha1_hex(#[trigger] ws[j])) && (e matches GitError::CommitParse(t, _)
                && t@ == ws[k]),
    }
}

/// Reads the parent commits from the output of `git rev-list --parents -n 1`.
pub fn parse_parents(output: &str) -> (r: Result<Vec<GitCommit>, GitError>)
    ensures
        parents_parse(output@, r),
{
    let cs = chars_of(output);
    let ws = words_of(cs.as_slice());
    let ghost wv = ws@.map_values(|l: Vec<char>| l@);
    assert(wv == words(output@));
    let mut out: Vec<GitCommit> = Vec::new();
    if ws.len() == 0 {
        return Ok(out);
    }
    let mut i: usize = 1;
    while i < ws.len()
        invariant
            1 <= i,
            i <= ws@.len(),
            wv == ws@.map_values(|l: Vec<char>| l@),
            wv == words(output@),
            out@.len() == i - 1,
            forall|j: int| 1 <= j < i ==> is_sha1_hex(#[trigger] wv[j]),
            forall|j: int| 0 <= j < out@.len() ==> (#[trigger] out@[j])@ == wv[j + 1],
        decreases ws@.len() - i,
    {
        let word = string_of(ws[i].as_slice());
        assert(word@ == wv[i as int]);
        match GitCommit::from_str(word.as_str()) {
            Ok(c) => out.push(c),
            Err(e) => {
                return Err(e);
            },
        }
        i = i + 1;
    }
    assert(wv.len() == ws@.len());
    Ok(out)
}

/// Where the search for a commit stands: first the local repository, then
/// the remote `origin`, then the remote `upstream`.
#[derive(Debug, Clone, Copy, PartialEq, Eq, Structural)]
pub enum FetchStage {
    Local,
    Origin,
    Upstream,
}

/// What follows one attempt to find a commit.
#[derive(Debug, Clone, Copy, PartialEq, Eq, Structural)]
pub enum FetchOutcome {
    /// The commit is available locally: the search succeeded.
    Have,
    /// Not yet found: try the next stage.
    Next(FetchStage),
    /// Not found anywhere: the search failed.
    NotFound,
}

/// The remote to fetch from at a stage, if any; at `Local` nothing is
/// fetched and the local repository is only checked.
pub fn fetch_remote(stage: FetchStage) -> (r: Option<&'static str>)
    ensures
        stage == FetchStage::Local ==> r is None,
        stage == FetchStage::Origin ==> (r matches Some(name) && name@ == "origin"@),
        stage == FetchStage::Upstream ==> (r matches Some(name) && name@ == "upstream"@),
{
    match stage {
        FetchStage::Local => None,
        FetchStage::Origin => Some("origin"),
        FetchStage::Upstream => Some("upstream"),
    }
}

/// The next step of the search for a commit, given whether the commit is
/// now available (at `Local`: it is present; at a remote: the fetch
/// succeeded and the commit is then present). A commit found stops the
/// search; otherwise the stages run local, `origin`, `upstream`, and after
/// `upstream` the search fails.
pub fn fetch_step(stage: FetchStage, found: bool) -> (r: FetchOutcome)
    ensures
        found ==> r == FetchOutcome::Have,
        !found ==> r == match stage {
            FetchStage::Local => FetchOutcome::Next(FetchStage::Origin),
            FetchStage::Origin => FetchOutcome::Next(FetchStage::Upstream),
            FetchStage::Upstream => FetchOutcome::NotFound,
        },
{
    if found {
        FetchOutcome::Have
    } else {
        match stage {
            FetchStage::Local => FetchOutcome::Next(FetchStage::Origin),
            FetchStage::Origin => FetchOutcome::Next(FetchStage::Upstream),
            FetchStage::Upstream => FetchOutcome::NotFound,
        }
    }
}

} // verus!
