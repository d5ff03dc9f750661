//! The repository the tool runs in.
use vstd::prelude::*;
use crate::text::{
    ascii_lowercase, ascii_lowercase_exec, chars_of, ends_with, ends_with_chars, replace_char,
    replace_char_exec, slice_to_vec_range, starts_with, starts_with_chars, string_of,
};

verus! {

#[derive(Debug, Clone)]
pub struct Repository {
    /// The GitHub project in the form `org.repo`.
    pub project_name: String,
    /// The top-level directory of the working tree.
    pub repo_root: String,
}

#[derive(Debug)]
pub enum RepoError {
    ConstructingShell(xshell::Error),
    GitCommandFailed(xshell::Error),
    GhCommandFailed(xshell::Error),
}

/// `s` without `suffix`, when it ends with it.
pub open spec fn strip_suffix_or_keep(s: Seq<char>, suffix: Seq<char>) -> Seq<char> {
    if ends_with(s, suffix) {
        s.subrange(0, s.len() - suffix.len())
    } else {
        s
    }
}

/// One round of removing a trailing `.git`, then a trailing `/`.
pub open spec fn strip_git_slash(s: Seq<char>) -> Seq<char> {
    strip_suffix_or_keep(strip_suffix_or_keep(s, ".git"@), "/"@)
}

/// The project named by the part of a GitHub URL after the host: two rounds
/// of removing `.git` and `/`, then `/` replaced by `.`.
pub open spec fn project_of_path(path: Seq<char>) -> Seq<char> {
    replace_char(strip_git_slash(strip_git_slash(path)), '/', "."@)
}

/// The project a remote URL points to on GitHub, in the form `org.repo`
/// (lower case), when it is a GitHub URL.
pub open spec fn github_project(url: Seq<char>) -> Option<Seq<char>> {
    let u = ascii_lowercase(url);
    if starts_with(u, "git@github.com:"@) {
        Some(project_of_path(u.skip(15)))
    } else if starts_with(u, "https://github.com/"@) {
        Some(project_of_path(u.skip(19)))
    } else if starts_with(u, "https://www.github.com/"@) {
        Some(project_of_path(u.skip(23)))
    } else {
        None
    }
}

fn strip_suffix_chars(s: Vec<char>, suffix: &str) -> (r: Vec<char>)
    ensures
        r@ == strip_suffix_or_keep(s@, suffix@),
{
    let suf = chars_of(suffix);
    if ends_with_chars(s.as_slice(), suf.as_slice()) {
        slice_to_vec_range(s.as_slice(), 0, s.len() - suf.len())
    } else {
        s
    }
}

/// The project a remote URL points to on GitHub.
pub fn parse_github_url(url: &str) -> (r: Option<String>)
    ensures
        match github_project(url@) {
            Some(p) => r matches Some(s) && s@ == p,
            None => r is None,
        },
{
    let raw = chars_of(url);
    let lower = ascii_lowercase_exec(raw.as_slice());
    let p1 = chars_of("git@github.com:");
    let p2 = chars_of("https://github.com/");
    let p3 = chars_of("https://www.github.com/");
    proof {
        reveal_strlit("git@github.com:");
        reveal_strlit("https://github.com/");
        reveal_strlit("https://www.github.com/");
    }
    let start: usize = if starts_with_chars(lower.as_slice(), p1.as_slice()) {
        15
    } else if starts_with_chars(lower.as_slice(), p2.as_slice()) {
        19
    } else if starts_with_chars(lower.as_slice(), p3.as_slice()) {
        23
    } else {
        return None;
    };
    let mut part = slice_to_vec_range(lower.as_slice(), start, lower.len());
    assert(part@ == lower@.skip(start as int));
    part = strip_suffix_chars(part, ".git");
    part = strip_suffix_chars(part, "/");
    part = strip_suffix_chars(part, ".git");
    part = strip_suffix_chars(part, "/");
    let dot = chars_of(".");
    let replaced = replace_char_exec(part.as_slice(), '/', dot.as_slice());
    Some(string_of(replaced.as_slice()))
}

} // verus!
