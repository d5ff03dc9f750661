//! The description of a pull request's merge commit: header, commit list,
//! pull request description, ACKs and a digest of the merged tree.
use vstd::prelude::*;
use crate::git::{GitCommit, GitError};
use crate::outside::{lower_hex, sha512_digest, sha512_hex};
use crate::text::{
    chars_of, contains, contains_chars, decimal, lines, lines_of, opt_string_view, push_all,
    push_str, starts_with, starts_with_chars, str_eq, string_of, u64_to_string,
};

verus! {

/// Why a merge description could not be computed.
#[derive(Debug)]
pub enum MergeDescriptionError {
    GetCommitId(String, xshell::Error),
    ParseCommitId(String, GitError),
    GetPrBody(usize, xshell::Error),
    ParsePrBodyJson(usize, serde_json::Error),
    GetCommitList(xshell::Error),
    GetPrComments(usize, xshell::Error),
    ParseCommentsJson(usize, serde_json::Error),
    GetPrReviews(usize, xshell::Error),
    ParseReviewsJson(usize, serde_json::Error),
    ListTreeContents(GitCommit, xshell::Error),
    ReadBlob(String, xshell::Error),
}

impl MergeDescriptionError {
    /// The message shown for this error.
    pub open spec fn message(&self) -> Seq<char> {
        match self {
            MergeDescriptionError::GetCommitId(c, _) => "failed to get commit ID for change ID "@
                + c@,
            MergeDescriptionError::ParseCommitId(c, _) => "failed to parse commit ID "@ + c@,
            MergeDescriptionError::GetPrBody(n, _) => "failed get PR body for "@ + decimal(*n as nat)
                + " from 'gh pr view'"@,
            MergeDescriptionError::ParsePrBodyJson(n, _) => "failed to parse PR body JSON for "@
                + decimal(*n as nat),
            MergeDescriptionError::GetCommitList(_) => "failed to get commit list"@,
            MergeDescriptionError::GetPrComments(n, _) => "failed to get PR comments for "@
                + decimal(*n as nat),
            MergeDescriptionError::ParseCommentsJson(n, _) => "failed to parse comments JSON for "@
                + decimal(*n as nat),
            MergeDescriptionError::GetPrReviews(n, _) => "failed to get PR reviews for "@ + decimal(
                *n as nat,
            ),
            MergeDescriptionError::ParseReviewsJson(n, _) => "failed to parse reviews JSON for "@
                + decimal(*n as nat),
            MergeDescriptionError::ListTreeContents(c, _) =>
                "failed to list tree contents for commit "@ + c@,
            MergeDescriptionError::ReadBlob(b, _) => "failed to read blob "@ + b@,
        }
    }

    /// Renders the error message.
    pub fn to_string(&self) -> (s: String)
        ensures
            s@ == self.message(),
    {
        let mut v: Vec<char> = Vec::new();
        match self {
            MergeDescriptionError::GetCommitId(c, _) => {
                push_str(&mut v, "failed to get commit ID for change ID ");
                push_str(&mut v, c.as_str());
            },
            MergeDescriptionError::ParseCommitId(c, _) => {
                push_str(&mut v, "failed to parse commit ID ");
                push_str(&mut v, c.as_str());
            },
            MergeDescriptionError::GetPrBody(n, _) => {
                push_str(&mut v, "failed get PR body for ");
                push_str(&mut v, u64_to_string(*n as u64).as_str());
                push_str(&mut v, " from 'gh pr view'");
            },
            MergeDescriptionError::ParsePrBodyJson(n, _) => {
                push_str(&mut v, "failed to parse PR body JSON for ");
                push_str(&mut v, u64_to_string(*n as u64).as_str());
            },
            MergeDescriptionError::GetCommitList(_) => {
                push_str(&mut v, "failed to get commit list");
            },
            MergeDescriptionError::GetPrComments(n, _) => {
                push_str(&mut v, "failed to get PR comments for ");
                push_str(&mut v, u64_to_string(*n as u64).as_str());
            },
            MergeDescriptionError::ParseCommentsJson(n, _) => {
                push_str(&mut v, "failed to parse comments JSON for ");
                push_str(&mut v, u64_to_string(*n as u64).as_str());
            },
            MergeDescriptionError::GetPrReviews(n, _) => {
                push_str(&mut v, "failed to get PR reviews for ");
                push_str(&mut v, u64_to_string(*n as u64).as_str());
            },
            MergeDescriptionError::ParseReviewsJson(n, _) => {
                push_str(&mut v, "failed to parse reviews JSON for ");
                push_str(&mut v, u64_to_string(*n as u64).as_str());
            },
            MergeDescriptionError::ListTreeContents(c, _) => {
                push_str(&mut v, "failed to list tree contents for commit ");
                push_str(&mut v, c.as_str());
            },
            MergeDescriptionError::ReadBlob(b, _) => {
                push_str(&mut v, "failed to read blob ");
                push_str(&mut v, b.as_str());
            },
        }
        assert(v@ =~= self.message());
        string_of(v.as_slice())
    }
}


/// A line that acknowledges the commit abbreviated `abbrev`: it says `ACK`
/// and names the commit, and is neither quoted (`> `) nor indented as code.
pub open spec fn is_ack_line(line: Seq<char>, abbrev: Seq<char>) -> bool {
    &&& contains(line, "ACK"@)
    &&& contains(line, abbrev)
    &&& !starts_with(line, "> "@)
    &&& !starts_with(line, "    "@)
}

/// The first acknowledging line among `ls`.
pub open spec fn first_ack_line(ls: Seq<Seq<char>>, abbrev: Seq<char>) -> Option<Seq<char>>
    decreases ls.len(),
{
    if ls.len() == 0 {
        None
    } else if is_ack_line(ls[0], abbrev) {
        Some(ls[0])
    } else {
        first_ack_line(ls.drop_first(), abbrev)
    }
}

/// The ACK a comment or review body gives: its first acknowledging line.
pub open spec fn ack_of(body: Seq<char>, abbrev: Seq<char>) -> Option<Seq<char>> {
    first_ack_line(lines(body), abbrev)
}

/// The view of a comment or review as read from GitHub: its body and its
/// author's login, each when present.
pub open spec fn entry_view(e: (Option<String>, Option<String>)) -> (Option<Seq<char>>, Option<Seq<char>>) {
    (opt_string_view(e.0), opt_string_view(e.1))
}

/// The ACK of one comment, as author and line, when it has a body, an
/// author and an acknowledging line.
pub open spec fn entry_ack(e: (Option<Seq<char>>, Option<Seq<char>>), abbrev: Seq<char>) -> Option<(Seq<char>, Seq<char>)> {
    match (e.0, e.1) {
        (Some(body), Some(author)) => match ack_of(body, abbrev) {
            Some(line) => Some((author, line)),
            None => None,
        },
        _ => None,
    }
}

/// The ACKs of the comments `es`, in order: one per comment that has one.
pub open spec fn comment_acks(es: Seq<(Option<Seq<char>>, Option<Seq<char>>)>, abbrev: Seq<char>) -> Seq<(Seq<char>, Seq<char>)>
    decreases es.len(),
{
    if es.len() == 0 {
        seq![]
    } else {
        comment_acks(es.drop_last(), abbrev) + match entry_ack(es.last(), abbrev) {
            Some(a) => seq![a],
            None => seq![],
        }
    }
}

/// Whether `acks` holds an ACK by `author`.
pub open spec fn has_ack_by(acks: Seq<(Seq<char>, Seq<char>)>, author: Seq<char>) -> bool {
    exists|i: int| 0 <= i < acks.len() && (#[trigger] acks[i]).0 == author
}

/// `acks` followed by the ACKs of the reviews `es`, in order, each only when
/// its author has none yet.
pub open spec fn with_review_acks(acks: Seq<(Seq<char>, Seq<char>)>, es: Seq<(Option<Seq<char>>, Option<Seq<char>>)>, abbrev: Seq<char>) -> Seq<(Seq<char>, Seq<char>)>
    decreases es.len(),
{
    if es.len() == 0 {
        acks
    } else {
        let before = with_review_acks(acks, es.drop_last(), abbrev);
        match entry_ack(es.last(), abbrev) {
            Some(a) => if has_ack_by(before, a.0) {
                before
            } else {
                before.push(a)
            },
            None => before,
        }
    }
}

/// The ACKs of a pull request's top commit: those of its comments, then
/// those of its reviews by authors not yet counted.
pub open spec fn collected_acks(
    comments: Seq<(Option<Seq<char>>, Option<Seq<char>>)>,
    reviews: Seq<(Option<Seq<char>>, Option<Seq<char>>)>,
    abbrev: Seq<char>,
) -> Seq<(Seq<char>, Seq<char>)> {
    with_review_acks(comment_acks(comments, abbrev), reviews, abbrev)
}

/// The view of a list of ACKs.
pub open spec fn acks_view(v: Seq<(String, String)>) -> Seq<(Seq<char>, Seq<char>)> {
    v.map_values(|a: (String, String)| (a.0@, a.1@))
}

/// The first line among `ls` that says `ACK`, names the commit abbreviated
/// `abbrev` and is neither quoted (`> `) nor indented by four spaces is what
/// `first_ack_line` finds; when no line is all of that, it finds none.
pub proof fn lemma_first_ack_line(ls: Seq<Seq<char>>, abbrev: Seq<char>)
    ensures
        first_ack_line(ls, abbrev) matches Some(l) ==> exists|i: int|
            0 <= i < ls.len() && ls[i] == l && contains(l, "ACK"@) && contains(l, abbrev) && !starts_with(
                l,
                "> "@,
            ) && !starts_with(l, "    "@) && forall|j: int|
                0 <= j < i ==> !(contains(#[trigger] ls[j], "ACK"@) && contains(ls[j], abbrev)
                    && !starts_with(ls[j], "> "@) && !starts_with(ls[j], "    "@)),
        first_ack_line(ls, abbrev) is None ==> forall|i: int|
            0 <= i < ls.len() ==> !(contains(#[trigger] ls[i], "ACK"@) && contains(ls[i], abbrev)
                && !starts_with(ls[i], "> "@) && !starts_with(ls[i], "    "@)),
    decreases ls.len(),
{
    if ls.len() > 0 {
        let t = ls.drop_first();
        lemma_first_ack_line(t, abbrev);
        if !is_ack_line(ls[0], abbrev) {
            if let Some(l) = first_ack_line(t, abbrev) {
                let i = choose|i: int|
                    0 <= i < t.len() && t[i] == l && contains(l, "ACK"@) && contains(l, abbrev)
                        && !starts_with(l, "> "@) && !starts_with(l, "    "@) && forall|j: int|
                        0 <= j < i ==> !(contains(#[trigger] t[j], "ACK"@) && contains(t[j], abbrev)
                            && !starts_with(t[j], "> "@) && !starts_with(t[j], "    "@));
                assert(ls[i + 1] == l);
                assert forall|j: int| 0 <= j < i + 1 implies !(contains(#[trigger] ls[j], "ACK"@)
                    && contains(ls[j], abbrev) && !starts_with(ls[j], "> "@) && !starts_with(
                    ls[j],
                    "    "@,
                )) by {
                    if j > 0 {
                        assert(ls[j] == t[j - 1]);
                    }
                }
            } else {
                assert forall|i: int| 0 <= i < ls.len() implies !(contains(#[trigger] ls[i], "ACK"@)
                    && contains(ls[i], abbrev) && !starts_with(ls[i], "> "@) && !starts_with(
                    ls[i],
                    "    "@,
                )) by {
                    if i > 0 {
                        assert(ls[i] == t[i - 1]);
                    }
                }
            }
        }
    }
}

/// The first line of `body` that acknowledges the commit abbreviated `abbrev`.
pub fn find_ack_line(body: &str, abbrev: &str) -> (r: Option<String>)
    ensures
        opt_string_view(r) == ack_of(body@, abbrev@),
        r matches Some(l) ==> exists|i: int|
            0 <= i < lines(body@).len() && lines(body@)[i] == l@ && contains(l@, "ACK"@) && contains(
                l@,
                abbrev@,
            ) && !starts_with(l@, "> "@) && !starts_with(l@, "    "@),
        r is None ==> forall|i: int|
            0 <= i < lines(body@).len() ==> !(contains(#[trigger] lines(body@)[i], "ACK"@) && contains(
                lines(body@)[i],
                abbrev@,
            ) && !starts_with(lines(body@)[i], "> "@) && !starts_with(lines(body@)[i], "    "@)),
{
    proof {
        lemma_first_ack_line(lines(body@), abbrev@);
    }
    let cs = chars_of(body);
    let ls = lines_of(cs.as_slice());
    let ghost lv = ls@.map_values(|l: Vec<char>| l@);
    let ack = chars_of("ACK");
    let quote = chars_of("> ");
    let indent = chars_of("    ");
    let ab = chars_of(abbrev);
    let mut i: usize = 0;
    assert(lv.skip(0) =~= lv);
    while i < ls.len()
        invariant
            i <= lv.len(),
            lv == ls@.map_values(|l: Vec<char>| l@),
            lv == lines(body@),
            ack@ == "ACK"@,
            quote@ == "> "@,
            indent@ == "    "@,
            ab@ == abbrev@,
            first_ack_line(lv, abbrev@) == first_ack_line(lv.skip(i as int), abbrev@),
        decreases lv.len() - i,
    {
        let line = &ls[i];
        assert(line@ == lv[i as int]);
        assert(lv.skip(i as int)[0] == lv[i as int]);
        if contains_chars(line.as_slice(), ack.as_slice()) && contains_chars(line.as_slice(), ab.as_slice())
            && !starts_with_chars(line.as_slice(), quote.as_slice()) && !starts_with_chars(
            line.as_slice(),
            indent.as_slice(),
        ) {
            return Some(string_of(line.as_slice()));
        }
        assert(lv.skip(i as int).drop_first() =~= lv.skip(i + 1));
        i = i + 1;
    }
    None
}

fn entry_ack_exec(e: &(Option<String>, Option<String>), abbrev: &str) -> (r: Option<(String, String)>)
    ensures
        match r {
            Some(a) => entry_ack(entry_view(*e), abbrev@) == Some((a.0@, a.1@)),
            None => entry_ack(entry_view(*e), abbrev@) is None,
        },
{
    match (&e.0, &e.1) {
        (Some(body), Some(author)) => match find_ack_line(body.as_str(), abbrev) {
            Some(line) => Some((string_of(chars_of(author.as_str()).as_slice()), line)),
            None => None,
        },
        _ => None,
    }
}

/// Collects the ACKs of a pull request's top commit, abbreviated `abbrev`,
/// from its comments and reviews (body and author login of each): the first
/// acknowledging line of each comment, then that of each review whose author
/// has not acknowledged yet.
pub fn collect_acks(
    comments: &Vec<(Option<String>, Option<String>)>,
    reviews: &Vec<(Option<String>, Option<String>)>,
    abbrev: &str,
) -> (r: Vec<(String, String)>)
    ensures
        acks_view(r@) == collected_acks(
            comments@.map_values(|e: (Option<String>, Option<String>)| entry_view(e)),
            reviews@.map_values(|e: (Option<String>, Option<String>)| entry_view(e)),
            abbrev@,
        ),
{
    let ghost cv = comments@.map_values(|e: (Option<String>, Option<String>)| entry_view(e));
    let ghost rv = reviews@.map_values(|e: (Option<String>, Option<String>)| entry_view(e));
    let mut acks: Vec<(String, String)> = Vec::new();
    let mut k: usize = 0;
    assert(cv.take(0) =~= Seq::<(Option<Seq<char>>, Option<Seq<char>>)>::empty());
    assert(acks_view(acks@) =~= comment_acks(cv.take(0), abbrev@));
    while k < comments.len()
        invariant
            k <= cv.len(),
            cv == comments@.map_values(|e: (Option<String>, Option<String>)| entry_view(e)),
            acks_view(acks@) == comment_acks(cv.take(k as int), abbrev@),
        decreases cv.len() - k,
    {
        assert(cv.take(k as int + 1).drop_last() =~= cv.take(k as int));
        assert(cv.take(k as int + 1).last() == cv[k as int]);
        let ghost before = acks_view(acks@);
        match entry_ack_exec(&comments[k], abbrev) {
            Some(a) => {
                acks.push(a);
                assert(acks_view(acks@) =~= before + seq![entry_ack(cv[k as int], abbrev@).unwrap()]);
            },
            None => {
                assert(before + Seq::<(Seq<char>, Seq<char>)>::empty() =~= before);
            },
        }
        k = k + 1;
    }
    assert(cv.take(cv.len() as int) =~= cv);
    let ghost base = acks_view(acks@);
    let mut k: usize = 0;
    assert(rv.take(0) =~= Seq::<(Option<Seq<char>>, Option<Seq<char>>)>::empty());
    while k < reviews.len()
        invariant
            k <= rv.len(),
            rv == reviews@.map_values(|e: (Option<String>, Option<String>)| entry_view(e)),
            acks_view(acks@) == with_review_acks(base, rv.take(k as int), abbrev@),
        decreases rv.len() - k,
    {
        assert(rv.take(k as int + 1).drop_last() =~= rv.take(k as int));
        assert(rv.take(k as int + 1).last() == rv[k as int]);
        let ghost before = acks_view(acks@);
        match entry_ack_exec(&reviews[k], abbrev) {
            Some(a) => {
                // Check if we already have an ACK from this user
                let mut found = false;
                let mut j: usize = 0;
                while j < acks.len()
                    invariant
                        j <= acks@.len(),
                        before == acks_view(acks@),
                        found == exists|q: int| 0 <= q < j && (#[trigger] before[q]).0 == a.0@,
                    decreases acks@.len() - j,
                {
                    if str_eq(acks[j].0.as_str(), a.0.as_str()) {
                        assert(before[j as int].0 == a.0@);
                        found = true;
                    }
                    j = j + 1;
                }
                assert(found == has_ack_by(before, a.0@));
                if !found {
                    let ghost av = (a.0@, a.1@);
                    acks.push(a);
                    assert(acks_view(acks@) =~= before.push(av));
                }
            },
            None => {},
        }
        k = k + 1;
    }
    assert(rv.take(rv.len() as int) =~= rv);
    acks
}

/// Whether the first `k` characters of `s` take exactly `n` bytes in UTF-8.
pub open spec fn is_byte_prefix(s: Seq<char>, k: int, n: nat) -> bool {
    0 <= k <= s.len() && vstd::utf8::encode_utf8(s.take(k)).len() == n
}

/// The characters of `s` that make up its first `n` bytes, when the `n`th
/// byte ends a character: what `&s[..n]` gives.
pub open spec fn byte_prefix(s: Seq<char>, n: nat) -> Seq<char> {
    s.take(choose|k: int| is_byte_prefix(s, k, n))
}

/// The number of bytes a character takes in UTF-8.
fn utf8_width(c: char) -> (w: usize)
    ensures
        w == vstd::utf8::encode_scalar(c as u32).len(),
{
    let v = c as u32;
    if v <= 0x7f {
        1
    } else if v <= 0x7ff {
        2
    } else if v <= 0xffff {
        3
    } else {
        4
    }
}

proof fn lemma_encode_take_step(s: Seq<char>, k: int)
    requires
        0 <= k < s.len(),
    ensures
        vstd::utf8::encode_utf8(s.take(k + 1)).len() == vstd::utf8::encode_utf8(s.take(k)).len()
            + vstd::utf8::encode_scalar(s[k] as u32).len(),
{
    assert(s.take(k + 1) =~= s.take(k) + seq![s[k]]);
    crate::text::lemma_encode_utf8_concat(s.take(k), seq![s[k]]);
    assert(seq![s[k]].drop_first() =~= Seq::<char>::empty());
    assert(vstd::utf8::encode_utf8(Seq::<char>::empty()) =~= Seq::<u8>::empty());
}

proof fn lemma_encode_take_mono(s: Seq<char>, j: int, k: int)
    requires
        0 <= j < k <= s.len(),
    ensures
        vstd::utf8::encode_utf8(s.take(j)).len() < vstd::utf8::encode_utf8(s.take(k)).len(),
    decreases k - j,
{
    lemma_encode_take_step(s, k - 1);
    assert(vstd::utf8::encode_scalar(s[k - 1] as u32).len() >= 1);
    if j < k - 1 {
        lemma_encode_take_mono(s, j, k - 1);
    }
}

/// The first six bytes of a commit ID, `&id[..6]`: the abbreviation by
/// which an ACK names the commit.
pub fn head_abbrev(commit: &GitCommit) -> (r: String)
    requires
        exists|k: int| is_byte_prefix(commit@, k, 6),
    ensures
        r@ == byte_prefix(commit@, 6),
{
    let cs = chars_of(commit.as_str());
    let ghost s = commit@;
    let ghost kk = choose|k: int| is_byte_prefix(s, k, 6);
    let mut k: usize = 0;
    let mut bytes: usize = 0;
    assert(s.take(0) =~= Seq::<char>::empty());
    assert(vstd::utf8::encode_utf8(Seq::<char>::empty()) =~= Seq::<u8>::empty());
    while bytes < 6 && k < cs.len()
        invariant
            cs@ == s,
            is_byte_prefix(s, kk, 6),
            0 <= k <= kk,
            bytes == vstd::utf8::encode_utf8(s.take(k as int)).len(),
            bytes <= 6,
        decreases kk - k,
    {
        proof {
            assert(k < kk);
            assert(k < cs@.len());
            lemma_encode_take_step(s, k as int);
            if k + 1 < kk {
                lemma_encode_take_mono(s, k + 1, kk);
            }
        }
        bytes = bytes + utf8_width(cs[k]);
        k = k + 1;
    }
    assert(k == kk) by {
        if k < kk {
            lemma_encode_take_mono(s, k as int, kk);
        }
    }
    let head = crate::text::slice_to_vec_range(cs.as_slice(), 0, k);
    assert(head@ =~= s.take(k as int));
    string_of(head.as_slice())
}

/// What one line of `git ls-tree` says of a blob: its path and object ID.
/// The line is the mode, type and ID separated by whitespace, a tab, and the
/// path; lines that do not describe a blob say nothing.
pub open spec fn listing_entry(line: Seq<char>) -> Option<(Seq<char>, Seq<char>)> {
    let t = crate::text::index_of(line, '\t');
    if t < line.len() {
        let parts = crate::text::words(line.take(t as int));
        if parts.len() >= 3 && parts[1] == "blob"@ {
            Some((line.skip(t + 1 as int), parts[2]))
        } else {
            None
        }
    } else {
        None
    }
}

/// The blobs the lines `ls` describe, in order.
pub open spec fn listing_entries(ls: Seq<Seq<char>>) -> Seq<(Seq<char>, Seq<char>)>
    decreases ls.len(),
{
    if ls.len() == 0 {
        seq![]
    } else {
        listing_entries(ls.drop_last()) + match listing_entry(ls.last()) {
            Some(e) => seq![e],
            None => seq![],
        }
    }
}

/// The object ID last given for the path `name`.
pub open spec fn last_blob(es: Seq<(Seq<char>, Seq<char>)>, name: Seq<char>) -> Seq<char>
    decreases es.len(),
{
    if es.len() == 0 {
        seq![]
    } else if es.last().0 == name {
        es.last().1
    } else {
        last_blob(es.drop_last(), name)
    }
}

/// The files of a tree listing in the order they are hashed: the paths,
/// sorted, each with the object ID last listed for it.
pub open spec fn tree_files_of(output: Seq<char>, r: Seq<(Seq<char>, Seq<char>)>) -> bool {
    let es = listing_entries(lines(output));
    let names = r.map_values(|e: (Seq<char>, Seq<char>)| e.0);
    &&& crate::text::texts_sorted(names)
    &&& names.to_multiset() == es.map_values(|e: (Seq<char>, Seq<char>)| e.0).to_multiset()
    &&& forall|i: int| 0 <= i < r.len() ==> (#[trigger] r[i]).1 == last_blob(es, r[i].0)
}

fn listing_entry_exec(line: &Vec<char>) -> (r: Option<(Vec<char>, Vec<char>)>)
    ensures
        match r {
            Some(e) => listing_entry(line@) == Some((e.0@, e.1@)),
            None => listing_entry(line@) is None,
        },
{
    let mut t: usize = 0;
    while t < line.len() && line[t] != '\t'
        invariant
            t <= line@.len(),
            forall|k: int| 0 <= k < t ==> line@[k] != '\t',
        decreases line@.len() - t,
    {
        t = t + 1;
    }
    proof {
        crate::text::lemma_index_of(line@, '\t', t as int);
    }
    if t == line.len() {
        return None;
    }
    let meta = crate::text::slice_to_vec_range(line.as_slice(), 0, t);
    assert(meta@ =~= line@.take(t as int));
    let parts = crate::text::words_of(meta.as_slice());
    let ghost pv = parts@.map_values(|l: Vec<char>| l@);
    let blob = chars_of("blob");
    if parts.len() >= 3 && crate::text::chars_eq(parts[1].as_slice(), blob.as_slice()) {
        assert(pv[1] == parts@[1]@);
        let name = crate::text::slice_to_vec_range(line.as_slice(), t + 1, line.len());
        assert(name@ =~= line@.skip(t + 1));
        let id = crate::text::slice_to_vec_range(parts[2].as_slice(), 0, parts[2].len());
        assert(id@ =~= pv[2]);
        Some((name, id))
    } else {
        assert(parts@.len() >= 3 ==> pv[1] == parts@[1]@);
        None
    }
}

/// Lists the files of a tree from the output of `git ls-tree --full-tree -r`:
/// the paths of its blobs, sorted, each with its object ID.
pub fn tree_files(output: &str) -> (r: Vec<(String, String)>)
    ensures
        tree_files_of(output@, r@.map_values(|e: (String, String)| (e.0@, e.1@))),
{
    let cs = chars_of(output);
    let ls = lines_of(cs.as_slice());
    let ghost lv = ls@.map_values(|l: Vec<char>| l@);
    // Parse git ls-tree output
    let mut entries: Vec<(Vec<char>, Vec<char>)> = Vec::new();
    let mut names: Vec<Vec<char>> = Vec::new();
    let mut k: usize = 0;
    assert(lv.take(0) =~= Seq::<Seq<char>>::empty());
    while k < ls.len()
        invariant
            k <= lv.len(),
            lv == ls@.map_values(|l: Vec<char>| l@),
            entries@.map_values(|e: (Vec<char>, Vec<char>)| (e.0@, e.1@)) == listing_entries(
                lv.take(k as int),
            ),
            crate::text::texts_view(names@) == listing_entries(lv.take(k as int)).map_values(
                |e: (Seq<char>, Seq<char>)| e.0,
            ),
        decreases lv.len() - k,
    {
        assert(lv.take(k as int + 1).drop_last() =~= lv.take(k as int));
        assert(lv.take(k as int + 1).last() == lv[k as int]);
        assert(ls@[k as int]@ == lv[k as int]);
        let ghost before = entries@.map_values(|e: (Vec<char>, Vec<char>)| (e.0@, e.1@));
        let ghost before_names = crate::text::texts_view(names@);
        match listing_entry_exec(&ls[k]) {
            Some(e) => {
                let name = crate::text::slice_to_vec_range(e.0.as_slice(), 0, e.0.len());
                let ghost ev = (e.0@, e.1@);
                assert(name@ =~= e.0@);
                names.push(name);
                entries.push(e);
                assert(entries@.map_values(|e: (Vec<char>, Vec<char>)| (e.0@, e.1@)) =~= before.push(ev));
                assert(crate::text::texts_view(names@) =~= before_names.push(ev.0));
                assert(listing_entries(lv.take(k as int + 1)) =~= before.push(ev));
                assert(listing_entries(lv.take(k as int + 1)).map_values(
                    |e: (Seq<char>, Seq<char>)| e.0,
                ) =~= before_names.push(ev.0));
            },
            None => {
                assert(listing_entries(lv.take(k as int + 1)) =~= before);
            },
        }
        k = k + 1;
    }
    assert(lv.take(lv.len() as int) =~= lv);
    let ghost es = listing_entries(lines(output@));
    let sorted = crate::text::sort_texts(&names);
    let ghost sv = crate::text::texts_view(sorted@);
    // Look up each file's blob: the last one listed under its path.
    let mut out: Vec<(String, String)> = Vec::new();
    let mut q: usize = 0;
    while q < sorted.len()
        invariant
            q <= sv.len(),
            sv == crate::text::texts_view(sorted@),
            es == entries@.map_values(|e: (Vec<char>, Vec<char>)| (e.0@, e.1@)),
            out@.len() == q,
            forall|i: int|
                0 <= i < q ==> (#[trigger] out@[i]).0@ == sv[i] && out@[i].1@ == last_blob(
                    es,
                    sv[i],
                ),
        decreases sv.len() - q,
    {
        let name = &sorted[q];
        let mut j: usize = entries.len();
        assert(es.take(j as int) =~= es);
        while j > 0 && !crate::text::chars_eq(entries[j - 1].0.as_slice(), name.as_slice())
            invariant
                j <= es.len(),
                es == entries@.map_values(|e: (Vec<char>, Vec<char>)| (e.0@, e.1@)),
                last_blob(es, name@) == last_blob(es.take(j as int), name@),
            decreases j,
        {
            assert(es.take(j as int).drop_last() =~= es.take(j - 1));
            j = j - 1;
        }
        let blob = if j == 0 {
            assert(es.take(0) =~= Seq::<(Seq<char>, Seq<char>)>::empty());
            Vec::new()
        } else {
            assert(es.take(j as int).last() == es[j - 1]);
            crate::text::slice_to_vec_range(entries[j - 1].1.as_slice(), 0, entries[j - 1].1.len())
        };
        assert(blob@ =~= last_blob(es, name@));
        assert(name@ == sv[q as int]);
        out.push((string_of(name.as_slice()), string_of(blob.as_slice())));
        q = q + 1;
    }
    let ghost rv = out@.map_values(|e: (String, String)| (e.0@, e.1@));
    assert(rv.map_values(|e: (Seq<char>, Seq<char>)| e.0) =~= sv);
    out
}

/// The bytes hashed for one file of a tree: the hexadecimal SHA-512 of its
/// content, two spaces, its path, and a line feed.
pub open spec fn file_digest_line(name: Seq<char>, content: Seq<u8>) -> Seq<u8> {
    vstd::utf8::encode_utf8(lower_hex(sha512_digest(content))) + seq![32u8, 32u8]
        + vstd::utf8::encode_utf8(name) + seq![10u8]
}

/// The bytes hashed for the files `fs`, in order.
pub open spec fn tree_digest_input(fs: Seq<(Seq<char>, Seq<u8>)>) -> Seq<u8>
    decreases fs.len(),
{
    if fs.len() == 0 {
        seq![]
    } else {
        tree_digest_input(fs.drop_last()) + file_digest_line(fs.last().0, fs.last().1)
    }
}

/// The SHA-512 of a tree: of the lines, one per file in the order given, that
/// hold each file's own SHA-512 and path. Written in lower-case hexadecimal.
pub fn tree_digest(files: &Vec<(String, Vec<u8>)>) -> (r: String)
    ensures
        r@ == lower_hex(
            sha512_digest(
                tree_digest_input(files@.map_values(|f: (String, Vec<u8>)| (f.0@, f.1@))),
            ),
        ),
{
    let ghost fv = files@.map_values(|f: (String, Vec<u8>)| (f.0@, f.1@));
    let mut input: Vec<u8> = Vec::new();
    let mut k: usize = 0;
    assert(fv.take(0) =~= Seq::<(Seq<char>, Seq<u8>)>::empty());
    while k < files.len()
        invariant
            k <= fv.len(),
            fv == files@.map_values(|f: (String, Vec<u8>)| (f.0@, f.1@)),
            input@ == tree_digest_input(fv.take(k as int)),
        decreases fv.len() - k,
    {
        assert(fv.take(k as int + 1).drop_last() =~= fv.take(k as int));
        assert(fv.take(k as int + 1).last() == fv[k as int]);
        let file_hash = sha512_hex(files[k].1.as_slice());
        let ghost before = input@;
        append_bytes(&mut input, file_hash.as_str().as_bytes());
        input.push(32u8);
        input.push(32u8);
        append_bytes(&mut input, files[k].0.as_str().as_bytes());
        input.push(10u8);
        assert(input@ =~= before + file_digest_line(fv[k as int].0, fv[k as int].1));
        k = k + 1;
    }
    assert(fv.take(fv.len() as int) =~= fv);
    sha512_hex(input.as_slice())
}

fn append_bytes(v: &mut Vec<u8>, b: &[u8])
    ensures
        final(v)@ == old(v)@ + b@,
{
    let mut i: usize = 0;
    while i < b.len()
        invariant
            i <= b@.len(),
            v@ == old(v)@ + b@.take(i as int),
        decreases b@.len() - i,
    {
        v.push(b[i]);
        assert(b@.take(i + 1) =~= b@.take(i as int).push(b@[i as int]));
        i = i + 1;
    }
    assert(b@.take(b@.len() as int) =~= b@);
}

/// The first lines of a merge description: which pull request is merged.
pub open spec fn merge_header(project: Seq<char>, number: usize, title: Seq<char>) -> Seq<char> {
    if title.len() > 0 {
        "Merge "@ + project + "#"@ + decimal(number as nat) + ": "@ + title + "\n\n"@
    } else {
        "Merge "@ + project + "#"@ + decimal(number as nat) + "\n\n"@
    }
}

/// One entry per ACK: the author's login, then the acknowledging line.
pub open spec fn ack_entries(acks: Seq<(Seq<char>, Seq<char>)>) -> Seq<char>
    decreases acks.len(),
{
    if acks.len() == 0 {
        seq![]
    } else {
        ack_entries(acks.drop_last()) + "  "@ + acks.last().0 + ":\n    "@ + acks.last().1
            + "\n"@
    }
}

/// The ACKs section of a merge description.
pub open spec fn acks_section(acks: Seq<(Seq<char>, Seq<char>)>) -> Seq<char> {
    if acks.len() > 0 {
        "\n\nACKs for top commit:\n"@ + ack_entries(acks)
    } else {
        "\n\nTop commit has no ACKs.\n"@
    }
}

/// The pull request description section: present when the description is
/// not empty, holding `text` indented by two spaces.
pub open spec fn body_section(body: Seq<char>, text: Seq<char>) -> Seq<char> {
    if body.len() > 0 {
        "\n\nPull request description:\n\n  "@ + crate::text::replace_char(text, '\n', "\n  "@)
            + "\n"@
    } else {
        seq![]
    }
}

/// A merge description: header, commit list, pull request description,
/// ACKs, and the digest of the merged tree.
pub open spec fn merge_message(
    project: Seq<char>,
    number: usize,
    title: Seq<char>,
    commit_list: Seq<char>,
    body: Seq<char>,
    body_text: Seq<char>,
    acks: Seq<(Seq<char>, Seq<char>)>,
    tree_hash: Seq<char>,
) -> Seq<char> {
    merge_header(project, number, title) + commit_list + body_section(body, body_text)
        + acks_section(acks) + "\n\nTree-SHA512: "@ + tree_hash
}

/// Writes a merge description from its parts.
pub fn write_merge_message(
    project: &[char],
    number: usize,
    title: &str,
    commit_list: &str,
    body: &str,
    body_text: &[char],
    acks: &Vec<(String, String)>,
    tree_hash: &str,
) -> (r: String)
    ensures
        r@ == merge_message(
            project@,
            number,
            title@,
            commit_list@,
            body@,
            body_text@,
            acks_view(acks@),
            tree_hash@,
        ),
{
    let mut v: Vec<char> = Vec::new();
    push_str(&mut v, "Merge ");
    push_all(&mut v, project);
    push_str(&mut v, "#");
    push_str(&mut v, u64_to_string(number as u64).as_str());
    let title_chars = chars_of(title);
    if title_chars.len() > 0 {
        push_str(&mut v, ": ");
        push_str(&mut v, title);
    }
    push_str(&mut v, "\n\n");
    assert(v@ =~= merge_header(project@, number, title@));
    push_str(&mut v, commit_list);
    let ghost upto_list = v@;
    // Add PR body
    let body_chars = chars_of(body);
    if body_chars.len() > 0 {
        push_str(&mut v, "\n\nPull request description:\n\n  ");
        let nl = chars_of("\n  ");
        let indented = crate::text::replace_char_exec(body_text, '\n', nl.as_slice());
        push_all(&mut v, indented.as_slice());
        push_str(&mut v, "\n");
    }
    assert(v@ =~= upto_list + body_section(body@, body_text@));
    let ghost upto_body = v@;
    // Add ACKs section
    let ghost av = acks_view(acks@);
    if acks.len() > 0 {
        push_str(&mut v, "\n\nACKs for top commit:\n");
        let ghost head = v@;
        let mut k: usize = 0;
        assert(av.take(0) =~= Seq::<(Seq<char>, Seq<char>)>::empty());
        assert(head =~= head + ack_entries(av.take(0)));
        while k < acks.len()
            invariant
                k <= av.len(),
                av == acks_view(acks@),
                v@ == head + ack_entries(av.take(k as int)),
            decreases av.len() - k,
        {
            assert(av.take(k as int + 1).drop_last() =~= av.take(k as int));
            assert(av.take(k as int + 1).last() == av[k as int]);
            push_str(&mut v, "  ");
            push_str(&mut v, acks[k].0.as_str());
            push_str(&mut v, ":\n    ");
            push_str(&mut v, acks[k].1.as_str());
            push_str(&mut v, "\n");
            assert(v@ =~= head + ack_entries(av.take(k as int + 1)));
            k = k + 1;
        }
        assert(av.take(av.len() as int) =~= av);
    } else {
        push_str(&mut v, "\n\nTop commit has no ACKs.\n");
    }
    assert(v@ =~= upto_body + acks_section(av));
    // Add tree SHA512
    push_str(&mut v, "\n\nTree-SHA512: ");
    push_str(&mut v, tree_hash);
    assert(v@ =~= merge_message(
        project@,
        number,
        title@,
        commit_list@,
        body@,
        body_text@,
        av,
        tree_hash@,
    ));
    string_of(v.as_slice())
}

/// The description of a pull request's merge commit, as GitHub merge tools
/// write it: the project's `org.repo` written `org/repo`, the pull request
/// description trimmed and without carriage returns.
pub fn describe_merge(
    project: &str,
    number: usize,
    title: &str,
    commit_list: &str,
    body: &str,
    acks: &Vec<(String, String)>,
    tree_hash: &str,
) -> (r: String)
    ensures
        r@ == merge_message(
            crate::text::replace_char(project@, '.', "/"@),
            number,
            title@,
            commit_list@,
            body@,
            crate::text::replace_char(crate::text::trim(body@), '\r', seq![]),
            acks_view(acks@),
            tree_hash@,
        ),
{
    let pc = chars_of(project);
    let slash = chars_of("/");
    let project_text = crate::text::replace_char_exec(pc.as_slice(), '.', slash.as_slice());
    let bc = chars_of(body);
    let trimmed = crate::text::trim_chars(bc.as_slice());
    let no_cr: Vec<char> = Vec::new();
    let body_text = crate::text::replace_char_exec(trimmed.as_slice(), '\r', no_cr.as_slice());
    assert(no_cr@ =~= Seq::<char>::empty());
    write_merge_message(
        project_text.as_slice(),
        number,
        title,
        commit_list,
        body,
        body_text.as_slice(),
        acks,
        tree_hash,
    )
}

proof fn lemma_first_ack_line_is_ack(ls: Seq<Seq<char>>, abbrev: Seq<char>)
    ensures
        first_ack_line(ls, abbrev) matches Some(l) ==> is_ack_line(l, abbrev),
    decreases ls.len(),
{
    if ls.len() > 0 && !is_ack_line(ls[0], abbrev) {
        lemma_first_ack_line_is_ack(ls.drop_first(), abbrev);
    }
}

proof fn lemma_comment_acks_are_acks(es: Seq<(Option<Seq<char>>, Option<Seq<char>>)>, abbrev: Seq<char>)
    ensures
        forall|i: int|
            0 <= i < comment_acks(es, abbrev).len() ==> is_ack_line(
                (#[trigger] comment_acks(es, abbrev)[i]).1,
                abbrev,
            ),
    decreases es.len(),
{
    if es.len() > 0 {
        lemma_comment_acks_are_acks(es.drop_last(), abbrev);
        if let (Some(body), Some(_)) = (es.last().0, es.last().1) {
            lemma_first_ack_line_is_ack(lines(body), abbrev);
        }
        let before = comment_acks(es.drop_last(), abbrev);
        assert forall|i: int| 0 <= i < comment_acks(es, abbrev).len() implies is_ack_line(
            (#[trigger] comment_acks(es, abbrev)[i]).1,
            abbrev,
        ) by {
            if i < before.len() {
                assert(comment_acks(es, abbrev)[i] == before[i]);
            }
        }
    }
}

proof fn lemma_review_acks_are_acks(
    acks: Seq<(Seq<char>, Seq<char>)>,
    es: Seq<(Option<Seq<char>>, Option<Seq<char>>)>,
    abbrev: Seq<char>,
)
    requires
        forall|i: int| 0 <= i < acks.len() ==> is_ack_line((#[trigger] acks[i]).1, abbrev),
    ensures
        forall|i: int|
            0 <= i < with_review_acks(acks, es, abbrev).len() ==> is_ack_line(
                (#[trigger] with_review_acks(acks, es, abbrev)[i]).1,
                abbrev,
            ),
        forall|i: int, j: int|
            0 <= i < j < with_review_acks(acks, es, abbrev).len() && acks.len() <= j ==> (
            #[trigger] with_review_acks(acks, es, abbrev)[i]).0 != (#[trigger] with_review_acks(
                acks,
                es,
                abbrev,
            )[j]).0,
        acks.len() <= with_review_acks(acks, es, abbrev).len(),
        forall|i: int| 0 <= i < acks.len() ==> with_review_acks(acks, es, abbrev)[i] == acks[i],
    decreases es.len(),
{
    if es.len() > 0 {
        lemma_review_acks_are_acks(acks, es.drop_last(), abbrev);
        if let (Some(body), Some(_)) = (es.last().0, es.last().1) {
            lemma_first_ack_line_is_ack(lines(body), abbrev);
        }
        let before = with_review_acks(acks, es.drop_last(), abbrev);
        let after = with_review_acks(acks, es, abbrev);
        match entry_ack(es.last(), abbrev) {
            Some(a) => {
                if !has_ack_by(before, a.0) {
                    assert(after == before.push(a));
                    assert forall|i: int, j: int|
                        0 <= i < j < after.len() && acks.len() <= j implies (#[trigger] after[i]).0
                        != (#[trigger] after[j]).0 by {
                        if j == before.len() {
                            assert(after[i] == before[i]);
                            if before[i].0 == a.0 {
                                assert(has_ack_by(before, a.0));
                            }
                        } else {
                            assert(after[i] == before[i] && after[j] == before[j]);
                        }
                    }
                    assert forall|i: int| 0 <= i < after.len() implies is_ack_line(
                        (#[trigger] after[i]).1,
                        abbrev,
                    ) by {
                        if i < before.len() {
                            assert(after[i] == before[i]);
                        }
                    }
                }
            },
            None => {},
        }
    }
}

/// Every ACK collected is an acknowledging line of its comment or review,
/// and the reviews add at most one ACK per author not yet counted.
pub proof fn lemma_collected_acks(
    comments: Seq<(Option<Seq<char>>, Option<Seq<char>>)>,
    reviews: Seq<(Option<Seq<char>>, Option<Seq<char>>)>,
    abbrev: Seq<char>,
)
    ensures
        forall|i: int|
            0 <= i < collected_acks(comments, reviews, abbrev).len() ==> is_ack_line(
                (#[trigger] collected_acks(comments, reviews, abbrev)[i]).1,
                abbrev,
            ),
        forall|i: int, j: int|
            0 <= i < j < collected_acks(comments, reviews, abbrev).len() && comment_acks(
                comments,
                abbrev,
            ).len() <= j ==> (#[trigger] collected_acks(comments, reviews, abbrev)[i]).0
                != (#[trigger] collected_acks(comments, reviews, abbrev)[j]).0,
{
    lemma_comment_acks_are_acks(comments, abbrev);
    lemma_review_acks_are_acks(comment_acks(comments, abbrev), reviews, abbrev);
}

/// What `gh`'s JSON output holds under `key`: `None` when the text is not
/// JSON; `Some(None)` when the key does not hold an array; otherwise, for
/// each element in order, its `body` and its `author.login`, each when it is
/// a string.
pub uninterp spec fn json_entries(text: Seq<char>, key: Seq<char>) -> Option<Option<Seq<(Option<Seq<char>>, Option<Seq<char>>)>>>;

/// The views of comments or reviews as read from GitHub.
pub open spec fn entries_view(v: Seq<(Option<String>, Option<String>)>) -> Seq<(Option<Seq<char>>, Option<Seq<char>>)> {
    v.map_values(|e: (Option<String>, Option<String>)| entry_view(e))
}

/// Parses `gh` output with `serde_json::from_str` into a `serde_json::Value`
/// and reads, from the array under `key` (`Value::as_array`), each element's
/// `body` and `author.login` with `Value::as_str`. The contract names the
/// result; the JSON grammar is `serde_json`'s.
#[verifier::external_body]
fn parse_entries(text: &str, key: &str) -> (r: Result<Option<Vec<(Option<String>, Option<String>)>>, serde_json::Error>)
    ensures
        match r {
            Ok(o) => json_entries(text@, key@) == Some(
                match o {
                    Some(v) => Some(entries_view(v@)),
                    None => None,
                },
            ),
            Err(_) => json_entries(text@, key@) is None,
        },
{
    let data: serde_json::Value = serde_json::from_str(text)?;
    Ok(data[key].as_array().map(|items| items.iter().map(|item| (
        item["body"].as_str().map(|b| b.to_string()),
        item["author"]["login"].as_str().map(|a| a.to_string()),
    )).collect()))
}

/// The elements of an array read from JSON, none when there was no array.
pub open spec fn entries_or_empty(o: Option<Seq<(Option<Seq<char>>, Option<Seq<char>>)>>) -> Seq<(Option<Seq<char>>, Option<Seq<char>>)> {
    match o {
        Some(s) => s,
        None => seq![],
    }
}

/// The comments of a pull request from the output of
/// `gh pr view <pr> --json comments`: the entries of its `comments` array,
/// none when it has no such array. Text that is not JSON is refused with
/// `ParseCommentsJson`.
pub fn comment_entries(pr: usize, text: &str) -> (r: Result<Vec<(Option<String>, Option<String>)>, MergeDescriptionError>)
    ensures
        r is Ok <==> json_entries(text@, "comments"@) is Some,
        match r {
            Ok(v) => entries_view(v@) == entries_or_empty(json_entries(text@, "comments"@)->0),
            Err(e) => e matches MergeDescriptionError::ParseCommentsJson(n, _) && n == pr,
        },
{
    match parse_entries(text, "comments") {
        Ok(Some(v)) => Ok(v),
        Ok(None) => {
            let v: Vec<(Option<String>, Option<String>)> = Vec::new();
            assert(entries_view(v@) =~= seq![]);
            Ok(v)
        },
        Err(e) => Err(MergeDescriptionError::ParseCommentsJson(pr, e)),
    }
}

/// The reviews of a pull request from the output of
/// `gh pr view <pr> --json reviews`: the entries of its `reviews` array,
/// none when it has no such array. Text that is not JSON is refused with
/// `ParseReviewsJson`.
pub fn review_entries(pr: usize, text: &str) -> (r: Result<Vec<(Option<String>, Option<String>)>, MergeDescriptionError>)
    ensures
        r is Ok <==> json_entries(text@, "reviews"@) is Some,
        match r {
            Ok(v) => entries_view(v@) == entries_or_empty(json_entries(text@, "reviews"@)->0),
            Err(e) => e matches MergeDescriptionError::ParseReviewsJson(n, _) && n == pr,
        },
{
    match parse_entries(text, "reviews") {
        Ok(Some(v)) => Ok(v),
        Ok(None) => {
            let v: Vec<(Option<String>, Option<String>)> = Vec::new();
            assert(entries_view(v@) =~= seq![]);
            Ok(v)
        },
        Err(e) => Err(MergeDescriptionError::ParseReviewsJson(pr, e)),
    }
}

/// What `gh`'s JSON output holds under `key`: `None` when the text is not
/// JSON; `Some(None)` when the value there is not a string.
pub uninterp spec fn json_string_field(text: Seq<char>, key: Seq<char>) -> Option<Option<Seq<char>>>;

/// Parses `gh` output with `serde_json::from_str` into a `serde_json::Value`
/// and reads the string under `key` with `Value::as_str`. The contract names
/// the result; the JSON grammar is `serde_json`'s.
#[verifier::external_body]
fn parse_string_field(text: &str, key: &str) -> (r: Result<Option<String>, serde_json::Error>)
    ensures
        match r {
            Ok(o) => json_string_field(text@, key@) == Some(opt_string_view(o)),
            Err(_) => json_string_field(text@, key@) is None,
        },
{
    let data: serde_json::Value = serde_json::from_str(text)?;
    Ok(data[key].as_str().map(|b| b.to_string()))
}

/// The description of a pull request from the output of
/// `gh pr view <pr> --json body`: its `body` string, empty when there is
/// none. Text that is not JSON is refused with `ParsePrBodyJson`.
pub fn pr_body_from_json(pr: usize, text: &str) -> (r: Result<String, MergeDescriptionError>)
    ensures
        r is Ok <==> json_string_field(text@, "body"@) is Some,
        match r {
            Ok(s) => s@ == match json_string_field(text@, "body"@)->0 {
                Some(b) => b,
                None => Seq::<char>::empty(),
            },
            Err(e) => e matches MergeDescriptionError::ParsePrBodyJson(n, _) && n == pr,
        },
{
    match parse_string_field(text, "body") {
        Ok(Some(b)) => Ok(b),
        Ok(None) => Ok(String::new()),
        Err(e) => Err(MergeDescriptionError::ParsePrBodyJson(pr, e)),
    }
}

} // verus!
