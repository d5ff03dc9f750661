//! The merge description as the CI loop writes it: the project named as
//! Taskwarrior holds it, the pull request description as GitHub gives it.
use vstd::prelude::*;
use crate::gh::merge_description::{acks_view, merge_message, write_merge_message};
use crate::text::chars_of;

verus! {

/// The description of a pull request's merge commit.
pub fn describe_merge(
    project: &str,
    number: usize,
    title: &str,
    commit_list: &str,
    body: &str,
    acks: &Vec<(String, String)>,
    tree_hash: &str,
) -> (r: String)
    ensures
        r@ == merge_message(
            project@,
            number,
            title@,
            commit_list@,
            body@,
            body@,
            acks_view(acks@),
            tree_hash@,
        ),
{
    let pc = chars_of(project);
    let bc = chars_of(body);
    write_merge_message(pc.as_slice(), number, title, commit_list, body, bc.as_slice(), acks, tree_hash)
}

} // verus!
