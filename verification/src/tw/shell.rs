//! What to do with the tasks that a Taskwarrior filter selects, when the
//! filter should select at most one.
use vstd::prelude::*;
use crate::outside::{parse_uuid, uuid_parse};
use crate::text::{chars_of, string_of, words, words_of};

verus! {

/// The next step after listing the UUIDs that a filter selects.
#[derive(Debug)]
pub enum UniqueUuidStep {
    /// Nothing matches: the task is to be created.
    Create,
    /// Exactly one task matches, with this UUID: it is to be updated.
    Update(u128),
    /// Exactly one word was listed, and it is no UUID.
    Invalid(uuid::Error),
    /// This many tasks match: the filter is not unique.
    Several(usize),
}

/// Decides from the output of `task <filter> _uuids` (UUIDs separated by
/// white space) whether to create the task, update the one that matched, or
/// give up because the output names no single UUID.
pub fn unique_uuid_step(found: &str) -> (r: UniqueUuidStep)
    ensures
        r is Create <==> words(found@).len() == 0,
        r is Several <==> words(found@).len() > 1,
        r matches UniqueUuidStep::Several(n) ==> n == words(found@).len(),
        words(found@).len() == 1 ==> match r {
            UniqueUuidStep::Update(u) => uuid_parse(words(found@)[0]) == Some(u),
            UniqueUuidStep::Invalid(_) => uuid_parse(words(found@)[0]) is None,
            _ => false,
        },
{
    let cs = chars_of(found);
    let ws = words_of(cs.as_slice());
    let n = ws.len();
    assert(ws@.map_values(|l: Vec<char>| l@).len() == ws@.len());
    if n == 0 {
        UniqueUuidStep::Create
    } else if n == 1 {
        let w = string_of(ws[0].as_slice());
        assert(w@ == ws@.map_values(|l: Vec<char>| l@)[0]);
        match parse_uuid(w.as_str()) {
            Ok(u) => UniqueUuidStep::Update(u),
            Err(e) => UniqueUuidStep::Invalid(e),
        }
    } else {
        UniqueUuidStep::Several(n)
    }
}

} // verus!
