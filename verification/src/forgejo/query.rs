//! Building query strings: each query type turns into an ordered list of
//! `(name, value)` pairs.
use vstd::prelude::*;
use crate::text::{bool_text, bool_to_string, decimal, i64_to_string, int_decimal, u64_to_string, push_str, string_of};

verus! {

/// A list of query parameters.
pub type QueryList = Vec<(&'static str, String)>;

/// The text of each query parameter.
pub open spec fn pairs_view(l: Seq<(&'static str, String)>) -> Seq<(Seq<char>, Seq<char>)> {
    l.map_values(|p: (&'static str, String)| (p.0@, p.1@))
}

/// An enumeration whose values travel as fixed names.
pub trait WireName: Copy {
    /// The name of this value on the wire.
    spec fn wire_name(&self) -> Seq<char>;

    /// The name of this value on the wire.
    fn as_str(&self) -> (s: &'static str)
        ensures
            s@ == self.wire_name(),
    ;
}

/// One parameter when the value is present, none otherwise.
pub open spec fn opt_entry(k: Seq<char>, v: Option<Seq<char>>) -> Seq<(Seq<char>, Seq<char>)> {
    match v {
        Some(t) => seq![(k, t)],
        None => seq![],
    }
}

/// The text of an optional string.
pub open spec fn opt_text(o: Option<String>) -> Option<Seq<char>> {
    match o {
        Some(s) => Some(s@),
        None => None,
    }
}

/// The decimal text of an optional signed integer.
pub open spec fn opt_int_text(o: Option<i64>) -> Option<Seq<char>> {
    match o {
        Some(i) => Some(int_decimal(i as int)),
        None => None,
    }
}

/// The decimal text of an optional unsigned integer.
pub open spec fn opt_u32_text(o: Option<u32>) -> Option<Seq<char>> {
    match o {
        Some(i) => Some(decimal(i as nat)),
        None => None,
    }
}

/// The text of an optional boolean.
pub open spec fn opt_bool_text(o: Option<bool>) -> Option<Seq<char>> {
    match o {
        Some(b) => Some(bool_text(b)),
        None => None,
    }
}

/// The wire name of an optional enumeration value.
pub open spec fn opt_wire_text<T: WireName>(o: Option<T>) -> Option<Seq<char>> {
    match o {
        Some(v) => Some(v.wire_name()),
        None => None,
    }
}

/// One parameter per string of a present list.
pub open spec fn each_text(k: Seq<char>, o: Option<Vec<String>>) -> Seq<(Seq<char>, Seq<char>)> {
    match o {
        Some(v) => v@.map_values(|s: String| (k, s@)),
        None => seq![],
    }
}

/// One parameter per integer of a present list.
pub open spec fn each_int(k: Seq<char>, o: Option<Vec<i64>>) -> Seq<(Seq<char>, Seq<char>)> {
    match o {
        Some(v) => v@.map_values(|i: i64| (k, int_decimal(i as int))),
        None => seq![],
    }
}

/// One parameter per enumeration value of a present list.
pub open spec fn each_wire<T: WireName>(k: Seq<char>, o: Option<Vec<T>>) -> Seq<(Seq<char>, Seq<char>)> {
    match o {
        Some(v) => v@.map_values(|e: T| (k, e.wire_name())),
        None => seq![],
    }
}

/// Items separated by commas.
pub open spec fn join_commas(items: Seq<Seq<char>>) -> Seq<char>
    decreases items.len(),
{
    if items.len() == 0 {
        seq![]
    } else if items.len() == 1 {
        items[0]
    } else {
        join_commas(items.drop_last()) + seq![','] + items.last()
    }
}

/// A single comma-separated parameter for a present, non-empty list of strings.
pub open spec fn joined_text(k: Seq<char>, o: Option<Vec<String>>) -> Seq<(Seq<char>, Seq<char>)> {
    match o {
        Some(v) => if v@.len() > 0 {
            seq![(k, join_commas(v@.map_values(|s: String| s@)))]
        } else {
            seq![]
        },
        None => seq![],
    }
}

/// A single comma-separated parameter for a present, non-empty list of enumeration values.
pub open spec fn joined_wire<T: WireName>(k: Seq<char>, o: Option<Vec<T>>) -> Seq<(Seq<char>, Seq<char>)> {
    match o {
        Some(v) => if v@.len() > 0 {
            seq![(k, join_commas(v@.map_values(|e: T| e.wire_name())))]
        } else {
            seq![]
        },
        None => seq![],
    }
}

/// The RFC 3339 text of a timestamp, when the `time` crate can write it.
pub uninterp spec fn rfc3339_text(t: time::OffsetDateTime) -> Option<Seq<char>>;

/// The timestamp can be written in RFC 3339.
pub open spec fn writable(o: Option<time::OffsetDateTime>) -> bool {
    match o {
        Some(t) => rfc3339_text(t) is Some,
        None => true,
    }
}

/// The RFC 3339 text of an optional timestamp.
pub open spec fn opt_time_text(o: Option<time::OffsetDateTime>) -> Option<Seq<char>> {
    match o {
        Some(t) => rfc3339_text(t),
        None => None,
    }
}

/// Formats a timestamp with `time::OffsetDateTime::format` in the RFC 3339
/// well-known format. The contract names the result and says nothing more:
/// the `time` crate writes it, and it fails for timestamps RFC 3339 cannot
/// express.
#[verifier::external_body]
pub fn format_rfc3339(t: &time::OffsetDateTime) -> (r: Option<String>)
    ensures
        opt_text(r) == rfc3339_text(*t),
{
    t.format(&time::format_description::well_known::Rfc3339).ok()
}

/// The text `time::Date` displays as.
pub uninterp spec fn date_text(d: time::Date) -> Seq<char>;

/// The display text of an optional date.
pub open spec fn opt_date_text(o: Option<time::Date>) -> Option<Seq<char>> {
    match o {
        Some(d) => Some(date_text(d)),
        None => None,
    }
}

/// Writes a date with its `Display` implementation (`to_string`). The
/// contract names the result: the `time` crate writes it.
#[verifier::external_body]
pub fn date_to_string(d: &time::Date) -> (s: String)
    ensures
        s@ == date_text(*d),
{
    d.to_string()
}

/// Appends a parameter for a present date.
pub fn push_opt_date(list: &mut QueryList, k: &'static str, o: Option<time::Date>)
    ensures
        pairs_view(final(list)@) == pairs_view(old(list)@) + opt_entry(k@, opt_date_text(o)),
{
    match o {
        Some(d) => push_entry(list, k, date_to_string(&d)),
        None => {
            assert(pairs_view(list@) =~= pairs_view(old(list)@) + opt_entry(k@, opt_date_text(o)));
        },
    }
}

/// Appends one parameter.
pub fn push_entry(list: &mut QueryList, k: &'static str, v: String)
    ensures
        pairs_view(final(list)@) == pairs_view(old(list)@) + seq![(k@, v@)],
{
    let ghost k_view = k@;
    let ghost v_view = v@;
    list.push((k, v));
    assert(pairs_view(list@) =~= pairs_view(old(list)@) + seq![(k_view, v_view)]);
}

/// Appends a parameter for a present string.
pub fn push_opt_str(list: &mut QueryList, k: &'static str, o: Option<String>)
    ensures
        pairs_view(final(list)@) == pairs_view(old(list)@) + opt_entry(k@, opt_text(o)),
{
    match o {
        Some(v) => push_entry(list, k, v),
        None => {
            assert(pairs_view(list@) =~= pairs_view(old(list)@) + opt_entry(k@, opt_text(o)));
        },
    }
}

/// Appends a parameter for a present signed integer.
pub fn push_opt_i64(list: &mut QueryList, k: &'static str, o: Option<i64>)
    ensures
        pairs_view(final(list)@) == pairs_view(old(list)@) + opt_entry(k@, opt_int_text(o)),
{
    match o {
        Some(v) => push_entry(list, k, i64_to_string(v)),
        None => {
            assert(pairs_view(list@) =~= pairs_view(old(list)@) + opt_entry(k@, opt_int_text(o)));
        },
    }
}

/// Appends a parameter for a present unsigned integer.
pub fn push_opt_u32(list: &mut QueryList, k: &'static str, o: Option<u32>)
    ensures
        pairs_view(final(list)@) == pairs_view(old(list)@) + opt_entry(k@, opt_u32_text(o)),
{
    match o {
        Some(v) => push_entry(list, k, u64_to_string(v as u64)),
        None => {
            assert(pairs_view(list@) =~= pairs_view(old(list)@) + opt_entry(k@, opt_u32_text(o)));
        },
    }
}

/// Appends a parameter for a present boolean.
pub fn push_opt_bool(list: &mut QueryList, k: &'static str, o: Option<bool>)
    ensures
        pairs_view(final(list)@) == pairs_view(old(list)@) + opt_entry(k@, opt_bool_text(o)),
{
    match o {
        Some(v) => push_entry(list, k, bool_to_string(v)),
        None => {
            assert(pairs_view(list@) =~= pairs_view(old(list)@) + opt_entry(k@, opt_bool_text(o)));
        },
    }
}

/// Appends a parameter for a present enumeration value.
pub fn push_opt_wire<T: WireName>(list: &mut QueryList, k: &'static str, o: Option<T>)
    ensures
        pairs_view(final(list)@) == pairs_view(old(list)@) + opt_entry(k@, opt_wire_text(o)),
{
    match o {
        Some(v) => push_entry(list, k, v.as_str().to_owned()),
        None => {
            assert(pairs_view(list@) =~= pairs_view(old(list)@) + opt_entry(k@, opt_wire_text(o)));
        },
    }
}

/// Appends a parameter for a present timestamp.
pub fn push_opt_time(list: &mut QueryList, k: &'static str, o: Option<time::OffsetDateTime>)
    requires
        writable(o),
    ensures
        pairs_view(final(list)@) == pairs_view(old(list)@) + opt_entry(k@, opt_time_text(o)),
{
    match o {
        Some(t) => {
            match format_rfc3339(&t) {
                Some(s) => push_entry(list, k, s),
                None => {
                    assert(false);
                },
            }
        },
        None => {
            assert(pairs_view(list@) =~= pairs_view(old(list)@) + opt_entry(k@, opt_time_text(o)));
        },
    }
}

/// Appends one parameter per string of a present list.
pub fn push_each_str(list: &mut QueryList, k: &'static str, o: Option<Vec<String>>)
    ensures
        pairs_view(final(list)@) == pairs_view(old(list)@) + each_text(k@, o),
{
    let ghost orig = o;
    match o {
        Some(items) => {
            let ghost seq = items@;
            let ghost start = pairs_view(list@);
            for item in it: items
                invariant
                    it.seq() == seq,
                    pairs_view(list@) == start + seq.take(it.index() as int).map_values(
                        |s: String| (k@, s@),
                    ),
            {
                let ghost before = pairs_view(list@);
                push_entry(list, k, item);
                assert(seq.take(it.index() + 1).map_values(|s: String| (k@, s@)) =~= seq.take(
                    it.index() as int,
                ).map_values(|s: String| (k@, s@)).push((k@, item@)));
            }
            assert(seq.take(seq.len() as int) =~= seq);
        },
        None => {
            assert(pairs_view(list@) =~= pairs_view(old(list)@) + each_text(k@, orig));
        },
    }
}

/// Appends one parameter per integer of a present list.
pub fn push_each_i64(list: &mut QueryList, k: &'static str, o: Option<Vec<i64>>)
    ensures
        pairs_view(final(list)@) == pairs_view(old(list)@) + each_int(k@, o),
{
    let ghost orig = o;
    match o {
        Some(items) => {
            let ghost seq = items@;
            let ghost start = pairs_view(list@);
            for item in it: items
                invariant
                    it.seq() == seq,
                    pairs_view(list@) == start + seq.take(it.index() as int).map_values(
                        |i: i64| (k@, int_decimal(i as int)),
                    ),
            {
                push_entry(list, k, i64_to_string(item));
                assert(seq.take(it.index() + 1).map_values(|i: i64| (k@, int_decimal(i as int)))
                    =~= seq.take(it.index() as int).map_values(
                    |i: i64| (k@, int_decimal(i as int)),
                ).push((k@, int_decimal(item as int))));
            }
            assert(seq.take(seq.len() as int) =~= seq);
        },
        None => {
            assert(pairs_view(list@) =~= pairs_view(old(list)@) + each_int(k@, orig));
        },
    }
}

/// Appends one parameter per enumeration value of a present list.
pub fn push_each_wire<T: WireName>(list: &mut QueryList, k: &'static str, o: Option<Vec<T>>)
    ensures
        pairs_view(final(list)@) == pairs_view(old(list)@) + each_wire(k@, o),
{
    let ghost orig = o;
    match o {
        Some(items) => {
            let ghost seq = items@;
            let ghost start = pairs_view(list@);
            for item in it: items
                invariant
                    it.seq() == seq,
                    pairs_view(list@) == start + seq.take(it.index() as int).map_values(
                        |e: T| (k@, e.wire_name()),
                    ),
            {
                push_entry(list, k, item.as_str().to_owned());
                assert(seq.take(it.index() + 1).map_values(|e: T| (k@, e.wire_name())) =~= seq.take(
                    it.index() as int,
                ).map_values(|e: T| (k@, e.wire_name())).push((k@, item.wire_name())));
            }
            assert(seq.take(seq.len() as int) =~= seq);
        },
        None => {
            assert(pairs_view(list@) =~= pairs_view(old(list)@) + each_wire(k@, orig));
        },
    }
}

/// Joins texts with commas.
fn join_with_commas(items: &Vec<Vec<char>>) -> (s: String)
    ensures
        s@ == join_commas(items@.map_values(|v: Vec<char>| v@)),
{
    let ghost views = items@.map_values(|v: Vec<char>| v@);
    let mut out: Vec<char> = Vec::new();
    let mut i: usize = 0;
    while i < items.len()
        invariant
            i <= items@.len(),
            views == items@.map_values(|v: Vec<char>| v@),
            out@ == join_commas(views.take(i as int)),
        decreases items@.len() - i,
    {
        let ghost prev = views.take(i as int);
        if i > 0 {
            out.push(',');
        }
        crate::text::push_all(&mut out, items[i].as_slice());
        proof {
            let next = views.take(i + 1);
            assert(next.drop_last() =~= prev);
            assert(next.last() == items@[i as int]@);
            if i == 0 {
                assert(next =~= seq![items@[0]@]);
                assert(out@ =~= join_commas(next));
            } else {
                assert(out@ =~= join_commas(prev) + seq![','] + next.last());
            }
        }
        i = i + 1;
    }
    assert(views.take(items@.len() as int) =~= views);
    string_of(out.as_slice())
}

/// Appends a single comma-separated parameter for a present, non-empty list of strings.
pub fn push_joined_str(list: &mut QueryList, k: &'static str, o: Option<Vec<String>>)
    ensures
        pairs_view(final(list)@) == pairs_view(old(list)@) + joined_text(k@, o),
{
    let ghost orig = o;
    match o {
        Some(items) => {
            if items.len() > 0 {
                let mut texts: Vec<Vec<char>> = Vec::new();
                let mut i: usize = 0;
                while i < items.len()
                    invariant
                        i <= items@.len(),
                        texts@.len() == i,
                        forall|j: int| 0 <= j < i ==> (#[trigger] texts@[j])@ == items@[j]@,
                    decreases items@.len() - i,
                {
                    texts.push(crate::text::chars_of(items[i].as_str()));
                    i = i + 1;
                }
                assert(texts@.map_values(|v: Vec<char>| v@) =~= items@.map_values(|s: String| s@));
                let joined = join_with_commas(&texts);
                push_entry(list, k, joined);
            } else {
                assert(pairs_view(list@) =~= pairs_view(old(list)@) + joined_text(k@, orig));
            }
        },
        None => {
            assert(pairs_view(list@) =~= pairs_view(old(list)@) + joined_text(k@, orig));
        },
    }
}

/// Appends a single comma-separated parameter for a present, non-empty list of enumeration values.
pub fn push_joined_wire<T: WireName>(list: &mut QueryList, k: &'static str, o: Option<Vec<T>>)
    ensures
        pairs_view(final(list)@) == pairs_view(old(list)@) + joined_wire(k@, o),
{
    let ghost orig = o;
    match o {
        Some(items) => {
            if items.len() > 0 {
                let mut texts: Vec<Vec<char>> = Vec::new();
                let mut i: usize = 0;
                while i < items.len()
                    invariant
                        i <= items@.len(),
                        texts@.len() == i,
                        forall|j: int| 0 <= j < i ==> (#[trigger] texts@[j])@ == items@[j].wire_name(),
                    decreases items@.len() - i,
                {
                    texts.push(crate::text::chars_of(items[i].as_str()));
                    i = i + 1;
                }
                assert(texts@.map_values(|v: Vec<char>| v@) =~= items@.map_values(
                    |e: T| e.wire_name(),
                ));
                let joined = join_with_commas(&texts);
                push_entry(list, k, joined);
            } else {
                assert(pairs_view(list@) =~= pairs_view(old(list)@) + joined_wire(k@, orig));
            }
        },
        None => {
            assert(pairs_view(list@) =~= pairs_view(old(list)@) + joined_wire(k@, orig));
        },
    }
}

} // verus!
