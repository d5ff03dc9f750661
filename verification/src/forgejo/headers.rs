//! Response headers and how typed values are read from them.
use vstd::prelude::*;
use super::StructureError;
use crate::text::{all_ascii_digits, digits_value, is_ascii_digit};

verus! {

/// The headers of a response, in the order they were received. Header names
/// are case-insensitive; they are kept in lower case.
#[derive(Debug, Clone)]
pub struct HeaderMap {
    entries: Vec<(String, Vec<u8>)>,
}

/// The lower-case form of an ASCII character.
pub open spec fn ascii_lower(c: char) -> char {
    if 'A' <= c && c <= 'Z' {
        ((c as u8) + 32) as char
    } else {
        c
    }
}

/// The first value received for `name`.
pub open spec fn first_value(entries: Seq<(Seq<char>, Seq<u8>)>, name: Seq<char>) -> Option<Seq<u8>>
    decreases entries.len(),
{
    if entries.len() == 0 {
        None
    } else if entries[0].0 == name {
        Some(entries[0].1)
    } else {
        first_value(entries.drop_first(), name)
    }
}

impl HeaderMap {
    /// The received entries, names lower-cased.
    pub closed spec fn entries(&self) -> Seq<(Seq<char>, Seq<u8>)> {
        self.entries@.map_values(|e: (String, Vec<u8>)| (e.0@, e.1@))
    }

    /// The value of `name` that `get` returns.
    pub open spec fn value_of(&self, name: Seq<char>) -> Option<Seq<u8>> {
        first_value(self.entries(), name.map_values(|c: char| ascii_lower(c)))
    }

    /// An empty header map.
    pub fn new() -> (m: HeaderMap)
        ensures
            m.entries() == Seq::<(Seq<char>, Seq<u8>)>::empty(),
    {
        let m = HeaderMap { entries: Vec::new() };
        assert(m.entries() =~= Seq::<(Seq<char>, Seq<u8>)>::empty());
        m
    }

    /// Records a received header.
    pub fn append(&mut self, name: &str, value: Vec<u8>)
        ensures
            final(self).entries() == old(self).entries().push(
                (name@.map_values(|c: char| ascii_lower(c)), value@),
            ),
    {
        let cs = crate::text::chars_of(name);
        let mut lower: Vec<char> = Vec::new();
        let mut i: usize = 0;
        while i < cs.len()
            invariant
                i <= cs@.len(),
                cs@ == name@,
                lower@ == cs@.take(i as int).map_values(|c: char| ascii_lower(c)),
            decreases cs@.len() - i,
        {
            let c = cs[i];
            let l = if 'A' <= c && c <= 'Z' {
                ((c as u8) + 32) as char
            } else {
                c
            };
            lower.push(l);
            assert(cs@.take(i + 1).map_values(|c: char| ascii_lower(c)) =~= cs@.take(
                i as int,
            ).map_values(|c: char| ascii_lower(c)).push(ascii_lower(c)));
            i = i + 1;
        }
        assert(cs@.take(cs@.len() as int) =~= cs@);
        let ghost old_entries = self.entries();
        let lname = crate::text::string_of(lower.as_slice());
        let ghost nv = (lname@, value@);
        self.entries.push((lname, value));
        assert(self.entries() =~= old_entries.push(nv));
    }

    /// The first value received for `name`.
    pub fn get(&self, name: &str) -> (v: Option<&[u8]>)
        ensures
            match v {
                Some(b) => self.value_of(name@) == Some(b@),
                None => self.value_of(name@) is None,
            },
    {
        let cs = crate::text::chars_of(name);
        let mut lower: Vec<char> = Vec::new();
        let mut k: usize = 0;
        while k < cs.len()
            invariant
                k <= cs@.len(),
                cs@ == name@,
                lower@ == cs@.take(k as int).map_values(|c: char| ascii_lower(c)),
            decreases cs@.len() - k,
        {
            let c = cs[k];
            let l = if 'A' <= c && c <= 'Z' {
                ((c as u8) + 32) as char
            } else {
                c
            };
            lower.push(l);
            assert(cs@.take(k + 1).map_values(|c: char| ascii_lower(c)) =~= cs@.take(
                k as int,
            ).map_values(|c: char| ascii_lower(c)).push(ascii_lower(c)));
            k = k + 1;
        }
        assert(cs@.take(cs@.len() as int) =~= cs@);
        let ghost key = name@.map_values(|c: char| ascii_lower(c));
        let ghost all = self.entries();
        let mut i: usize = 0;
        assert(all.skip(0) =~= all);
        while i < self.entries.len()
            invariant
                i <= self.entries@.len(),
                all == self.entries(),
                lower@ == key,
                key == name@.map_values(|c: char| ascii_lower(c)),
                first_value(all, key) == first_value(all.skip(i as int), key),
            decreases self.entries@.len() - i,
        {
            let ghost rest = all.skip(i as int);
            assert(rest.len() > 0);
            assert(rest[0] == (self.entries@[i as int].0@, self.entries@[i as int].1@));
            let entry_name = crate::text::chars_of(self.entries[i].0.as_str());
            if crate::text::chars_eq(entry_name.as_slice(), lower.as_slice()) {
                assert(rest[0].0 == key);
                assert(first_value(rest, key) == Some(rest[0].1));
                return Some(self.entries[i].1.as_slice());
            }
            assert(rest.drop_first() =~= all.skip(i + 1));
            i = i + 1;
        }
        None
    }
}

/// A byte header values may hold for `to_str` to succeed: a tab or visible ASCII.
pub open spec fn is_visible_ascii(b: u8) -> bool {
    b == 9 || (32 <= b && b < 127)
}

/// The text of a header value that holds only visible ASCII.
pub open spec fn ascii_text(b: Seq<u8>) -> Seq<char> {
    b.map_values(|x: u8| x as char)
}

/// What `str::parse::<i64>` returns: an optional sign followed by at least
/// one ASCII digit, with a value in range.
pub open spec fn i64_from_str(s: Seq<char>) -> Option<int> {
    let neg = s.len() > 0 && s[0] == '-';
    let signed = s.len() > 0 && (s[0] == '-' || s[0] == '+');
    let d = if signed {
        s.skip(1)
    } else {
        s
    };
    let v: int = if neg {
        -(digits_value(d) as int)
    } else {
        digits_value(d) as int
    };
    if d.len() > 0 && all_ascii_digits(d) && i64::MIN <= v && v <= i64::MAX {
        Some(v)
    } else {
        None
    }
}

/// What `str::parse::<bool>` returns.
pub open spec fn bool_from_str(s: Seq<char>) -> Option<bool> {
    if s == "true"@ {
        Some(true)
    } else if s == "false"@ {
        Some(false)
    } else {
        None
    }
}

/// Reading an optional header as an integer.
pub open spec fn header_i64(v: Option<Seq<u8>>) -> Result<Option<i64>, StructureError> {
    match v {
        None => Ok(None),
        Some(b) => if !(forall|i: int| 0 <= i < b.len() ==> is_visible_ascii(#[trigger] b[i])) {
            Err(StructureError::HeaderNotAscii)
        } else {
            match i64_from_str(ascii_text(b)) {
                Some(n) => Ok(Some(n as i64)),
                None => Err(StructureError::HeaderParseFailed),
            }
        },
    }
}

/// Reading an optional header as a boolean.
pub open spec fn header_bool(v: Option<Seq<u8>>) -> Result<Option<bool>, StructureError> {
    match v {
        None => Ok(None),
        Some(b) => if !(forall|i: int| 0 <= i < b.len() ==> is_visible_ascii(#[trigger] b[i])) {
            Err(StructureError::HeaderNotAscii)
        } else {
            match bool_from_str(ascii_text(b)) {
                Some(x) => Ok(Some(x)),
                None => Err(StructureError::HeaderParseFailed),
            }
        },
    }
}

/// Reading an optional header as text.
pub open spec fn header_text(v: Option<Seq<u8>>) -> Result<Option<Seq<char>>, StructureError> {
    match v {
        None => Ok(None),
        Some(b) => if !(forall|i: int| 0 <= i < b.len() ==> is_visible_ascii(#[trigger] b[i])) {
            Err(StructureError::HeaderNotAscii)
        } else {
            Ok(Some(ascii_text(b)))
        },
    }
}

/// The value as text, when every byte is visible ASCII (what `HeaderValue::to_str` accepts).
pub fn header_to_str(b: &[u8]) -> (r: Option<Vec<char>>)
    ensures
        match r {
            Some(t) => (forall|i: int| 0 <= i < b@.len() ==> is_visible_ascii(#[trigger] b@[i]))
                && t@ == ascii_text(b@),
            None => !(forall|i: int| 0 <= i < b@.len() ==> is_visible_ascii(#[trigger] b@[i])),
        },
{
    let mut t: Vec<char> = Vec::new();
    let mut i: usize = 0;
    while i < b.len()
        invariant
            i <= b@.len(),
            forall|j: int| 0 <= j < i ==> is_visible_ascii(#[trigger] b@[j]),
            t@ == ascii_text(b@.take(i as int)),
        decreases b@.len() - i,
    {
        let x = b[i];
        if !(x == 9 || (32 <= x && x < 127)) {
            return None;
        }
        t.push(x as char);
        assert(ascii_text(b@.take(i + 1)) =~= ascii_text(b@.take(i as int)).push(x as char));
        i = i + 1;
    }
    assert(b@.take(b@.len() as int) =~= b@);
    Some(t)
}

/// Parses a signed integer the way `str::parse::<i64>` does.
pub fn parse_i64(s: &[char]) -> (r: Option<i64>)
    ensures
        match i64_from_str(s@) {
            Some(n) => r == Some(n as i64),
            None => r is None,
        },
{
    let neg = s.len() > 0 && s[0] == '-';
    let signed = s.len() > 0 && (s[0] == '-' || s[0] == '+');
    let start: usize = if signed { 1 } else { 0 };
    let ghost d = if signed { s@.skip(1) } else { s@ };
    assert(d =~= s@.skip(start as int));
    if start >= s.len() {
        return None;
    }
    let limit: u128 = if neg { 9223372036854775808 } else { 9223372036854775807 };
    let mut val: u128 = 0;
    let mut i: usize = start;
    while i < s.len()
        invariant
            start <= i <= s@.len(),
            start < s@.len(),
            d =~= s@.skip(start as int),
            d == (if s@.len() > 0 && (s@[0] == '-' || s@[0] == '+') { s@.skip(1) } else { s@ }),
            neg == (s@.len() > 0 && s@[0] == '-'),
            limit == (if neg { 9223372036854775808u128 } else { 9223372036854775807u128 }),
            all_ascii_digits(d.take(i - start)),
            val as nat == digits_value(d.take(i - start)),
            val <= limit,
        decreases s@.len() - i,
    {
        let c = s[i];
        if !('0' <= c && c <= '9') {
            assert(!all_ascii_digits(d)) by {
                assert(!is_ascii_digit(d[i - start]));
            }
            return None;
        }
        proof {
            let t = d.take(i - start + 1);
            assert(t.drop_last() =~= d.take(i - start));
            assert(all_ascii_digits(t)) by {
                assert forall|j: int| 0 <= j < t.len() implies is_ascii_digit(#[trigger] t[j]) by {
                    if j < i - start {
                        assert(t[j] == d.take(i - start)[j]);
                    }
                }
            }
        }
        val = val * 10 + ((c as u32 - '0' as u32) as u128);
        i = i + 1;
        if val > limit {
            proof {
                crate::text::lemma_digits_prefix_le(d, i - start);
            }
            return None;
        }
    }
    assert(d.take(i - start) =~= d);
    if neg {
        if val == 9223372036854775808 {
            Some(i64::MIN)
        } else {
            Some(-(val as i64))
        }
    } else {
        Some(val as i64)
    }
}

/// Reads an optional header as an integer.
pub fn read_i64(map: &HeaderMap, name: &str) -> (r: Result<Option<i64>, StructureError>)
    ensures
        r == header_i64(map.value_of(name@)),
{
    match map.get(name) {
        None => Ok(None),
        Some(b) => match header_to_str(b) {
            None => Err(StructureError::HeaderNotAscii),
            Some(t) => match parse_i64(t.as_slice()) {
                Some(n) => Ok(Some(n)),
                None => Err(StructureError::HeaderParseFailed),
            },
        },
    }
}

/// Reads an optional header as a boolean.
pub fn read_bool(map: &HeaderMap, name: &str) -> (r: Result<Option<bool>, StructureError>)
    ensures
        r == header_bool(map.value_of(name@)),
{
    match map.get(name) {
        None => Ok(None),
        Some(b) => match header_to_str(b) {
            None => Err(StructureError::HeaderNotAscii),
            Some(t) => {
                let is_true = crate::text::chars_eq(t.as_slice(), crate::text::chars_of("true").as_slice());
                let is_false = crate::text::chars_eq(t.as_slice(), crate::text::chars_of("false").as_slice());
                if is_true {
                    Ok(Some(true))
                } else if is_false {
                    Ok(Some(false))
                } else {
                    Err(StructureError::HeaderParseFailed)
                }
            },
        },
    }
}

/// Reads an optional header as text.
pub fn read_text(map: &HeaderMap, name: &str) -> (r: Result<Option<String>, StructureError>)
    ensures
        match r {
            Ok(o) => header_text(map.value_of(name@)) == Ok::<Option<Seq<char>>, StructureError>(
                super::opt_string_view(o),
            ),
            Err(e) => header_text(map.value_of(name@)) == Err::<Option<Seq<char>>, StructureError>(e),
        },
{
    match map.get(name) {
        None => Ok(None),
        Some(b) => match header_to_str(b) {
            None => Err(StructureError::HeaderNotAscii),
            Some(t) => Ok(Some(crate::text::string_of(t.as_slice()))),
        },
    }
}

} // verus!
