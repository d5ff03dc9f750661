//! Outside types that the library carries without looking inside, and the
//! outside functions it calls on plain values.
use vstd::prelude::*;

verus! {

#[verifier::external_type_specification]
#[verifier::external_body]
pub struct ExShellError(xshell::Error);

#[verifier::external_type_specification]
#[verifier::external_body]
pub struct ExJsonError(serde_json::Error);

#[verifier::external_type_specification]
#[verifier::external_body]
pub struct ExUuidError(uuid::Error);

#[verifier::external_type_specification]
#[verifier::external_body]
pub struct ExIoError(std::io::Error);

#[verifier::external_type_specification]
#[verifier::external_body]
pub struct ExHexToArrayError(bitcoin_hashes::hex::HexToArrayError);

/// The lower-case hexadecimal digit of `d < 16`.
pub open spec fn hex_digit_char(d: nat) -> char {
    if d < 10 {
        crate::text::digit_char(d)
    } else if d == 10 {
        'a'
    } else if d == 11 {
        'b'
    } else if d == 12 {
        'c'
    } else if d == 13 {
        'd'
    } else if d == 14 {
        'e'
    } else {
        'f'
    }
}

/// The `n` lowest hexadecimal digits of `v`, most significant first.
pub open spec fn hex_digits(v: nat, n: nat) -> Seq<char>
    decreases n,
{
    if n == 0 {
        seq![]
    } else {
        hex_digits(v / 16, (n - 1) as nat).push(hex_digit_char(v % 16))
    }
}

/// How a UUID displays: 32 lower-case hexadecimal digits of its 128-bit value,
/// grouped 8-4-4-4-12 by hyphens.
pub open spec fn uuid_text(u: u128) -> Seq<char> {
    let h = hex_digits(u as nat, 32);
    h.subrange(0, 8) + seq!['-'] + h.subrange(8, 12) + seq!['-'] + h.subrange(12, 16) + seq!['-']
        + h.subrange(16, 20) + seq!['-'] + h.subrange(20, 32)
}

/// Writes a UUID with `uuid::Uuid::from_u128(u).to_string()`. The crate's
/// `Display` is its `LowerHex`, the hyphenated lower-case form stated here.
#[verifier::external_body]
pub fn uuid_to_string(u: u128) -> (s: String)
    ensures
        s@ == uuid_text(u),
{
    uuid::Uuid::from_u128(u).to_string()
}

/// What `uuid::Uuid::try_parse` gives for a text, as the 128-bit value.
pub uninterp spec fn uuid_parse(s: Seq<char>) -> Option<u128>;

/// Parses a UUID with `uuid::Uuid::try_parse` and returns its 128-bit value
/// (`as_u128`). The accepted spellings (hyphenated, simple, braced, URN) are
/// the crate's; the contract names the result and states no more of it.
#[verifier::external_body]
pub fn parse_uuid(s: &str) -> (r: Result<u128, uuid::Error>)
    ensures
        match r {
            Ok(u) => uuid_parse(s@) == Some(u),
            Err(_) => uuid_parse(s@) is None,
        },
{
    uuid::Uuid::try_parse(s).map(|u| u.as_u128())
}

/// A 40-character hexadecimal text: what `bitcoin_hashes::Sha1::from_str`
/// accepts.
pub open spec fn is_sha1_hex(s: Seq<char>) -> bool {
    s.len() == 40 && forall|i: int| 0 <= i < s.len() ==> crate::text::is_hex_digit(#[trigger] s[i])
}

/// Parses `s` with `bitcoin_hashes::Sha1::from_str` and keeps whether it
/// succeeded. The parser (`FromHex for [u8; 20]` of hex-conservative) accepts
/// exactly 40 bytes that are each an ASCII hexadecimal digit of either case.
#[verifier::external_body]
pub fn check_sha1_hex(s: &str) -> (r: Result<(), bitcoin_hashes::hex::HexToArrayError>)
    ensures
        r is Ok <==> is_sha1_hex(s@),
{
    <bitcoin_hashes::Sha1 as core::str::FromStr>::from_str(s).map(|_| ())
}

/// The SHA-512 digest of some bytes.
pub uninterp spec fn sha512_digest(data: Seq<u8>) -> Seq<u8>;

/// Lower-case hexadecimal text of bytes, two digits per byte.
pub open spec fn lower_hex(b: Seq<u8>) -> Seq<char>
    decreases b.len(),
{
    if b.len() == 0 {
        seq![]
    } else {
        lower_hex(b.drop_last()) + hex_digits(b.last() as nat, 2)
    }
}

/// Hashes bytes with `bitcoin_hashes::sha512::Hash::hash` and writes the
/// digest with its `Display`, which is lower-case hexadecimal in byte order
/// (SHA-512 is not displayed backward): 128 characters. The digest itself is named.
#[verifier::external_body]
pub fn sha512_hex(data: &[u8]) -> (s: String)
    ensures
        s@ == lower_hex(sha512_digest(data@)),
        s@.len() == 128,
{
    bitcoin_hashes::sha512::Hash::hash(data).to_string()
}

} // verus!
