//! A typed description of the Forgejo HTTP API: the data types it exchanges,
//! the query strings it accepts, the response headers it sends, and one
//! request constructor per endpoint.
use vstd::prelude::*;
pub use crate::text::opt_string_view;

pub mod endpoints;
pub mod headers;
pub mod methods;
pub mod query;
pub mod structs;

verus! {

#[verifier::external_type_specification]
#[verifier::external_body]
pub struct ExUrl(url::Url);

#[verifier::external_type_specification]
#[verifier::external_body]
pub struct ExOffsetDateTime(time::OffsetDateTime);

#[verifier::external_type_specification]
#[verifier::external_body]
pub struct ExDate(time::Date);

#[verifier::external_type_specification]
#[verifier::external_body]
pub struct ExJsonValue(serde_json::Value);

#[verifier::external_type_specification]
#[verifier::external_body]
pub struct ExBytes(bytes::Bytes);

/// `Url::clone` (a derived `Clone`) returns a value equal to its argument.
pub assume_specification[ <url::Url as Clone>::clone ](u: &url::Url) -> (r: url::Url)
    ensures
        r == *u,
;

/// `OffsetDateTime::clone` (a derived `Clone` on a `Copy` type) returns a
/// value equal to its argument.
pub assume_specification[ <time::OffsetDateTime as Clone>::clone ](t: &time::OffsetDateTime) -> (r: time::OffsetDateTime)
    ensures
        r == *t,
;

/// A client for one Forgejo instance.
#[derive(Debug, Clone)]
pub struct Forgejo {
    base_url: String,
}

impl Forgejo {
    /// The base URL of the instance.
    pub closed spec fn base_url_view(&self) -> Seq<char> {
        self.base_url@
    }

    /// A client for the instance at `url`.
    pub fn new(base: String) -> (f: Forgejo)
        ensures
            f.base_url_view() == base@,
    {
        Forgejo { base_url: base }
    }

    /// The base URL of the instance.
    pub fn base_url(&self) -> (u: &str)
        ensures
            u@ == self.base_url_view(),
    {
        self.base_url.as_str()
    }
}

/// A request to the endpoint described by `E`, to be sent through `client`,
/// whose successful response decodes to `R`.
pub struct Request<'a, E, R> {
    pub client: &'a Forgejo,
    pub endpoint: E,
    pub response: core::marker::PhantomData<R>,
}

/// Failures when reading structured data from a response.
#[derive(Debug, Clone, Copy, PartialEq, Eq, Structural)]
pub enum StructureError {
    /// A header value holds bytes that are not visible ASCII.
    HeaderNotAscii,
    /// A header value does not parse as the expected type.
    HeaderParseFailed,
}

/// The view of an optional borrowed string.
pub open spec fn opt_str_view(o: Option<&str>) -> Option<Seq<char>> {
    match o {
        Some(s) => Some(s@),
        None => None,
    }
}

/// The view of optional borrowed bytes.
pub open spec fn opt_bytes_view(o: Option<&[u8]>) -> Option<Seq<u8>> {
    match o {
        Some(s) => Some(s@),
        None => None,
    }
}

/// The view of optional owned bytes.
pub open spec fn opt_vec_view(o: Option<Vec<u8>>) -> Option<Seq<u8>> {
    match o {
        Some(s) => Some(s@),
        None => None,
    }
}

/// Copies an optional string.
pub fn own_opt_str(o: Option<&str>) -> (r: Option<String>)
    ensures
        opt_string_view(r) == opt_str_view(o),
{
    match o {
        Some(s) => Some(s.to_owned()),
        None => None,
    }
}

/// Copies a byte slice.
pub fn own_bytes(b: &[u8]) -> (r: Vec<u8>)
    ensures
        r@ == b@,
{
    vstd::slice::slice_to_vec(b)
}

/// Copies an optional byte slice.
pub fn own_opt_bytes(o: Option<&[u8]>) -> (r: Option<Vec<u8>>)
    ensures
        opt_vec_view(r) == opt_bytes_view(o),
{
    match o {
        Some(s) => Some(own_bytes(s)),
        None => None,
    }
}

} // verus!
