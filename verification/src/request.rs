//! The request model the forwarder works on.
//!
//! An inbound request carries a method, an ordered header list, the path and
//! query of its URI, and a body handle.  Only path and query influence
//! routing; the body is moved, never copied, into the outbound request.

use vstd::prelude::*;

use crate::target::{Authority, Scheme};

verus! {

/// Whether a string is a valid HTTP method token.  The grammar is the one
/// enforced by `http::Method`; see [`method_accepts`].
pub uninterp spec fn is_valid_method(s: Seq<char>) -> bool;

/// Whether a string is a valid header field name.  The grammar is the one
/// enforced by `http::header::HeaderName`; see [`header_name_accepts`].
pub uninterp spec fn is_valid_header_name(s: Seq<char>) -> bool;

/// Whether a byte string is a valid header field value.  The grammar is the
/// one enforced by `http::header::HeaderValue`; see [`header_value_accepts`].
pub uninterp spec fn is_valid_header_value(s: Seq<u8>) -> bool;

/// Whether a string is a valid path-and-query URI component.  The grammar is
/// the one enforced by `http::uri::PathAndQuery`; see
/// [`path_and_query_accepts`].
pub uninterp spec fn is_valid_path_and_query(s: Seq<char>) -> bool;

/// Relies on `http::Method::from_bytes`: it returns `Ok` exactly on the
/// method tokens the HTTP grammar allows, which is what `is_valid_method`
/// names.
#[verifier::external_body]
pub(crate) fn method_accepts(s: &str) -> (r: bool)
    ensures
        r == is_valid_method(s@),
{
    http::Method::from_bytes(s.as_bytes()).is_ok()
}

/// Relies on `http::header::HeaderName::from_bytes`: it returns `Ok` exactly
/// on valid header field names, which is what `is_valid_header_name` names.
#[verifier::external_body]
pub(crate) fn header_name_accepts(s: &str) -> (r: bool)
    ensures
        r == is_valid_header_name(s@),
{
    http::header::HeaderName::from_bytes(s.as_bytes()).is_ok()
}

/// Relies on `http::header::HeaderValue::from_bytes`: it returns `Ok`
/// exactly on valid header field values, which is what
/// `is_valid_header_value` names.
#[verifier::external_body]
pub(crate) fn header_value_accepts(s: &[u8]) -> (r: bool)
    ensures
        r == is_valid_header_value(s@),
{
    http::header::HeaderValue::from_bytes(s).is_ok()
}

/// Relies on `http::uri::PathAndQuery::try_from(&str)`: it returns `Ok`
/// exactly on valid path-and-query components, which is what
/// `is_valid_path_and_query` names.
#[verifier::external_body]
pub(crate) fn path_and_query_accepts(s: &str) -> (r: bool)
    ensures
        r == is_valid_path_and_query(s@),
{
    http::uri::PathAndQuery::try_from(s).is_ok()
}

/// One header field.  The name is kept as text, the value as raw bytes, in
/// the order they appeared on the inbound request.
#[derive(Debug, PartialEq, Eq)]
pub struct HeaderField {
    pub name: String,
    pub value: Vec<u8>,
}

/// A header field that the HTTP grammar accepts.
pub open spec fn header_ok(h: HeaderField) -> bool {
    is_valid_header_name(h.name@) && is_valid_header_value(h.value@)
}

/// Every header field of the list is acceptable.
pub open spec fn headers_ok(hs: Seq<HeaderField>) -> bool {
    forall|i: int| 0 <= i < hs.len() ==> header_ok(#[trigger] hs[i])
}

/// An inbound request, as handed to a forwarder.  Its own scheme and
/// authority, if any, are ignored: only path and query route.
pub struct ProxyRequest<B> {
    pub method: String,
    pub headers: Vec<HeaderField>,
    pub path_and_query: String,
    pub body: B,
}

/// The outbound request assembly step can fail only on an invalid method or
/// header; both come verbatim from the inbound request.
pub open spec fn assembly_ok<B>(req: ProxyRequest<B>) -> bool {
    is_valid_method(req.method@) && headers_ok(req.headers@)
}

/// Checks that every header of the list is acceptable to the HTTP grammar.
pub fn check_headers(hs: &Vec<HeaderField>) -> (r: bool)
    ensures
        r == headers_ok(hs@),
{
    let mut i: usize = 0;
    while i < hs.len()
        invariant
            0 <= i <= hs@.len(),
            forall|j: int| 0 <= j < i ==> header_ok(#[trigger] hs@[j]),
        decreases hs@.len() - i,
    {
        let h = &hs[i];
        if !header_name_accepts(h.name.as_str()) {
            return false;
        }
        if !header_value_accepts(h.value.as_slice()) {
            return false;
        }
        i += 1;
    }
    true
}

/// An outbound request, ready for dispatch.  Its scheme and authority are
/// the forwarder's configured values, whatever the rewrite policy did; its
/// path and query are what the policy produced; method, headers and body
/// come verbatim from the inbound request.
pub struct OutboundRequest<B> {
    pub scheme: Scheme,
    pub authority: Authority,
    pub method: String,
    pub headers: Vec<HeaderField>,
    pub path_and_query: String,
    pub body: B,
}

} // verus!
