//! Error taxonomy of the proxy core.
//!
//! Construction-time failures ([`ConstructionError`]) are fatal at setup;
//! per-request failures ([`ProxyError`]) are delivered as the resolved value
//! of the request's pending call, never as abnormal control flow.

use vstd::prelude::*;

verus! {

/// Why a builder or service could not be constructed: the supplied scheme or
/// authority string is invalid.  No request has flowed when this is reported.
#[derive(Debug, Clone, Copy, PartialEq, Eq, Structural)]
pub enum ConstructionError {
    BadScheme,
    BadAuthority,
}

/// Why the outbound request for one forwarded call could not be assembled.
/// Reported as `ProxyError::InvalidUri`; the client is never invoked for
/// such a request.
#[derive(Debug, Clone, Copy, PartialEq, Eq, Structural)]
pub enum UriFault {
    /// The inbound method is not a valid HTTP method token.
    BadMethod,
    /// Some inbound header has an invalid name or value.
    BadHeader,
    /// The rewrite policy itself reported failure.
    PolicyRejected,
    /// The rewrite policy produced a path and query that do not form a
    /// valid URI component.
    BadPathAndQuery,
}

/// A per-request failure, surfaced as the resolved value of a pending call.
///
/// `E` is the transport error type native to the underlying client; it is
/// wrapped without loss of information.
#[derive(Debug, PartialEq, Eq)]
pub enum ProxyError<E> {
    /// Outbound request assembly or the rewrite policy failed; the client
    /// received no dispatch for this request.
    InvalidUri(UriFault),
    /// The client reported a transport-level failure for a dispatched
    /// request; the native error is carried unmodified.
    RequestFailed(E),
}

} // verus!
