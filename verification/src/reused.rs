//! Forwarders that share one client.
//!
//! A [`Builder`] pairs a client, held under reference-counted shared
//! ownership, with one validated target.  Every forwarder built from it
//! carries its own rewrite policy but dispatches through the same client,
//! so connection state is shared, never duplicated.

use std::sync::Arc;

use vstd::prelude::*;

use crate::error::{ConstructionError, UriFault};
use crate::forward::{forward, forwarded};
use crate::request::{OutboundRequest, ProxyRequest};
use crate::rewrite::PathRewriter;
use crate::target::{is_valid_authority, Authority, Scheme};

verus! {

/// Relies on `std::sync::Arc::clone`: the clone is a second handle to the
/// same allocation, so it carries the same value as the original.
#[verifier::external_body]
fn share<T>(a: &Arc<T>) -> (r: Arc<T>)
    ensures
        r == *a,
{
    Arc::clone(a)
}

/// An immutable template for forwarders: one shared client and one
/// validated target.  Built once by [`builder`], then reused to build any
/// number of forwarders.
#[derive(Debug)]
pub struct Builder<Cl> {
    pub client: Arc<Cl>,
    pub scheme: Scheme,
    pub authority: Authority,
}

/// A forwarder built from a [`Builder`]: the shared client, the builder's
/// target, and this forwarder's own rewrite policy.  The client value is
/// held for the caller's dispatch step; this type never inspects it.
#[derive(Debug)]
pub struct ReusedService<Pr, Cl> {
    pub client: Arc<Cl>,
    pub scheme: Scheme,
    pub authority: Authority,
    pub path: Pr,
}

/// The fields a forwarder inherits from the builder it was built from: the
/// shared client and the validated target.  Its policy is its own.
pub open spec fn built_from<Pr, Cl>(s: ReusedService<Pr, Cl>, b: Builder<Cl>) -> bool {
    &&& s.client == b.client
    &&& s.scheme == b.scheme
    &&& s.authority == b.authority
}

/// Validates a target and takes shared ownership of a client.  Succeeds if
/// and only if both strings are valid, and names the first invalid one
/// otherwise; no request has flowed when it fails.
pub fn builder<Cl>(client: Cl, scheme: &str, authority: &str) -> (r: Result<
    Builder<Cl>,
    ConstructionError,
>)
    ensures
        (r matches Err(e) && e == ConstructionError::BadScheme) <==> !(scheme@ == "http"@
            || scheme@ == "https"@),
        (r matches Err(e) && e == ConstructionError::BadAuthority) <==> ((scheme@ == "http"@
            || scheme@ == "https"@) && !is_valid_authority(authority@)),
        r is Ok <==> ((scheme@ == "http"@ || scheme@ == "https"@) && is_valid_authority(
            authority@,
        )),
        r matches Ok(b) ==> {
            &&& b.client == client
            &&& b.authority@ == authority@
            &&& b.authority.wf()
            &&& (b.scheme == Scheme::Http <==> scheme@ == "http"@)
            &&& (b.scheme == Scheme::Https <==> scheme@ == "https"@)
        },
{
    let parsed_scheme = match Scheme::parse(scheme) {
        Some(s) => s,
        None => {
            return Err(ConstructionError::BadScheme);
        },
    };
    let parsed_authority = match Authority::parse(authority) {
        Some(a) => a,
        None => {
            return Err(ConstructionError::BadAuthority);
        },
    };
    Ok(Builder { client: Arc::new(client), scheme: parsed_scheme, authority: parsed_authority })
}

impl<Cl> Builder<Cl> {
    /// A copy of this builder, equal to the original: same shared client —
    /// shared, not duplicated — and same target.
    pub fn dup(&self) -> (r: Builder<Cl>)
        ensures
            r == *self,
    {
        Builder {
            client: share(&self.client),
            scheme: self.scheme,
            authority: self.authority.dup(),
        }
    }

    /// Builds one forwarder with its own policy.  The builder itself is
    /// untouched — it can build any number of forwarders — and the new
    /// forwarder shares this builder's client and target.
    pub fn build<Pr>(&self, path: Pr) -> (r: ReusedService<Pr, Cl>)
        ensures
            built_from(r, *self),
            r.path == path,
    {
        ReusedService {
            client: share(&self.client),
            scheme: self.scheme,
            authority: self.authority.dup(),
            path,
        }
    }
}

/// Forwarders built from one builder, however many, agree on the client and
/// on the target: building duplicates no client state, and each forwarder's
/// behaviour differs only through its own policy.
pub proof fn lemma_builds_share_client<Pr, Cl>(
    b: Builder<Cl>,
    s1: ReusedService<Pr, Cl>,
    s2: ReusedService<Pr, Cl>,
)
    requires
        built_from(s1, b),
        built_from(s2, b),
    ensures
        s1.client == s2.client,
        s1.scheme == s2.scheme,
        s1.authority == s2.authority,
{
}

impl<Pr, Cl> ReusedService<Pr, Cl> {
    /// Builds a forwarder directly from an already shared client.  The two
    /// target strings are validated here, exactly once; construction
    /// succeeds if and only if both are valid.
    pub fn from(client: Arc<Cl>, scheme: &str, authority: &str, path: Pr) -> (r: Result<
        Self,
        ConstructionError,
    >)
        ensures
            (r matches Err(e) && e == ConstructionError::BadScheme) <==> !(scheme@ == "http"@
                || scheme@ == "https"@),
            (r matches Err(e) && e == ConstructionError::BadAuthority) <==> ((scheme@ == "http"@
                || scheme@ == "https"@) && !is_valid_authority(authority@)),
            r is Ok <==> ((scheme@ == "http"@ || scheme@ == "https"@) && is_valid_authority(
                authority@,
            )),
            r matches Ok(s) ==> {
                &&& s.client == client
                &&& s.path == path
                &&& s.authority@ == authority@
                &&& s.authority.wf()
                &&& (s.scheme == Scheme::Http <==> scheme@ == "http"@)
                &&& (s.scheme == Scheme::Https <==> scheme@ == "https"@)
            },
    {
        let parsed_scheme = match Scheme::parse(scheme) {
            Some(s) => s,
            None => {
                return Err(ConstructionError::BadScheme);
            },
        };
        let parsed_authority = match Authority::parse(authority) {
            Some(a) => a,
            None => {
                return Err(ConstructionError::BadAuthority);
            },
        };
        Ok(ReusedService { client, scheme: parsed_scheme, authority: parsed_authority, path })
    }

    /// Builds a forwarder for a plain-`http` target from a shared client.
    /// Succeeds if and only if the authority string is valid.
    pub fn with_http_client(client: Arc<Cl>, authority: &str, path: Pr) -> (r: Result<
        Self,
        ConstructionError,
    >)
        ensures
            r is Ok <==> is_valid_authority(authority@),
            r matches Err(e) ==> e == ConstructionError::BadAuthority,
            r matches Ok(s) ==> {
                &&& s.client == client
                &&& s.path == path
                &&& s.authority@ == authority@
                &&& s.authority.wf()
                &&& s.scheme == Scheme::Http
            },
    {
        match Authority::parse(authority) {
            Some(a) => Ok(ReusedService { client, scheme: Scheme::Http, authority: a, path }),
            None => Err(ConstructionError::BadAuthority),
        }
    }

    /// Builds a forwarder for an `https` target from a shared client.
    /// Succeeds if and only if the authority string is valid.
    pub fn with_https_client(client: Arc<Cl>, authority: &str, path: Pr) -> (r: Result<
        Self,
        ConstructionError,
    >)
        ensures
            r is Ok <==> is_valid_authority(authority@),
            r matches Err(e) ==> e == ConstructionError::BadAuthority,
            r matches Ok(s) ==> {
                &&& s.client == client
                &&& s.path == path
                &&& s.authority@ == authority@
                &&& s.authority.wf()
                &&& s.scheme == Scheme::Https
            },
    {
        match Authority::parse(authority) {
            Some(a) => Ok(ReusedService { client, scheme: Scheme::Https, authority: a, path }),
            None => Err(ConstructionError::BadAuthority),
        }
    }
}

impl<Pr: PathRewriter, Cl> ReusedService<Pr, Cl> {
    /// Forwards one inbound request: assembles the outbound request under
    /// this forwarder's target and its own policy, per
    /// [`crate::forward::forwarded`].  The shared client and the target are
    /// untouched; only this forwarder's policy state advances, and only
    /// when the policy ran — forwarders sharing the client never observe
    /// another forwarder's policy.
    pub fn call<B>(&mut self, req: ProxyRequest<B>) -> (r: Result<OutboundRequest<B>, UriFault>)
        ensures
            final(self).client == old(self).client,
            final(self).scheme == old(self).scheme,
            final(self).authority == old(self).authority,
            forwarded(
                old(self).path,
                final(self).path,
                old(self).scheme,
                old(self).authority,
                req,
                r,
            ),
    {
        forward(&mut self.path, self.scheme, &self.authority, req)
    }
}

} // verus!
