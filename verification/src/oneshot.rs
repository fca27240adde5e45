//! A forwarder that exclusively owns its client.

use vstd::prelude::*;

use crate::error::{ConstructionError, UriFault};
use crate::forward::{forward, forwarded};
use crate::request::{OutboundRequest, ProxyRequest};
use crate::rewrite::PathRewriter;
use crate::target::{is_valid_authority, Authority, Scheme};

verus! {

/// A forwarder owning one client `Cl` exclusively, bound to one validated
/// target and one rewrite policy.  The client value is held for the
/// caller's dispatch step; this type never inspects it.
#[derive(Debug)]
pub struct OneshotService<Pr, Cl> {
    pub client: Cl,
    pub scheme: Scheme,
    pub authority: Authority,
    pub path: Pr,
}

impl<Pr, Cl> OneshotService<Pr, Cl> {
    /// Builds a forwarder from a client, a scheme string, an authority
    /// string and a policy.  The two strings are validated here, exactly
    /// once; construction succeeds if and only if both are valid, and names
    /// the first invalid one otherwise.
    pub fn from(client: Cl, scheme: &str, authority: &str, path: Pr) -> (r: Result<
        Self,
        ConstructionError,
    >)
        ensures
            (r matches Err(e) && e == ConstructionError::BadScheme) <==> !(scheme@ == "http"@
                || scheme@ == "https"@),
            (r matches Err(e) && e == ConstructionError::BadAuthority) <==> ((scheme@ == "http"@
                || scheme@ == "https"@) && !is_valid_authority(authority@)),
            r is Ok <==> ((scheme@ == "http"@ || scheme@ == "https"@) && is_valid_authority(
                authority@,
            )),
            r matches Ok(s) ==> {
                &&& s.client == client
                &&& s.path == path
                &&& s.authority@ == authority@
                &&& s.authority.wf()
                &&& (s.scheme == Scheme::Http <==> scheme@ == "http"@)
                &&& (s.scheme == Scheme::Https <==> scheme@ == "https"@)
            },
    {
        let parsed_scheme = match Scheme::parse(scheme) {
            Some(s) => s,
            None => {
                return Err(ConstructionError::BadScheme);
            },
        };
        let parsed_authority = match Authority::parse(authority) {
            Some(a) => a,
            None => {
                return Err(ConstructionError::BadAuthority);
            },
        };
        Ok(OneshotService { client, scheme: parsed_scheme, authority: parsed_authority, path })
    }

    /// Builds a forwarder for a plain-`http` target.  Succeeds if and only
    /// if the authority string is valid.
    pub fn http_from(client: Cl, authority: &str, path: Pr) -> (r: Result<
        Self,
        ConstructionError,
    >)
        ensures
            r is Ok <==> is_valid_authority(authority@),
            r matches Err(e) ==> e == ConstructionError::BadAuthority,
            r matches Ok(s) ==> {
                &&& s.client == client
                &&& s.path == path
                &&& s.authority@ == authority@
                &&& s.authority.wf()
                &&& s.scheme == Scheme::Http
            },
    {
        match Authority::parse(authority) {
            Some(a) => Ok(
                OneshotService { client, scheme: Scheme::Http, authority: a, path },
            ),
            None => Err(ConstructionError::BadAuthority),
        }
    }

    /// Builds a forwarder for an `https` target.  Succeeds if and only if
    /// the authority string is valid.
    pub fn https_from(client: Cl, authority: &str, path: Pr) -> (r: Result<
        Self,
        ConstructionError,
    >)
        ensures
            r is Ok <==> is_valid_authority(authority@),
            r matches Err(e) ==> e == ConstructionError::BadAuthority,
            r matches Ok(s) ==> {
                &&& s.client == client
                &&& s.path == path
                &&& s.authority@ == authority@
                &&& s.authority.wf()
                &&& s.scheme == Scheme::Https
            },
    {
        match Authority::parse(authority) {
            Some(a) => Ok(
                OneshotService { client, scheme: Scheme::Https, authority: a, path },
            ),
            None => Err(ConstructionError::BadAuthority),
        }
    }
}

impl<Pr: PathRewriter, Cl> OneshotService<Pr, Cl> {
    /// Forwards one inbound request: assembles the outbound request under
    /// this forwarder's target and policy, per [`forwarded`].  The
    /// forwarder is immediately ready for the next request; only the policy
    /// state advances, and only when the policy ran.
    pub fn call<B>(&mut self, req: ProxyRequest<B>) -> (r: Result<OutboundRequest<B>, UriFault>)
        ensures
            final(self).client == old(self).client,
            final(self).scheme == old(self).scheme,
            final(self).authority == old(self).authority,
            forwarded(
                old(self).path,
                final(self).path,
                old(self).scheme,
                old(self).authority,
                req,
                r,
            ),
    {
        forward(&mut self.path, self.scheme, &self.authority, req)
    }
}

} // verus!
