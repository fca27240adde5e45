//! Assembly of one outbound request: preserve the inbound request verbatim,
//! run the rewrite policy on its path and query, then set scheme and
//! authority to the forwarder's configured target, unconditionally.

use vstd::prelude::*;

use crate::error::UriFault;
use crate::request::{
    assembly_ok, check_headers, headers_ok, is_valid_method, is_valid_path_and_query,
    method_accepts, path_and_query_accepts, OutboundRequest, ProxyRequest,
};
use crate::rewrite::{PathRewriter, Static};
use crate::target::{Authority, Scheme};

verus! {

/// The complete relation between one inbound request and the outcome of
/// forwarding it against the target `(scheme, authority)` under a policy
/// with pre-state `path_pre` and post-state `path_post`:
///
/// - an unacceptable method or header is the matching fault, and the policy
///   is not even invoked;
/// - otherwise the policy runs once, and a rejection by the policy, or a
///   produced path and query that is no valid URI component, is the
///   matching fault;
/// - otherwise the outbound request carries the configured scheme and
///   authority — whatever the policy did — the produced path and query, and
///   the inbound method, headers and body verbatim.
pub open spec fn forwarded<Pr: PathRewriter, B>(
    path_pre: Pr,
    path_post: Pr,
    scheme: Scheme,
    authority: Authority,
    req: ProxyRequest<B>,
    r: Result<OutboundRequest<B>, UriFault>,
) -> bool {
    &&& (!assembly_ok(req) ==> path_post == path_pre)
    &&& (assembly_ok(req) ==> path_post == path_pre.post(req.path_and_query@, scheme, authority@))
    &&& ((r == Err::<OutboundRequest<B>, UriFault>(UriFault::BadMethod)) <==> !is_valid_method(
        req.method@,
    ))
    &&& ((r == Err::<OutboundRequest<B>, UriFault>(UriFault::BadHeader)) <==> (is_valid_method(
        req.method@,
    ) && !headers_ok(req.headers@)))
    &&& (assembly_ok(req) ==> {
        let out = path_pre.out(req.path_and_query@, scheme, authority@);
        &&& ((r == Err::<OutboundRequest<B>, UriFault>(UriFault::PolicyRejected)) <==> out
            is None)
        &&& ((r == Err::<OutboundRequest<B>, UriFault>(UriFault::BadPathAndQuery)) <==> (out
            is Some && !is_valid_path_and_query(out->Some_0)))
        &&& ((out is Some && is_valid_path_and_query(out->Some_0)) <==> r is Ok)
        &&& (r matches Ok(o) ==> {
            &&& o.scheme == scheme
            &&& o.authority == authority
            &&& o.method == req.method
            &&& o.headers == req.headers
            &&& o.body == req.body
            &&& o.path_and_query@ == out->Some_0
        })
    })
}

/// Builds the outbound request for one inbound request against the target
/// `(scheme, authority)`, under the policy `path`.
///
/// Method, headers and body are preserved verbatim; the body is moved, not
/// copied.  If the method or a header is unacceptable the policy is not
/// invoked at all and the matching fault is reported.  Otherwise the policy
/// rewrites the path and query; the outbound scheme and authority are the
/// configured ones whatever the policy did.  Every fault is reported in the
/// result — never by panicking — and [`forwarded`] pins the exact outcome
/// for every input.
pub fn forward<Pr: PathRewriter, B>(
    path: &mut Pr,
    scheme: Scheme,
    authority: &Authority,
    req: ProxyRequest<B>,
) -> (r: Result<OutboundRequest<B>, UriFault>)
    ensures
        forwarded(*old(path), *final(path), scheme, *authority, req, r),
{
    let ProxyRequest { method, headers, path_and_query, body } = req;
    if !method_accepts(method.as_str()) {
        return Err(UriFault::BadMethod);
    }
    if !check_headers(&headers) {
        return Err(UriFault::BadHeader);
    }
    let mut paq = path_and_query;
    match path.rewrite(&mut paq, &scheme, authority) {
        Err(_) => Err(UriFault::PolicyRejected),
        Ok(()) => {
            if !path_and_query_accepts(paq.as_str()) {
                Err(UriFault::BadPathAndQuery)
            } else {
                Ok(
                    OutboundRequest {
                        scheme,
                        authority: authority.dup(),
                        method,
                        headers,
                        path_and_query: paq,
                        body,
                    },
                )
            }
        },
    }
}

/// Whatever the policy, a forwarded request that produced an outbound
/// request kept the inbound method, header list and body verbatim — the
/// headers in their original order — and carries the forwarder's configured
/// scheme and authority, not anything the policy chose.
pub proof fn lemma_forward_preserves_request<Pr: PathRewriter, B>(
    path_pre: Pr,
    path_post: Pr,
    scheme: Scheme,
    authority: Authority,
    req: ProxyRequest<B>,
    r: Result<OutboundRequest<B>, UriFault>,
)
    ensures
        forwarded(path_pre, path_post, scheme, authority, req, r) ==> (r matches Ok(o) ==> {
            &&& o.method == req.method
            &&& o.headers == req.headers
            &&& o.body == req.body
            &&& o.scheme == scheme
            &&& o.authority == authority
        }),
{
}

/// Under a policy that maps every path to one fixed path, every inbound
/// request whose assembly is acceptable is forwarded — provided the fixed
/// path is a valid URI component — and the outbound path and query equal
/// that fixed path exactly.
pub proof fn lemma_static_fixed_path<B>(
    path_pre: Static,
    path_post: Static,
    scheme: Scheme,
    authority: Authority,
    req: ProxyRequest<B>,
    r: Result<OutboundRequest<B>, UriFault>,
)
    ensures
        forwarded(path_pre, path_post, scheme, authority, req, r) ==> {
            &&& (r matches Ok(o) ==> o.path_and_query@ == path_pre.path@)
            &&& ((assembly_ok(req) && is_valid_path_and_query(path_pre.path@)) ==> r is Ok)
            &&& path_post == path_pre
        },
{
}

/// A policy that rejects a request, or produces a path and query that form
/// no valid URI component, yields exactly the matching assembly fault — the
/// call never reaches a dispatch.
pub proof fn lemma_rewrite_fault_is_reported<Pr: PathRewriter, B>(
    path_pre: Pr,
    path_post: Pr,
    scheme: Scheme,
    authority: Authority,
    req: ProxyRequest<B>,
    r: Result<OutboundRequest<B>, UriFault>,
)
    ensures
        (forwarded(path_pre, path_post, scheme, authority, req, r) && assembly_ok(req)) ==> {
            let out = path_pre.out(req.path_and_query@, scheme, authority@);
            &&& (out is None ==> r == Err::<OutboundRequest<B>, UriFault>(
                UriFault::PolicyRejected,
            ))
            &&& ((out matches Some(paq) && !is_valid_path_and_query(paq)) ==> r == Err::<
                OutboundRequest<B>,
                UriFault,
            >(UriFault::BadPathAndQuery))
        },
{
}

} // verus!
