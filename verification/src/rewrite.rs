//! The rewrite-policy contract, and a policy that maps every path to one
//! fixed path.
//!
//! A policy transforms the path and query of the outbound request; scheme
//! and authority stay authoritative to the forwarder, which overwrites them
//! after the policy has run, whatever the policy did.  A policy must not
//! perform I/O; a stateful policy gets exclusive access for the length of
//! one invocation, and is cloned — not shared — to be used concurrently.

use vstd::prelude::*;
use vstd::string::{StrSliceExecFns, StringExecFns};

use crate::target::{str_eq, Authority, Scheme};

verus! {

/// A policy's report that the rewritten URI cannot be constructed.
#[derive(Debug, Clone, Copy, PartialEq, Eq, Structural)]
pub struct RewriteError;

/// A pluggable transform of the outbound path and query.
///
/// An implementation states its behaviour with two specification functions:
/// `post` gives the policy state after one invocation, and `out` what the
/// invocation produces — `None` when the policy rejects the request.  Both
/// may depend on the inbound path and query and on the forwarder's target;
/// `rewrite` must behave as they say.
pub trait PathRewriter: Sized {
    /// The policy state after rewriting `paq` against the given target.
    spec fn post(&self, paq: Seq<char>, scheme: Scheme, authority: Seq<char>) -> Self;

    /// What rewriting `paq` against the given target produces.
    spec fn out(&self, paq: Seq<char>, scheme: Scheme, authority: Seq<char>) -> Option<
        Seq<char>,
    >;

    /// Rewrites the path and query in place.  May read the target but not
    /// set it: the forwarder overwrites scheme and authority afterwards
    /// regardless.
    fn rewrite(&mut self, paq: &mut String, scheme: &Scheme, authority: &Authority) -> (r: Result<
        (),
        RewriteError,
    >)
        ensures
            *final(self) == old(self).post(old(paq)@, *scheme, authority@),
            r is Ok <==> old(self).out(old(paq)@, *scheme, authority@) is Some,
            r is Ok ==> final(paq)@ == old(self).out(old(paq)@, *scheme, authority@)->Some_0,
    ;
}

/// A policy that maps every inbound path and query to one fixed path.
#[derive(Debug)]
pub struct Static {
    pub path: String,
}

impl Static {
    /// A policy that always produces `path`.
    pub fn new(path: String) -> (r: Static)
        ensures
            r.path == path,
    {
        Static { path }
    }
}

impl PathRewriter for Static {
    open spec fn post(&self, paq: Seq<char>, scheme: Scheme, authority: Seq<char>) -> Static {
        *self
    }

    open spec fn out(&self, paq: Seq<char>, scheme: Scheme, authority: Seq<char>) -> Option<
        Seq<char>,
    > {
        Some(self.path@)
    }

    fn rewrite(&mut self, paq: &mut String, scheme: &Scheme, authority: &Authority) -> (r: Result<
        (),
        RewriteError,
    >) {
        let replacement = self.path.clone();
        *paq = replacement;
        Ok(())
    }
}

/// A policy that replaces one leading prefix of the path and query: a path
/// starting with `from` continues with `to` in its place, and any other
/// path is forwarded unchanged.
#[derive(Debug)]
pub struct ReplacePrefix {
    pub from: String,
    pub to: String,
}

impl ReplacePrefix {
    /// A policy that turns every leading `from` into `to`.
    pub fn new(from: String, to: String) -> (r: ReplacePrefix)
        ensures
            r.from == from,
            r.to == to,
    {
        ReplacePrefix { from, to }
    }
}

impl PathRewriter for ReplacePrefix {
    open spec fn post(&self, paq: Seq<char>, scheme: Scheme, authority: Seq<char>) -> ReplacePrefix {
        *self
    }

    open spec fn out(&self, paq: Seq<char>, scheme: Scheme, authority: Seq<char>) -> Option<
        Seq<char>,
    > {
        if self.from@.len() <= paq.len() && paq.subrange(0, self.from@.len() as int)
            == self.from@ {
            Some(self.to@ + paq.skip(self.from@.len() as int))
        } else {
            Some(paq)
        }
    }

    fn rewrite(&mut self, paq: &mut String, scheme: &Scheme, authority: &Authority) -> (r: Result<
        (),
        RewriteError,
    >) {
        let prefix_len = self.from.as_str().unicode_len();
        let paq_len = paq.as_str().unicode_len();
        if prefix_len <= paq_len {
            let head = paq.as_str().substring_char(0, prefix_len);
            if str_eq(head, self.from.as_str()) {
                let tail = paq.as_str().substring_char(prefix_len, paq_len);
                proof {
                    assert(tail@ =~= old(paq)@.skip(self.from@.len() as int));
                }
                let replaced = self.to.clone().concat(tail);
                *paq = replaced;
            }
        }
        Ok(())
    }
}

/// A policy that rejects every request: each forwarded call resolves to an
/// `InvalidUri` fault without the client ever being invoked.
#[derive(Debug, Clone, Copy, PartialEq, Eq, Structural)]
pub struct Reject;

impl PathRewriter for Reject {
    open spec fn post(&self, paq: Seq<char>, scheme: Scheme, authority: Seq<char>) -> Reject {
        *self
    }

    open spec fn out(&self, paq: Seq<char>, scheme: Scheme, authority: Seq<char>) -> Option<
        Seq<char>,
    > {
        None
    }

    fn rewrite(&mut self, paq: &mut String, scheme: &Scheme, authority: &Authority) -> (r: Result<
        (),
        RewriteError,
    >) {
        Err(RewriteError)
    }
}

/// A policy that forwards the inbound path and query unchanged.
#[derive(Debug, Clone, Copy, PartialEq, Eq, Structural)]
pub struct Identity;

impl PathRewriter for Identity {
    open spec fn post(&self, paq: Seq<char>, scheme: Scheme, authority: Seq<char>) -> Identity {
        *self
    }

    open spec fn out(&self, paq: Seq<char>, scheme: Scheme, authority: Seq<char>) -> Option<
        Seq<char>,
    > {
        Some(paq)
    }

    fn rewrite(&mut self, paq: &mut String, scheme: &Scheme, authority: &Authority) -> (r: Result<
        (),
        RewriteError,
    >) {
        Ok(())
    }
}

} // verus!
