//! The backend target of a forwarder: a validated scheme and authority.
//!
//! Both are validated exactly once, when a builder or service is
//! constructed, and never re-validated per request.

use vstd::prelude::*;

verus! {

/// Protocol identifier for the backend target.
#[derive(Debug, Clone, Copy, PartialEq, Eq, Structural)]
pub enum Scheme {
    Http,
    Https,
}

/// Whether a string is a valid `host[:port]` authority.  The grammar is the
/// one enforced by `http::uri::Authority`; see [`authority_accepts`].
pub uninterp spec fn is_valid_authority(s: Seq<char>) -> bool;

/// Relies on `<&str as PartialEq>::eq`: true exactly when the two strings
/// hold the same characters.
#[verifier::external_body]
pub(crate) fn str_eq(a: &str, b: &str) -> (r: bool)
    ensures
        r == (a@ == b@),
{
    a == b
}

/// Relies on `http::uri::Authority::try_from(&str)`: it returns `Ok` exactly
/// on the strings that parse as a `host[:port]` authority, which is what
/// `is_valid_authority` names.
#[verifier::external_body]
fn authority_accepts(s: &str) -> (r: bool)
    ensures
        r == is_valid_authority(s@),
{
    http::uri::Authority::try_from(s).is_ok()
}

impl Scheme {
    /// Parses `"http"` or `"https"`; every other string is rejected.
    pub fn parse(s: &str) -> (r: Option<Scheme>)
        ensures
            r == Some(Scheme::Http) <==> s@ == "http"@,
            r == Some(Scheme::Https) <==> s@ == "https"@,
            r is Some <==> (s@ == "http"@ || s@ == "https"@),
    {
        proof {
            reveal_strlit("http");
            reveal_strlit("https");
            assert("http"@.len() != "https"@.len());
        }
        if str_eq(s, "http") {
            Some(Scheme::Http)
        } else if str_eq(s, "https") {
            Some(Scheme::Https)
        } else {
            None
        }
    }
}

/// A validated `host[:port]` value identifying the backend.  Immutable once
/// built; the only constructor is [`Authority::parse`], so every value of
/// this type satisfies [`Authority::wf`].
#[derive(Debug)]
pub struct Authority {
    text: String,
}

impl View for Authority {
    type V = Seq<char>;

    closed spec fn view(&self) -> Seq<char> {
        self.text@
    }
}

impl Authority {
    /// Every authority value in circulation holds a valid string: this is a
    /// type invariant, established by [`Authority::parse`] and never given
    /// up — validation happens exactly once.
    #[verifier::type_invariant]
    pub closed spec fn wf(&self) -> bool {
        is_valid_authority(self.text@)
    }

    /// Validates and takes ownership of an authority string.  Succeeds
    /// exactly on valid `host[:port]` strings.
    pub fn parse(s: &str) -> (r: Option<Authority>)
        ensures
            r is Some <==> is_valid_authority(s@),
            r matches Some(a) ==> a@ == s@ && a.wf(),
    {
        if authority_accepts(s) {
            Some(Authority { text: s.to_owned() })
        } else {
            None
        }
    }

    /// A copy of this authority, equal to the original.
    pub fn dup(&self) -> (r: Authority)
        ensures
            r == *self,
    {
        proof {
            use_type_invariant(self);
        }
        Authority { text: self.text.clone() }
    }

    /// The authority as a string, for building the outbound URI.
    pub fn as_str(&self) -> (r: &str)
        ensures
            r@ == self@,
    {
        self.text.as_str()
    }
}

} // verus!
