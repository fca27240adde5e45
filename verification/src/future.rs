//! The asynchronous response adapter: a state machine around one in-flight
//! forwarded call.
//!
//! A [`PendingCall`] either delegates to the client's own in-flight call
//! handle, or carries an error captured before the client was ever touched.
//! It resolves exactly once.  The caller's scheduling loop drives it:
//! [`PendingCall::activate`] consumes the machine and hands out either the
//! live delegate — to be polled by the caller, and handed back through
//! [`PendingCall::delegated`] while it is not ready — or the captured
//! fault.  Once an outcome has been reported, the machine is [`PendingCall::spent`];
//! activating a spent machine is a programming error and traps, it never
//! silently repeats a result.

use vstd::pervasive::unreached;
use vstd::prelude::*;

use crate::error::{ProxyError, UriFault};

verus! {

/// One in-flight forwarded call.  `H` is the client's native handle for an
/// in-flight request; it is held, never inspected.
pub enum PendingCall<H> {
    /// The request was dispatched; the client's handle decides the outcome.
    Delegated(H),
    /// Assembly or rewrite failed before dispatch; the fault is surfaced on
    /// first resolution without ever touching the client.
    Failing(UriFault),
    /// The call has resolved; there is nothing left to report.
    Spent,
}

/// What one resolution attempt works on: the live delegate, or the fault
/// captured at construction.
pub enum Activation<H> {
    Live(H),
    Captured(UriFault),
}

impl<H> PendingCall<H> {
    /// Wraps the client's handle for a dispatched request.
    pub fn delegated(h: H) -> (r: Self)
        ensures
            r == PendingCall::Delegated(h),
    {
        PendingCall::Delegated(h)
    }

    /// Captures a pre-dispatch fault, to be surfaced on first resolution.
    pub fn failing(f: UriFault) -> (r: Self)
        ensures
            r == PendingCall::<H>::Failing(f),
    {
        PendingCall::Failing(f)
    }

    /// A machine whose outcome has already been reported.
    pub fn spent() -> (r: Self)
        ensures
            r == PendingCall::<H>::Spent,
    {
        PendingCall::Spent
    }

    /// The forwarder's last step: opens the pending call for one forwarded
    /// request, wrapping the dispatched handle on the success path and
    /// carrying the captured fault otherwise.  Opening never blocks and
    /// never fails: a fault is deferred into the first resolution.
    pub fn open(outcome: Result<H, UriFault>) -> (r: Self)
        ensures
            outcome matches Ok(h) ==> r == PendingCall::Delegated(h),
            outcome matches Err(f) ==> r == PendingCall::<H>::Failing(f),
    {
        match outcome {
            Ok(h) => PendingCall::Delegated(h),
            Err(f) => PendingCall::Failing(f),
        }
    }

    /// Whether the outcome has already been reported.
    pub fn is_spent(&self) -> (r: bool)
        ensures
            r == (*self is Spent),
    {
        match self {
            PendingCall::Spent => true,
            _ => false,
        }
    }

    /// Begins one resolution attempt.  Consuming the machine is what makes
    /// resolution exactly-once: a machine that was activated is gone, and a
    /// spent machine may not be activated at all — on a spent machine this
    /// is a programming error and traps rather than repeat a stale result.
    pub fn activate(self) -> (r: Activation<H>)
        requires
            !(self is Spent),
        ensures
            self matches PendingCall::Delegated(h) ==> r == Activation::Live(h),
            self matches PendingCall::Failing(f) ==> r == Activation::<H>::Captured(f),
    {
        match self {
            PendingCall::Delegated(h) => Activation::Live(h),
            PendingCall::Failing(f) => Activation::Captured(f),
            PendingCall::Spent => unreached(),
        }
    }
}

/// The final value of a call whose dispatch reached the client: a successful
/// response passes through untouched, and a transport-level failure is
/// wrapped as `RequestFailed` without losing information.
pub fn resolve_dispatched<R, E>(outcome: Result<R, E>) -> (r: Result<R, ProxyError<E>>)
    ensures
        outcome matches Ok(resp) ==> r == Ok::<R, ProxyError<E>>(resp),
        outcome matches Err(e) ==> r == Err::<R, ProxyError<E>>(ProxyError::RequestFailed(e)),
{
    match outcome {
        Ok(resp) => Ok(resp),
        Err(e) => Err(ProxyError::RequestFailed(e)),
    }
}

/// The final value of a call whose fault was captured before dispatch.
pub fn resolve_captured<R, E>(f: UriFault) -> (r: Result<R, ProxyError<E>>)
    ensures
        r == Err::<R, ProxyError<E>>(ProxyError::InvalidUri(f)),
{
    Err(ProxyError::InvalidUri(f))
}

} // verus!
