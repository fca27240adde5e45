//! Request-forwarding core of a reverse proxy.
//!
//! A forwarder rewrites the target of an inbound HTTP request — scheme,
//! authority, path and query — under a pluggable rewrite policy, and hands the
//! rewritten request to an externally supplied asynchronous client.  The
//! client's eventual outcome is adapted by a small state machine,
//! [`future::PendingCall`], that resolves exactly once.
//!
//! Two assemblies are provided: [`oneshot::OneshotService`], which owns its
//! client exclusively, and [`reused::ReusedService`], where many forwarders
//! built from one [`reused::Builder`] share a single client.

pub mod error;
pub mod forward;
pub mod future;
pub mod oneshot;
pub mod request;
pub mod rewrite;
pub mod reused;
pub mod target;

pub use error::{ConstructionError, ProxyError, UriFault};
pub use forward::{forward, forwarded};
pub use future::{Activation, PendingCall};
pub use oneshot::OneshotService;
pub use request::{HeaderField, OutboundRequest, ProxyRequest};
pub use rewrite::{Identity, PathRewriter, Reject, ReplacePrefix, RewriteError, Static};
pub use reused::{builder, built_from, Builder, ReusedService};
pub use target::{Authority, Scheme};
