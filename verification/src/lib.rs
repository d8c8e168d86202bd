//! Reconciliation core for a ZooKeeper cluster operator.
//!
//! The library holds the verified decision logic of the controller: the
//! finalizer lifecycle state machine, the pure computation of the desired
//! child pods, the per-reconcile action sequence, and the error policy.
//! Network plumbing (the Kubernetes client, serialization, metric
//! exposition) lives outside the library and drives it through plain values.
use vstd::prelude::*;

pub mod apply;
pub mod children;
pub mod finalizer;
pub mod names;
pub mod reconcile;
pub mod store;
pub mod types;

verus! {

/// Seconds until the next reconcile after a fully successful pass.
pub const REQUEUE_SUCCESS_SECS: u64 = 1800;

/// Seconds until the retry after a failed pass.
pub const REQUEUE_ERROR_SECS: u64 = 360;

/// Everything that can go wrong during one reconcile pass.
///
/// Backend failures are observed outside the library (the patch and apply
/// calls are network I/O); the driver reports them with these values so the
/// error policy can turn them into a retry directive.
#[derive(Debug)]
pub enum Error {
    /// The resource carries data the controller cannot work with.
    ZooKeeperClusterIsBad { info: String },
    /// A patch of the cluster resource (metadata or status) failed.
    ZooKeeperClusterPatchFailed,
    /// Encoding a desired specification for the wire failed.
    SerializationFailed,
    /// A server-side apply of a child pod failed.
    PodPatchFailed,
    /// A required identity field was absent from an observed object.
    MissingObjectKey { name: String },
}

/// The scheduling directive handed back to the delivery mechanism:
/// requeue after the given number of seconds, or wait for the next
/// watch event.
#[derive(Clone, Copy, Debug, PartialEq, Eq, Structural)]
pub struct ReconcilerAction {
    pub requeue_after: Option<u64>,
}

/// Maps a failed reconcile to a retry directive: every error is retried
/// after the same fixed backoff, none is fatal.
pub fn error_policy(_error: &Error) -> (r: ReconcilerAction)
    ensures
        r.requeue_after == Some(REQUEUE_ERROR_SECS),
{
    ReconcilerAction { requeue_after: Some(REQUEUE_ERROR_SECS) }
}

} // verus!
