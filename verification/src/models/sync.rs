//! Offline changes, the queue that keeps them until they reach the backend,
//! and the outcomes of a synchronisation.

use vstd::prelude::*;
use crate::models::session::DeliverySession;

verus! {

/// A change made on the device that the backend has not seen yet.
#[derive(Clone, Debug)]
pub enum Change {
    PackageScanned { tracking: String, new_status: String, timestamp: i64 },
    OrderChanged { package_internal_id: String, old_position: usize, new_position: usize, timestamp: i64 },
}

/// Where synchronisation stands, as the indicator shows it.
#[derive(Clone, Debug)]
pub enum SyncState {
    Synced,
    Syncing,
    Pending { count: usize },
    Offline { pending_count: usize },
    Error { message: String },
}

/// The changes waiting for the backend and how often sending them failed.
pub struct PendingChangesQueue {
    pub changes: Vec<Change>,
    pub retry_count: u32,
}

impl PendingChangesQueue {
    /// A queue of `changes` that has not been retried.
    pub fn new(changes: Vec<Change>) -> (q: Self)
        ensures
            q.changes@ == changes@,
            q.retry_count == 0,
    {
        PendingChangesQueue { changes, retry_count: 0 }
    }

    /// Counts one more failed attempt (the count stops at `u32::MAX`).
    pub fn increment_retry(&mut self)
        ensures
            final(self).changes@ == old(self).changes@,
            final(self).retry_count == if old(self).retry_count < u32::MAX {
                old(self).retry_count + 1
            } else {
                old(self).retry_count as int
            },
    {
        self.retry_count = self.retry_count.saturating_add(1);
    }

    /// Number of queued changes.
    pub fn len(&self) -> (n: usize)
        ensures
            n == self.changes@.len(),
    {
        self.changes.len()
    }

    /// Whether no change is queued.
    pub fn is_empty(&self) -> (b: bool)
        ensures
            b == (self.changes@.len() == 0),
    {
        self.changes.len() == 0
    }
}

/// What the backend answers to pushed changes.
pub struct SyncResponse {
    pub session: DeliverySession,
    pub changes_applied: usize,
    pub conflicts_resolved: usize,
}

/// The changes pushed to the backend for a session.
pub struct SyncRequest {
    pub session_id: String,
    pub last_sync: i64,
    pub changes: Vec<Change>,
}

/// The outcome of a synchronisation.
pub enum SyncResult {
    Success { session: DeliverySession, changes_applied: usize },
    ConflictResolved { merged_session: DeliverySession, conflicts_count: usize },
    NoChanges,
    Error { message: String, pending_changes: Vec<Change> },
}

/// A copy of a list of changes.
pub fn clone_changes(v: &Vec<Change>) -> (r: Vec<Change>)
    ensures
        r@ == v@,
{
    let mut out: Vec<Change> = Vec::new();
    let mut i: usize = 0;
    while i < v.len()
        invariant
            i <= v@.len(),
            out@ == v@.subrange(0, i as int),
        decreases v@.len() - i,
    {
        out.push(v[i].duplicate());
        i += 1;
        assert(out@ =~= v@.subrange(0, i as int));
    }
    assert(v@.subrange(0, v@.len() as int) =~= v@);
    out
}

impl Change {
    /// A field-for-field copy.
    pub fn duplicate(&self) -> (r: Self)
        ensures
            r == *self,
    {
        match self {
            Change::PackageScanned { tracking, new_status, timestamp } => Change::PackageScanned {
                tracking: tracking.clone(),
                new_status: new_status.clone(),
                timestamp: *timestamp,
            },
            Change::OrderChanged { package_internal_id, old_position, new_position, timestamp } => Change::OrderChanged {
                package_internal_id: package_internal_id.clone(),
                old_position: *old_position,
                new_position: *new_position,
                timestamp: *timestamp,
            },
        }
    }
}

impl SyncState {
    /// A field-for-field copy.
    pub fn duplicate(&self) -> (r: Self)
        ensures
            r == *self,
    {
        match self {
            SyncState::Synced => SyncState::Synced,
            SyncState::Syncing => SyncState::Syncing,
            SyncState::Pending { count } => SyncState::Pending { count: *count },
            SyncState::Offline { pending_count } => SyncState::Offline { pending_count: *pending_count },
            SyncState::Error { message } => SyncState::Error { message: message.clone() },
        }
    }
}

} // verus!
