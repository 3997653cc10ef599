//! What the offline store writes: the storage keys and the records kept
//! under them.

use vstd::prelude::*;
use crate::models::sync::{Change, PendingChangesQueue, clone_changes};

verus! {

/// Storage key of the saved session.
pub const SESSION_STORAGE_KEY: &'static str = "delivery_session";

/// Storage key of the queue of pending changes.
pub const QUEUE_STORAGE_KEY: &'static str = "pending_changes_queue";

/// Storage key of the administrator's credentials.
pub const ADMIN_CREDENTIALS_KEY: &'static str = "admin_credentials";

/// Settings of the offline store. The browser's local storage is used;
/// IndexedDB is not implemented.
#[derive(Clone)]
pub struct OfflineService {
    pub use_indexeddb: bool,
}

impl OfflineService {
    /// The store, on local storage.
    pub fn new() -> (s: Self)
        ensures
            !s.use_indexeddb,
    {
        OfflineService { use_indexeddb: false }
    }

    /// The record that saving `changes` writes under the queue key: a fresh
    /// queue of those changes, not yet retried.
    pub fn save_pending_changes(&self, changes: &[Change]) -> (q: PendingChangesQueue)
        ensures
            q.changes@ == changes@,
            q.retry_count == 0,
    {
        let mut v: Vec<Change> = Vec::new();
        let mut i: usize = 0;
        while i < changes.len()
            invariant
                i <= changes@.len(),
                v@ == changes@.subrange(0, i as int),
            decreases changes@.len() - i,
        {
            v.push(changes[i].duplicate());
            i += 1;
            assert(v@ =~= changes@.subrange(0, i as int));
        }
        assert(changes@.subrange(0, changes@.len() as int) =~= changes@);
        PendingChangesQueue::new(v)
    }
}

/// The queue after `change` is added to what was loaded: the loaded queue's
/// changes followed by `change`, as a fresh queue; just `change` when
/// nothing (or nothing readable) was stored.
pub fn queue_with_change(loaded: &Result<Option<PendingChangesQueue>, String>, change: Change) -> (q: PendingChangesQueue)
    ensures
        q.retry_count == 0,
        q.changes@ == match loaded {
            Ok(Some(old)) => old.changes@.push(change),
            _ => seq![change],
        },
{
    match loaded {
        Ok(Some(old)) => {
            let mut changes = clone_changes(&old.changes);
            changes.push(change);
            PendingChangesQueue::new(changes)
        },
        _ => {
            let mut changes: Vec<Change> = Vec::new();
            changes.push(change);
            assert(changes@ =~= seq![change]);
            PendingChangesQueue::new(changes)
        },
    }
}

} // verus!
