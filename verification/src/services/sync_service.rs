//! The decisions of a synchronisation with the backend: whether to pull or
//! push, what the backend's answer means, and what becomes of the queue.
//! The caller performs the requests and storage operations in between.

use vstd::prelude::*;
use crate::models::session::DeliverySession;
use crate::models::sync::{Change, PendingChangesQueue, SyncResponse, SyncResult};
use crate::services::api_client::ApiClient;
use crate::services::offline_service::OfflineService;
use crate::utils::constants::BACKEND_URL;

verus! {

/// The first step of a synchronisation.
pub enum SyncAction {
    /// No local change: ask the backend for its copy of the session.
    PullRemote,
    /// Store this queue, then push its changes.
    PushLocal { queue: PendingChangesQueue },
}

/// Synchronisation with the backend.
pub struct SyncService {
    pub backend_url: String,
    pub offline_service: OfflineService,
    pub api_client: ApiClient,
}

impl SyncService {
    /// The service for the configured backend.
    pub fn new() -> (s: Self)
        ensures
            s.backend_url@ == BACKEND_URL@,
            s.api_client.base_url@ == BACKEND_URL@,
            !s.offline_service.use_indexeddb,
    {
        SyncService {
            backend_url: String::from_str(BACKEND_URL),
            offline_service: OfflineService::new(),
            api_client: ApiClient::new(),
        }
    }

    /// Without changes, pull; with changes, store them as a fresh queue and
    /// push them.
    pub fn plan(&self, changes: &Vec<Change>) -> (a: SyncAction)
        ensures
            changes@.len() == 0 <==> a is PullRemote,
            a matches SyncAction::PushLocal { queue } ==> queue.changes@ == changes@ && queue.retry_count == 0,
    {
        if changes.len() == 0 {
            SyncAction::PullRemote
        } else {
            SyncAction::PushLocal { queue: self.offline_service.save_pending_changes(changes.as_slice()) }
        }
    }

    /// The record that saving `changes` writes: a fresh queue of them.
    pub fn save_pending_changes(&self, changes: &[Change]) -> (q: PendingChangesQueue)
        ensures
            q.changes@ == changes@,
            q.retry_count == 0,
    {
        self.offline_service.save_pending_changes(changes)
    }

    /// The outcome of pushing `changes`: conflicts resolved by the backend
    /// give its merged session, else success with the number of changes it
    /// applied; a failed push keeps `changes` pending.
    pub fn push_outcome(&self, response: Result<SyncResponse, String>, changes: Vec<Change>) -> (r: SyncResult)
        ensures
            match response {
                Ok(resp) => if resp.conflicts_resolved > 0 {
                    r == (SyncResult::ConflictResolved { merged_session: resp.session, conflicts_count: resp.conflicts_resolved })
                } else {
                    r == (SyncResult::Success { session: resp.session, changes_applied: resp.changes_applied })
                },
                Err(message) => r == (SyncResult::Error { message, pending_changes: changes }),
            },
    {
        match response {
            Ok(resp) => {
                if resp.conflicts_resolved > 0 {
                    SyncResult::ConflictResolved { merged_session: resp.session, conflicts_count: resp.conflicts_resolved }
                } else {
                    SyncResult::Success { session: resp.session, changes_applied: resp.changes_applied }
                }
            },
            Err(message) => SyncResult::Error { message, pending_changes: changes },
        }
    }

    /// The outcome of pulling the backend's session: newer than the local
    /// one (by last synchronisation time) it replaces it, with no change
    /// counted as applied; otherwise nothing changed. A failed pull is an
    /// error with nothing pending.
    pub fn pull_outcome(&self, fetched: Result<DeliverySession, String>, local_last_sync: i64) -> (r: SyncResult)
        ensures
            match fetched {
                Ok(remote) => if remote.last_sync > local_last_sync {
                    r == (SyncResult::Success { session: remote, changes_applied: 0 })
                } else {
                    r is NoChanges
                },
                Err(message) => r matches SyncResult::Error { message: m, pending_changes } && m == message
                    && pending_changes@.len() == 0,
            },
    {
        match fetched {
            Ok(remote) => {
                if remote.last_sync > local_last_sync {
                    SyncResult::Success { session: remote, changes_applied: 0 }
                } else {
                    SyncResult::NoChanges
                }
            },
            Err(message) => SyncResult::Error { message, pending_changes: Vec::new() },
        }
    }

    /// After a failed push: the stored queue with one more retry counted, to
    /// be stored again; nothing when no queue could be read.
    pub fn after_failed_push(&self, loaded: Result<Option<PendingChangesQueue>, String>) -> (r: Option<PendingChangesQueue>)
        ensures
            match loaded {
                Ok(Some(q)) => r matches Some(q2) && q2.changes@ == q.changes@
                    && q2.retry_count == if q.retry_count < u32::MAX { q.retry_count + 1 } else { q.retry_count as int },
                _ => r is None,
            },
    {
        match loaded {
            Ok(Some(mut q)) => {
                q.increment_retry();
                Some(q)
            },
            _ => None,
        }
    }

    /// Whether the stored queue holds changes; false when none could be
    /// read.
    pub fn has_pending_changes(&self, loaded: &Result<Option<PendingChangesQueue>, String>) -> (b: bool)
        ensures
            b == (loaded matches Ok(Some(q)) && q.changes@.len() > 0),
    {
        match loaded {
            Ok(Some(q)) => !q.is_empty(),
            _ => false,
        }
    }

    /// Number of changes in the stored queue; 0 when none could be read.
    pub fn pending_changes_count(&self, loaded: &Result<Option<PendingChangesQueue>, String>) -> (n: usize)
        ensures
            n == match loaded {
                Ok(Some(q)) => q.changes@.len(),
                _ => 0,
            },
    {
        match loaded {
            Ok(Some(q)) => q.len(),
            _ => 0,
        }
    }
}

/// The session to store after a synchronisation: the backend's copy after
/// a success, the merged one after resolved conflicts; none otherwise.
pub fn session_to_save(result: &SyncResult) -> (r: Option<&DeliverySession>)
    ensures
        match *result {
            SyncResult::Success { session, .. } => r == Some(&session),
            SyncResult::ConflictResolved { merged_session, .. } => r == Some(&merged_session),
            _ => r is None,
        },
{
    match result {
        SyncResult::Success { session, .. } => Some(session),
        SyncResult::ConflictResolved { merged_session, .. } => Some(merged_session),
        _ => None,
    }
}

} // verus!
