//! Plain snapshots of the application state, as the views hand them around.

use vstd::prelude::*;
use crate::models::session::DeliverySession;
use crate::models::sync::{Change, SyncState};

verus! {

/// Authentication snapshot.
#[derive(Clone, Debug)]
pub struct AuthStore {
    pub is_logged_in: bool,
    pub username: Option<String>,
    pub token: Option<String>,
    pub company_id: Option<String>,
}

impl Default for AuthStore {
    /// Nobody logged in.
    fn default() -> (s: Self)
        ensures
            !s.is_logged_in,
            s.username.is_none(),
            s.token.is_none(),
            s.company_id.is_none(),
    {
        AuthStore { is_logged_in: false, username: None, token: None, company_id: None }
    }
}

/// Session snapshot.
pub struct SessionStore {
    pub session: Option<DeliverySession>,
    pub loading: bool,
    pub error: Option<String>,
    pub last_fetch_time: Option<i64>,
}

impl Default for SessionStore {
    /// No session, not loading, no error, never fetched.
    fn default() -> (s: Self)
        ensures
            s.session.is_none(),
            !s.loading,
            s.error.is_none(),
            s.last_fetch_time.is_none(),
    {
        SessionStore { session: None, loading: false, error: None, last_fetch_time: None }
    }
}

/// Synchronisation snapshot.
pub struct SyncStore {
    pub pending_changes: Vec<Change>,
    pub sync_state: SyncState,
    pub last_sync_attempt: Option<i64>,
    pub is_online: bool,
}

impl Default for SyncStore {
    /// Nothing pending, synchronised, online, never attempted.
    fn default() -> (s: Self)
        ensures
            s.pending_changes@.len() == 0,
            s.sync_state is Synced,
            s.last_sync_attempt.is_none(),
            s.is_online,
    {
        SyncStore { pending_changes: Vec::new(), sync_state: SyncState::Synced, last_sync_attempt: None, is_online: true }
    }
}

} // verus!
