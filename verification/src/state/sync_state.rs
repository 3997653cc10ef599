//! Synchronisation state: pending changes, status, connectivity.

use vstd::prelude::*;
use crate::models::sync::{Change, SyncState, clone_changes};

verus! {

/// What the synchronisation indicator reads.
pub struct SyncStateWrapper {
    pub pending_changes: Vec<Change>,
    pub sync_state: SyncState,
    pub last_sync_attempt: Option<i64>,
    pub is_online: bool,
    pub last_conflicts_resolved: Option<usize>,
}

impl SyncStateWrapper {
    /// Nothing pending, synchronised, online, never attempted.
    pub open spec fn spec_is_initial(&self) -> bool {
        &&& self.pending_changes@.len() == 0
        &&& self.sync_state is Synced
        &&& self.last_sync_attempt.is_none()
        &&& self.is_online
        &&& self.last_conflicts_resolved.is_none()
    }

    pub fn new() -> (s: Self)
        ensures
            s.spec_is_initial(),
    {
        SyncStateWrapper {
            pending_changes: Vec::new(),
            sync_state: SyncState::Synced,
            last_sync_attempt: None,
            is_online: true,
            last_conflicts_resolved: None,
        }
    }

    pub fn get_pending_changes(&self) -> (r: Vec<Change>)
        ensures
            r@ == self.pending_changes@,
    {
        clone_changes(&self.pending_changes)
    }

    /// Appends a change to the pending ones.
    pub fn add_pending_change(&mut self, change: Change)
        ensures
            final(self).pending_changes@ == old(self).pending_changes@.push(change),
            final(self).sync_state == old(self).sync_state,
            final(self).last_sync_attempt == old(self).last_sync_attempt,
            final(self).is_online == old(self).is_online,
            final(self).last_conflicts_resolved == old(self).last_conflicts_resolved,
    {
        self.pending_changes.push(change);
    }

    /// Drops all pending changes.
    pub fn clear_pending_changes(&mut self)
        ensures
            final(self).pending_changes@.len() == 0,
            final(self).sync_state == old(self).sync_state,
            final(self).last_sync_attempt == old(self).last_sync_attempt,
            final(self).is_online == old(self).is_online,
            final(self).last_conflicts_resolved == old(self).last_conflicts_resolved,
    {
        self.pending_changes.clear();
    }

    pub fn set_sync_state(&mut self, state: SyncState)
        ensures
            final(self).sync_state == state,
            final(self).pending_changes == old(self).pending_changes,
            final(self).last_sync_attempt == old(self).last_sync_attempt,
            final(self).is_online == old(self).is_online,
            final(self).last_conflicts_resolved == old(self).last_conflicts_resolved,
    {
        self.sync_state = state;
    }

    pub fn get_sync_state(&self) -> (r: SyncState)
        ensures
            r == self.sync_state,
    {
        self.sync_state.duplicate()
    }

    pub fn set_online(&mut self, online: bool)
        ensures
            final(self).is_online == online,
            final(self).pending_changes == old(self).pending_changes,
            final(self).sync_state == old(self).sync_state,
            final(self).last_sync_attempt == old(self).last_sync_attempt,
            final(self).last_conflicts_resolved == old(self).last_conflicts_resolved,
    {
        self.is_online = online;
    }

    pub fn get_online(&self) -> (r: bool)
        ensures
            r == self.is_online,
    {
        self.is_online
    }

    pub fn set_last_sync_attempt(&mut self, time: Option<i64>)
        ensures
            final(self).last_sync_attempt == time,
            final(self).pending_changes == old(self).pending_changes,
            final(self).sync_state == old(self).sync_state,
            final(self).is_online == old(self).is_online,
            final(self).last_conflicts_resolved == old(self).last_conflicts_resolved,
    {
        self.last_sync_attempt = time;
    }

    pub fn get_last_sync_attempt(&self) -> (r: Option<i64>)
        ensures
            r == self.last_sync_attempt,
    {
        self.last_sync_attempt
    }

    pub fn set_last_conflicts_resolved(&mut self, count: Option<usize>)
        ensures
            final(self).last_conflicts_resolved == count,
            final(self).pending_changes == old(self).pending_changes,
            final(self).sync_state == old(self).sync_state,
            final(self).last_sync_attempt == old(self).last_sync_attempt,
            final(self).is_online == old(self).is_online,
    {
        self.last_conflicts_resolved = count;
    }

    pub fn get_last_conflicts_resolved(&self) -> (r: Option<usize>)
        ensures
            r == self.last_conflicts_resolved,
    {
        self.last_conflicts_resolved
    }
}

impl Default for SyncStateWrapper {
    fn default() -> (s: Self)
        ensures
            s.spec_is_initial(),
    {
        Self::new()
    }
}

} // verus!
