//! Session state: the current delivery session and whether it is loading.

use vstd::prelude::*;
use crate::models::session::{DeliverySession, clone_opt_string};

verus! {

/// The current session and its loading status.
pub struct SessionState {
    pub session: Option<DeliverySession>,
    pub loading: bool,
    pub error: Option<String>,
    pub last_fetch_time: Option<i64>,
}

/// The two optional sessions are both absent, or both present and equal
/// field for field.
pub open spec fn same_session(a: Option<DeliverySession>, b: Option<DeliverySession>) -> bool {
    match (a, b) {
        (Some(x), Some(y)) => x.same_as(&y),
        (None, None) => true,
        _ => false,
    }
}

impl SessionState {
    /// No session, not loading, no error, never fetched.
    pub open spec fn spec_is_empty(&self) -> bool {
        &&& self.session.is_none()
        &&& !self.loading
        &&& self.error.is_none()
        &&& self.last_fetch_time.is_none()
    }

    pub fn new() -> (s: Self)
        ensures
            s.spec_is_empty(),
    {
        SessionState { session: None, loading: false, error: None, last_fetch_time: None }
    }

    /// Replaces the current session (the caller also stores a present one).
    pub fn set_session(&mut self, session: Option<DeliverySession>)
        ensures
            *final(self) == (SessionState { session: session, ..*old(self) }),
    {
        self.session = session;
    }

    /// A copy of the current session.
    pub fn get_session(&self) -> (r: Option<DeliverySession>)
        ensures
            same_session(r, self.session),
    {
        match &self.session {
            Some(s) => Some(s.duplicate()),
            None => None,
        }
    }

    pub fn set_loading(&mut self, loading: bool)
        ensures
            *final(self) == (SessionState { loading: loading, ..*old(self) }),
    {
        self.loading = loading;
    }

    pub fn get_loading(&self) -> (r: bool)
        ensures
            r == self.loading,
    {
        self.loading
    }

    pub fn set_error(&mut self, error: Option<String>)
        ensures
            *final(self) == (SessionState { error: error, ..*old(self) }),
    {
        self.error = error;
    }

    pub fn get_error(&self) -> (r: Option<String>)
        ensures
            r == self.error,
    {
        clone_opt_string(&self.error)
    }

    pub fn set_last_fetch_time(&mut self, time: Option<i64>)
        ensures
            *final(self) == (SessionState { last_fetch_time: time, ..*old(self) }),
    {
        self.last_fetch_time = time;
    }

    pub fn get_last_fetch_time(&self) -> (r: Option<i64>)
        ensures
            r == self.last_fetch_time,
    {
        self.last_fetch_time
    }
}

impl Default for SessionState {
    fn default() -> (s: Self)
        ensures
            s.spec_is_empty(),
    {
        Self::new()
    }
}

/// What a getter reads after a setter: `after` is the state that
/// `set_session(session)` left from `before`; `get_session` then gives back
/// a field-for-field copy of `session`, and the other getters what they
/// gave before.
pub proof fn law_session_read_after_write(
    before: SessionState,
    after: SessionState,
    session: Option<DeliverySession>,
    read_session: Option<DeliverySession>,
    read_loading: bool,
    read_error: Option<String>,
)
    requires
        after == (SessionState { session: session, ..before }),
        same_session(read_session, after.session),
        read_loading == after.loading,
        read_error == after.error,
    ensures
        same_session(read_session, session),
        read_loading == before.loading,
        read_error == before.error,
        after.last_fetch_time == before.last_fetch_time,
{
}

} // verus!
