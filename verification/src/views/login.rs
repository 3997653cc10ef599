//! The driver's login screen: the check of its entries and what a
//! successful login changes in the application state.

use vstd::prelude::*;
use crate::models::session::DeliverySession;
use crate::state::app_state::AppState;

verus! {

/// The message shown when an entry of the login screen is empty; nothing
/// when all three are filled.
pub fn missing_login_fields(username: &str, password: &str, societe: &str) -> (r: Option<String>)
    ensures
        match r {
            Some(m) => (username@.len() == 0 || password@.len() == 0 || societe@.len() == 0)
                && m@ == "Veuillez remplir tous les champs"@,
            None => username@.len() > 0 && password@.len() > 0 && societe@.len() > 0,
        },
{
    if username.is_empty() || password.is_empty() || societe.is_empty() {
        Some(String::from_str("Veuillez remplir tous les champs"))
    } else {
        None
    }
}

/// After a successful login: the session is current and no longer
/// loading, the user is logged in with their name and company, and the
/// computed groups are dropped.
pub fn apply_login(state: &mut AppState, session: DeliverySession, username: String, societe: String)
    ensures
        final(state).session.session == Some(session),
        !final(state).session.loading,
        final(state).session.error == old(state).session.error,
        final(state).session.last_fetch_time == old(state).session.last_fetch_time,
        final(state).auth.is_logged_in,
        final(state).auth.username == Some(username),
        final(state).auth.company_id == Some(societe),
        final(state).auth.token == old(state).auth.token,
        final(state).groups_memo.is_none(),
        *final(state) == (AppState {
            session: final(state).session,
            auth: final(state).auth,
            groups_memo: None,
            ..*old(state)
        }),
{
    state.session.set_session(Some(session));
    state.session.set_loading(false);
    state.auth.set_logged_in(true);
    state.auth.set_username(Some(username));
    state.auth.set_company_id(Some(societe));
    state.invalidate_groups_memo();
}

} // verus!
