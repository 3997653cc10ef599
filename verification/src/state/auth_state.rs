//! Authentication state: whether a user is logged in, and who.

use vstd::prelude::*;
use crate::models::session::clone_opt_string;

verus! {

/// Who is logged in.
#[derive(Clone)]
pub struct AuthState {
    pub is_logged_in: bool,
    pub username: Option<String>,
    pub token: Option<String>,
    pub company_id: Option<String>,
}

impl AuthState {
    /// Nobody logged in, nothing known.
    pub open spec fn spec_is_empty(&self) -> bool {
        &&& !self.is_logged_in
        &&& self.username.is_none()
        &&& self.token.is_none()
        &&& self.company_id.is_none()
    }

    /// A state where nobody is logged in.
    pub fn new() -> (s: Self)
        ensures
            s.spec_is_empty(),
    {
        AuthState { is_logged_in: false, username: None, token: None, company_id: None }
    }

    pub fn set_logged_in(&mut self, logged_in: bool)
        ensures
            *final(self) == (AuthState { is_logged_in: logged_in, ..*old(self) }),
    {
        self.is_logged_in = logged_in;
    }

    pub fn get_logged_in(&self) -> (r: bool)
        ensures
            r == self.is_logged_in,
    {
        self.is_logged_in
    }

    pub fn set_username(&mut self, username: Option<String>)
        ensures
            *final(self) == (AuthState { username: username, ..*old(self) }),
    {
        self.username = username;
    }

    pub fn get_username(&self) -> (r: Option<String>)
        ensures
            r == self.username,
    {
        clone_opt_string(&self.username)
    }

    pub fn set_token(&mut self, token: Option<String>)
        ensures
            *final(self) == (AuthState { token: token, ..*old(self) }),
    {
        self.token = token;
    }

    pub fn get_token(&self) -> (r: Option<String>)
        ensures
            r == self.token,
    {
        clone_opt_string(&self.token)
    }

    pub fn set_company_id(&mut self, company_id: Option<String>)
        ensures
            *final(self) == (AuthState { company_id: company_id, ..*old(self) }),
    {
        self.company_id = company_id;
    }

    pub fn get_company_id(&self) -> (r: Option<String>)
        ensures
            r == self.company_id,
    {
        clone_opt_string(&self.company_id)
    }

    /// Forgets the user: logged out, no name, token or company.
    pub fn logout(&mut self)
        ensures
            final(self).spec_is_empty(),
    {
        self.set_logged_in(false);
        self.set_username(None);
        self.set_token(None);
        self.set_company_id(None);
    }
}

impl Default for AuthState {
    fn default() -> (s: Self)
        ensures
            s.spec_is_empty(),
    {
        Self::new()
    }
}

/// What a getter reads after a setter: `after` is the state that
/// `set_username(name)` left from `before`; `get_username` then gives back
/// `name`, and the other getters what they gave before.
pub proof fn law_auth_read_after_write(
    before: AuthState,
    after: AuthState,
    name: Option<String>,
    read_name: Option<String>,
    read_token: Option<String>,
    read_company: Option<String>,
    read_logged_in: bool,
)
    requires
        after == (AuthState { username: name, ..before }),
        read_name == after.username,
        read_token == after.token,
        read_company == after.company_id,
        read_logged_in == after.is_logged_in,
    ensures
        read_name == name,
        read_token == before.token,
        read_company == before.company_id,
        read_logged_in == before.is_logged_in,
{
}

} // verus!
