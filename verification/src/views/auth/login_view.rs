//! The login form: which entries it accepts.

use vstd::prelude::*;

verus! {

/// Why a login form is refused, if it is: no company chosen, or an empty
/// user name or password.
pub open spec fn login_form_error(company_selected: bool, username: Seq<char>, password: Seq<char>) -> Option<Seq<char>> {
    if !company_selected {
        Some("Veuillez sélectionner une entreprise"@)
    } else if username.len() == 0 || password.len() == 0 {
        Some("Veuillez remplir tous les champs"@)
    } else {
        None
    }
}

/// Checks the login form before it is sent.
pub fn validate_login(company_selected: bool, username: &str, password: &str) -> (r: Result<(), String>)
    ensures
        match login_form_error(company_selected, username@, password@) {
            Some(m) => r matches Err(e) && e@ == m,
            None => r is Ok,
        },
{
    if !company_selected {
        return Err(String::from_str("Veuillez sélectionner une entreprise"));
    }
    if username.is_empty() || password.is_empty() {
        return Err(String::from_str("Veuillez remplir tous les champs"));
    }
    Ok(())
}

/// The login form is refused for want of a company first, then for an
/// empty user name or password; otherwise it is accepted.
pub proof fn law_login_form(company_selected: bool, username: Seq<char>, password: Seq<char>)
    ensures
        !company_selected ==> login_form_error(company_selected, username, password) == Some("Veuillez sélectionner une entreprise"@),
        company_selected && (username.len() == 0 || password.len() == 0)
            ==> login_form_error(company_selected, username, password) == Some("Veuillez remplir tous les champs"@),
        company_selected && username.len() > 0 && password.len() > 0
            ==> login_form_error(company_selected, username, password) is None,
{
}

} // verus!
