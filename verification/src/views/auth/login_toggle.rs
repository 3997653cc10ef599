//! The two kinds of user that can log in.

use vstd::prelude::*;

verus! {

/// A driver or an administrator.
#[derive(Clone, Copy, Debug, PartialEq, Eq, Structural)]
pub enum UserType {
    Livreur,
    Admin,
}

impl UserType {
    /// The identifier of the kind of user.
    pub fn as_str(&self) -> (r: &'static str)
        ensures
            r@ == match *self {
                UserType::Livreur => "livreur"@,
                UserType::Admin => "admin"@,
            },
    {
        match self {
            UserType::Livreur => "livreur",
            UserType::Admin => "admin",
        }
    }

    /// The name shown for the kind of user.
    pub fn display_name(&self) -> (r: &'static str)
        ensures
            r@ == match *self {
                UserType::Livreur => "Livreur"@,
                UserType::Admin => "Admin"@,
            },
    {
        match self {
            UserType::Livreur => "Livreur",
            UserType::Admin => "Admin",
        }
    }
}

} // verus!
