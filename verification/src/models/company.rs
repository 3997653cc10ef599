//! A transport company a driver can log in under.

use vstd::prelude::*;

verus! {

/// A company: its code and its name.
#[derive(Clone, Debug)]
pub struct Company {
    pub code: String,
    pub name: String,
}

} // verus!
