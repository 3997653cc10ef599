//! Fixed settings of the application.

use vstd::prelude::*;

verus! {

/// Base URL of the backend.
pub const BACKEND_URL: &'static str = "http://localhost:3000";

} // verus!
