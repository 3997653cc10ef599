//! Reading back the session saved in local storage.

use vstd::prelude::*;
use crate::models::session::DeliverySession;

verus! {

/// What loading the saved session gives, from what was read under the
/// session key: nothing when nothing is saved, the session when it reads,
/// and otherwise why it does not.
pub fn load_session_from_storage(stored: Option<Result<DeliverySession, String>>) -> (r: Result<Option<DeliverySession>, String>)
    ensures
        match stored {
            None => r matches Ok(None),
            Some(Ok(s)) => r == Ok::<Option<DeliverySession>, String>(Some(s)),
            Some(Err(e)) => r matches Err(m) && m@ == "Error deserializando sesión: "@ + e@,
        },
{
    match stored {
        None => Ok(None),
        Some(Ok(s)) => Ok(Some(s)),
        Some(Err(e)) => {
            let mut m = String::from_str("Error deserializando sesión: ");
            m.append(e.as_str());
            Err(m)
        },
    }
}

} // verus!
