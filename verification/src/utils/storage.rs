//! Keys of the local store.

use vstd::prelude::*;

verus! {

/// The cache key of a user of a company: `societe_username`.
pub fn get_cache_key(societe: &str, username: &str) -> (r: String)
    ensures
        r@ == societe@ + "_"@ + username@,
{
    let mut key = String::from_str(societe);
    key.append("_");
    key.append(username);
    key
}

} // verus!
