//! Settings of the IndexedDB store, which is not implemented: its operations
//! always fail and local storage is used instead.

use vstd::prelude::*;
use crate::models::json::JsonValue;

verus! {

/// Name of the IndexedDB database.
pub const DB_NAME: &'static str = "route_optimizer_db";

/// The message of every IndexedDB operation.
pub const NOT_IMPLEMENTED: &'static str = "IndexedDB not yet implemented - use localStorage";

/// The IndexedDB store.
pub struct IndexedDbService {
    pub db_name: String,
}

impl IndexedDbService {
    /// The store of the application's database.
    pub fn new() -> (s: Self)
        ensures
            s.db_name@ == DB_NAME@,
    {
        IndexedDbService { db_name: String::from_str(DB_NAME) }
    }

    /// Opening the database: always fails.
    pub fn init(&self) -> (r: Result<(), String>)
        ensures
            r matches Err(e) && e@ == NOT_IMPLEMENTED@,
    {
        Err(String::from_str(NOT_IMPLEMENTED))
    }

    /// Storing a value: always fails.
    pub fn save(&self, store_name: &str, key: &str, value: &JsonValue) -> (r: Result<(), String>)
        ensures
            r matches Err(e) && e@ == NOT_IMPLEMENTED@,
    {
        Err(String::from_str(NOT_IMPLEMENTED))
    }

    /// Reading a value: always fails.
    pub fn load(&self, store_name: &str, key: &str) -> (r: Result<Option<JsonValue>, String>)
        ensures
            r matches Err(e) && e@ == NOT_IMPLEMENTED@,
    {
        Err(String::from_str(NOT_IMPLEMENTED))
    }
}

} // verus!
