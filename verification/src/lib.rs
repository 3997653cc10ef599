//! Route optimizer core: the delivery-session model, the conversions and
//! groupings that the driver's views are built from, the package cache, the
//! offline synchronisation queue, the application state containers and the
//! translation table.

pub mod utils;
pub mod models;
pub mod services;
pub mod views;
pub mod state;
pub mod stores;
pub mod viewmodels;
