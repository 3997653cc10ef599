pub mod delivery_session_converter;
pub mod cache_service;
pub mod api_client;
pub mod offline_service;
pub mod indexeddb;
pub mod sync_service;
pub mod package_service;
pub mod optimization_service;
pub mod delivery_session_service;
pub mod auth_service;
