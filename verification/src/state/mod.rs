pub mod auth_state;
pub mod session_state;
pub mod sync_state;
pub mod reactivity;
pub mod app_state;
