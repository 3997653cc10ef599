pub mod map_viewmodel;
pub mod session_viewmodel;
