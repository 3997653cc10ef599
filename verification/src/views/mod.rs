pub mod package_list;
pub mod app;
pub mod bottom_sheet;
pub mod packages;
pub mod auth;
pub mod sync_indicator;
pub mod admin_dashboard;
pub mod login;
pub mod tracking_modal;
pub mod package_card;
