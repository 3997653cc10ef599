pub mod login_toggle;
pub mod register_view;
pub mod login_view;
pub mod company_selector;
