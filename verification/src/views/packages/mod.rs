pub mod package_card;
pub mod address_card;
pub mod package_details;
