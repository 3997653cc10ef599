pub mod strmap;
pub mod session;
pub mod package;
pub mod sync;
pub mod admin;
pub mod json;
pub mod company;
