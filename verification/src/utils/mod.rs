pub mod text;
pub mod clock;
pub mod constants;
pub mod i18n;
pub mod storage;
