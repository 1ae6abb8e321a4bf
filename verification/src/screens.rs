//! The screens of the application and the contract they share.

pub mod app_screen;
pub mod contracts;
pub mod home_screen;
pub mod route;
pub mod settings_screen;
