//! Verified core of a desktop password manager: account and TOTP key
//! records, the forms that edit them, and the screen state machines that
//! decide what happens on each user action.

pub mod application;
pub mod db;
pub mod forms;
pub mod models;
pub mod password_screen;
pub mod totp_screen;
pub mod unlocked_screen;
