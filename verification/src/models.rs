//! The stored records: website accounts and TOTP keys, and the textual
//! form of their identifiers.

pub mod account;
pub mod ids;
pub mod totp;
