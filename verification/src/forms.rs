//! The forms of the application: locking and first-run screens, and the
//! forms that create or edit accounts and TOTP keys.

pub mod lock_screen;
pub mod new_account_form;
pub mod new_totp_form;
pub mod welcome_screen;

use vstd::prelude::*;

verus! {

/// Whether a login is a user name or an e-mail address.
#[derive(Clone, Copy, PartialEq, Eq, Structural)]
pub enum LoginType {
    Username,
    Email,
}

impl Default for LoginType {
    fn default() -> (r: Self)
        ensures
            r == LoginType::Username,
    {
        LoginType::Username
    }
}

} // verus!
