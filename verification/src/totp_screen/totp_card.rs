//! One TOTP key as the codes page shows it, with its current code.
use vstd::prelude::*;
use crate::models::totp::{code_at, TotpKey};

verus! {

pub struct TotpCard {
    pub key: TotpKey,
    pub current_code: String,
}

#[derive(Clone)]
pub enum Message {
    Delete,
}

impl TotpCard {
    /// A card for a key, showing its code at the given UNIX time.
    pub fn new(key: TotpKey, now: u64) -> (card: Self)
        ensures
            card.key == key,
            card.current_code@ == code_at(key@.secret, now),
    {
        let init_code = key.gen_key(now);
        Self { key, current_code: init_code }
    }
}

} // verus!
