//! One account as the accounts page shows it, with its password hidden or
//! shown.
use vstd::prelude::*;
use crate::models::account::Account;

verus! {

/// What the card shows in place of a hidden password.
pub const PASSWORD_MASK: &'static str = "*************";

pub struct AccountCard {
    pub account: Account,
    password_visible: bool,
}

#[derive(Clone)]
pub enum Message {
    TogglePasswordVisibility,
    DeleteAccount,
    ModifyAccount,
}

/// Whether the password is shown after a message: a toggle flips it; the
/// other messages are decided by the page and leave it.
pub open spec fn visibility_after(visible: bool, msg: Message) -> bool {
    match msg {
        Message::TogglePasswordVisibility => !visible,
        _ => visible,
    }
}

impl AccountCard {
    pub closed spec fn is_password_visible(&self) -> bool {
        self.password_visible
    }

    /// The account the card shows.
    pub closed spec fn held_account(&self) -> Account {
        self.account
    }

    /// A card for an account, with the password hidden.
    pub fn new(acc: Account) -> (card: Self)
        ensures
            card.held_account() == acc,
            !card.is_password_visible(),
    {
        Self { account: acc, password_visible: false }
    }

    pub fn update(&mut self, msg: Message)
        ensures
            final(self).held_account() == old(self).held_account(),
            final(self).is_password_visible() == visibility_after(
                old(self).is_password_visible(),
                msg,
            ),
            msg is TogglePasswordVisibility ==> final(self).is_password_visible()
                != old(self).is_password_visible(),
            !(msg is TogglePasswordVisibility) ==> final(self).is_password_visible()
                == old(self).is_password_visible(),
    {
        match msg {
            Message::TogglePasswordVisibility => self.password_visible = !self.password_visible,
            Message::ModifyAccount => (),
            Message::DeleteAccount => (),
        }
    }

    /// The account, to read.
    pub fn account(&self) -> (a: &Account)
        ensures
            *a == self.held_account(),
    {
        &self.account
    }

    /// The account, to edit in place; the visibility is kept.
    pub fn account_mut(&mut self) -> (a: &mut Account)
        ensures
            *a == old(self).held_account(),
            final(self).held_account() == *final(a),
            final(self).is_password_visible() == old(self).is_password_visible(),
    {
        &mut self.account
    }

    /// The account, giving up the card.
    pub fn into_account(self) -> (a: Account)
        ensures
            a == self.held_account(),
    {
        self.account
    }

    /// The text shown in the password field: the password when it is
    /// shown, the mask otherwise.
    pub fn shown_password(&self) -> (text: &str)
        ensures
            self.is_password_visible() ==> text@ == self.held_account()@.password,
            !self.is_password_visible() ==> text == PASSWORD_MASK,
    {
        if self.password_visible {
            self.account.password()
        } else {
            PASSWORD_MASK
        }
    }

    pub fn password_visible(&self) -> (visible: bool)
        ensures
            visible == self.is_password_visible(),
    {
        self.password_visible
    }
}

/// A second toggle hides (or shows) the password again: toggling twice
/// restores the card's visibility.
pub proof fn lemma_toggle_twice_restores(visible: bool)
    ensures
        visibility_after(
            visibility_after(visible, Message::TogglePasswordVisibility),
            Message::TogglePasswordVisibility,
        ) == visible,
{
}

} // verus!
