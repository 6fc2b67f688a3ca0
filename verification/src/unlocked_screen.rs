//! The main window once the database is open: the accounts page and the
//! codes page, one of them shown at a time.
use vstd::prelude::*;
use crate::models::account::{Account, AccountSaveError};
use crate::models::totp::{code_at, TotpKey, TotpSaveError};
use crate::password_screen::{self, PasswordScreen};
use crate::totp_screen::{self, TotpScreen};

verus! {

pub struct UnlockedScreen {
    password_screen_state: PasswordScreen,
    totp_screen_state: TotpScreen,
    current_page: CurrentPage,
}

/// The page shown.
#[derive(Clone, Copy, PartialEq, Eq, Structural)]
pub enum CurrentPage {
    PasswordScreen,
    CodeScreen,
    SettingsScreen,
}

impl Default for CurrentPage {
    fn default() -> (r: Self)
        ensures
            r == CurrentPage::PasswordScreen,
    {
        CurrentPage::PasswordScreen
    }
}

#[derive(Clone)]
pub enum Message {
    SetPage(CurrentPage),
    PasswordScreenMessage(password_screen::Message),
    TotpScreenMessage(totp_screen::Message),
}

/// What the caller must do with the database after an update: the command
/// of the page that handled the message.
pub enum Command {
    Nothing,
    Accounts(password_screen::Command),
    Keys(totp_screen::Command),
}

impl UnlockedScreen {
    pub closed spec fn accounts_page(&self) -> PasswordScreen {
        self.password_screen_state
    }

    pub closed spec fn codes_page(&self) -> TotpScreen {
        self.totp_screen_state
    }

    pub closed spec fn page(&self) -> CurrentPage {
        self.current_page
    }

    pub open spec fn wf(&self) -> bool {
        self.accounts_page().wf() && self.codes_page().wf()
    }

    /// The messages that `update` handles: those that the page they are for
    /// handles.
    pub open spec fn handles(&self, msg: Message) -> bool {
        match msg {
            Message::SetPage(_) => true,
            Message::PasswordScreenMessage(m) => self.accounts_page().handles(m),
            Message::TotpScreenMessage(m) => self.codes_page().handles(m),
        }
    }

    /// How `update` changes the window: a page change switches the page; a
    /// message for a page goes to that page alone, which hands back its
    /// command.
    pub open spec fn updated(self, old: UnlockedScreen, msg: Message, cmd: Command) -> bool {
        match msg {
            Message::SetPage(p) => {
                &&& self.page() == p
                &&& self.accounts_page() == old.accounts_page()
                &&& self.codes_page() == old.codes_page()
                &&& cmd is Nothing
            },
            Message::PasswordScreenMessage(m) => {
                &&& self.page() == old.page()
                &&& self.codes_page() == old.codes_page()
                &&& cmd matches Command::Accounts(c) && self.accounts_page().updated(
                    old.accounts_page(),
                    m,
                    c,
                )
            },
            Message::TotpScreenMessage(m) => {
                &&& self.page() == old.page()
                &&& self.accounts_page() == old.accounts_page()
                &&& cmd matches Command::Keys(c) && self.codes_page().updated(
                    old.codes_page(),
                    m,
                    c,
                )
            },
        }
    }

    /// The window for a freshly opened database holding these accounts and
    /// keys, at the given UNIX time; the accounts page is shown.
    pub fn new(accounts: Vec<Account>, keys: Vec<TotpKey>, now: u64) -> (res: Self)
        ensures
            res.wf(),
            res.page() == CurrentPage::PasswordScreen,
            res.accounts_page().cards().dom() == password_screen::latest_by_id(accounts@).dom(),
            forall|id: u128| #[trigger]
                res.accounts_page().cards().contains_key(id) ==> res.accounts_page().cards()[id].held_account()
                    == password_screen::latest_by_id(accounts@)[id]
                    && !res.accounts_page().cards()[id].is_password_visible(),
            res.codes_page().cards().dom() == totp_screen::latest_keys_by_id(keys@).dom(),
            forall|id: u128| #[trigger]
                res.codes_page().cards().contains_key(id) ==> res.codes_page().cards()[id].key
                    == totp_screen::latest_keys_by_id(keys@)[id]
                    && res.codes_page().cards()[id].current_code@ == code_at(
                    res.codes_page().cards()[id].key@.secret,
                    now,
                ),
            res.codes_page().elapsed() == now % 30,
            res.accounts_page().form().is_blank(),
            res.codes_page().form().is_blank(),
            !res.accounts_page().form_opened(),
            !res.codes_page().form_opened(),
    {
        let password_screen_state = PasswordScreen::new(accounts);
        let totp_screen_state = TotpScreen::new(keys, now);

        Self { password_screen_state, totp_screen_state, current_page: CurrentPage::default() }
    }

    /// Whether `update` handles a message (see `handles`).
    pub fn can_handle(&self, msg: &Message) -> (ok: bool)
        ensures
            ok == self.handles(*msg),
    {
        match msg {
            Message::SetPage(_) => true,
            Message::PasswordScreenMessage(m) => self.password_screen_state.can_handle(m),
            Message::TotpScreenMessage(m) => self.totp_screen_state.can_handle(m),
        }
    }

    pub fn update(&mut self, msg: Message) -> (cmd: Command)
        requires
            old(self).wf(),
            old(self).handles(msg),
        ensures
            final(self).wf(),
            final(self).updated(*old(self), msg, cmd),
    {
        match msg {
            Message::SetPage(page) => {
                self.current_page = page;
                Command::Nothing
            },
            Message::PasswordScreenMessage(msg) => Command::Accounts(
                self.password_screen_state.update(msg),
            ),
            Message::TotpScreenMessage(msg) => Command::Keys(self.totp_screen_state.update(msg)),
        }
    }

    /// Reports the outcome of storing a new account to the accounts page.
    pub fn account_created(&mut self, acc: Account, saved: Result<(), AccountSaveError>)
        requires
            old(self).wf(),
        ensures
            final(self).wf(),
            final(self).page() == old(self).page(),
            final(self).codes_page() == old(self).codes_page(),
            final(self).accounts_page().finished_create(old(self).accounts_page(), acc, saved),
    {
        self.password_screen_state.finish_create(acc, saved);
    }

    /// Reports the outcome of storing an edited account to the accounts page.
    pub fn account_modified(&mut self, saved: Result<(), AccountSaveError>)
        requires
            old(self).wf(),
        ensures
            final(self).wf(),
            final(self).page() == old(self).page(),
            final(self).codes_page() == old(self).codes_page(),
            final(self).accounts_page().finished_modify(old(self).accounts_page(), saved),
    {
        self.password_screen_state.finish_modify(saved);
    }

    /// Reports the outcome of storing a new key to the codes page.
    pub fn key_created(&mut self, key: TotpKey, saved: Result<(), TotpSaveError>, now: u64)
        requires
            old(self).wf(),
        ensures
            final(self).wf(),
            final(self).page() == old(self).page(),
            final(self).accounts_page() == old(self).accounts_page(),
            final(self).codes_page().finished_create(old(self).codes_page(), key, saved, now),
    {
        self.totp_screen_state.finish_create(key, saved, now);
    }

    pub fn password_screen(&self) -> (page: &PasswordScreen)
        ensures
            *page == self.accounts_page(),
    {
        &self.password_screen_state
    }

    pub fn totp_screen(&self) -> (page: &TotpScreen)
        ensures
            *page == self.codes_page(),
    {
        &self.totp_screen_state
    }

    pub fn current_page(&self) -> (page: CurrentPage)
        ensures
            page == self.page(),
    {
        self.current_page
    }
}

} // verus!
