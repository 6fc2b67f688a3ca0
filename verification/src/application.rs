//! The whole application as a state machine: the first-run screen while no
//! database exists, the lock screen while it is locked, and the main window
//! once it is open. Creating and opening the encrypted database is done by
//! the caller: `update` hands back a `Command`, and the caller reports
//! with `database_opened` or `unlock_failed`.
use vstd::prelude::*;
use crate::db::{validate_password, MIN_PASSWORD_CHARS};
use crate::forms::lock_screen::{self, LockScreen};
use crate::forms::welcome_screen::{self, WelcomeScreen};
use crate::models::account::{Account, AccountSaveError};
use crate::models::totp::{TotpKey, TotpSaveError};
use crate::unlocked_screen::{self, UnlockedScreen};

verus! {

pub const SHORT_PASSWORD_MESSAGE: &'static str = "Пароль короче 8 символов";
pub const PASSWORDS_DIFFER_MESSAGE: &'static str = "Пароли не совпадают";
pub const LOGIN_ERROR_MESSAGE: &'static str = "Login error";

pub enum App {
    NoDatabase(WelcomeScreen),
    Locked(LockScreen),
    Unlocked(UnlockedScreen),
}

#[derive(Clone)]
pub enum Message {
    LockScreenMessage(lock_screen::Message),
    WelcomeScreenMessage(welcome_screen::Message),
    UnlockedScreenMessage(unlocked_screen::Message),
}

/// What the caller must do after an update.
pub enum Command {
    Nothing,
    /// Create the database encrypted with this password, then report with
    /// `database_opened`.
    CreateDatabase(String),
    /// Open the database with this password, then report with
    /// `database_opened` or `unlock_failed`.
    OpenDatabase(String),
    /// A command of the main window.
    Unlocked(unlocked_screen::Command),
}

/// The welcome screen after a submit of its two passwords.
pub open spec fn welcome_submitted(new: WelcomeScreen, old: WelcomeScreen, cmd: Command) -> bool {
    &&& new.password@.len() == 0
    &&& new.password_repeat@.len() == 0
    &&& if old.password@ != old.password_repeat@ {
        new.error == Some(PASSWORDS_DIFFER_MESSAGE) && cmd is Nothing
    } else if old.password@.len() < MIN_PASSWORD_CHARS {
        new.error == Some(SHORT_PASSWORD_MESSAGE) && cmd is Nothing
    } else {
        new.error is None && (cmd matches Command::CreateDatabase(p) && p@ == old.password@)
    }
}

impl App {
    pub open spec fn wf(&self) -> bool {
        match self {
            App::Unlocked(s) => s.wf(),
            _ => true,
        }
    }

    /// The messages that `update` handles: all but those that the main
    /// window does not handle.
    pub open spec fn handles(&self, msg: Message) -> bool {
        match (self, msg) {
            (App::Unlocked(s), Message::UnlockedScreenMessage(m)) => s.handles(m),
            _ => true,
        }
    }

    /// How `update` changes the application and what it hands back. A
    /// message for a screen that is not shown changes nothing.
    pub open spec fn updated(self, old: App, msg: Message, cmd: Command) -> bool {
        match (old, msg) {
            (App::NoDatabase(w), Message::WelcomeScreenMessage(m)) => match m {
                welcome_screen::Message::Submit => self matches App::NoDatabase(nw)
                    && welcome_submitted(nw, w, cmd),
                welcome_screen::Message::SetPassword(p) => {
                    &&& self matches App::NoDatabase(nw)
                    &&& nw.password == p
                    &&& nw.password_repeat == w.password_repeat
                    &&& nw.error == w.error
                    &&& cmd is Nothing
                },
                welcome_screen::Message::SetPasswordRepeat(p) => {
                    &&& self matches App::NoDatabase(nw)
                    &&& nw.password_repeat == p
                    &&& nw.password == w.password
                    &&& nw.error == w.error
                    &&& cmd is Nothing
                },
            },
            (App::Locked(l), Message::LockScreenMessage(m)) => match m {
                lock_screen::Message::Submit => {
                    &&& self matches App::Locked(nl) && nl.password@.len() == 0 && nl.error is None
                    &&& cmd matches Command::OpenDatabase(p) && p@ == l.password@
                },
                lock_screen::Message::SetPassword(p) => {
                    &&& self matches App::Locked(nl)
                    &&& nl.password == p
                    &&& nl.error == l.error
                    &&& cmd is Nothing
                },
            },
            (App::Unlocked(u), Message::UnlockedScreenMessage(m)) => self matches App::Unlocked(nu)
                && cmd matches Command::Unlocked(c) && nu.updated(u, m, c),
            _ => self == old && cmd is Nothing,
        }
    }
}

impl App {
    /// The first screen: the lock screen when a database exists, the
    /// first-run screen otherwise.
    pub fn new(database_exists: bool) -> (app: Self)
        ensures
            database_exists ==> (app matches App::Locked(l) && l.password@.len() == 0
                && l.error is None),
            !database_exists ==> (app matches App::NoDatabase(w) && w.is_blank()),
    {
        if database_exists {
            App::Locked(LockScreen::default())
        } else {
            App::NoDatabase(WelcomeScreen::default())
        }
    }

    /// Whether `update` handles a message (see `handles`).
    pub fn can_handle(&self, msg: &Message) -> (ok: bool)
        ensures
            ok == self.handles(*msg),
    {
        match (self, msg) {
            (App::Unlocked(s), Message::UnlockedScreenMessage(m)) => s.can_handle(m),
            _ => true,
        }
    }

    pub fn update(&mut self, msg: Message) -> (cmd: Command)
        requires
            old(self).wf(),
            old(self).handles(msg),
        ensures
            final(self).wf(),
            final(self).updated(*old(self), msg, cmd),
    {
        match self {
            App::NoDatabase(welcome_screen) => match msg {
                Message::WelcomeScreenMessage(msg) => match msg {
                    welcome_screen::Message::Submit => {
                        let mut state = WelcomeScreen::default();
                        std::mem::swap(&mut state, welcome_screen);
                        if state.password == state.password_repeat {
                            match validate_password(state.password.as_str()) {
                                Ok(_) => Command::CreateDatabase(state.password),
                                Err(_) => {
                                    welcome_screen.error = Some(SHORT_PASSWORD_MESSAGE);
                                    Command::Nothing
                                },
                            }
                        } else {
                            welcome_screen.error = Some(PASSWORDS_DIFFER_MESSAGE);
                            Command::Nothing
                        }
                    },
                    _ => {
                        welcome_screen.update(msg);
                        Command::Nothing
                    },
                },
                _ => Command::Nothing,
            },
            App::Locked(lock_screen) => match msg {
                Message::LockScreenMessage(msg) => match msg {
                    lock_screen::Message::Submit => {
                        let mut state = LockScreen::default();
                        std::mem::swap(&mut state, lock_screen);
                        Command::OpenDatabase(state.password)
                    },
                    _ => {
                        lock_screen.update(msg);
                        Command::Nothing
                    },
                },
                _ => Command::Nothing,
            },
            App::Unlocked(unlocked_state) => match msg {
                Message::UnlockedScreenMessage(msg) => Command::Unlocked(unlocked_state.update(msg)),
                _ => Command::Nothing,
            },
        }
    }

    /// The database was created or opened: the main window replaces the
    /// current screen.
    pub fn database_opened(&mut self, screen: UnlockedScreen)
        ensures
            *final(self) == App::Unlocked(screen),
    {
        *self = App::Unlocked(screen);
    }

    /// The password did not open the database: the lock screen says so. On
    /// another screen nothing changes.
    pub fn unlock_failed(&mut self)
        ensures
            match *old(self) {
                App::Locked(l) => {
                    &&& *final(self) matches App::Locked(nl)
                    &&& (*final(self))->Locked_0.password == l.password
                    &&& (*final(self))->Locked_0.error matches Some(e)
                    &&& (*final(self))->Locked_0.error->Some_0@ == LOGIN_ERROR_MESSAGE@
                },
                _ => *final(self) == *old(self),
            },
    {
        match self {
            App::Locked(lock_screen) => {
                lock_screen.error = Some(String::from_str(LOGIN_ERROR_MESSAGE));
            },
            _ => (),
        }
    }

    /// Reports the outcome of storing a new account to the main window.
    pub fn account_created(&mut self, acc: Account, saved: Result<(), AccountSaveError>)
        requires
            old(self).wf(),
        ensures
            final(self).wf(),
            match *old(self) {
                App::Unlocked(u) => *final(self) matches App::Unlocked(nu) && nu.page() == u.page()
                    && nu.codes_page() == u.codes_page() && nu.accounts_page().finished_create(
                    u.accounts_page(),
                    acc,
                    saved,
                ),
                _ => *final(self) == *old(self),
            },
    {
        match self {
            App::Unlocked(unlocked_state) => unlocked_state.account_created(acc, saved),
            _ => (),
        }
    }

    /// Reports the outcome of storing an edited account to the main window.
    pub fn account_modified(&mut self, saved: Result<(), AccountSaveError>)
        requires
            old(self).wf(),
        ensures
            final(self).wf(),
            match *old(self) {
                App::Unlocked(u) => *final(self) matches App::Unlocked(nu) && nu.page() == u.page()
                    && nu.codes_page() == u.codes_page() && nu.accounts_page().finished_modify(
                    u.accounts_page(),
                    saved,
                ),
                _ => *final(self) == *old(self),
            },
    {
        match self {
            App::Unlocked(unlocked_state) => unlocked_state.account_modified(saved),
            _ => (),
        }
    }

    /// Reports the outcome of storing a new key to the main window.
    pub fn key_created(&mut self, key: TotpKey, saved: Result<(), TotpSaveError>, now: u64)
        requires
            old(self).wf(),
        ensures
            final(self).wf(),
            match *old(self) {
                App::Unlocked(u) => *final(self) matches App::Unlocked(nu) && nu.page() == u.page()
                    && nu.accounts_page() == u.accounts_page() && nu.codes_page().finished_create(
                    u.codes_page(),
                    key,
                    saved,
                    now,
                ),
                _ => *final(self) == *old(self),
            },
    {
        match self {
            App::Unlocked(unlocked_state) => unlocked_state.key_created(key, saved, now),
            _ => (),
        }
    }
}

/// An update never changes which screen is shown: the move to the main
/// window happens only through `database_opened`, once the caller has acted
/// on a `CreateDatabase` (asked for only by a submit on the first-run
/// screen) or an `OpenDatabase` (asked for only by a submit on the lock
/// screen).
pub proof fn lemma_update_keeps_screen(old: App, new: App, msg: Message, cmd: Command)
    requires
        new.updated(old, msg, cmd),
    ensures
        old is NoDatabase ==> new is NoDatabase,
        old is Locked ==> new is Locked,
        old is Unlocked ==> new is Unlocked,
        cmd is CreateDatabase ==> old is NoDatabase && msg == Message::WelcomeScreenMessage(
            welcome_screen::Message::Submit,
        ),
        cmd is OpenDatabase ==> old is Locked && msg == Message::LockScreenMessage(
            lock_screen::Message::Submit,
        ),
{
}

/// On the first run, typing the same password of at least 8 characters
/// twice and submitting asks to create the database encrypted with exactly
/// that password, and clears the screen without an error.
pub proof fn lemma_matching_long_passwords_create_database(
    w: WelcomeScreen,
    a1: App,
    a2: App,
    a3: App,
    p: String,
    c1: Command,
    c2: Command,
    c3: Command,
)
    requires
        p@.len() >= 8,
        a1.updated(
            App::NoDatabase(w),
            Message::WelcomeScreenMessage(welcome_screen::Message::SetPassword(p)),
            c1,
        ),
        a2.updated(a1, Message::WelcomeScreenMessage(welcome_screen::Message::SetPasswordRepeat(p)), c2),
        a3.updated(a2, Message::WelcomeScreenMessage(welcome_screen::Message::Submit), c3),
    ensures
        c1 is Nothing,
        c2 is Nothing,
        c3 matches Command::CreateDatabase(q) && q@ == p@,
        a3 matches App::NoDatabase(w3) && w3.is_blank(),
{
}

/// On the first run, two typed passwords that differ are refused whatever
/// their length, and a password shorter than 8 characters typed twice is
/// refused as too short; neither asks for a database.
pub proof fn lemma_refused_first_run_passwords(w: WelcomeScreen, a: App, cmd: Command)
    requires
        w.password@ != w.password_repeat@ || w.password@.len() < 8,
        a.updated(App::NoDatabase(w), Message::WelcomeScreenMessage(welcome_screen::Message::Submit), cmd),
    ensures
        cmd is Nothing,
        a matches App::NoDatabase(w2) && w2.password@.len() == 0 && w2.password_repeat@.len() == 0
            && w2.error is Some,
{
}

/// On the lock screen, the typed master password is recorded as it is,
/// whatever its length, and a submit asks to open the database with exactly
/// the text typed last.
pub proof fn lemma_unlock_uses_typed_password(
    l: LockScreen,
    a1: App,
    a2: App,
    p: String,
    c1: Command,
    c2: Command,
)
    requires
        a1.updated(App::Locked(l), Message::LockScreenMessage(lock_screen::Message::SetPassword(p)), c1),
        a2.updated(a1, Message::LockScreenMessage(lock_screen::Message::Submit), c2),
    ensures
        c1 is Nothing,
        a1 matches App::Locked(l1) && l1.password == p,
        c2 matches Command::OpenDatabase(q) && q@ == p@,
        a2 matches App::Locked(l2) && l2.password@.len() == 0 && l2.error is None,
{
}

} // verus!
