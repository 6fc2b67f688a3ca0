//! The first-run screen, where the master password of a new database is
//! chosen and typed twice.
use vstd::prelude::*;

verus! {

pub struct WelcomeScreen {
    pub password: String,
    pub password_repeat: String,
    pub error: Option<&'static str>,
}

impl Default for WelcomeScreen {
    fn default() -> (r: Self)
        ensures
            r.is_blank(),
    {
        WelcomeScreen { password: String::new(), password_repeat: String::new(), error: None }
    }
}

#[derive(Clone)]
pub enum Message {
    SetPassword(String),
    SetPasswordRepeat(String),
    Submit,
}

impl WelcomeScreen {
    /// Both fields empty and no error shown.
    pub open spec fn is_blank(&self) -> bool {
        &&& self.password@.len() == 0
        &&& self.password_repeat@.len() == 0
        &&& self.error is None
    }

    /// The screen after a typed password is recorded.
    pub open spec fn after_input(self, msg: Message) -> WelcomeScreen {
        match msg {
            Message::SetPassword(p) => WelcomeScreen { password: p, ..self },
            Message::SetPasswordRepeat(p) => WelcomeScreen { password_repeat: p, ..self },
            Message::Submit => self,
        }
    }

    /// Records the typed passwords. `Submit` is decided by the application,
    /// which creates the database; here it changes nothing.
    pub fn update(&mut self, msg: Message)
        ensures
            *final(self) == old(self).after_input(msg),
            msg matches Message::SetPassword(p) ==> final(self).password == p
                && final(self).password_repeat == old(self).password_repeat
                && final(self).error == old(self).error,
            msg matches Message::SetPasswordRepeat(p) ==> final(self).password_repeat == p
                && final(self).password == old(self).password
                && final(self).error == old(self).error,
            msg is Submit ==> *final(self) == *old(self),
    {
        match msg {
            Message::SetPassword(pass) => self.password = pass,
            Message::SetPasswordRepeat(pass) => self.password_repeat = pass,
            Message::Submit => (),
        }
    }
}

} // verus!
