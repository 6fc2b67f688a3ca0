//! The screen that asks for the master password of an existing database.
use vstd::prelude::*;

verus! {

/// The text typed so far and the error of the last unlocking attempt.
pub struct LockScreen {
    pub password: String,
    pub error: Option<String>,
}

impl Default for LockScreen {
    fn default() -> (r: Self)
        ensures
            r.password@ == Seq::<char>::empty(),
            r.error is None,
    {
        LockScreen { password: String::new(), error: None }
    }
}

#[derive(Clone)]
pub enum Message {
    SetPassword(String),
    Submit,
}

impl LockScreen {
    /// The screen after a typed password is recorded.
    pub open spec fn after_input(self, msg: Message) -> LockScreen {
        match msg {
            Message::SetPassword(p) => LockScreen { password: p, ..self },
            Message::Submit => self,
        }
    }

    /// Records the typed password, whatever its length. `Submit` is decided
    /// by the application, which owns the database; here it changes nothing.
    pub fn update(&mut self, msg: Message)
        ensures
            *final(self) == old(self).after_input(msg),
            msg matches Message::SetPassword(p) ==> final(self).password == p
                && final(self).error == old(self).error,
            msg is Submit ==> *final(self) == *old(self),
    {
        match msg {
            Message::SetPassword(pass) => self.password = pass,
            Message::Submit => (),
        }
    }
}

} // verus!
