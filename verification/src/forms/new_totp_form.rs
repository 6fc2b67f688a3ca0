//! The form that creates a TOTP key.
use vstd::prelude::*;
use crate::models::totp::{
    base32_decoded, is_base32_text, is_new_key_result, totp_creation_fails, TotpKey,
    TotpValidationError,
};

verus! {

pub struct NewTotpForm {
    pub site_name: String,
    pub login: String,
    pub secret: String,
    pub error: Option<&'static str>,
}

impl Default for NewTotpForm {
    fn default() -> (r: Self)
        ensures
            r.is_blank(),
    {
        NewTotpForm {
            site_name: String::new(),
            login: String::new(),
            secret: String::new(),
            error: None,
        }
    }
}

#[derive(Clone)]
pub enum Message {
    SetSiteName(String),
    SetLogin(String),
    SetSecret(String),
    Submit,
    Cancel,
}

impl NewTotpForm {
    /// All fields empty and the given error shown.
    pub open spec fn is_cleared_with(&self, error: Option<&'static str>) -> bool {
        &&& self.site_name@.len() == 0
        &&& self.login@.len() == 0
        &&& self.secret@.len() == 0
        &&& self.error == error
    }

    /// All fields empty and no error.
    pub open spec fn is_blank(&self) -> bool {
        self.is_cleared_with(None)
    }

    /// Whether creating a key from the typed fields stops the program
    /// (see `TotpKey::new`).
    pub open spec fn creation_fails(&self) -> bool {
        totp_creation_fails(self.site_name@, self.login@, self.secret@)
    }

    /// Takes the typed fields, leaving the form blank, and creates a key from
    /// them.
    pub fn create_totp(&mut self) -> (res: Result<TotpKey, TotpValidationError>)
        requires
            !old(self).creation_fails(),
        ensures
            final(self).is_blank(),
            is_new_key_result(res, old(self).site_name@, old(self).login@, old(self).secret@),
            res is Ok <==> (old(self).site_name@.len() > 0 && old(self).login@.len() > 0
                && is_base32_text(old(self).secret@)),
            res matches Ok(k) ==> k@.site_name == old(self).site_name@ && k@.login == old(
                self,
            ).login@ && k@.secret == base32_decoded(old(self).secret@),
    {
        let mut form = NewTotpForm::default();
        std::mem::swap(&mut form, self);
        TotpKey::new(form.site_name, form.login, form.secret)
    }

    /// The form after a typed field is recorded.
    pub open spec fn after_input(self, msg: Message) -> NewTotpForm {
        match msg {
            Message::SetSiteName(s) => NewTotpForm { site_name: s, ..self },
            Message::SetLogin(s) => NewTotpForm { login: s, ..self },
            Message::SetSecret(s) => NewTotpForm { secret: s, ..self },
            _ => self,
        }
    }

    /// Records a typed field; `Submit` and `Cancel` change nothing here.
    pub fn update(&mut self, msg: Message)
        ensures
            *final(self) == old(self).after_input(msg),
            msg matches Message::SetSiteName(s) ==> final(self).site_name == s
                && final(self).login == old(self).login && final(self).secret == old(self).secret
                && final(self).error == old(self).error,
            msg matches Message::SetLogin(s) ==> final(self).login == s
                && final(self).site_name == old(self).site_name
                && final(self).secret == old(self).secret && final(self).error == old(self).error,
            msg matches Message::SetSecret(s) ==> final(self).secret == s
                && final(self).site_name == old(self).site_name
                && final(self).login == old(self).login && final(self).error == old(self).error,
            (msg is Submit || msg is Cancel) ==> *final(self) == *old(self),
    {
        match msg {
            Message::SetSiteName(site_name) => self.site_name = site_name,
            Message::SetLogin(login) => self.login = login,
            Message::SetSecret(secret) => self.secret = secret,
            _ => (),
        }
    }
}

} // verus!
