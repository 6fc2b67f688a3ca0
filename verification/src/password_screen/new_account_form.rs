//! An account form that also records whether the login is a user name or
//! an e-mail address.
use vstd::prelude::*;

verus! {

pub struct NewAccountForm {
    pub modify_id: Option<u128>,
    pub site_name: String,
    pub login: String,
    pub password: String,
    pub login_type: LoginType,
}

#[derive(Clone, Copy, PartialEq, Eq, Structural)]
pub enum LoginType {
    Username,
    Email,
}

impl Default for LoginType {
    fn default() -> (r: Self)
        ensures
            r == LoginType::Username,
    {
        LoginType::Username
    }
}

impl Default for NewAccountForm {
    fn default() -> (r: Self)
        ensures
            r.modify_id is None,
            r.site_name@.len() == 0,
            r.login@.len() == 0,
            r.password@.len() == 0,
            r.login_type == LoginType::Username,
    {
        NewAccountForm {
            modify_id: None,
            site_name: String::new(),
            login: String::new(),
            password: String::new(),
            login_type: LoginType::Username,
        }
    }
}

#[derive(Clone)]
pub enum Message {
    SetSiteName(String),
    SetLogin(String),
    SetPassword(String),
    SetLoginType(LoginType),
    Submit,
    Cancel,
}

impl NewAccountForm {
    /// The form after a typed field or a chosen login type is recorded.
    pub open spec fn after_input(self, msg: Message) -> NewAccountForm {
        match msg {
            Message::SetSiteName(s) => NewAccountForm { site_name: s, ..self },
            Message::SetLogin(s) => NewAccountForm { login: s, ..self },
            Message::SetPassword(s) => NewAccountForm { password: s, ..self },
            Message::SetLoginType(t) => NewAccountForm { login_type: t, ..self },
            _ => self,
        }
    }

    /// Records a typed field or the chosen login type; `Submit` and `Cancel`
    /// change nothing here.
    pub fn update(&mut self, msg: Message)
        ensures
            *final(self) == old(self).after_input(msg),
            final(self).modify_id == old(self).modify_id,
            msg matches Message::SetSiteName(s) ==> final(self).site_name == s
                && final(self).login == old(self).login
                && final(self).password == old(self).password
                && final(self).login_type == old(self).login_type,
            msg matches Message::SetLogin(s) ==> final(self).login == s
                && final(self).site_name == old(self).site_name
                && final(self).password == old(self).password
                && final(self).login_type == old(self).login_type,
            msg matches Message::SetPassword(s) ==> final(self).password == s
                && final(self).site_name == old(self).site_name
                && final(self).login == old(self).login
                && final(self).login_type == old(self).login_type,
            msg matches Message::SetLoginType(t) ==> final(self).login_type == t
                && final(self).site_name == old(self).site_name
                && final(self).login == old(self).login
                && final(self).password == old(self).password,
            (msg is Submit || msg is Cancel) ==> *final(self) == *old(self),
    {
        match msg {
            Message::SetSiteName(site_name) => self.site_name = site_name,
            Message::SetLogin(login) => self.login = login,
            Message::SetPassword(password) => self.password = password,
            Message::SetLoginType(login_type) => self.login_type = login_type,
            _ => (),
        }
    }
}

} // verus!
