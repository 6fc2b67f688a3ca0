//! The form that creates an account or edits an existing one.
use vstd::prelude::*;
use crate::models::account::{
    account_fields_error, account_is_complete, is_new_account_result, Account, AccountData,
    AccountValidationError,
};

verus! {

/// Whether the form creates a new account or edits the account with the
/// given identifier.
#[derive(Clone, Copy, PartialEq, Eq, Structural)]
pub enum FormMode {
    Create,
    Modify(u128),
}

pub struct NewAccountForm {
    pub mode: FormMode,
    pub site_name: String,
    pub login: String,
    pub password: String,
    pub error: Option<&'static str>,
}

impl Default for NewAccountForm {
    fn default() -> (r: Self)
        ensures
            r.is_blank(),
    {
        NewAccountForm {
            mode: FormMode::Create,
            site_name: String::new(),
            login: String::new(),
            password: String::new(),
            error: None,
        }
    }
}

#[derive(Clone)]
pub enum Message {
    SetSiteName(String),
    SetLogin(String),
    SetPassword(String),
    Submit,
    Cancel,
}

/// The account after an edit with the three typed fields: the setters run in
/// the order site name, login, password and stop at the first empty field,
/// so the fields before it are already changed.
pub open spec fn apply_edit(
    a: AccountData,
    site_name: Seq<char>,
    login: Seq<char>,
    password: Seq<char>,
) -> AccountData {
    if site_name.len() == 0 {
        a
    } else if login.len() == 0 {
        AccountData { site_name, ..a }
    } else if password.len() == 0 {
        AccountData { site_name, login, ..a }
    } else {
        AccountData { site_name, login, password, ..a }
    }
}

impl NewAccountForm {
    /// Creating, all fields empty, and the given error shown.
    pub open spec fn is_cleared_with(&self, error: Option<&'static str>) -> bool {
        &&& self.mode == FormMode::Create
        &&& self.site_name@.len() == 0
        &&& self.login@.len() == 0
        &&& self.password@.len() == 0
        &&& self.error == error
    }

    /// The form as it is first shown: creating, all fields empty, no error.
    pub open spec fn is_blank(&self) -> bool {
        self.is_cleared_with(None)
    }

    /// Takes the typed fields, leaving the form blank, and creates an account
    /// from them.
    pub fn create_account(&mut self) -> (res: Result<Account, AccountValidationError>)
        ensures
            final(self).is_blank(),
            is_new_account_result(res, old(self).site_name@, old(self).login@, old(self).password@),
            res is Ok <==> (old(self).site_name@.len() > 0 && old(self).login@.len() > 0
                && old(self).password@.len() > 0),
            res matches Ok(a) ==> a@.site_name == old(self).site_name@ && a@.login == old(
                self,
            ).login@ && a@.password == old(self).password@,
    {
        let mut form = NewAccountForm::default();
        std::mem::swap(&mut form, self);
        Account::new(form.site_name, form.login, form.password)
    }

    /// Fills the form with an account's fields, to edit that account.
    pub fn init_modify(&mut self, acc: &Account)
        ensures
            final(self).mode == FormMode::Modify(acc@.id),
            final(self).site_name@ == acc@.site_name,
            final(self).login@ == acc@.login,
            final(self).password@ == acc@.password,
            final(self).error is None,
    {
        self.mode = FormMode::Modify(acc.id());
        self.site_name = acc.site_name().to_string();
        self.login = acc.login().to_string();
        self.password = acc.password().to_string();
        self.error = None;
    }

    /// Takes the typed fields, leaving the form blank, and writes them into
    /// the account one after the other, stopping at the first empty one.
    /// When all three are filled in, the account holds exactly the typed
    /// site name, login and password afterwards, under the same identifier.
    pub fn modify_account(&mut self, acc: &mut Account) -> (res: Result<(), AccountValidationError>)
        ensures
            final(self).is_blank(),
            final(acc)@.id == old(acc)@.id,
            res is Ok <==> (old(self).site_name@.len() > 0 && old(self).login@.len() > 0
                && old(self).password@.len() > 0),
            res is Ok ==> final(acc)@ == (AccountData {
                id: old(acc)@.id,
                site_name: old(self).site_name@,
                login: old(self).login@,
                password: old(self).password@,
            }),
            final(acc)@.site_name == (if old(self).site_name@.len() > 0 {
                old(self).site_name@
            } else {
                old(acc)@.site_name
            }),
            final(acc)@.login == (if old(self).site_name@.len() > 0 && old(self).login@.len() > 0 {
                old(self).login@
            } else {
                old(acc)@.login
            }),
            final(acc)@.password == (if old(self).site_name@.len() > 0 && old(self).login@.len() > 0
                && old(self).password@.len() > 0 {
                old(self).password@
            } else {
                old(acc)@.password
            }),
            final(acc)@ == apply_edit(
                old(acc)@,
                old(self).site_name@,
                old(self).login@,
                old(self).password@,
            ),
            match res {
                Ok(()) => account_fields_error(
                    old(self).site_name@,
                    old(self).login@,
                    old(self).password@,
                ) is None,
                Err(e) => account_fields_error(
                    old(self).site_name@,
                    old(self).login@,
                    old(self).password@,
                ) == Some(e),
            },
    {
        let mut form = NewAccountForm::default();
        std::mem::swap(&mut form, self);
        acc.set_site_name(form.site_name)?;
        acc.set_login(form.login)?;
        acc.set_password(form.password)?;
        Ok(())
    }

    /// The form after a typed field is recorded.
    pub open spec fn after_input(self, msg: Message) -> NewAccountForm {
        match msg {
            Message::SetSiteName(s) => NewAccountForm { site_name: s, ..self },
            Message::SetLogin(s) => NewAccountForm { login: s, ..self },
            Message::SetPassword(s) => NewAccountForm { password: s, ..self },
            _ => self,
        }
    }

    /// Records a typed field; `Submit` and `Cancel` are decided by the screen
    /// that holds the form, and change nothing here.
    pub fn update(&mut self, msg: Message)
        ensures
            *final(self) == old(self).after_input(msg),
            final(self).mode == old(self).mode,
            final(self).error == old(self).error,
            msg matches Message::SetSiteName(s) ==> final(self).site_name == s
                && final(self).login == old(self).login
                && final(self).password == old(self).password,
            msg matches Message::SetLogin(s) ==> final(self).login == s
                && final(self).site_name == old(self).site_name
                && final(self).password == old(self).password,
            msg matches Message::SetPassword(s) ==> final(self).password == s
                && final(self).site_name == old(self).site_name
                && final(self).login == old(self).login,
            (msg is Submit || msg is Cancel) ==> *final(self) == *old(self),
    {
        match msg {
            Message::SetSiteName(site_name) => self.site_name = site_name,
            Message::SetLogin(login) => self.login = login,
            Message::SetPassword(password) => self.password = password,
            _ => (),
        }
    }
}

/// Editing an account with the fields that `init_modify` put in the form,
/// unchanged, succeeds and leaves the account as it was.
pub proof fn lemma_unchanged_edit_keeps_account(a: AccountData)
    requires
        account_is_complete(a),
    ensures
        apply_edit(a, a.site_name, a.login, a.password) == a,
        account_fields_error(a.site_name, a.login, a.password) is None,
{
}

/// An edit with all three fields filled in leaves the account holding
/// exactly those fields under its own identifier.
pub proof fn lemma_complete_edit_writes_fields(
    a: AccountData,
    site_name: Seq<char>,
    login: Seq<char>,
    password: Seq<char>,
)
    requires
        site_name.len() > 0,
        login.len() > 0,
        password.len() > 0,
    ensures
        apply_edit(a, site_name, login, password) == (AccountData {
            id: a.id,
            site_name,
            login,
            password,
        }),
        account_fields_error(site_name, login, password) is None,
{
}

} // verus!
