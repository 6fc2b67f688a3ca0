//! Website accounts: a site name, a login and a password under a random
//! identifier. All three text fields must be non-empty.
use vstd::prelude::*;
use crate::models::ids::{id_to_text, is_random_uuid, new_random_id, parse_id, uuid_parsed, uuid_text};

verus! {

/// Why an account's fields were refused.
#[derive(Debug, PartialEq, Eq, Structural)]
pub enum AccountValidationError {
    EmptySiteName,
    EmptyLogin,
    EmptyPassword,
}

/// The database refused to store an account (most often because another
/// account has the same site name and login).
#[derive(Debug, PartialEq, Eq, Structural)]
pub struct AccountSaveError;

/// The database did not delete exactly one row for an account.
#[derive(Debug, PartialEq, Eq, Structural)]
pub struct AccountDeleteError;

/// The abstract content of an account.
pub struct AccountData {
    pub id: u128,
    pub site_name: Seq<char>,
    pub login: Seq<char>,
    pub password: Seq<char>,
}

/// A website account.
pub struct Account {
    id: u128,
    site_name: String,
    login: String,
    password: String,
}

impl View for Account {
    type V = AccountData;

    closed spec fn view(&self) -> AccountData {
        AccountData {
            id: self.id,
            site_name: self.site_name@,
            login: self.login@,
            password: self.password@,
        }
    }
}

/// The first field, in the order site name, login, password, that is
/// empty, reported as the error for it; `None` when all are filled in.
pub open spec fn account_fields_error(
    site_name: Seq<char>,
    login: Seq<char>,
    password: Seq<char>,
) -> Option<AccountValidationError> {
    if site_name.len() == 0 {
        Some(AccountValidationError::EmptySiteName)
    } else if login.len() == 0 {
        Some(AccountValidationError::EmptyLogin)
    } else if password.len() == 0 {
        Some(AccountValidationError::EmptyPassword)
    } else {
        None
    }
}

/// What `Account::new` gives for the three fields: the first error, or an
/// account holding exactly those fields under a random identifier.
pub open spec fn is_new_account_result(
    res: Result<Account, AccountValidationError>,
    site_name: Seq<char>,
    login: Seq<char>,
    password: Seq<char>,
) -> bool {
    match res {
        Ok(a) => {
            &&& account_fields_error(site_name, login, password) is None
            &&& a@.site_name == site_name
            &&& a@.login == login
            &&& a@.password == password
            &&& is_random_uuid(a@.id)
        },
        Err(e) => account_fields_error(site_name, login, password) == Some(e),
    }
}

/// An account that has every field filled in.
pub open spec fn account_is_complete(a: AccountData) -> bool {
    account_fields_error(a.site_name, a.login, a.password) is None
}

impl Account {
    /// Creates an account under a fresh random identifier, after checking
    /// that the site name, the login and the password are not empty.
    pub fn new(site_name: String, login: String, password: String) -> (res: Result<
        Self,
        AccountValidationError,
    >)
        ensures
            is_new_account_result(res, site_name@, login@, password@),
            res is Ok <==> (site_name@.len() > 0 && login@.len() > 0 && password@.len() > 0),
            res matches Ok(a) ==> a@.site_name == site_name@ && a@.login == login@
                && a@.password == password@,
    {
        Self::validate_site_name(site_name.as_str())?;
        Self::validate_login(login.as_str())?;
        Self::validate_password(password.as_str())?;

        Ok(Self { id: new_random_id(), site_name, login, password })
    }

    /// Rebuilds an account from a stored row: the identifier's text and the
    /// three fields. Gives `None` when the identifier does not parse. A row
    /// whose identifier is the text that `id_text` wrote reads back as the
    /// account with that identifier and those fields.
    pub fn from_row(id: &str, site_name: String, login: String, password: String) -> (res: Option<
        Self,
    >)
        ensures
            res is Some <==> uuid_parsed(id@) is Some,
            res matches Some(a) ==> {
                &&& uuid_parsed(id@) == Some(a@.id)
                &&& a@.site_name == site_name@
                &&& a@.login == login@
                &&& a@.password == password@
            },
            forall|x: u128|
                id@ == uuid_text(x) ==> (res matches Some(a) && a@ == (AccountData {
                    id: x,
                    site_name: site_name@,
                    login: login@,
                    password: password@,
                })),
    {
        match parse_id(id) {
            Some(id) => Some(Self { id, site_name, login, password }),
            None => None,
        }
    }

    /// The identifier's text as it is stored.
    pub fn id_text(&self) -> (text: String)
        ensures
            text@ == uuid_text(self@.id),
            uuid_parsed(text@) == Some(self@.id),
    {
        id_to_text(self.id)
    }

    /// Whether deleting an account succeeded, given the number of rows the
    /// database reports deleted, or `Err` when the statement failed.
    pub fn delete_outcome(deleted_rows: Result<usize, ()>) -> (res: Result<(), AccountDeleteError>)
        ensures
            res is Ok <==> deleted_rows == Ok::<usize, ()>(1),
    {
        match deleted_rows {
            Ok(count) => {
                if count == 1 {
                    Ok(())
                } else {
                    Err(AccountDeleteError)
                }
            },
            Err(_) => Err(AccountDeleteError),
        }
    }

    pub fn id(&self) -> (id: u128)
        ensures
            id == self@.id,
    {
        self.id
    }

    pub fn site_name(&self) -> (s: &str)
        ensures
            s@ == self@.site_name,
    {
        self.site_name.as_str()
    }

    pub fn login(&self) -> (s: &str)
        ensures
            s@ == self@.login,
    {
        self.login.as_str()
    }

    pub fn password(&self) -> (s: &str)
        ensures
            s@ == self@.password,
    {
        self.password.as_str()
    }

    /// Replaces the site name unless the new one is empty; on error the
    /// account is unchanged.
    pub fn set_site_name(&mut self, site_name: String) -> (res: Result<(), AccountValidationError>)
        ensures
            site_name@.len() == 0 ==> res == Err::<(), _>(AccountValidationError::EmptySiteName)
                && final(self)@ == old(self)@,
            site_name@.len() > 0 ==> res is Ok && final(self)@ == (AccountData {
                site_name: site_name@,
                ..old(self)@
            }),
    {
        Self::validate_site_name(site_name.as_str())?;
        self.site_name = site_name;
        Ok(())
    }

    /// Replaces the login unless the new one is empty; on error the account
    /// is unchanged.
    pub fn set_login(&mut self, login: String) -> (res: Result<(), AccountValidationError>)
        ensures
            login@.len() == 0 ==> res == Err::<(), _>(AccountValidationError::EmptyLogin)
                && final(self)@ == old(self)@,
            login@.len() > 0 ==> res is Ok && final(self)@ == (AccountData {
                login: login@,
                ..old(self)@
            }),
    {
        Self::validate_login(login.as_str())?;
        self.login = login;
        Ok(())
    }

    /// Replaces the password unless the new one is empty; on error the
    /// account is unchanged.
    pub fn set_password(&mut self, password: String) -> (res: Result<(), AccountValidationError>)
        ensures
            password@.len() == 0 ==> res == Err::<(), _>(AccountValidationError::EmptyPassword)
                && final(self)@ == old(self)@,
            password@.len() > 0 ==> res is Ok && final(self)@ == (AccountData {
                password: password@,
                ..old(self)@
            }),
    {
        Self::validate_password(password.as_str())?;
        self.password = password;
        Ok(())
    }

    fn validate_site_name(site_name: &str) -> (res: Result<(), AccountValidationError>)
        ensures
            res is Ok <==> site_name@.len() > 0,
            res is Err ==> res == Err::<(), _>(AccountValidationError::EmptySiteName),
    {
        if !site_name.is_empty() {
            Ok(())
        } else {
            Err(AccountValidationError::EmptySiteName)
        }
    }

    fn validate_login(login: &str) -> (res: Result<(), AccountValidationError>)
        ensures
            res is Ok <==> login@.len() > 0,
            res is Err ==> res == Err::<(), _>(AccountValidationError::EmptyLogin),
    {
        if !login.is_empty() {
            Ok(())
        } else {
            Err(AccountValidationError::EmptyLogin)
        }
    }

    fn validate_password(password: &str) -> (res: Result<(), AccountValidationError>)
        ensures
            res is Ok <==> password@.len() > 0,
            res is Err ==> res == Err::<(), _>(AccountValidationError::EmptyPassword),
    {
        if !password.is_empty() {
            Ok(())
        } else {
            Err(AccountValidationError::EmptyPassword)
        }
    }
}

} // verus!
