use password_manager::forms::lock_screen::{self, LockScreen};
use password_manager::forms::new_account_form::{self, FormMode, NewAccountForm};
use password_manager::forms::new_totp_form::{self, NewTotpForm};
use password_manager::forms::welcome_screen::{self, WelcomeScreen};
use password_manager::forms::LoginType;
use password_manager::models::account::{Account, AccountValidationError};
use password_manager::models::totp::TotpValidationError;
use password_manager::password_screen::account_card::{self, AccountCard};
use password_manager::password_screen::new_account_form as typed_form;

fn s(text: &str) -> String {
    text.to_string()
}

fn filled_account_form(site: &str, login: &str, password: &str) -> NewAccountForm {
    let mut form = NewAccountForm::default();
    form.update(new_account_form::Message::SetSiteName(s(site)));
    form.update(new_account_form::Message::SetLogin(s(login)));
    form.update(new_account_form::Message::SetPassword(s(password)));
    form
}

fn assert_blank(form: &NewAccountForm) {
    assert!(form.mode == FormMode::Create);
    assert!(form.site_name.is_empty() && form.login.is_empty() && form.password.is_empty());
    assert!(form.error.is_none());
}

#[test]
fn lock_screen_records_password_and_ignores_submit() {
    let mut screen = LockScreen::default();
    screen.update(lock_screen::Message::SetPassword(s("hunter22")));
    assert_eq!(screen.password, "hunter22");
    screen.update(lock_screen::Message::Submit);
    assert_eq!(screen.password, "hunter22");
    assert!(screen.error.is_none());
}

#[test]
fn welcome_screen_records_both_passwords() {
    let mut screen = WelcomeScreen::default();
    screen.update(welcome_screen::Message::SetPassword(s("one")));
    screen.update(welcome_screen::Message::SetPasswordRepeat(s("two")));
    screen.update(welcome_screen::Message::Submit);
    assert_eq!(screen.password, "one");
    assert_eq!(screen.password_repeat, "two");
    assert!(screen.error.is_none());
}

#[test]
fn login_types_default_to_username() {
    assert!(LoginType::default() == LoginType::Username);
    assert!(typed_form::LoginType::default() == typed_form::LoginType::Username);
}

#[test]
fn create_account_takes_the_fields_and_clears_the_form() {
    let mut form = filled_account_form("example.com", "alice", "pw");
    form.update(new_account_form::Message::Submit);
    form.update(new_account_form::Message::Cancel);
    let acc = form.create_account().unwrap();
    assert_eq!(acc.site_name(), "example.com");
    assert_eq!(acc.login(), "alice");
    assert_eq!(acc.password(), "pw");
    assert_blank(&form);
}

#[test]
fn create_account_with_empty_login_fails_and_clears_the_form() {
    let mut form = filled_account_form("example.com", "", "pw");
    assert_eq!(form.create_account().err(), Some(AccountValidationError::EmptyLogin));
    assert_blank(&form);
}

#[test]
fn init_modify_then_modify_keeps_the_account() {
    let mut acc = Account::new(s("example.com"), s("alice"), s("pw")).unwrap();
    let id = acc.id();
    let mut form = NewAccountForm::default();
    form.init_modify(&acc);
    assert!(form.mode == FormMode::Modify(id));
    assert_eq!(form.site_name, "example.com");
    assert_eq!(form.login, "alice");
    assert_eq!(form.password, "pw");
    assert_eq!(form.modify_account(&mut acc), Ok(()));
    assert_eq!(acc.id(), id);
    assert_eq!(acc.site_name(), "example.com");
    assert_eq!(acc.login(), "alice");
    assert_eq!(acc.password(), "pw");
    assert_blank(&form);
}

#[test]
fn modify_account_stops_at_first_empty_field() {
    let mut acc = Account::new(s("old-site"), s("old-login"), s("old-pw")).unwrap();
    let mut form = filled_account_form("new-site", "", "new-pw");
    assert_eq!(form.modify_account(&mut acc), Err(AccountValidationError::EmptyLogin));
    // the site name was already written when the login was refused
    assert_eq!(acc.site_name(), "new-site");
    assert_eq!(acc.login(), "old-login");
    assert_eq!(acc.password(), "old-pw");
    assert_blank(&form);
}

#[test]
fn totp_form_creates_key_and_clears() {
    let mut form = NewTotpForm::default();
    form.update(new_totp_form::Message::SetSiteName(s("site")));
    form.update(new_totp_form::Message::SetLogin(s("login")));
    form.update(new_totp_form::Message::SetSecret(s("GEZDGNBVGY3TQOJQGEZDGNBVGY3TQOJQ")));
    let key = form.create_totp().unwrap();
    assert_eq!(key.secret(), b"12345678901234567890");
    assert!(form.site_name.is_empty() && form.login.is_empty() && form.secret.is_empty());
}

#[test]
fn totp_form_reports_bad_secret() {
    let mut form = NewTotpForm::default();
    form.update(new_totp_form::Message::SetSiteName(s("site")));
    form.update(new_totp_form::Message::SetLogin(s("login")));
    form.update(new_totp_form::Message::SetSecret(s("0189")));
    assert_eq!(form.create_totp().err(), Some(TotpValidationError::BadSecret));
}

#[test]
fn typed_account_form_records_login_type() {
    let mut form = typed_form::NewAccountForm::default();
    form.update(typed_form::Message::SetLoginType(typed_form::LoginType::Email));
    form.update(typed_form::Message::SetLogin(s("a@b.c")));
    form.update(typed_form::Message::Submit);
    assert!(form.login_type == typed_form::LoginType::Email);
    assert_eq!(form.login, "a@b.c");
    assert!(form.modify_id.is_none());
}

#[test]
fn account_card_toggle_twice_restores() {
    let acc = Account::new(s("a"), s("b"), s("c")).unwrap();
    let mut card = AccountCard::new(acc);
    assert!(!card.password_visible());
    card.update(account_card::Message::TogglePasswordVisibility);
    assert!(card.password_visible());
    card.update(account_card::Message::ModifyAccount);
    card.update(account_card::Message::DeleteAccount);
    assert!(card.password_visible());
    card.update(account_card::Message::TogglePasswordVisibility);
    assert!(!card.password_visible());
    assert_eq!(card.account.site_name(), "a");
}
