use password_manager::forms::new_account_form::{self as account_form, FormMode};
use password_manager::forms::new_totp_form as totp_form;
use password_manager::models::account::{Account, AccountSaveError};
use password_manager::models::totp::{TotpKey, TotpSaveError};
use password_manager::password_screen::{self, account_card, PasswordScreen};
use password_manager::totp_screen::{self, totp_card, TotpScreen};
use password_manager::unlocked_screen::{self, CurrentPage, UnlockedScreen};

const RFC_SECRET: &str = "GEZDGNBVGY3TQOJQGEZDGNBVGY3TQOJQ";

fn s(text: &str) -> String {
    text.to_string()
}

fn form_msg(m: account_form::Message) -> password_screen::Message {
    password_screen::Message::NewAccountFormMessage(m)
}

fn fill(screen: &mut PasswordScreen, site: &str, login: &str, password: &str) {
    for m in [
        account_form::Message::SetSiteName(s(site)),
        account_form::Message::SetLogin(s(login)),
        account_form::Message::SetPassword(s(password)),
    ] {
        assert!(matches!(screen.update(form_msg(m)), password_screen::Command::Nothing));
    }
}

#[test]
fn password_screen_new_files_accounts_by_id() {
    let a = Account::new(s("a"), s("1"), s("x")).unwrap();
    let b = Account::new(s("b"), s("2"), s("y")).unwrap();
    let (ida, idb) = (a.id(), b.id());
    let text = a.id_text();
    let a2 = Account::from_row(&text, s("a-later"), s("1"), s("x")).unwrap();
    let screen = PasswordScreen::new(vec![a, b, a2]);
    let cards = screen.account_cards();
    assert_eq!(cards.len(), 2);
    assert_eq!(cards[&ida].account.site_name(), "a-later");
    assert_eq!(cards[&idb].account.site_name(), "b");
    assert!(!cards[&ida].password_visible());
    assert!(!screen.new_account_form_opened());
}

#[test]
fn creating_an_account_saves_then_files_the_card() {
    let mut screen = PasswordScreen::new(vec![]);
    assert!(matches!(screen.update(password_screen::Message::OpenNewAccount), password_screen::Command::Nothing));
    assert!(screen.new_account_form_opened());
    fill(&mut screen, "example.com", "alice", "pw");
    let msg = form_msg(account_form::Message::Submit);
    assert!(screen.can_handle(&msg));
    let acc = match screen.update(msg) {
        password_screen::Command::SaveNewAccount(acc) => acc,
        _ => panic!("expected a save"),
    };
    assert_eq!(acc.site_name(), "example.com");
    assert!(screen.new_account_form().site_name.is_empty());
    let id = acc.id();
    screen.finish_create(acc, Ok(()));
    assert!(!screen.new_account_form_opened());
    assert_eq!(screen.account_cards()[&id].account.login(), "alice");
}

#[test]
fn failed_save_of_new_account_changes_nothing() {
    let mut screen = PasswordScreen::new(vec![]);
    screen.update(password_screen::Message::OpenNewAccount);
    fill(&mut screen, "example.com", "alice", "pw");
    let acc = match screen.update(form_msg(account_form::Message::Submit)) {
        password_screen::Command::SaveNewAccount(acc) => acc,
        _ => panic!("expected a save"),
    };
    screen.finish_create(acc, Err(AccountSaveError));
    assert!(screen.account_cards().is_empty());
    assert!(screen.new_account_form_opened());
    assert!(screen.new_account_form().error.is_none());
}

#[test]
fn each_validation_error_shows_its_message() {
    let cases = [
        ("", "l", "p", password_screen::EMPTY_SITE_NAME_MESSAGE),
        ("s", "", "p", password_screen::EMPTY_LOGIN_MESSAGE),
        ("s", "l", "", password_screen::EMPTY_PASSWORD_MESSAGE),
    ];
    for (site, login, password, message) in cases {
        let mut screen = PasswordScreen::new(vec![]);
        screen.update(password_screen::Message::OpenNewAccount);
        fill(&mut screen, site, login, password);
        assert!(matches!(
            screen.update(form_msg(account_form::Message::Submit)),
            password_screen::Command::Nothing
        ));
        let form = screen.new_account_form();
        assert_eq!(form.error, Some(message));
        assert!(form.site_name.is_empty() && form.login.is_empty() && form.password.is_empty());
        assert!(screen.new_account_form_opened());
    }
    assert_eq!(password_screen::EMPTY_SITE_NAME_MESSAGE, "Пустое название сайта");
}

#[test]
fn editing_an_account_saves_the_card_in_place() {
    let acc = Account::new(s("old"), s("alice"), s("pw")).unwrap();
    let id = acc.id();
    let mut screen = PasswordScreen::new(vec![acc]);
    screen.update(password_screen::Message::AccountCardMessage(id, account_card::Message::ModifyAccount));
    assert!(screen.new_account_form_opened());
    assert!(screen.new_account_form().mode == FormMode::Modify(id));
    assert_eq!(screen.new_account_form().site_name, "old");
    screen.update(form_msg(account_form::Message::SetSiteName(s("new"))));
    match screen.update(form_msg(account_form::Message::Submit)) {
        password_screen::Command::SaveAccount(i) => assert_eq!(i, id),
        _ => panic!("expected a save"),
    }
    assert_eq!(screen.account_cards()[&id].account.site_name(), "new");
    screen.finish_modify(Err(AccountSaveError));
    assert_eq!(screen.new_account_form().error, Some(password_screen::DUPLICATE_ACCOUNT_MESSAGE));
    assert!(screen.new_account_form_opened());
    screen.finish_modify(Ok(()));
    assert!(!screen.new_account_form_opened());
}

#[test]
fn deleting_an_account_removes_its_card() {
    let acc = Account::new(s("site"), s("alice"), s("pw")).unwrap();
    let id = acc.id();
    let mut screen = PasswordScreen::new(vec![acc]);
    let msg = password_screen::Message::AccountCardMessage(id, account_card::Message::DeleteAccount);
    assert!(screen.can_handle(&msg));
    match screen.update(msg) {
        password_screen::Command::DeleteAccount(a) => assert_eq!(a.id(), id),
        _ => panic!("expected a delete"),
    }
    assert!(screen.account_cards().is_empty());
    let again = password_screen::Message::AccountCardMessage(id, account_card::Message::DeleteAccount);
    assert!(!screen.can_handle(&again));
}

#[test]
fn toggling_a_card_changes_only_that_card() {
    let a = Account::new(s("a"), s("1"), s("x")).unwrap();
    let b = Account::new(s("b"), s("2"), s("y")).unwrap();
    let (ida, idb) = (a.id(), b.id());
    let mut screen = PasswordScreen::new(vec![a, b]);
    screen.update(password_screen::Message::AccountCardMessage(
        ida,
        account_card::Message::TogglePasswordVisibility,
    ));
    assert!(screen.account_cards()[&ida].password_visible());
    assert!(!screen.account_cards()[&idb].password_visible());
}

#[test]
fn cancel_closes_and_clears_the_form() {
    let mut screen = PasswordScreen::new(vec![]);
    screen.update(password_screen::Message::OpenNewAccount);
    fill(&mut screen, "x", "y", "z");
    screen.update(form_msg(account_form::Message::Cancel));
    assert!(!screen.new_account_form_opened());
    assert!(screen.new_account_form().site_name.is_empty());
}

fn rfc_key() -> TotpKey {
    TotpKey::new(s("site"), s("login"), s(RFC_SECRET)).unwrap()
}

#[test]
fn totp_screen_new_shows_codes_and_starts_countdown() {
    let key = rfc_key();
    let id = key.id();
    let screen = TotpScreen::new(vec![key], 59);
    assert_eq!(screen.timer(), 29);
    assert_eq!(screen.keys()[&id].current_code, "287082");
    assert!(!screen.new_totp_form_opened());
}

#[test]
fn ticks_refresh_codes_at_the_end_of_the_period() {
    let key = rfc_key();
    let id = key.id();
    let mut screen = TotpScreen::new(vec![key], 1234567860);
    assert_eq!(screen.timer(), 0);
    for n in 1..30u64 {
        screen.update(totp_screen::Message::Tick(1234567860 + n));
        assert_eq!(screen.timer() as u64, n);
    }
    let before = screen.keys()[&id].current_code.clone();
    screen.update(totp_screen::Message::Tick(1234567890));
    assert_eq!(screen.timer(), 0);
    assert_eq!(screen.keys()[&id].current_code, "005924");
    assert_ne!(before, "005924");
}

#[test]
fn adding_a_key_and_duplicate_error() {
    let mut screen = TotpScreen::new(vec![], 0);
    screen.update(totp_screen::Message::OpenNewTotp);
    for m in [
        totp_form::Message::SetSiteName(s("site")),
        totp_form::Message::SetLogin(s("login")),
        totp_form::Message::SetSecret(s(RFC_SECRET)),
    ] {
        screen.update(totp_screen::Message::NewTotpFormMessage(m));
    }
    let msg = totp_screen::Message::NewTotpFormMessage(totp_form::Message::Submit);
    assert!(screen.can_handle(&msg));
    let key = match screen.update(msg) {
        totp_screen::Command::SaveNewKey(k) => k,
        _ => panic!("expected a save"),
    };
    let id = key.id();
    screen.finish_create(key, Ok(()), 59);
    assert_eq!(screen.keys()[&id].current_code, "287082");
    assert!(!screen.new_totp_form_opened());

    let other = rfc_key();
    screen.update(totp_screen::Message::OpenNewTotp);
    screen.finish_create(other, Err(TotpSaveError), 59);
    assert_eq!(screen.keys().len(), 1);
    assert_eq!(screen.new_totp_form().error, Some(totp_screen::DUPLICATE_KEY_MESSAGE));
}

#[test]
fn short_secret_submit_is_not_handled() {
    let mut screen = TotpScreen::new(vec![], 0);
    for m in [
        totp_form::Message::SetSiteName(s("site")),
        totp_form::Message::SetLogin(s("login")),
        totp_form::Message::SetSecret(s("JBSWY3DPEHPK3PXP")),
    ] {
        screen.update(totp_screen::Message::NewTotpFormMessage(m));
    }
    let msg = totp_screen::Message::NewTotpFormMessage(totp_form::Message::Submit);
    assert!(!screen.can_handle(&msg));
}

#[test]
fn totp_validation_errors_show_messages() {
    let mut screen = TotpScreen::new(vec![], 0);
    screen.update(totp_screen::Message::OpenNewTotp);
    screen.update(totp_screen::Message::NewTotpFormMessage(totp_form::Message::SetSiteName(s("site"))));
    screen.update(totp_screen::Message::NewTotpFormMessage(totp_form::Message::SetLogin(s("login"))));
    screen.update(totp_screen::Message::NewTotpFormMessage(totp_form::Message::SetSecret(s("??"))));
    assert!(matches!(
        screen.update(totp_screen::Message::NewTotpFormMessage(totp_form::Message::Submit)),
        totp_screen::Command::Nothing
    ));
    assert_eq!(screen.new_totp_form().error, Some(totp_screen::BAD_SECRET_MESSAGE));
    screen.update(totp_screen::Message::NewTotpFormMessage(totp_form::Message::Submit));
    assert_eq!(screen.new_totp_form().error, Some(totp_screen::EMPTY_SITE_NAME_MESSAGE));
    screen.update(totp_screen::Message::NewTotpFormMessage(totp_form::Message::SetSiteName(s("x"))));
    screen.update(totp_screen::Message::NewTotpFormMessage(totp_form::Message::Submit));
    assert_eq!(screen.new_totp_form().error, Some(totp_screen::EMPTY_LOGIN_MESSAGE));
    screen.update(totp_screen::Message::NewTotpFormMessage(totp_form::Message::Cancel));
    assert!(!screen.new_totp_form_opened());
}

#[test]
fn deleting_a_key_removes_its_card() {
    let key = rfc_key();
    let id = key.id();
    let mut screen = TotpScreen::new(vec![key], 0);
    match screen.update(totp_screen::Message::TotpCardMessage(id, totp_card::Message::Delete)) {
        totp_screen::Command::DeleteKey(k) => assert_eq!(k.id(), id),
        _ => panic!("expected a delete"),
    }
    assert!(screen.keys().is_empty());
}

#[test]
fn unlocked_screen_routes_messages_to_pages() {
    let acc = Account::new(s("site"), s("alice"), s("pw")).unwrap();
    let id = acc.id();
    let key = rfc_key();
    let mut screen = UnlockedScreen::new(vec![acc], vec![key], 59);
    assert!(screen.current_page() == CurrentPage::PasswordScreen);
    assert!(matches!(
        screen.update(unlocked_screen::Message::SetPage(CurrentPage::CodeScreen)),
        unlocked_screen::Command::Nothing
    ));
    assert!(screen.current_page() == CurrentPage::CodeScreen);
    let cmd = screen.update(unlocked_screen::Message::PasswordScreenMessage(
        password_screen::Message::AccountCardMessage(id, account_card::Message::DeleteAccount),
    ));
    assert!(matches!(cmd, unlocked_screen::Command::Accounts(password_screen::Command::DeleteAccount(_))));
    assert!(screen.password_screen().account_cards().is_empty());
    assert_eq!(screen.totp_screen().keys().len(), 1);
    let cmd = screen.update(unlocked_screen::Message::TotpScreenMessage(totp_screen::Message::Tick(60)));
    assert!(matches!(cmd, unlocked_screen::Command::Keys(totp_screen::Command::Nothing)));
    assert_eq!(screen.totp_screen().timer(), 0);
}

#[test]
fn unchanged_edit_saves_the_same_account() {
    let acc = Account::new(s("site"), s("alice"), s("pw")).unwrap();
    let id = acc.id();
    let mut screen = PasswordScreen::new(vec![acc]);
    screen.update(password_screen::Message::AccountCardMessage(id, account_card::Message::ModifyAccount));
    match screen.update(form_msg(account_form::Message::Submit)) {
        password_screen::Command::SaveAccount(i) => assert_eq!(i, id),
        _ => panic!("expected a save"),
    }
    let card = &screen.account_cards()[&id];
    assert_eq!(card.account.site_name(), "site");
    assert_eq!(card.account.login(), "alice");
    assert_eq!(card.account.password(), "pw");
    assert!(screen.new_account_form().mode == FormMode::Create);
}

#[test]
fn delete_undoes_create() {
    let existing = Account::new(s("x"), s("y"), s("z")).unwrap();
    let existing_id = existing.id();
    let mut screen = PasswordScreen::new(vec![existing]);
    let acc = Account::new(s("site"), s("alice"), s("pw")).unwrap();
    let id = acc.id();
    screen.finish_create(acc, Ok(()));
    assert_eq!(screen.account_cards().len(), 2);
    match screen.update(password_screen::Message::AccountCardMessage(id, account_card::Message::DeleteAccount)) {
        password_screen::Command::DeleteAccount(a) => assert_eq!(a.id(), id),
        _ => panic!("expected a delete"),
    }
    assert_eq!(screen.account_cards().len(), 1);
    assert!(screen.account_cards().contains_key(&existing_id));

    let mut codes = TotpScreen::new(vec![], 0);
    let key = rfc_key();
    let kid = key.id();
    codes.finish_create(key, Ok(()), 0);
    codes.update(totp_screen::Message::TotpCardMessage(kid, totp_card::Message::Delete));
    assert!(codes.keys().is_empty());
}

#[test]
fn card_shows_mask_until_toggled() {
    let acc = Account::new(s("site"), s("alice"), s("hunter2")).unwrap();
    let mut card = account_card::AccountCard::new(acc);
    assert_eq!(card.shown_password(), account_card::PASSWORD_MASK);
    assert_eq!(account_card::PASSWORD_MASK, "*************");
    card.update(account_card::Message::TogglePasswordVisibility);
    assert_eq!(card.shown_password(), "hunter2");
}

#[test]
fn unlocked_screen_new_shows_codes_at_now_with_blank_forms() {
    let key = rfc_key();
    let id = key.id();
    let acc = Account::new(s("site"), s("alice"), s("pw")).unwrap();
    let aid = acc.id();
    let screen = UnlockedScreen::new(vec![acc], vec![key], 59);
    assert_eq!(screen.totp_screen().keys()[&id].current_code, "287082");
    assert!(!screen.password_screen().account_cards()[&aid].password_visible());
    assert!(screen.password_screen().new_account_form().site_name.is_empty());
    assert!(screen.totp_screen().new_totp_form().secret.is_empty());
}
