use password_manager::application::{self, App, Command};
use password_manager::forms::lock_screen;
use password_manager::forms::welcome_screen;
use password_manager::models::account::Account;
use password_manager::models::totp::{TotpKey, TotpSaveError};
use password_manager::totp_screen;
use password_manager::unlocked_screen::{self, CurrentPage, UnlockedScreen};

fn s(text: &str) -> String {
    text.to_string()
}

fn welcome(app: &mut App, password: &str, repeat: &str) -> Command {
    app.update(application::Message::WelcomeScreenMessage(welcome_screen::Message::SetPassword(s(password))));
    app.update(application::Message::WelcomeScreenMessage(
        welcome_screen::Message::SetPasswordRepeat(s(repeat)),
    ));
    app.update(application::Message::WelcomeScreenMessage(welcome_screen::Message::Submit))
}

#[test]
fn first_screen_depends_on_database() {
    assert!(matches!(App::new(true), App::Locked(_)));
    assert!(matches!(App::new(false), App::NoDatabase(_)));
}

#[test]
fn matching_long_passwords_create_the_database() {
    let mut app = App::new(false);
    match welcome(&mut app, "long enough", "long enough") {
        Command::CreateDatabase(p) => assert_eq!(p, "long enough"),
        _ => panic!("expected the database to be created"),
    }
    app.database_opened(UnlockedScreen::new(vec![], vec![], 0));
    assert!(matches!(app, App::Unlocked(_)));
}

#[test]
fn different_passwords_are_refused() {
    let mut app = App::new(false);
    assert!(matches!(welcome(&mut app, "long enough", "long enougH"), Command::Nothing));
    match &app {
        App::NoDatabase(w) => {
            assert_eq!(w.error, Some(application::PASSWORDS_DIFFER_MESSAGE));
            assert!(w.password.is_empty() && w.password_repeat.is_empty());
        }
        _ => panic!("expected the first-run screen"),
    }
}

#[test]
fn short_password_is_refused() {
    let mut app = App::new(false);
    assert!(matches!(welcome(&mut app, "short", "short"), Command::Nothing));
    match &app {
        App::NoDatabase(w) => assert_eq!(w.error, Some(application::SHORT_PASSWORD_MESSAGE)),
        _ => panic!("expected the first-run screen"),
    }
    assert_eq!(application::SHORT_PASSWORD_MESSAGE, "Пароль короче 8 символов");
}

#[test]
fn unlocking_asks_to_open_with_typed_password() {
    let mut app = App::new(true);
    app.update(application::Message::LockScreenMessage(lock_screen::Message::SetPassword(s("pw"))));
    match app.update(application::Message::LockScreenMessage(lock_screen::Message::Submit)) {
        Command::OpenDatabase(p) => assert_eq!(p, "pw"),
        _ => panic!("expected an open"),
    }
    match &app {
        App::Locked(l) => assert!(l.password.is_empty()),
        _ => panic!("expected the lock screen"),
    }
    app.unlock_failed();
    match &app {
        App::Locked(l) => assert_eq!(l.error.as_deref(), Some("Login error")),
        _ => panic!("expected the lock screen"),
    }
}

#[test]
fn messages_for_other_screens_are_ignored() {
    let mut app = App::new(true);
    let cmd = app.update(application::Message::WelcomeScreenMessage(welcome_screen::Message::Submit));
    assert!(matches!(cmd, Command::Nothing));
    let cmd = app.update(application::Message::UnlockedScreenMessage(unlocked_screen::Message::SetPage(
        CurrentPage::CodeScreen,
    )));
    assert!(matches!(cmd, Command::Nothing));
    match &app {
        App::Locked(l) => assert!(l.password.is_empty() && l.error.is_none()),
        _ => panic!("expected the lock screen"),
    }
}

#[test]
fn unlocked_app_forwards_to_main_window() {
    let acc = Account::new(s("site"), s("alice"), s("pw")).unwrap();
    let mut app = App::new(true);
    app.database_opened(UnlockedScreen::new(vec![], vec![], 0));
    app.account_created(acc, Ok(()));
    let cmd = app.update(application::Message::UnlockedScreenMessage(unlocked_screen::Message::SetPage(
        CurrentPage::SettingsScreen,
    )));
    assert!(matches!(cmd, Command::Unlocked(unlocked_screen::Command::Nothing)));
    match &app {
        App::Unlocked(u) => {
            assert!(u.current_page() == CurrentPage::SettingsScreen);
            assert_eq!(u.password_screen().account_cards().len(), 1);
        }
        _ => panic!("expected the main window"),
    }
    app.unlock_failed();
    assert!(matches!(app, App::Unlocked(_)));
}

#[test]
fn app_reports_key_and_account_saves() {
    let mut app = App::new(true);
    app.database_opened(UnlockedScreen::new(vec![], vec![], 59));
    app.update(application::Message::UnlockedScreenMessage(unlocked_screen::Message::PasswordScreenMessage(
        password_manager::password_screen::Message::OpenNewAccount,
    )));
    let acc = Account::new(s("site"), s("alice"), s("pw")).unwrap();
    app.account_created(acc, Ok(()));
    let key = TotpKey::new(s("site"), s("login"), s("GEZDGNBVGY3TQOJQGEZDGNBVGY3TQOJQ")).unwrap();
    app.key_created(key, Err(TotpSaveError), 59);
    match &app {
        App::Unlocked(u) => {
            assert!(!u.password_screen().new_account_form_opened());
            assert_eq!(u.password_screen().account_cards().len(), 1);
            assert!(u.totp_screen().keys().is_empty());
            assert_eq!(u.totp_screen().new_totp_form().error, Some(totp_screen::DUPLICATE_KEY_MESSAGE));
        }
        _ => panic!("expected the main window"),
    }
}

#[test]
fn submits_do_not_change_the_screen() {
    let mut app = App::new(false);
    let cmd = welcome(&mut app, "long enough", "long enough");
    assert!(matches!(cmd, Command::CreateDatabase(_)));
    assert!(matches!(app, App::NoDatabase(_)));
    let mut app = App::new(true);
    let cmd = app.update(application::Message::LockScreenMessage(lock_screen::Message::Submit));
    assert!(matches!(cmd, Command::OpenDatabase(_)));
    assert!(matches!(app, App::Locked(_)));
}
