use password_manager::db::validate_password;
use password_manager::models::account::{Account, AccountDeleteError, AccountValidationError};
use password_manager::models::totp::{TotpDeleteError, TotpKey, TotpValidationError};

const ID_TEXT: &str = "67e55044-10b1-426f-9247-bb680e5fe0c8";
const ID_VALUE: u128 = 0x67e55044_10b1_426f_9247_bb680e5fe0c8;
// base32 of the ASCII text "12345678901234567890" (the RFC 6238 SHA-1 secret)
const RFC_SECRET: &str = "GEZDGNBVGY3TQOJQGEZDGNBVGY3TQOJQ";

fn s(text: &str) -> String {
    text.to_string()
}

#[test]
fn password_of_eight_characters_is_accepted() {
    assert_eq!(validate_password("12345678"), Ok(()));
    assert_eq!(validate_password("correct horse"), Ok(()));
}

#[test]
fn password_of_seven_characters_is_refused() {
    assert_eq!(validate_password("1234567"), Err(()));
    assert_eq!(validate_password(""), Err(()));
}

#[test]
fn password_length_counts_characters_not_bytes() {
    // eight Cyrillic letters are sixteen bytes, seven are fourteen
    assert_eq!(validate_password("пароль12"), Ok(()));
    assert_eq!(validate_password("пароль1"), Err(()));
}

#[test]
fn account_new_keeps_fields() {
    let acc = Account::new(s("example.com"), s("alice"), s("secret")).unwrap();
    assert_eq!(acc.site_name(), "example.com");
    assert_eq!(acc.login(), "alice");
    assert_eq!(acc.password(), "secret");
}

#[test]
fn account_new_reports_first_empty_field() {
    assert_eq!(
        Account::new(s(""), s(""), s("")).err(),
        Some(AccountValidationError::EmptySiteName)
    );
    assert_eq!(
        Account::new(s("site"), s(""), s("")).err(),
        Some(AccountValidationError::EmptyLogin)
    );
    assert_eq!(
        Account::new(s("site"), s("login"), s("")).err(),
        Some(AccountValidationError::EmptyPassword)
    );
}

#[test]
fn account_ids_are_version_four_and_distinct() {
    let a = Account::new(s("a"), s("b"), s("c")).unwrap();
    let b = Account::new(s("a"), s("b"), s("c")).unwrap();
    assert_ne!(a.id(), b.id());
    for id in [a.id(), b.id()] {
        assert_eq!((id >> 76) & 0xf, 4);
        assert_eq!((id >> 62) & 0x3, 2);
    }
}

#[test]
fn account_row_round_trip() {
    let acc = Account::new(s("example.com"), s("alice"), s("pw")).unwrap();
    let text = acc.id_text();
    let back = Account::from_row(&text, s("example.com"), s("alice"), s("pw")).unwrap();
    assert_eq!(back.id(), acc.id());
    assert_eq!(back.site_name(), "example.com");
    assert_eq!(back.login(), "alice");
    assert_eq!(back.password(), "pw");
}

#[test]
fn account_id_text_is_hyphenated_lower_case() {
    let acc = Account::from_row(ID_TEXT, s("a"), s("b"), s("c")).unwrap();
    assert_eq!(acc.id(), ID_VALUE);
    assert_eq!(acc.id_text(), ID_TEXT);
}

#[test]
fn account_from_row_refuses_bad_identifier() {
    assert!(Account::from_row("not a uuid", s("a"), s("b"), s("c")).is_none());
    assert!(Account::from_row("", s("a"), s("b"), s("c")).is_none());
}

#[test]
fn account_setters_refuse_empty_and_keep_account() {
    let mut acc = Account::from_row(ID_TEXT, s("site"), s("login"), s("pw")).unwrap();
    assert_eq!(acc.set_site_name(s("")), Err(AccountValidationError::EmptySiteName));
    assert_eq!(acc.set_login(s("")), Err(AccountValidationError::EmptyLogin));
    assert_eq!(acc.set_password(s("")), Err(AccountValidationError::EmptyPassword));
    assert_eq!(acc.site_name(), "site");
    assert_eq!(acc.login(), "login");
    assert_eq!(acc.password(), "pw");

    assert_eq!(acc.set_site_name(s("new-site")), Ok(()));
    assert_eq!(acc.set_login(s("new-login")), Ok(()));
    assert_eq!(acc.set_password(s("new-pw")), Ok(()));
    assert_eq!(acc.site_name(), "new-site");
    assert_eq!(acc.login(), "new-login");
    assert_eq!(acc.password(), "new-pw");
    assert_eq!(acc.id(), ID_VALUE);
}

#[test]
fn delete_outcome_needs_exactly_one_row() {
    assert_eq!(Account::delete_outcome(Ok(1)), Ok(()));
    assert_eq!(Account::delete_outcome(Ok(0)), Err(AccountDeleteError));
    assert_eq!(Account::delete_outcome(Ok(2)), Err(AccountDeleteError));
    assert_eq!(Account::delete_outcome(Err(())), Err(AccountDeleteError));
    assert_eq!(TotpKey::delete_outcome(Ok(1)), Ok(()));
    assert_eq!(TotpKey::delete_outcome(Ok(0)), Err(TotpDeleteError));
    assert_eq!(TotpKey::delete_outcome(Err(())), Err(TotpDeleteError));
}

#[test]
fn totp_key_new_decodes_base32_secret() {
    let key = TotpKey::new(s("site"), s("login"), s(RFC_SECRET)).unwrap();
    assert_eq!(key.site_name(), "site");
    assert_eq!(key.login(), "login");
    assert_eq!(key.secret(), b"12345678901234567890");
}

#[test]
fn totp_key_new_reports_first_refused_field() {
    assert_eq!(
        TotpKey::new(s(""), s(""), s("!")).err(),
        Some(TotpValidationError::EmptySiteName)
    );
    assert_eq!(
        TotpKey::new(s("site"), s(""), s("!")).err(),
        Some(TotpValidationError::EmptyLogin)
    );
    assert_eq!(
        TotpKey::new(s("site"), s("login"), s("not base32!")).err(),
        Some(TotpValidationError::BadSecret)
    );
    // lower case and padding are outside the upper-case unpadded alphabet
    assert_eq!(
        TotpKey::new(s("site"), s("login"), s("gezdgnbvgy3tqojqgezdgnbvgy3tqojq")).err(),
        Some(TotpValidationError::BadSecret)
    );
    assert_eq!(
        TotpKey::new(s("site"), s("login"), s("GEZDGNBVGY3TQOJQGEZDGNBVGY3TQOJQ====")).err(),
        Some(TotpValidationError::BadSecret)
    );
}

#[test]
fn totp_creation_fails_only_for_short_valid_secrets() {
    // 16 base32 characters decode to 10 bytes, fewer than TOTP accepts
    assert!(TotpKey::creation_fails("site", "login", "JBSWY3DPEHPK3PXP"));
    // 26 characters decode to 16 bytes, enough
    assert!(!TotpKey::creation_fails("site", "login", "GEZDGNBVGY3TQOJQGEZDGNBVGY"));
    assert!(!TotpKey::creation_fails("site", "login", RFC_SECRET));
    // refused for another reason first: no failure
    assert!(!TotpKey::creation_fails("", "login", "JBSWY3DPEHPK3PXP"));
    assert!(!TotpKey::creation_fails("site", "", "JBSWY3DPEHPK3PXP"));
    assert!(!TotpKey::creation_fails("site", "login", "bad"));
}

#[test]
fn totp_codes_match_rfc_6238_vectors() {
    let key = TotpKey::new(s("site"), s("login"), s(RFC_SECRET)).unwrap();
    assert_eq!(key.gen_key(59), "287082");
    assert_eq!(key.gen_key(1111111109), "081804");
    assert_eq!(key.gen_key(1234567890), "005924");
}

#[test]
fn totp_code_is_constant_within_a_step() {
    let key = TotpKey::new(s("site"), s("login"), s(RFC_SECRET)).unwrap();
    assert_eq!(key.gen_key(30), key.gen_key(59));
    assert_ne!(key.gen_key(1234567890), key.gen_key(1234567889));
    assert_eq!(key.gen_key(1234567890), key.gen_key(1234567919));
    let code = key.gen_key(1700000000);
    assert_eq!(code.len(), 6);
    assert!(code.chars().all(|c| c.is_ascii_digit()));
}

#[test]
fn totp_row_round_trip_and_short_secret() {
    let key = TotpKey::new(s("site"), s("login"), s(RFC_SECRET)).unwrap();
    let back = TotpKey::from_row(&key.id_text(), s("site"), s("login"), key.secret().to_vec()).unwrap();
    assert_eq!(back.id(), key.id());
    assert_eq!(back.secret(), key.secret());
    assert!(TotpKey::from_row(ID_TEXT, s("a"), s("b"), vec![1, 2, 3]).is_none());
    assert!(TotpKey::from_row("nope", s("a"), s("b"), vec![0; 20]).is_none());
}

#[test]
fn totp_setters() {
    let mut key = TotpKey::new(s("site"), s("login"), s(RFC_SECRET)).unwrap();
    assert_eq!(key.set_site_name(s("")), Err(TotpValidationError::EmptySiteName));
    assert_eq!(key.set_login(s("")), Err(TotpValidationError::EmptyLogin));
    assert_eq!(key.set_secret(s("1")), Err(TotpValidationError::BadSecret));
    assert_eq!(key.secret(), b"12345678901234567890");
    assert_eq!(key.set_secret(s("JBSWY3DP")), Ok(()));
    assert_eq!(key.secret(), b"Hello");
    assert_eq!(key.set_site_name(s("other")), Ok(()));
    assert_eq!(key.site_name(), "other");
}
