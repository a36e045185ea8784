use zerofs::cli::password::check_password_change;
use zerofs::cli::password::validate_password;
use zerofs::cli::password::PasswordError;
use zerofs::failpoints::widen_millis;
use zerofs::failpoints::COMPACT_BETWEEN_REPOINTS;
use zerofs::failpoints::SEAL_OPEN_FAIL;

#[test]
fn test_validate_password() {
    assert!(validate_password("").is_err());
    assert!(validate_password("short").is_err());
    assert!(validate_password("CHANGEME").is_err());
    assert!(validate_password("goodpassword123").is_ok());
}

#[test]
fn passwords_are_refused_for_a_reason() {
    assert_eq!(validate_password(""), Err(PasswordError::EmptyPassword));
    assert_eq!(validate_password("1234567"), Err(PasswordError::TooShort));
    assert_eq!(
        validate_password("CHANGEME"),
        Err(PasswordError::DefaultPassword)
    );
    // Four characters of two bytes each.
    assert_eq!(
        validate_password("\u{e9}\u{e9}\u{e9}\u{e9}"),
        Err(PasswordError::TooShort)
    );
    assert_eq!(validate_password("\u{e9}1234567"), Ok(()));
    assert_eq!(
        check_password_change("CHANGEME", ""),
        Err(PasswordError::CurrentPasswordIsDefault)
    );
    assert_eq!(
        check_password_change("current-password", "CHANGEME"),
        Err(PasswordError::DefaultPassword)
    );
    assert_eq!(
        check_password_change("current-password", "replacement-password"),
        Ok(())
    );
}

#[test]
fn password_errors_are_reported_in_words() {
    assert_eq!(
        PasswordError::TooShort.message(),
        "Password must be at least 8 characters long"
    );
    assert_eq!(
        PasswordError::EncryptionError("no key".into()).message(),
        "Failed to change encryption password: no key"
    );
    assert_eq!(PasswordError::Other("offline".into()).message(), "offline");
}

#[test]
fn only_the_armed_point_is_widened() {
    assert_eq!(SEAL_OPEN_FAIL, "seal_open_fail");
    let armed = Some((COMPACT_BETWEEN_REPOINTS, 25));
    assert_eq!(widen_millis(armed, "compact_between_repoints"), Some(25));
    assert_eq!(widen_millis(armed, SEAL_OPEN_FAIL), None);
    assert_eq!(widen_millis(None, COMPACT_BETWEEN_REPOINTS), None);
}
