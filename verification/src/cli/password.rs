//! Rules for the encryption password.

use crate::wire::same_str;
use vstd::prelude::*;
use vstd::string::StrSliceExecFns;
use vstd::string::StringExecFns;

verus! {

/// Why a password, or a request to change it, was refused.
#[derive(Debug, PartialEq, Eq)]
pub enum PasswordError {
    /// Password cannot be empty.
    EmptyPassword,
    /// Password must be at least 8 characters long.
    TooShort,
    /// The placeholder password was not replaced.
    DefaultPassword,
    /// The current password is still the placeholder.
    CurrentPasswordIsDefault,
    /// The key store refused the change.
    EncryptionError(String),
    /// Anything else, in words.
    Other(String),
}

/// What is reported of a refusal in words.
pub open spec fn password_message(error: PasswordError) -> Seq<char> {
    match error {
        PasswordError::EmptyPassword => "Password cannot be empty"@,
        PasswordError::TooShort => "Password must be at least 8 characters long"@,
        PasswordError::DefaultPassword => "Please choose a secure password, not 'CHANGEME'"@,
        PasswordError::CurrentPasswordIsDefault => "Current password is still the default. Please update your config file first"@,
        PasswordError::EncryptionError(reason) => "Failed to change encryption password: "@
            + reason@,
        PasswordError::Other(reason) => reason@,
    }
}

impl PasswordError {
    /// The error in words.
    pub fn message(&self) -> (text: String)
        ensures
            text@ == password_message(*self),
    {
        match self {
            PasswordError::EmptyPassword => "Password cannot be empty".to_owned(),
            PasswordError::TooShort => "Password must be at least 8 characters long".to_owned(),
            PasswordError::DefaultPassword => {
                "Please choose a secure password, not 'CHANGEME'".to_owned()
            },
            PasswordError::CurrentPasswordIsDefault => {
                "Current password is still the default. Please update your config file first".to_owned()
            },
            PasswordError::EncryptionError(reason) => {
                let mut text = "Failed to change encryption password: ".to_owned();
                text.append(reason.as_str());
                text
            },
            PasswordError::Other(reason) => reason.clone(),
        }
    }
}

/// The placeholder that a generated configuration holds.
pub open spec fn default_password() -> Seq<char> {
    "CHANGEME"@
}

/// What is wrong with `password`, if anything.
pub open spec fn password_fault(password: Seq<char>) -> Option<PasswordError> {
    if password.len() == 0 {
        Some(PasswordError::EmptyPassword)
    } else if password.len() < 8 {
        Some(PasswordError::TooShort)
    } else if password == default_password() {
        Some(PasswordError::DefaultPassword)
    } else {
        None
    }
}

/// Accepts a password of at least 8 characters that is not the placeholder.
pub fn validate_password(password: &str) -> (result: Result<(), PasswordError>)
    ensures
        match password_fault(password@) {
            None => result is Ok,
            Some(fault) => result == Err::<(), PasswordError>(fault),
        },
{
    if password.is_empty() {
        return Err(PasswordError::EmptyPassword);
    }
    if password.unicode_len() < 8 {
        return Err(PasswordError::TooShort);
    }
    if same_str(password, "CHANGEME") {
        return Err(PasswordError::DefaultPassword);
    }
    Ok(())
}

/// The checks that precede any storage access when the password is changed: the
/// current password must no longer be the placeholder, and the new one must be
/// acceptable.
pub fn check_password_change(current: &str, new: &str) -> (result: Result<(), PasswordError>)
    ensures
        current@ == default_password() ==> result == Err::<(), PasswordError>(
            PasswordError::CurrentPasswordIsDefault,
        ),
        current@ != default_password() ==> match password_fault(new@) {
            None => result is Ok,
            Some(fault) => result == Err::<(), PasswordError>(fault),
        },
{
    if same_str(current, "CHANGEME") {
        return Err(PasswordError::CurrentPasswordIsDefault);
    }
    validate_password(new)
}

} // verus!
