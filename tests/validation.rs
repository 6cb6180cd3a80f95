use userauth::validate::{
    validate_email, validate_login, validate_profile_create, validate_signup, ValidationError,
};

#[test]
fn email_well_formed_accepted() {
    assert!(validate_email("jane@example.com"));
    assert!(validate_email("a.b_c%d+e-f@sub.domain-x.org"));
    assert!(validate_email("x@y.io"));
}

#[test]
fn email_malformed_rejected() {
    assert!(!validate_email(""));
    assert!(!validate_email("janeexample.com"));
    assert!(!validate_email("jane@example"));
    assert!(!validate_email("jane@example.c"));
    assert!(!validate_email("@example.com"));
    assert!(!validate_email("jane@.com"));
    assert!(!validate_email("jane@example.c0m"));
    assert!(!validate_email("jane doe@example.com"));
    assert!(!validate_email("jane@example.com\n"));
}

#[test]
fn signup_mismatch_comes_first() {
    assert_eq!(
        validate_signup("not-an-email", "short", "other"),
        Err(ValidationError::PasswordMismatch)
    );
    assert_eq!(
        validate_signup("jane@example.com", "longpass1", "longpass2"),
        Err(ValidationError::PasswordMismatch)
    );
}

#[test]
fn signup_password_length_boundary() {
    for len in 0..8 {
        let p = "a".repeat(len);
        assert_eq!(
            validate_signup("jane@example.com", &p, &p),
            Err(ValidationError::PasswordTooShort)
        );
    }
    let p = "a".repeat(8);
    assert_eq!(validate_signup("jane@example.com", &p, &p), Ok(()));
}

#[test]
fn signup_bad_email_after_password_checks() {
    assert_eq!(
        validate_signup("jane@example", "longpass1", "longpass1"),
        Err(ValidationError::InvalidEmail)
    );
}

#[test]
fn login_requires_both_fields() {
    assert_eq!(validate_login("", "pw"), Err(ValidationError::MissingField));
    assert_eq!(validate_login("jane@example.com", ""), Err(ValidationError::MissingField));
    assert_eq!(validate_login("jane", "pw"), Err(ValidationError::InvalidEmail));
    assert_eq!(validate_login("jane@example.com", "pw"), Ok(()));
}

#[test]
fn profile_create_rules() {
    assert_eq!(validate_profile_create("Jane", "5551234567"), Err(ValidationError::FullnameTooShort));
    assert_eq!(validate_profile_create("Jane Doe", "555123456"), Err(ValidationError::InvalidPhoneNumber));
    assert_eq!(validate_profile_create("Jane Doe", "55512345678"), Err(ValidationError::InvalidPhoneNumber));
    assert_eq!(validate_profile_create("Janes", "5551234567"), Ok(()));
}

#[test]
fn lengths_count_utf8_bytes() {
    // four 'ä' are four characters but eight bytes
    let p = "\u{e4}\u{e4}\u{e4}\u{e4}";
    assert_eq!(validate_signup("jane@example.com", p, p), Ok(()));
    assert_eq!(validate_signup("jane@example", p, p), Err(ValidationError::InvalidEmail));
    let p = "\u{e4}\u{e4}\u{e4}";
    assert_eq!(validate_signup("jane@example.com", p, p), Err(ValidationError::PasswordTooShort));
    // "Jöse" is four characters but five bytes
    assert_eq!(validate_profile_create("J\u{f6}se", "5551234567"), Ok(()));
    assert_eq!(validate_profile_create("J\u{f6}se", "555123456"), Err(ValidationError::InvalidPhoneNumber));
    // ten characters, eleven bytes
    assert_eq!(validate_profile_create("Jane Doe", "555123456\u{e4}"), Err(ValidationError::InvalidPhoneNumber));
    assert_eq!(validate_profile_create("J\u{f6}s", "5551234567"), Err(ValidationError::FullnameTooShort));
}
