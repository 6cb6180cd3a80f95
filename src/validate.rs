//! Input checks: email shape, password policy, required fields.
use vstd::prelude::*;
use vstd::utf8::encode_utf8;

verus! {

/// Why a request was refused before any work was done.
#[derive(Clone, Copy, Debug, PartialEq, Eq, Structural)]
pub enum ValidationError {
    PasswordMismatch,
    PasswordTooShort,
    InvalidEmail,
    MissingField,
    FullnameTooShort,
    InvalidPhoneNumber,
}

/// Shortest password that the policy accepts, in bytes of UTF-8.
pub const MIN_PASSWORD_LEN: usize = 8;

/// Shortest full name that a profile accepts, in bytes of UTF-8.
pub const MIN_FULLNAME_LEN: usize = 5;

/// Exact length of a phone number, in bytes of UTF-8.
pub const PHONE_NUMBER_LEN: usize = 10;

/// The length of a text in bytes of its UTF-8 encoding.
pub open spec fn byte_len(s: Seq<char>) -> nat {
    encode_utf8(s).len()
}

/// The length of a text in bytes, as Rust's `str::len` gives it.
fn text_byte_len(s: &str) -> (r: usize)
    ensures
        r == byte_len(s@),
{
    s.as_bytes().len()
}

pub open spec fn is_ascii_letter(c: char) -> bool {
    ('a' <= c && c <= 'z') || ('A' <= c && c <= 'Z')
}

pub open spec fn is_ascii_alnum(c: char) -> bool {
    is_ascii_letter(c) || ('0' <= c && c <= '9')
}

/// Characters allowed before the `@`.
pub open spec fn is_local_char(c: char) -> bool {
    is_ascii_alnum(c) || c == '.' || c == '_' || c == '%' || c == '+' || c == '-'
}

/// Characters allowed between the `@` and the final dot.
pub open spec fn is_domain_char(c: char) -> bool {
    is_ascii_alnum(c) || c == '.' || c == '-'
}

/// `s` splits at `at` and `dot` into `local@domain.tld`: a non-empty local
/// part, a non-empty domain, and a top-level domain of two or more letters.
pub open spec fn email_split(s: Seq<char>, at: int, dot: int) -> bool {
    &&& 0 < at
    &&& at + 1 < dot
    &&& dot + 3 <= s.len()
    &&& s[at] == '@'
    &&& s[dot] == '.'
    &&& forall|i: int| 0 <= i < at ==> is_local_char(#[trigger] s[i])
    &&& forall|i: int| at < i < dot ==> is_domain_char(#[trigger] s[i])
    &&& forall|i: int| dot < i < s.len() ==> is_ascii_letter(#[trigger] s[i])
}

/// The whole of `s` has the shape `local@domain.tld`.
pub open spec fn email_shape(s: Seq<char>) -> bool {
    exists|at: int, dot: int| email_split(s, at, dot)
}

/// Relies on regex::Regex::new and regex::Regex::is_match: the pattern is
/// anchored at both ends (`$` matches only at the end of the text), so it
/// matches exactly the texts of the shape `local@domain.tld`.
#[verifier::external_body]
fn matches_email_pattern(s: &str) -> (r: bool)
    ensures
        r == email_shape(s@),
{
    regex::Regex::new(r"^[a-zA-Z0-9._%+-]+@[a-zA-Z0-9.-]+\.[a-zA-Z]{2,}$").unwrap().is_match(s)
}

/// Whether `s` is an email address of the form `local@domain.tld`.
pub fn validate_email(s: &str) -> (r: bool)
    ensures
        r == email_shape(s@),
{
    matches_email_pattern(s)
}

/// The first rule of the signup policy that the fields break, if any:
/// matching confirmation, then password length in bytes, then email shape.
pub open spec fn signup_check(email: Seq<char>, password: Seq<char>, confirm: Seq<char>) -> Result<(), ValidationError> {
    if password != confirm {
        Err(ValidationError::PasswordMismatch)
    } else if byte_len(password) < MIN_PASSWORD_LEN {
        Err(ValidationError::PasswordTooShort)
    } else if !email_shape(email) {
        Err(ValidationError::InvalidEmail)
    } else {
        Ok(())
    }
}

/// Checks the fields of a signup against the policy.
pub fn validate_signup(email: &str, password: &str, confirm: &str) -> (r: Result<(), ValidationError>)
    ensures
        r == signup_check(email@, password@, confirm@),
{
    if password.to_owned() != confirm.to_owned() {
        return Err(ValidationError::PasswordMismatch);
    }
    if text_byte_len(password) < MIN_PASSWORD_LEN {
        return Err(ValidationError::PasswordTooShort);
    }
    if !validate_email(email) {
        return Err(ValidationError::InvalidEmail);
    }
    Ok(())
}

/// The first rule of the login policy that the fields break, if any.
pub open spec fn login_check(email: Seq<char>, password: Seq<char>) -> Result<(), ValidationError> {
    if email.len() == 0 || password.len() == 0 {
        Err(ValidationError::MissingField)
    } else if !email_shape(email) {
        Err(ValidationError::InvalidEmail)
    } else {
        Ok(())
    }
}

/// Checks the fields of a login request: both present, email well formed.
pub fn validate_login(email: &str, password: &str) -> (r: Result<(), ValidationError>)
    ensures
        r == login_check(email@, password@),
{
    if email.is_empty() || password.is_empty() {
        return Err(ValidationError::MissingField);
    }
    if !validate_email(email) {
        return Err(ValidationError::InvalidEmail);
    }
    Ok(())
}

/// The first rule of the profile policy that the fields break, if any.
pub open spec fn profile_check(fullname: Seq<char>, phonenumber: Seq<char>) -> Result<(), ValidationError> {
    if byte_len(fullname) < MIN_FULLNAME_LEN {
        Err(ValidationError::FullnameTooShort)
    } else if byte_len(phonenumber) != PHONE_NUMBER_LEN {
        Err(ValidationError::InvalidPhoneNumber)
    } else {
        Ok(())
    }
}

/// Checks the fields of a new profile: a full name of five or more bytes
/// and a phone number of exactly ten.
pub fn validate_profile_create(fullname: &str, phonenumber: &str) -> (r: Result<(), ValidationError>)
    ensures
        r == profile_check(fullname@, phonenumber@),
{
    if text_byte_len(fullname) < MIN_FULLNAME_LEN {
        return Err(ValidationError::FullnameTooShort);
    }
    if text_byte_len(phonenumber) != PHONE_NUMBER_LEN {
        return Err(ValidationError::InvalidPhoneNumber);
    }
    Ok(())
}

/// Text with no `@` at all, the empty text included, is not an email address.
pub proof fn lemma_email_without_at_rejected(s: Seq<char>)
    requires
        forall|i: int| 0 <= i < s.len() ==> s[i] != '@',
    ensures
        !email_shape(s),
{
}

/// The empty text is not an email address.
pub proof fn lemma_empty_email_rejected()
    ensures
        !email_shape(Seq::<char>::empty()),
{
}

/// Text with no dot after its `@` lacks a top-level domain, and is not an
/// email address.
pub proof fn lemma_email_without_tld_rejected(s: Seq<char>)
    requires
        forall|i: int, j: int| 0 <= i < j < s.len() && s[i] == '@' ==> s[j] != '.',
    ensures
        !email_shape(s),
{
    assert forall|at: int, dot: int| !email_split(s, at, dot) by {
        if email_split(s, at, dot) {
            assert(s[at] == '@' && s[dot] == '.');
        }
    }
}

/// Every text built as `local@domain.tld` from a non-empty local part and
/// domain over their allowed characters, and a top-level domain of two or
/// more letters, is an email address.
pub proof fn lemma_well_formed_email_accepted(local: Seq<char>, domain: Seq<char>, tld: Seq<char>)
    requires
        local.len() > 0,
        domain.len() > 0,
        tld.len() >= 2,
        forall|i: int| 0 <= i < local.len() ==> is_local_char(#[trigger] local[i]),
        forall|i: int| 0 <= i < domain.len() ==> is_domain_char(#[trigger] domain[i]),
        forall|i: int| 0 <= i < tld.len() ==> is_ascii_letter(#[trigger] tld[i]),
    ensures
        email_shape(local + seq!['@'] + domain + seq!['.'] + tld),
{
    let s = local + seq!['@'] + domain + seq!['.'] + tld;
    let at = local.len() as int;
    let dot = at + 1 + domain.len();
    assert forall|i: int| 0 <= i < at implies is_local_char(#[trigger] s[i]) by {
        assert(s[i] == local[i]);
    }
    assert forall|i: int| at < i < dot implies is_domain_char(#[trigger] s[i]) by {
        assert(s[i] == domain[i - at - 1]);
    }
    assert forall|i: int| dot < i < s.len() implies is_ascii_letter(#[trigger] s[i]) by {
        assert(s[i] == tld[i - dot - 1]);
    }
    assert(email_split(s, at, dot));
}

/// A signup whose password and confirmation differ is refused for that
/// reason, whatever its other fields hold.
pub proof fn lemma_mismatch_refused(email: Seq<char>, password: Seq<char>, confirm: Seq<char>)
    requires
        password != confirm,
    ensures
        signup_check(email, password, confirm) == Err::<(), ValidationError>(ValidationError::PasswordMismatch),
{
}

/// A signup whose password has fewer than eight bytes is refused.
pub proof fn lemma_short_password_refused(email: Seq<char>, password: Seq<char>, confirm: Seq<char>)
    requires
        byte_len(password) < MIN_PASSWORD_LEN,
    ensures
        signup_check(email, password, confirm) is Err,
{
}

/// A signup with a password of eight or more bytes, a matching
/// confirmation and a well-formed email passes the checks.
pub proof fn lemma_valid_signup_accepted(email: Seq<char>, password: Seq<char>)
    requires
        byte_len(password) >= MIN_PASSWORD_LEN,
        email_shape(email),
    ensures
        signup_check(email, password, password) == Ok::<(), ValidationError>(()),
{
}

} // verus!
