//! Signup and login: password hashing, uniqueness of emails, token minting.
use vstd::prelude::*;
use crate::profile::digit_char;
use crate::store::{count_of, lemma_count_after_insert};
use crate::validate::{
    byte_len, email_shape, email_split, login_check, signup_check, validate_login, validate_signup, ValidationError,
};

verus! {

/// Why a signup or a login did not succeed.
#[derive(Clone, Copy, Debug, PartialEq, Eq, Structural)]
pub enum AuthError {
    /// The request broke an input rule.
    Validation(ValidationError),
    /// A user with this email is already stored.
    DuplicateEmail,
    /// No such user, or the wrong password: the two are not told apart.
    InvalidCredentials,
    /// The password could not be hashed.
    HashFailure,
    /// The store failed; its own message is not passed on.
    Persistence,
    /// The token could not be signed.
    TokenError,
}

/// A request to register a user.
pub struct SignupRequest {
    pub name: String,
    pub email: String,
    pub password: String,
    pub confirm_password: String,
}

/// A request to log in.
pub struct LoginRequest {
    pub email: String,
    pub password: String,
}

/// The row that a successful signup asks the store to insert.
pub struct NewUser {
    pub name: String,
    pub email: String,
    pub password_hash: String,
}

/// The row that the store holds for a user, as a login reads it.
pub struct UserRecord {
    pub id: String,
    pub email: String,
    pub password_hash: String,
}

/// What a successful login hands back.
pub struct LoginResponse {
    pub token: String,
    pub user_id: String,
    pub email: String,
    /// Unix time, in seconds, at which the token stops being valid.
    pub expires_at: i64,
}

/// A login response, in mathematical terms.
pub struct SessionView {
    pub token: Seq<char>,
    pub user_id: Seq<char>,
    pub email: Seq<char>,
    pub expires_at: int,
}

impl View for LoginResponse {
    type V = SessionView;

    open spec fn view(&self) -> SessionView {
        SessionView {
            token: self.token@,
            user_id: self.user_id@,
            email: self.email@,
            expires_at: self.expires_at as int,
        }
    }
}

/// bcrypt cost used by `signup`.
pub const HASH_COST: u32 = 12;

/// Lowest bcrypt cost.
pub const MIN_HASH_COST: u32 = 4;

/// Highest bcrypt cost.
pub const MAX_HASH_COST: u32 = 31;

/// Lifetime of a token, in seconds: 24 hours.
pub const TOKEN_TTL_SECS: i64 = 86400;

/// What bcrypt's verification gives for a password and a stored hash:
/// `Some(matches)`, or `None` where the hash cannot be read.
pub uninterp spec fn bcrypt_verify_of(password: Seq<char>, hash: Seq<char>) -> Option<bool>;

/// The HS256-signed token over the claims `{id, email, exp}` with the given
/// secret, or `None` where signing fails.
pub uninterp spec fn signed_token_of(id: Seq<char>, email: Seq<char>, exp: int, secret: Seq<char>) -> Option<Seq<char>>;

/// `h` has the form of a bcrypt hash made at `cost`: `$2b$`, the cost in
/// two digits, `$`, then 53 characters of salt and digest.
pub open spec fn bcrypt_hash_shape(h: Seq<char>, cost: nat) -> bool {
    &&& h.len() == 60
    &&& h[0] == '$' && h[1] == '2' && h[2] == 'b' && h[3] == '$'
    &&& h[4] == digit_char(cost / 10) && h[5] == digit_char(cost % 10)
    &&& h[6] == '$'
}

/// Relies on bcrypt::hash: a salted hash with a fresh random salt, written
/// as `$2b$<cost>$<salt><digest>`; it fails for a cost outside 4..=31, and
/// `bcrypt::verify` accepts the password against any hash it made.
#[verifier::external_body]
fn bcrypt_hash(password: &str, cost: u32) -> (r: Option<String>)
    ensures
        (cost < MIN_HASH_COST || cost > MAX_HASH_COST) ==> r is None,
        r matches Some(h) ==> bcrypt_verify_of(password@, h@) == Some(true),
        r matches Some(h) ==> bcrypt_hash_shape(h@, cost as nat),
{
    bcrypt::hash(password, cost).ok()
}

/// Relies on bcrypt::verify: a deterministic check of a password against a
/// stored hash; an error where the hash cannot be parsed.
#[verifier::external_body]
fn bcrypt_verify(password: &str, hash: &str) -> (r: Option<bool>)
    ensures
        r == bcrypt_verify_of(password@, hash@),
{
    bcrypt::verify(password, hash).ok()
}

/// Relies on chrono::Utc::now: the current Unix time in seconds, which is
/// never before 1970 (chrono panics on a clock set earlier).
#[verifier::external_body]
fn unix_now() -> (r: i64)
    ensures
        r >= 0,
{
    chrono::Utc::now().timestamp()
}

/// Relies on jsonwebtoken::encode with the default header (HS256) and a key
/// made from the secret's bytes: a deterministic signature over the claims,
/// a non-empty text that `jsonwebtoken::decode` with the same secret reads
/// back to the same claims (for an expiry that is not negative).
#[verifier::external_body]
fn sign_claims(id: &str, email: &str, exp: i64, secret: &str) -> (r: Option<String>)
    ensures
        r matches Some(t) ==> signed_token_of(id@, email@, exp as int, secret@) == Some(t@),
        r matches Some(t) ==> t@.len() > 0,
        exp >= 0 ==> (r matches Some(t) ==> decoded_claims_of(t@, secret@) == Some((id@, email@, exp as int))),
        r is None ==> signed_token_of(id@, email@, exp as int, secret@) is None,
{
    let mut claims = std::collections::BTreeMap::new();
    claims.insert("id", serde_json::Value::from(id));
    claims.insert("email", serde_json::Value::from(email));
    claims.insert("exp", serde_json::Value::from(exp));
    let key = jsonwebtoken::EncodingKey::from_secret(secret.as_bytes());
    jsonwebtoken::encode(&jsonwebtoken::Header::default(), &claims, &key).ok()
}

/// Validates a signup and hashes its password at the given bcrypt cost.
/// On success the result is the row to insert, once the store has shown the
/// email to be free (see `register`).
pub fn signup_with_cost(req: &SignupRequest, cost: u32) -> (r: Result<NewUser, AuthError>)
    ensures
        signup_check(req.email@, req.password@, req.confirm_password@) matches Err(e)
            ==> r == Err::<NewUser, AuthError>(AuthError::Validation(e)),
        signup_check(req.email@, req.password@, req.confirm_password@) is Ok ==> match r {
            Ok(u) => u.name@ == req.name@ && u.email@ == req.email@
                && bcrypt_verify_of(req.password@, u.password_hash@) == Some(true)
                && bcrypt_hash_shape(u.password_hash@, cost as nat),
            Err(e) => e == AuthError::HashFailure,
        },
        signup_check(req.email@, req.password@, req.confirm_password@) is Ok
            && (cost < MIN_HASH_COST || cost > MAX_HASH_COST)
            ==> r == Err::<NewUser, AuthError>(AuthError::HashFailure),
{
    match validate_signup(req.email.as_str(), req.password.as_str(), req.confirm_password.as_str()) {
        Err(e) => Err(AuthError::Validation(e)),
        Ok(()) => match bcrypt_hash(req.password.as_str(), cost) {
            None => Err(AuthError::HashFailure),
            Some(h) => Ok(NewUser { name: req.name.clone(), email: req.email.clone(), password_hash: h }),
        },
    }
}

/// Validates a signup and hashes its password at the default cost.
pub fn signup(req: &SignupRequest) -> (r: Result<NewUser, AuthError>)
    ensures
        signup_check(req.email@, req.password@, req.confirm_password@) matches Err(e)
            ==> r == Err::<NewUser, AuthError>(AuthError::Validation(e)),
        signup_check(req.email@, req.password@, req.confirm_password@) is Ok ==> match r {
            Ok(u) => u.name@ == req.name@ && u.email@ == req.email@
                && bcrypt_verify_of(req.password@, u.password_hash@) == Some(true)
                && bcrypt_hash_shape(u.password_hash@, HASH_COST as nat),
            Err(e) => e == AuthError::HashFailure,
        },
{
    signup_with_cost(req, HASH_COST)
}

/// Whether a user may be inserted, given how many stored users already have
/// its email.
pub open spec fn registration(existing: int) -> Result<(), AuthError> {
    if existing > 0 {
        Err(AuthError::DuplicateEmail)
    } else {
        Ok(())
    }
}

/// Admits a new user when no stored user has its email; `existing` is the
/// store's count of users with that email.
pub fn register(user: NewUser, existing: i64) -> (r: Result<NewUser, AuthError>)
    ensures
        registration(existing as int) matches Err(e) ==> r == Err::<NewUser, AuthError>(e),
        registration(existing as int) is Ok ==> r == Ok::<NewUser, AuthError>(user),
{
    if existing > 0 {
        Err(AuthError::DuplicateEmail)
    } else {
        Ok(user)
    }
}

/// What an attempt to insert a new user came to: the store took the row, or
/// refused it because a unique constraint found the email already present
/// (a signup that raced another), or failed otherwise.
pub open spec fn insertion(inserted: bool, unique_violation: bool) -> Result<(), AuthError> {
    if inserted {
        Ok(())
    } else if unique_violation {
        Err(AuthError::DuplicateEmail)
    } else {
        Err(AuthError::Persistence)
    }
}

/// Reads the store's answer to an insert of a new user.
pub fn insertion_outcome(inserted: bool, unique_violation: bool) -> (r: Result<(), AuthError>)
    ensures
        r == insertion(inserted, unique_violation),
{
    if inserted {
        Ok(())
    } else if unique_violation {
        Err(AuthError::DuplicateEmail)
    } else {
        Err(AuthError::Persistence)
    }
}

/// Once a user with some email has been stored, every later signup with the
/// same email is refused as a duplicate, whatever else the store holds.
pub proof fn lemma_second_signup_is_duplicate(stored: Seq<Seq<char>>, email: Seq<char>)
    ensures
        count_of(stored.push(email), email) > 0,
        registration(count_of(stored.push(email), email) as int) == Err::<(), AuthError>(AuthError::DuplicateEmail),
{
    lemma_count_after_insert(stored, email);
}

/// The user record matches the login: same email, and the password verifies
/// against its stored hash.
pub open spec fn credentials_match(email: Seq<char>, password: Seq<char>, u: UserRecord) -> bool {
    u.email@ == email && bcrypt_verify_of(password, u.password_hash@) == Some(true)
}

/// The outcome of a login at Unix time `now`, given the record that the store
/// found for the email, if any.
pub open spec fn login_outcome(
    email: Seq<char>,
    password: Seq<char>,
    found: Option<UserRecord>,
    secret: Seq<char>,
    now: int,
) -> Result<SessionView, AuthError> {
    match login_check(email, password) {
        Err(e) => Err(AuthError::Validation(e)),
        Ok(_) => match found {
            None => Err(AuthError::InvalidCredentials),
            Some(u) => if !credentials_match(email, password, u) {
                Err(AuthError::InvalidCredentials)
            } else if now + TOKEN_TTL_SECS > i64::MAX {
                Err(AuthError::TokenError)
            } else {
                match signed_token_of(u.id@, u.email@, now + TOKEN_TTL_SECS, secret) {
                    None => Err(AuthError::TokenError),
                    Some(t) => Ok(SessionView {
                        token: t,
                        user_id: u.id@,
                        email: u.email@,
                        expires_at: now + TOKEN_TTL_SECS,
                    }),
                }
            },
        },
    }
}

/// `r` is the outcome `o`, its response seen as a `SessionView`.
pub open spec fn response_is(r: Result<LoginResponse, AuthError>, o: Result<SessionView, AuthError>) -> bool {
    match r {
        Ok(s) => o == Ok::<SessionView, AuthError>(s@),
        Err(e) => o == Err::<SessionView, AuthError>(e),
    }
}

/// Logs in at Unix time `now`: validates the request, checks the password
/// against the record that the store found for the email (`None` where it
/// found none), and mints a token that expires 24 hours after `now`.
pub fn login_at(req: &LoginRequest, found: Option<UserRecord>, secret: &str, now: i64) -> (r: Result<LoginResponse, AuthError>)
    ensures
        response_is(r, login_outcome(req.email@, req.password@, found, secret@, now as int)),
        r matches Ok(s) ==> s.token@.len() > 0,
        now >= 0 ==> (r matches Ok(s) ==> decoded_claims_of(s.token@, secret@)
            == Some((s.user_id@, s.email@, s.expires_at as int))),
{
    if let Err(e) = validate_login(req.email.as_str(), req.password.as_str()) {
        return Err(AuthError::Validation(e));
    }
    let u = match found {
        None => return Err(AuthError::InvalidCredentials),
        Some(u) => u,
    };
    if u.email != req.email {
        return Err(AuthError::InvalidCredentials);
    }
    match bcrypt_verify(req.password.as_str(), u.password_hash.as_str()) {
        Some(true) => {},
        _ => return Err(AuthError::InvalidCredentials),
    }
    if now > i64::MAX - TOKEN_TTL_SECS {
        return Err(AuthError::TokenError);
    }
    let exp = now + TOKEN_TTL_SECS;
    match sign_claims(u.id.as_str(), u.email.as_str(), exp, secret) {
        None => Err(AuthError::TokenError),
        Some(t) => Ok(LoginResponse { token: t, user_id: u.id, email: u.email, expires_at: exp }),
    }
}

/// Logs in now: as `login_at`, at the current time.
pub fn login(req: &LoginRequest, found: Option<UserRecord>, secret: &str) -> (r: Result<LoginResponse, AuthError>)
    ensures
        exists|now: int|
            0 <= now && response_is(r, #[trigger] login_outcome(req.email@, req.password@, found, secret@, now)),
        r matches Ok(s) ==> s.token@.len() > 0,
        r matches Ok(s) ==> decoded_claims_of(s.token@, secret@) == Some((s.user_id@, s.email@, s.expires_at as int)),
{
    let now = unix_now();
    login_at(req, found, secret, now)
}

/// The claims that a token carries.
pub struct Claims {
    pub id: String,
    pub email: String,
    /// Unix time, in seconds, at which the token stops being valid.
    pub exp: i64,
}

/// Why a token was not accepted.
#[derive(Clone, Copy, Debug, PartialEq, Eq, Structural)]
pub enum TokenFault {
    /// Malformed, signed with another secret, or without the claims.
    Invalid,
    /// Well signed, but its time has passed.
    Expired,
}

/// The claims `(id, email, exp)` that an HS256 token carries, where its
/// signature checks out under the secret and it has them; `None` otherwise.
pub uninterp spec fn decoded_claims_of(token: Seq<char>, secret: Seq<char>) -> Option<(Seq<char>, Seq<char>, int)>;

/// Relies on jsonwebtoken::decode with HS256, a key made from the secret's
/// bytes, and the checks of time switched off: a deterministic check of the
/// signature, then the claims read as JSON.
#[verifier::external_body]
fn decode_claims(token: &str, secret: &str) -> (r: Option<(String, String, i64)>)
    ensures
        r matches Some(c) ==> decoded_claims_of(token@, secret@) == Some((c.0@, c.1@, c.2 as int)),
        r is None ==> decoded_claims_of(token@, secret@) is None,
{
    let key = jsonwebtoken::DecodingKey::from_secret(secret.as_bytes());
    let mut validation = jsonwebtoken::Validation::default();
    validation.validate_exp = false;
    let data = jsonwebtoken::decode::<std::collections::BTreeMap<String, serde_json::Value>>(token, &key, &validation).ok()?;
    let c = data.claims;
    Some((c.get("id")?.as_str()?.to_string(), c.get("email")?.as_str()?.to_string(), c.get("exp")?.as_i64()?))
}

/// What checking a token at Unix time `now` comes to: its claims, while
/// `now` is before their expiry.
pub open spec fn token_check(token: Seq<char>, secret: Seq<char>, now: int) -> Result<(Seq<char>, Seq<char>, int), TokenFault> {
    match decoded_claims_of(token, secret) {
        None => Err(TokenFault::Invalid),
        Some(c) => if now < c.2 { Ok(c) } else { Err(TokenFault::Expired) },
    }
}

/// `r` is the outcome `o`, its claims seen as a triple.
pub open spec fn claims_are(r: Result<Claims, TokenFault>, o: Result<(Seq<char>, Seq<char>, int), TokenFault>) -> bool {
    match r {
        Ok(c) => o == Ok::<(Seq<char>, Seq<char>, int), TokenFault>((c.id@, c.email@, c.exp as int)),
        Err(e) => o == Err::<(Seq<char>, Seq<char>, int), TokenFault>(e),
    }
}

/// Checks a token at Unix time `now`: its signature under the secret, then
/// its expiry.
pub fn verify_token_at(token: &str, secret: &str, now: i64) -> (r: Result<Claims, TokenFault>)
    ensures
        claims_are(r, token_check(token@, secret@, now as int)),
{
    match decode_claims(token, secret) {
        None => Err(TokenFault::Invalid),
        Some((id, email, exp)) => if now < exp {
            Ok(Claims { id, email, exp })
        } else {
            Err(TokenFault::Expired)
        },
    }
}

/// Checks a token now: as `verify_token_at`, at the current time.
pub fn verify_token(token: &str, secret: &str) -> (r: Result<Claims, TokenFault>)
    ensures
        exists|now: int| 0 <= now && claims_are(r, #[trigger] token_check(token@, secret@, now)),
{
    let now = unix_now();
    verify_token_at(token, secret, now)
}

/// A successful login hands back a token signed over the user's id, the
/// submitted email, and an expiry exactly 24 hours after the time of login.
pub proof fn lemma_login_token_claims(
    email: Seq<char>,
    password: Seq<char>,
    found: Option<UserRecord>,
    secret: Seq<char>,
    now: int,
    s: SessionView,
)
    requires
        login_outcome(email, password, found, secret, now) == Ok::<SessionView, AuthError>(s),
    ensures
        s.email == email,
        s.expires_at == now + TOKEN_TTL_SECS,
        signed_token_of(s.user_id, s.email, s.expires_at, secret) == Some(s.token),
{
}

/// A wrong password gives exactly the outcome of an unknown email: a caller
/// cannot tell whether the email is registered.
pub proof fn lemma_wrong_password_like_unknown_email(
    email: Seq<char>,
    password: Seq<char>,
    u: UserRecord,
    secret: Seq<char>,
    now: int,
)
    requires
        bcrypt_verify_of(password, u.password_hash@) != Some(true),
    ensures
        login_outcome(email, password, Some(u), secret, now) == login_outcome(email, password, None, secret, now),
        login_check(email, password) is Ok ==> login_outcome(email, password, None, secret, now)
            == Err::<SessionView, AuthError>(AuthError::InvalidCredentials),
{
}

/// A token read back to claims verifies, with those claims, at every time
/// before their expiry, and is refused as expired from then on.
pub proof fn lemma_token_verifies_until_expiry(
    token: Seq<char>,
    secret: Seq<char>,
    id: Seq<char>,
    email: Seq<char>,
    exp: int,
    now: int,
)
    requires
        decoded_claims_of(token, secret) == Some((id, email, exp)),
    ensures
        now < exp ==> token_check(token, secret, now) == Ok::<(Seq<char>, Seq<char>, int), TokenFault>((id, email, exp)),
        now >= exp ==> token_check(token, secret, now) == Err::<(Seq<char>, Seq<char>, int), TokenFault>(TokenFault::Expired),
{
}

/// A user stored from an accepted signup, whose stored hash verifies the
/// password, logs in with the same email and password: the outcome is a
/// session for the stored id and that email, unless signing fails.
pub proof fn lemma_signed_up_user_logs_in(
    email: Seq<char>,
    password: Seq<char>,
    u: UserRecord,
    secret: Seq<char>,
    now: int,
)
    requires
        signup_check(email, password, password) is Ok,
        u.email@ == email,
        bcrypt_verify_of(password, u.password_hash@) == Some(true),
        0 <= now <= i64::MAX - TOKEN_TTL_SECS,
    ensures
        login_outcome(email, password, Some(u), secret, now) is Ok
            || login_outcome(email, password, Some(u), secret, now) == Err::<SessionView, AuthError>(AuthError::TokenError),
        login_outcome(email, password, Some(u), secret, now) matches Ok(s)
            ==> s.user_id == u.id@ && s.email == email && s.expires_at == now + TOKEN_TTL_SECS,
{
    if password.len() == 0 {
        assert(byte_len(password) == 0);
    }
    assert(email_shape(email));
    let (at, dot) = choose|at: int, dot: int| email_split(email, at, dot);
    assert(email.len() > 0);
    assert(login_check(email, password) is Ok);
}

} // verus!
