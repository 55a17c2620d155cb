//! Authentication decisions: who may register, the profile a registration creates,
//! which logins are accepted, and when a refresh token may be rotated.
//!
//! Lookups, password hashing and token storage are I/O done around these functions;
//! each function here takes what such a step found and decides the next one.

use vstd::prelude::*;

use crate::text::{str_eq, string_of, trim_spec, trim_str};

verus! {

/// The registration request.
#[derive(Debug)]
pub struct RegisterRequest {
    pub username: String,
    pub email: String,
    pub password: String,
    pub display_name: Option<String>,
    /// The Turnstile challenge answer, when the site asks for one.
    pub turnstile_token: Option<String>,
}

/// The login request; `login` is a username or an email.
#[derive(Debug)]
pub struct LoginRequest {
    pub login: String,
    pub password: String,
    pub remember_me: Option<bool>,
    /// The Turnstile challenge answer, when the site asks for one.
    pub turnstile_token: Option<String>,
}

impl LoginRequest {
    /// The key the account is looked up by: the login, trimmed (a username or an email,
    /// compared as written).
    pub fn lookup_key(&self) -> (r: String)
        ensures
            r@ == trim_spec(self.login@),
    {
        string_of(&trim_str(self.login.as_str()))
    }
}

/// The user summary of a login or registration answer.
#[derive(Debug)]
pub struct AuthUserInfo {
    pub id: String,
    pub username: String,
    pub role: String,
}

/// The body of a login or registration answer: the user and the access token.
#[derive(Debug)]
pub struct LoginResponseData {
    pub user: AuthUserInfo,
    pub access_token: String,
}

/// Why an authentication request was refused.
#[derive(Debug, Clone, Copy, PartialEq, Eq, Structural)]
pub enum AuthError {
    /// The trimmed username is shorter than three bytes.
    UsernameTooShort,
    /// The password is shorter than six bytes.
    PasswordTooShort,
    /// Unknown or inactive account, wrong password, or an invalid, expired or used
    /// refresh token.
    Unauthorized,
    /// The site's setup is not completed.
    SetupNotCompleted,
    /// Public registration is switched off.
    RegistrationDisabled,
    /// No administrator exists yet.
    RegistrationBeforeAdmin,
    /// The username or email is taken.
    IdentityTaken,
}

/// The HTTP status of a refusal.
pub open spec fn auth_status_spec(e: AuthError) -> u16 {
    match e {
        AuthError::UsernameTooShort | AuthError::PasswordTooShort | AuthError::IdentityTaken => 400,
        AuthError::Unauthorized => 401,
        _ => 409,
    }
}

/// The message of a refusal that carries one.
pub open spec fn auth_message_spec(e: AuthError) -> Option<Seq<char>> {
    match e {
        AuthError::UsernameTooShort => Some("username must be at least 3 characters"@),
        AuthError::PasswordTooShort => Some("password must be at least 6 characters"@),
        AuthError::SetupNotCompleted => Some("setup not completed"@),
        AuthError::RegistrationDisabled => Some("public registration is disabled"@),
        AuthError::RegistrationBeforeAdmin => Some(
            "public registration is unavailable before administrator initialization"@,
        ),
        AuthError::IdentityTaken => Some("username or email already exists"@),
        AuthError::Unauthorized => None,
    }
}

impl AuthError {
    /// The HTTP status of the refusal: 400 for a bad request (too short a name or
    /// password, a taken username or email), 401 for a refused identity, 409 for
    /// registration that the site's state does not allow.
    pub fn status_code(&self) -> (r: u16)
        ensures
            r == auth_status_spec(*self),
    {
        match self {
            AuthError::UsernameTooShort | AuthError::PasswordTooShort | AuthError::IdentityTaken => 400,
            AuthError::Unauthorized => 401,
            _ => 409,
        }
    }

    /// The message of the refusal, for those that carry one.
    pub fn message(&self) -> (r: Option<String>)
        ensures
            match r {
                Some(m) => auth_message_spec(*self) == Some(m@),
                None => auth_message_spec(*self) is None,
            },
    {
        match self {
            AuthError::UsernameTooShort => Some("username must be at least 3 characters".to_owned()),
            AuthError::PasswordTooShort => Some("password must be at least 6 characters".to_owned()),
            AuthError::SetupNotCompleted => Some("setup not completed".to_owned()),
            AuthError::RegistrationDisabled => Some("public registration is disabled".to_owned()),
            AuthError::RegistrationBeforeAdmin => Some(
                "public registration is unavailable before administrator initialization".to_owned(),
            ),
            AuthError::IdentityTaken => Some("username or email already exists".to_owned()),
            AuthError::Unauthorized => None,
        }
    }
}

/// The length in bytes (UTF-8) of a text.
pub open spec fn byte_len(s: Seq<char>) -> nat {
    vstd::utf8::encode_utf8(s).len()
}

/// The checks on a registration request: the trimmed username has at least three bytes
/// and the password at least six; the username is checked first.
pub open spec fn register_check_spec(username: Seq<char>, password: Seq<char>) -> Result<(), AuthError> {
    if byte_len(trim_spec(username)) < 3 {
        Err(AuthError::UsernameTooShort)
    } else if byte_len(password) < 6 {
        Err(AuthError::PasswordTooShort)
    } else {
        Ok(())
    }
}

/// Checks the fields of a registration request.
pub fn validate_register_request(body: &RegisterRequest) -> (r: Result<(), AuthError>)
    ensures
        r == register_check_spec(body.username@, body.password@),
{
    let username = string_of(&trim_str(body.username.as_str()));
    if username.as_str().as_bytes().len() < 3 {
        return Err(AuthError::UsernameTooShort);
    }
    if body.password.as_str().as_bytes().len() < 6 {
        return Err(AuthError::PasswordTooShort);
    }
    Ok(())
}

/// Whether public registration is open: the setup is completed, registration is
/// allowed, and an administrator already exists (at least one user).
pub open spec fn registration_gate_spec(setup_completed: bool, allow_register: bool, user_count: i64) -> Result<
    (),
    AuthError,
> {
    if !setup_completed {
        Err(AuthError::SetupNotCompleted)
    } else if !allow_register {
        Err(AuthError::RegistrationDisabled)
    } else if user_count > 0 {
        Ok(())
    } else {
        Err(AuthError::RegistrationBeforeAdmin)
    }
}

/// Decides whether public registration is open, given the setup stage, the
/// `allow_register` setting and the number of users.
pub fn registration_gate(setup_completed: bool, allow_register: bool, user_count: i64) -> (r: Result<(), AuthError>)
    ensures
        r == registration_gate_spec(setup_completed, allow_register, user_count),
{
    if !setup_completed {
        return Err(AuthError::SetupNotCompleted);
    }
    if !allow_register {
        return Err(AuthError::RegistrationDisabled);
    }
    if user_count > 0 {
        Ok(())
    } else {
        Err(AuthError::RegistrationBeforeAdmin)
    }
}

/// Refuses a registration whose username or email is taken.
pub fn identity_gate(exists: bool) -> (r: Result<(), AuthError>)
    ensures
        r == (if exists { Err(AuthError::IdentityTaken) } else { Ok::<(), AuthError>(()) }),
{
    if exists {
        Err(AuthError::IdentityTaken)
    } else {
        Ok(())
    }
}

/// The account that a registration creates.
pub struct RegistrationProfile {
    pub username: String,
    pub email: String,
    pub display_name: String,
    pub role: String,
}

/// The account of a registration: trimmed username and email, the display name
/// (trimmed; the username when none is given) and the `member` role.
pub fn registration_profile(body: &RegisterRequest) -> (p: RegistrationProfile)
    ensures
        p.username@ == trim_spec(body.username@),
        p.email@ == trim_spec(body.email@),
        p.display_name@ == (match body.display_name {
            Some(d) => trim_spec(d@),
            None => trim_spec(trim_spec(body.username@)),
        }),
        p.role@ == "member"@,
{
    let username = string_of(&trim_str(body.username.as_str()));
    let email = string_of(&trim_str(body.email.as_str()));
    let display_name = match &body.display_name {
        Some(d) => string_of(&trim_str(d.as_str())),
        None => string_of(&trim_str(username.as_str())),
    };
    RegistrationProfile { username, email, display_name, role: "member".to_owned() }
}

/// Decides on a login account before its password is checked: the setup must be
/// completed, the account must exist and it must be active; an inactive account is
/// refused like an unknown one.
pub fn check_login_account(setup_completed: bool, account_status: Option<&str>) -> (r: Result<(), AuthError>)
    ensures
        r == (if !setup_completed {
            Err(AuthError::SetupNotCompleted)
        } else {
            match account_status {
                None => Err(AuthError::Unauthorized),
                Some(s) => if s@ == "active"@ {
                    Ok::<(), AuthError>(())
                } else {
                    Err(AuthError::Unauthorized)
                },
            }
        }),
{
    if !setup_completed {
        return Err(AuthError::SetupNotCompleted);
    }
    match account_status {
        None => Err(AuthError::Unauthorized),
        Some(s) => if str_eq(s, "active") {
            Ok(())
        } else {
            Err(AuthError::Unauthorized)
        },
    }
}

/// Refuses a login whose password does not verify.
pub fn check_password(verified: bool) -> (r: Result<(), AuthError>)
    ensures
        r == (if verified { Ok::<(), AuthError>(()) } else { Err(AuthError::Unauthorized) }),
{
    if verified {
        Ok(())
    } else {
        Err(AuthError::Unauthorized)
    }
}

/// The answer to a successful login or registration.
pub fn login_response(id: String, username: String, role: String, access_token: String) -> (r: LoginResponseData)
    ensures
        r.user.id@ == id@,
        r.user.username@ == username@,
        r.user.role@ == role@,
        r.access_token@ == access_token@,
{
    LoginResponseData { user: AuthUserInfo { id, username, role }, access_token }
}

/// A stored refresh token that a lookup found (valid and not expired).
pub struct RefreshRecord {
    pub user_id: String,
    pub expires_at: String,
    pub family_id: Option<String>,
    pub used_at: Option<String>,
}

/// What a refresh does once the presented token was looked up (by its hash): it needs
/// a found token that was not used before. It then marks that token used, and saves a
/// new token row under `new_id` for the same user, which joins the old token's family
/// (or starts its own, named by `new_id`, when the old one has none) and lives for the
/// refresh lifetime.
pub struct Rotation {
    /// The hash of the presented token, which is marked used before the new row is saved.
    pub mark_used: String,
    pub user_id: String,
    pub family_id: String,
    /// The id of the new token row.
    pub new_id: String,
    /// The lifetime of the new token, in seconds.
    pub ttl_seconds: u64,
}

/// Whether a refresh with the looked-up token is refused: no token was found, or it
/// was used before.
pub open spec fn refresh_refused(found: Option<RefreshRecord>) -> bool {
    match found {
        None => true,
        Some(rec) => rec.used_at is Some,
    }
}

/// Decides a refresh on the looked-up token, the hash it was looked up by, the id of
/// the token that replaces it and the configured refresh lifetime.
pub fn rotate_refresh_token(
    found: Option<RefreshRecord>,
    token_hash: String,
    new_id: String,
    configured_ttl: Option<u64>,
) -> (r: Result<Rotation, AuthError>)
    ensures
        refresh_refused(found) <==> r is Err,
        r matches Err(e) ==> e == AuthError::Unauthorized,
        r matches Ok(rot) ==> {
            let rec = found->Some_0;
            &&& rot.mark_used@ == token_hash@
            &&& rot.user_id@ == rec.user_id@
            &&& rot.family_id@ == (match rec.family_id {
                Some(f) => f@,
                None => new_id@,
            })
            &&& rot.new_id@ == new_id@
            &&& rot.ttl_seconds == refresh_ttl_spec(configured_ttl)
        },
{
    let rec = match found {
        Some(rec) => rec,
        None => return Err(AuthError::Unauthorized),
    };
    if rec.used_at.is_some() {
        return Err(AuthError::Unauthorized);
    }
    let family_id = match rec.family_id {
        Some(f) => f,
        None => new_id.clone(),
    };
    let ttl_seconds = refresh_ttl_seconds(configured_ttl);
    Ok(Rotation { mark_used: token_hash, user_id: rec.user_id, family_id, new_id, ttl_seconds })
}

/// A token record once a rotation has marked it used at `used_at`.
pub open spec fn marked_used(rec: RefreshRecord, used_at: String) -> RefreshRecord {
    RefreshRecord { used_at: Some(used_at), ..rec }
}

/// A refresh token is good for one refresh: once a rotation has marked it used (at any
/// time), a refresh with it is refused.
pub proof fn law_rotated_token_is_single_use(rec: RefreshRecord, used_at: String)
    requires
        !refresh_refused(Some(rec)),
    ensures
        refresh_refused(Some(marked_used(rec, used_at))),
{
}

/// The refresh token lifetime: the configured one, else seven days.
pub open spec fn refresh_ttl_spec(configured: Option<u64>) -> u64 {
    match configured {
        Some(t) => t,
        None => 604800,
    }
}

/// The refresh token lifetime: the configured one, else seven days.
pub fn refresh_ttl_seconds(configured: Option<u64>) -> (r: u64)
    ensures
        r == refresh_ttl_spec(configured),
{
    match configured {
        Some(t) => t,
        None => 604800,
    }
}

/// How long a remembered login lasts: seven days.
pub const REMEMBER_ME_MAX_AGE_SECONDS: u64 = 604800;

/// How long the refresh cookie of a login that is not remembered lasts: fifteen minutes.
pub const SHORT_MAX_AGE_SECONDS: u64 = 900;

/// The cookie lifetimes of a login, session first, refresh second: seven days for both
/// when the user asks to be remembered; otherwise the access token's lifetime for the
/// session and fifteen minutes for the refresh token.
pub fn login_max_ages(remember_me: Option<bool>, expires_in_seconds: u64) -> (r: (u64, u64))
    ensures
        r == (if remember_me == Some(true) {
            (REMEMBER_ME_MAX_AGE_SECONDS, REMEMBER_ME_MAX_AGE_SECONDS)
        } else {
            (expires_in_seconds, SHORT_MAX_AGE_SECONDS)
        }),
{
    let remember = match remember_me {
        Some(b) => b,
        None => false,
    };
    if remember {
        (REMEMBER_ME_MAX_AGE_SECONDS, REMEMBER_ME_MAX_AGE_SECONDS)
    } else {
        (expires_in_seconds, SHORT_MAX_AGE_SECONDS)
    }
}

} // verus!
