//! Logging in: from the stored user and the given password to the claims of
//! a new token.
use vstd::prelude::*;
use crate::handlers::status::StatusCode;
use crate::models::user::{DbError, User};
use crate::util::clock::now_timestamp;
use crate::util::hash::argon2_matches;
use crate::util::jwt::claims::{can_issue_at, issued_claims, Claims};

verus! {

/// The body of a login request.
pub struct Body {
    pub username: String,
    pub password: String,
}

/// Why a login is refused.
#[derive(Debug, Clone, Copy, PartialEq, Eq, Structural)]
pub enum LoginError {
    UserDoesNotExist,
    LookupFailed,
    WrongPassword,
    CompareFailed,
    JwtFailed,
}

pub open spec fn login_status(e: LoginError) -> StatusCode {
    match e {
        LoginError::UserDoesNotExist => StatusCode::BAD_REQUEST,
        LoginError::LookupFailed => StatusCode::INTERNAL_SERVER_ERROR,
        LoginError::WrongPassword => StatusCode::UNAUTHORIZED,
        LoginError::CompareFailed => StatusCode::INTERNAL_SERVER_ERROR,
        LoginError::JwtFailed => StatusCode::INTERNAL_SERVER_ERROR,
    }
}

pub open spec fn login_message(e: LoginError) -> Seq<char> {
    match e {
        LoginError::UserDoesNotExist => "User does not exist"@,
        LoginError::LookupFailed => "Failed to get user from db"@,
        LoginError::WrongPassword => "Wrong password"@,
        LoginError::CompareFailed => "Failed to compare passwords"@,
        LoginError::JwtFailed => "Failed to generate jwt"@,
    }
}

impl LoginError {
    /// The status that the refusal is answered with.
    pub fn status(&self) -> (s: StatusCode)
        ensures
            s == login_status(*self),
    {
        match self {
            LoginError::UserDoesNotExist => StatusCode::BAD_REQUEST,
            LoginError::LookupFailed => StatusCode::INTERNAL_SERVER_ERROR,
            LoginError::WrongPassword => StatusCode::UNAUTHORIZED,
            LoginError::CompareFailed => StatusCode::INTERNAL_SERVER_ERROR,
            LoginError::JwtFailed => StatusCode::INTERNAL_SERVER_ERROR,
        }
    }

    /// The text that the refusal is answered with.
    pub fn message(&self) -> (m: String)
        ensures
            m@ == login_message(*self),
    {
        match self {
            LoginError::UserDoesNotExist => String::from_str("User does not exist"),
            LoginError::LookupFailed => String::from_str("Failed to get user from db"),
            LoginError::WrongPassword => String::from_str("Wrong password"),
            LoginError::CompareFailed => String::from_str("Failed to compare passwords"),
            LoginError::JwtFailed => String::from_str("Failed to generate jwt"),
        }
    }
}

/// What a login gives for the stored user and the password: the lookup's
/// failure or absence, the password's mismatch, or else the claims of a
/// token for the user, issued at some second `now`.
pub open spec fn login_outcome(
    found: Result<Option<User>, DbError>,
    password: Seq<char>,
    now: usize,
) -> Result<Claims, LoginError> {
    match found {
        Err(_) => Err(LoginError::LookupFailed),
        Ok(None) => Err(LoginError::UserDoesNotExist),
        Ok(Some(user)) => match argon2_matches(password, user.password@) {
            None => Err(LoginError::CompareFailed),
            Some(false) => Err(LoginError::WrongPassword),
            Some(true) => if can_issue_at(now) {
                Ok(issued_claims(user, now))
            } else {
                Err(LoginError::JwtFailed)
            },
        },
    }
}

/// Decides a login at second `now`, once the user named in the body has
/// been looked up: `found` is the lookup's outcome. On success the claims of
/// the token to hand out are returned, issued at `now`.
pub fn check_login_at(found: Result<Option<User>, DbError>, password: &String, now: usize) -> (r:
    Result<Claims, LoginError>)
    ensures
        r == login_outcome(found, password@, now),
{
    let user = match found {
        Ok(Some(user)) => user,
        Ok(None) => {
            return Err(LoginError::UserDoesNotExist);
        },
        Err(_) => {
            return Err(LoginError::LookupFailed);
        },
    };
    match user.compare_passwords(password) {
        Ok(true) => {},
        Ok(false) => {
            return Err(LoginError::WrongPassword);
        },
        Err(_) => {
            return Err(LoginError::CompareFailed);
        },
    }
    match Claims::try_for_user(&user, now) {
        Some(claims) => Ok(claims),
        None => Err(LoginError::JwtFailed),
    }
}

/// Decides a login now, once the user named in the body has been looked
/// up.
pub fn check_login(found: Result<Option<User>, DbError>, password: &String) -> (r: Result<
    Claims,
    LoginError,
>)
    ensures
        exists|now: usize| r == #[trigger] login_outcome(found, password@, now),
{
    let now = now_timestamp() as usize;
    check_login_at(found, password, now)
}

/// A user whose stored hash was made from `password` (as registration
/// makes it) logs in with that password: the outcome is the claims issued
/// at `now`, unless their expiry time does not fit.
pub proof fn lemma_own_password_logs_in(user: User, password: Seq<char>, now: usize)
    requires
        argon2_matches(password, user.password@) == Some(true),
    ensures
        login_outcome(Ok(Some(user)), password, now) == if can_issue_at(now) {
            Ok::<Claims, LoginError>(issued_claims(user, now))
        } else {
            Err(LoginError::JwtFailed)
        },
{
}

/// A password that does not match the stored hash is refused, whatever the
/// second.
pub proof fn lemma_other_password_refused(user: User, password: Seq<char>, now: usize)
    requires
        argon2_matches(password, user.password@) == Some(false),
    ensures
        login_outcome(Ok(Some(user)), password, now) == Err::<Claims, LoginError>(
            LoginError::WrongPassword,
        ),
{
}

} // verus!
