//! Refreshing the token of an authenticated user.
use vstd::prelude::*;
use crate::handlers::status::StatusCode;
use crate::models::user::User;
use crate::util::clock::now_timestamp;
use crate::util::jwt::claims::{can_issue_at, issued_claims, Claims};

verus! {

/// Why a refresh is refused.
#[derive(Debug, Clone, Copy, PartialEq, Eq, Structural)]
pub enum RefreshError {
    JwtFailed,
}

pub open spec fn refresh_message(e: RefreshError) -> Seq<char> {
    match e {
        RefreshError::JwtFailed => "Failed to generate new token"@,
    }
}

impl RefreshError {
    /// The status that the refusal is answered with.
    pub fn status(&self) -> (s: StatusCode)
        ensures
            s == StatusCode::INTERNAL_SERVER_ERROR,
    {
        match self {
            RefreshError::JwtFailed => StatusCode::INTERNAL_SERVER_ERROR,
        }
    }

    /// The text that the refusal is answered with.
    pub fn message(&self) -> (m: String)
        ensures
            m@ == refresh_message(*self),
    {
        match self {
            RefreshError::JwtFailed => String::from_str("Failed to generate new token"),
        }
    }
}

/// The claims of the new token for the authenticated user, issued at
/// second `now`.
pub fn refresh_claims_at(user: &User, now: usize) -> (r: Result<Claims, RefreshError>)
    ensures
        r == if can_issue_at(now) {
            Ok::<Claims, RefreshError>(issued_claims(*user, now))
        } else {
            Err(RefreshError::JwtFailed)
        },
{
    match Claims::try_for_user(user, now) {
        Some(claims) => Ok(claims),
        None => Err(RefreshError::JwtFailed),
    }
}

/// The claims of the new token for the authenticated user, issued now.
pub fn refresh_claims(user: &User) -> (r: Result<Claims, RefreshError>)
    ensures
        exists|now: usize|
            r == if #[trigger] can_issue_at(now) {
                Ok::<Claims, RefreshError>(issued_claims(*user, now))
            } else {
                Err(RefreshError::JwtFailed)
            },
{
    let now = now_timestamp() as usize;
    refresh_claims_at(user, now)
}

} // verus!
