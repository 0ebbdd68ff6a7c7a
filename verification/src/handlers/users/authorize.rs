//! Authorizing a request by the token in its cookie.
use vstd::prelude::*;
use crate::handlers::status::StatusCode;
use crate::models::user::User;

verus! {

/// The token that a request is authorized by: the value of its `token`
/// cookie. A request without one is a server error; a token that does not
/// decode or whose claims are refused is answered `UNAUTHORIZED`.
pub fn cookie_token(cookie: Option<String>) -> (r: Result<String, StatusCode>)
    ensures
        match cookie {
            Some(c) => r matches Ok(t) && t@ == c@,
            None => r == Err::<String, StatusCode>(StatusCode::INTERNAL_SERVER_ERROR),
        },
{
    match cookie {
        Some(c) => Ok(c),
        None => Err(StatusCode::INTERNAL_SERVER_ERROR),
    }
}

/// The decision once the cookie's token has been looked into: `accepted`
/// is the user its claims were accepted for, or `None` where the token does
/// not decode, its claims are refused or the lookup fails. The request goes
/// on only in the first case; otherwise it is answered `UNAUTHORIZED`.
pub fn authorized(accepted: Option<User>) -> (r: Result<(), StatusCode>)
    ensures
        match accepted {
            Some(_) => r is Ok,
            None => r == Err::<(), StatusCode>(StatusCode::UNAUTHORIZED),
        },
{
    match accepted {
        Some(_) => Ok(()),
        None => Err(StatusCode::UNAUTHORIZED),
    }
}

} // verus!
