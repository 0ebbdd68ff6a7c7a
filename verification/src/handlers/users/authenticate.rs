//! Which token a request authenticates with.
use vstd::prelude::*;
use crate::handlers::status::StatusCode;
use crate::models::user::User;

verus! {

/// The scheme word, with its space, that opens a bearer `Authorization`
/// header.
pub open spec fn bearer_prefix() -> Seq<char> {
    "Bearer "@
}

/// The token of an `Authorization` header value: what follows `"Bearer "`,
/// or `None` when the value does not start so.
pub open spec fn bearer_token(header: Seq<char>) -> Option<Seq<char>> {
    if header.len() >= 7 && header.subrange(0, 7) == bearer_prefix() {
        Some(header.subrange(7, header.len() as int))
    } else {
        None
    }
}

/// The token of a bearer header is the whole of what follows `"Bearer "`:
/// the header is exactly the scheme and the token put together, whatever
/// its length, and every header so put together yields that token.
pub proof fn lemma_bearer_token_is_remainder(header: Seq<char>, token: Seq<char>)
    ensures
        bearer_token(header) matches Some(t) ==> "Bearer "@ + t == header,
        bearer_token(header) matches Some(t) ==> t.len() == header.len() - 7,
        header == "Bearer "@ + token ==> bearer_token(header) == Some(token),
{
    reveal_strlit("Bearer ");
    if bearer_token(header) is Some {
        assert("Bearer "@ + header.subrange(7, header.len() as int) =~= header);
    }
    if header == "Bearer "@ + token {
        assert(header.subrange(0, 7) =~= "Bearer "@);
        assert(header.subrange(7, header.len() as int) =~= token);
    }
}

/// What follows `"Bearer "` in an `Authorization` header value.
pub fn strip_bearer(header: &str) -> (r: Option<String>)
    ensures
        match bearer_token(header@) {
            Some(t) => r matches Some(s) && s@ == t,
            None => r is None,
        },
        r matches Some(s) ==> "Bearer "@ + s@ == header@,
        forall|t: Seq<char>| header@ == "Bearer "@ + t ==> #[trigger] r.is_some() && r->0@ == t,
{
    proof {
        assert forall|t: Seq<char>| header@ == "Bearer "@ + t implies bearer_token(header@) == Some(
            t,
        ) by {
            lemma_bearer_token_is_remainder(header@, t);
        }
        lemma_bearer_token_is_remainder(header@, header@);
    }
    let prefix = "Bearer ";
    proof {
        reveal_strlit("Bearer ");
    }
    let n = header.unicode_len();
    if n < 7 {
        return None;
    }
    let mut i: usize = 0;
    while i < 7
        invariant
            n == header@.len(),
            n >= 7,
            i <= 7,
            prefix@ == bearer_prefix(),
            prefix@.len() == 7,
            forall|j: int| 0 <= j < i ==> header@[j] == prefix@[j],
        decreases 7 - i,
    {
        if header.get_char(i) != prefix.get_char(i) {
            assert(header@.subrange(0, 7)[i as int] != bearer_prefix()[i as int]);
            return None;
        }
        i = i + 1;
    }
    assert(header@.subrange(0, 7) =~= bearer_prefix());
    proof {
        lemma_bearer_token_is_remainder(header@, header@.subrange(7, n as int));
    }
    Some(String::from_str(header.substring_char(7, n)))
}

/// The token that a request authenticates with.
///
/// `header` is the request's `Authorization` header: `None` when absent,
/// `Some(None)` when its value is not visible ASCII text. `cookie` is the
/// value of its private `token` cookie, when it has one. The header takes
/// priority over the cookie; a header that is not text or lacks the
/// `"Bearer "` scheme is a server error, and a request with neither is
/// unauthorized.
pub fn select_token(header: Option<Option<String>>, cookie: Option<String>) -> (r: Result<
    String,
    StatusCode,
>)
    ensures
        match header {
            Some(Some(h)) => match bearer_token(h@) {
                Some(t) => r matches Ok(s) && s@ == t,
                None => r == Err::<String, StatusCode>(StatusCode::INTERNAL_SERVER_ERROR),
            },
            Some(None) => r == Err::<String, StatusCode>(StatusCode::INTERNAL_SERVER_ERROR),
            None => match cookie {
                Some(c) => r matches Ok(s) && s@ == c@,
                None => r == Err::<String, StatusCode>(StatusCode::UNAUTHORIZED),
            },
        },
        header matches Some(Some(h)) ==> (r matches Ok(s) ==> "Bearer "@ + s@ == h@),
{
    match header {
        Some(Some(h)) => match strip_bearer(h.as_str()) {
            Some(t) => Ok(t),
            None => Err(StatusCode::INTERNAL_SERVER_ERROR),
        },
        Some(None) => Err(StatusCode::INTERNAL_SERVER_ERROR),
        None => match cookie {
            Some(c) => Ok(c),
            None => Err(StatusCode::UNAUTHORIZED),
        },
    }
}

/// The decision once the token has been looked into: `found` is the user
/// it belongs to, or `None` where it does not decode, its claims are
/// refused or the lookup fails. The request then goes on as that user, or is
/// answered `UNAUTHORIZED`.
pub fn token_user(found: Option<User>) -> (r: Result<User, StatusCode>)
    ensures
        match found {
            Some(u) => r matches Ok(v) && v == u,
            None => r == Err::<User, StatusCode>(StatusCode::UNAUTHORIZED),
        },
{
    match found {
        Some(u) => Ok(u),
        None => Err(StatusCode::UNAUTHORIZED),
    }
}

} // verus!
