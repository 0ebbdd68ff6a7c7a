use jwt_auth_lib::handlers::status::StatusCode;
use jwt_auth_lib::handlers::users::authenticate::{select_token, strip_bearer, token_user};
use jwt_auth_lib::handlers::users::authorize::{authorized, cookie_token};
use jwt_auth_lib::models::user::{Permission, User, Uuid};
use jwt_auth_lib::util::jwt::claims::{Claims, ClaimsCheck, TOKEN_LIFETIME};

fn sample_user(tokenid: u128) -> User {
    User::with_identity(
        "alice".to_string(),
        "hash".to_string(),
        "alice@example.com".to_string(),
        Permission::USER,
        Uuid::from_u128(7),
        Uuid::from_u128(tokenid),
        1000,
    )
}

#[test]
fn status_numbers() {
    assert_eq!(StatusCode::OK.as_u16(), 200);
    assert_eq!(StatusCode::CREATED.as_u16(), 201);
    assert_eq!(StatusCode::BAD_REQUEST.as_u16(), 400);
    assert_eq!(StatusCode::UNAUTHORIZED.as_u16(), 401);
    assert_eq!(StatusCode::INTERNAL_SERVER_ERROR.as_u16(), 500);
}

#[test]
fn bearer_prefix_is_stripped() {
    assert_eq!(strip_bearer("Bearer abc.def.ghi"), Some("abc.def.ghi".to_string()));
    assert_eq!(strip_bearer("Bearer "), Some(String::new()));
    assert_eq!(strip_bearer("bearer abc"), None);
    assert_eq!(strip_bearer("Bearer"), None);
    assert_eq!(strip_bearer("Token abc"), None);
}

#[test]
fn header_takes_priority_over_cookie() {
    let both = select_token(Some(Some("Bearer fromheader".to_string())), Some("fromcookie".to_string()));
    assert_eq!(both, Ok("fromheader".to_string()));
    let cookie_only = select_token(None, Some("fromcookie".to_string()));
    assert_eq!(cookie_only, Ok("fromcookie".to_string()));
    assert_eq!(select_token(None, None), Err(StatusCode::UNAUTHORIZED));
    assert_eq!(
        select_token(Some(Some("Basic xyz".to_string())), Some("fromcookie".to_string())),
        Err(StatusCode::INTERNAL_SERVER_ERROR)
    );
    assert_eq!(select_token(Some(None), Some("c".to_string())), Err(StatusCode::INTERNAL_SERVER_ERROR));
}

#[test]
fn authorize_needs_a_cookie() {
    assert_eq!(cookie_token(Some("tok".to_string())), Ok("tok".to_string()));
    assert_eq!(cookie_token(None), Err(StatusCode::INTERNAL_SERVER_ERROR));
}

#[test]
fn claims_are_issued_for_a_year() {
    let user = sample_user(9);
    let c = Claims::for_user(&user, 1_700_000_000);
    assert_eq!(c.sub, Uuid::from_u128(7));
    assert_eq!(c.tokenid, Uuid::from_u128(9));
    assert_eq!(c.iat, 1_700_000_000);
    assert_eq!(c.exp, 1_731_536_000);
    assert_eq!(TOKEN_LIFETIME, 60 * 60 * 24 * 365);
    assert_eq!(Claims::try_for_user(&user, 5), Some(Claims::for_user(&user, 5)));
    assert_eq!(Claims::try_for_user(&user, usize::MAX - TOKEN_LIFETIME + 1), None);
    assert!(Claims::try_for_user(&user, usize::MAX - TOKEN_LIFETIME).is_some());
}

#[test]
fn claims_issued_now_use_the_clock() {
    let user = sample_user(9);
    let c = Claims::for_user_now(&user).unwrap();
    assert_eq!(c.sub, user.uuid);
    assert_eq!(c.tokenid, user.tokenid);
    assert_eq!(c.exp - c.iat, TOKEN_LIFETIME);
    // later than 2020-01-01
    assert!(c.iat > 1_577_836_800);
    assert!(matches!(c.validate_claims_now(), ClaimsCheck::LookUp(id) if id == user.uuid));
}

#[test]
fn issued_token_is_accepted_until_expiry() {
    let user = sample_user(9);
    let c = Claims::for_user(&user, 100);
    assert!(!c.is_expired(100));
    assert!(!c.is_expired(100 + TOKEN_LIFETIME));
    assert!(c.is_expired(101 + TOKEN_LIFETIME));
    assert!(matches!(c.validate_claims(100 + TOKEN_LIFETIME), ClaimsCheck::LookUp(id) if id == Uuid::from_u128(7)));
    assert!(matches!(c.validate_claims(101 + TOKEN_LIFETIME), ClaimsCheck::Expired));
    let accepted = c.accept_user(sample_user(9)).unwrap();
    assert_eq!(accepted.username, "alice");
}

#[test]
fn new_tokenid_revokes_old_tokens() {
    let c = Claims::for_user(&sample_user(9), 100);
    assert!(c.accept_user(sample_user(10)).is_none());
}

#[test]
fn user_fields() {
    let u = sample_user(9);
    assert_eq!(u.uuid.as_u128(), 7);
    assert_eq!(u.tokenid.as_u128(), 9);
    assert_eq!(u.email, "alice@example.com");
    assert_eq!(u.permission, Permission::USER);
    assert_eq!(u.tokenserial, 0);
    assert_eq!(u.timestamp, 1000);
}

fn is_v4(value: u128) -> bool {
    (value >> 76) & 0xf == 4 && (value >> 62) & 3 == 2
}

#[test]
fn new_user_gets_random_ids() {
    let u = User::new("bob".to_string(), "h".to_string(), "b@x".to_string(), Permission::ADMIN);
    assert!(is_v4(u.uuid.as_u128()));
    assert!(is_v4(u.tokenid.as_u128()));
    assert_ne!(u.uuid, u.tokenid);
    assert_eq!(u.permission, Permission::ADMIN);
    assert_eq!(u.tokenserial, 0);
    assert!(u.timestamp > 1_577_836_800);
    let other = Uuid::new_v4();
    assert!(is_v4(other.as_u128()));
    assert_ne!(other, u.uuid);
}

#[test]
fn refused_tokens_are_unauthorized() {
    assert_eq!(token_user(None).unwrap_err(), StatusCode::UNAUTHORIZED);
    assert_eq!(token_user(Some(sample_user(9))).unwrap().tokenid, Uuid::from_u128(9));
    assert_eq!(authorized(None), Err(StatusCode::UNAUTHORIZED));
    assert_eq!(authorized(Some(sample_user(9))), Ok(()));
}
