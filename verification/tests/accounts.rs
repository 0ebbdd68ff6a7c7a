use jwt_auth_lib::handlers::status::StatusCode;
use jwt_auth_lib::handlers::users::login::{check_login, check_login_at, LoginError};
use jwt_auth_lib::handlers::users::new::{prepare_user, prepare_user_with, Body, NewUserError};
use jwt_auth_lib::handlers::users::refresh::{refresh_claims, refresh_claims_at, RefreshError};
use jwt_auth_lib::models::user::{DbError, Permission, User, Uuid};
use jwt_auth_lib::util::hash::{hash_password, hash_password_with_salt, verify_password};
use jwt_auth_lib::util::jwt::claims::{Claims, TOKEN_LIFETIME};

const PHC_PREFIX: &str = "$argon2id$v=19$m=19456,t=2,p=1$";

fn stored_user(password: &str) -> User {
    let phc = hash_password_with_salt(password, "c2FsdHNhbHQ").unwrap();
    User::with_identity(
        "carol".to_string(),
        phc,
        "carol@example.com".to_string(),
        Permission::USER,
        Uuid::from_u128(11),
        Uuid::from_u128(12),
        0,
    )
}

#[test]
fn hashing_with_a_salt_gives_a_phc_string() {
    let phc = hash_password_with_salt("MyPassword1234*#", "c2FsdHNhbHQ").unwrap();
    assert!(phc.starts_with(&format!("{}c2FsdHNhbHQ$", PHC_PREFIX)));
    assert_ne!(phc, "MyPassword1234*#");
    assert_eq!(phc, hash_password_with_salt("MyPassword1234*#", "c2FsdHNhbHQ").unwrap());
    // a salt shorter than four characters is refused
    assert!(hash_password_with_salt("pw", "abc").is_err());
}

#[test]
fn hashing_uses_a_fresh_salt() {
    let a = hash_password("MyPassword1234*#".to_string()).unwrap();
    let b = hash_password("MyPassword1234*#".to_string()).unwrap();
    assert!(a.starts_with(PHC_PREFIX));
    assert_ne!(a, b);
    let salt = a[PHC_PREFIX.len()..].split('$').next().unwrap();
    assert_eq!(salt.len(), 22);
    assert_eq!(verify_password("MyPassword1234*#", &a).unwrap(), true);
}

#[test]
fn verifying_passwords() {
    let phc = hash_password_with_salt("secret", "c2FsdHNhbHQ").unwrap();
    assert_eq!(verify_password("secret", &phc).unwrap(), true);
    assert_eq!(verify_password("Secret", &phc).unwrap(), false);
    assert!(verify_password("secret", "not a hash").is_err());
    let user = stored_user("secret");
    assert_eq!(user.compare_passwords(&"secret".to_string()).unwrap(), true);
    assert_eq!(user.compare_passwords(&"other".to_string()).unwrap(), false);
}

#[test]
fn login_refusals() {
    let pw = "secret".to_string();
    assert_eq!(check_login(Err(DbError), &pw), Err(LoginError::LookupFailed));
    assert_eq!(check_login(Ok(None), &pw), Err(LoginError::UserDoesNotExist));
    assert_eq!(check_login(Ok(Some(stored_user("secret"))), &"wrong".to_string()), Err(LoginError::WrongPassword));
    let mut broken = stored_user("secret");
    broken.password = "garbage".to_string();
    assert_eq!(check_login(Ok(Some(broken)), &pw), Err(LoginError::CompareFailed));
}

#[test]
fn login_answers() {
    assert_eq!(LoginError::UserDoesNotExist.status(), StatusCode::BAD_REQUEST);
    assert_eq!(LoginError::UserDoesNotExist.message(), "User does not exist");
    assert_eq!(LoginError::LookupFailed.status(), StatusCode::INTERNAL_SERVER_ERROR);
    assert_eq!(LoginError::LookupFailed.message(), "Failed to get user from db");
    assert_eq!(LoginError::WrongPassword.status(), StatusCode::UNAUTHORIZED);
    assert_eq!(LoginError::WrongPassword.message(), "Wrong password");
    assert_eq!(LoginError::CompareFailed.status(), StatusCode::INTERNAL_SERVER_ERROR);
    assert_eq!(LoginError::CompareFailed.message(), "Failed to compare passwords");
    assert_eq!(LoginError::JwtFailed.status(), StatusCode::INTERNAL_SERVER_ERROR);
    assert_eq!(LoginError::JwtFailed.message(), "Failed to generate jwt");
}

#[test]
fn login_with_the_right_password_issues_claims() {
    let claims = check_login(Ok(Some(stored_user("secret"))), &"secret".to_string()).unwrap();
    assert_eq!(claims.sub, Uuid::from_u128(11));
    assert_eq!(claims.tokenid, Uuid::from_u128(12));
    assert_eq!(claims.exp - claims.iat, TOKEN_LIFETIME);
}

fn body(username: &str, password: &str) -> Body {
    Body { username: username.to_string(), email: "dave@example.com".to_string(), password: password.to_string() }
}

#[test]
fn registration_refusals() {
    match prepare_user(body("me", "MyPassword1234*#")) {
        Err(e) => {
            assert_eq!(e.status(), StatusCode::BAD_REQUEST);
            assert_eq!(e.message(), "Username is not valid: must be between 3 and 20 characters long");
        }
        Ok(_) => panic!("short username accepted"),
    }
    // the username is judged before the password
    match prepare_user(body("me", "x")) {
        Err(NewUserError::InvalidUsername(_)) => {}
        _ => panic!("username not judged first"),
    }
    match prepare_user(body("dave", "MyPassword1234")) {
        Err(e) => {
            assert_eq!(e.status(), StatusCode::BAD_REQUEST);
            assert_eq!(e.message(), "Password is not valid: must contain a special character");
        }
        Ok(_) => panic!("weak password accepted"),
    }
    assert_eq!(NewUserError::HashFailed.message(), "Failed to hash password");
    assert_eq!(NewUserError::JwtFailed.message(), "Failed to generate jwt");
    assert_eq!(NewUserError::InsertFailed.message(), "Failed to insert user into db");
    assert_eq!(NewUserError::InsertFailed.status(), StatusCode::INTERNAL_SERVER_ERROR);
}

#[test]
fn registration_builds_the_user_and_its_first_token() {
    let (user, claims) = prepare_user(body("dave", "MyPassword1234*#")).unwrap();
    assert_eq!(user.username, "dave");
    assert_eq!(user.email, "dave@example.com");
    assert_eq!(user.permission, Permission::USER);
    assert_eq!(user.tokenserial, 0);
    assert!(user.password.starts_with(PHC_PREFIX));
    assert_eq!(user.compare_passwords(&"MyPassword1234*#".to_string()).unwrap(), true);
    assert_eq!(claims.sub, user.uuid);
    assert_eq!(claims.tokenid, user.tokenid);
    assert_eq!(claims.exp - claims.iat, TOKEN_LIFETIME);
    assert!(claims.accept_user(user).is_some());
}

#[test]
fn refreshing_issues_new_claims() {
    let user = stored_user("secret");
    let claims = refresh_claims(&user).unwrap();
    assert_eq!(claims.sub, user.uuid);
    assert_eq!(claims.exp - claims.iat, TOKEN_LIFETIME);
    assert_eq!(RefreshError::JwtFailed.status(), StatusCode::INTERNAL_SERVER_ERROR);
    assert_eq!(RefreshError::JwtFailed.message(), "Failed to generate new token");
}

#[test]
fn hashing_with_a_generated_salt_has_the_phc_shape() {
    let salt = "AAAAAAAAAAAAAAAAAAAAAA";
    let phc = hash_password_with_salt("", salt).unwrap();
    assert_eq!(phc.len(), PHC_PREFIX.len() + salt.len() + 44);
    assert!(phc.starts_with(&format!("{}{}$", PHC_PREFIX, salt)));
    assert_eq!(verify_password("", &phc).unwrap(), true);
    let long = "x".repeat(1000);
    let phc = hash_password(long.clone()).unwrap();
    assert_eq!(phc.len(), 97);
    assert_ne!(phc, long);
    assert_eq!(verify_password(&long, &phc).unwrap(), true);
}

#[test]
fn salts_must_be_canonical_base64() {
    // "c2FsdHNhbHQ" encodes "saltsalt"; changing the last character leaves
    // stray bits that the decoder refuses.
    assert!(hash_password_with_salt("pw", "c2FsdHNhbHQ").is_ok());
    assert!(hash_password_with_salt("pw", "c2FsdHNhbHR").is_err());
}

#[test]
fn login_at_a_given_second() {
    let user = stored_user("secret");
    let claims = check_login_at(Ok(Some(user)), &"secret".to_string(), 5000).unwrap();
    assert_eq!(claims, Claims::for_user(&stored_user("secret"), 5000));
    assert_eq!(
        check_login_at(Ok(Some(stored_user("secret"))), &"secret".to_string(), usize::MAX),
        Err(LoginError::JwtFailed)
    );
    assert_eq!(
        check_login_at(Ok(Some(stored_user("secret"))), &"nope".to_string(), 5000),
        Err(LoginError::WrongPassword)
    );
}

#[test]
fn refresh_at_a_given_second() {
    let user = stored_user("secret");
    assert_eq!(refresh_claims_at(&user, 42), Ok(Claims::for_user(&user, 42)));
    assert_eq!(refresh_claims_at(&user, usize::MAX), Err(RefreshError::JwtFailed));
}

#[test]
fn registration_with_given_salt_ids_and_time() {
    let salt = "c2FsdHNhbHRzYWx0c2FsdA";
    let (user, claims) =
        prepare_user_with(body("erin", "MyPassword1234*#"), salt, Uuid::from_u128(1), Uuid::from_u128(2), 777)
            .unwrap();
    assert_eq!(user.uuid, Uuid::from_u128(1));
    assert_eq!(user.tokenid, Uuid::from_u128(2));
    assert_eq!(user.timestamp, 777);
    assert_eq!(user.password, hash_password_with_salt("MyPassword1234*#", salt).unwrap());
    assert_eq!(claims, Claims::for_user(&user, 777));
    // the new user logs in with its password
    let login = check_login_at(Ok(Some(user.clone())), &"MyPassword1234*#".to_string(), 800).unwrap();
    assert_eq!(login, Claims::for_user(&user, 800));
    match prepare_user_with(body("erin", "MyPassword1234*#"), "ab", Uuid::from_u128(1), Uuid::from_u128(2), 777) {
        Err(NewUserError::HashFailed) => {}
        _ => panic!("a bad salt must fail hashing"),
    }
    match prepare_user_with(body("erin", "MyPassword1234*#"), salt, Uuid::from_u128(1), Uuid::from_u128(2), usize::MAX) {
        Err(NewUserError::JwtFailed) => {}
        _ => panic!("an expiry past usize::MAX must fail"),
    }
}

#[test]
fn multibyte_passwords_hash() {
    let pw = "Pässwörd€1*字";
    let phc = hash_password(pw.to_string()).unwrap();
    assert_ne!(phc, pw);
    assert_eq!(verify_password(pw, &phc).unwrap(), true);
}
