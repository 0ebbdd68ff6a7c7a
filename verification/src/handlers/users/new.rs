//! Registering a new user: from the request body to the user to store and
//! the claims of the token to hand out.
use vstd::prelude::*;
use crate::handlers::status::StatusCode;
use crate::models::user::{is_random_uuid, Permission, User, Uuid};
use crate::util::clock::now_timestamp;
use crate::util::hash::{
    argon2_matches,
    argon2_phc,
    generate_salt,
    hash_password_with_salt,
    is_generated_salt,
    is_phc_for_salt,
    lemma_short_password_fits,
};
use crate::util::jwt::claims::{can_issue_at, issued_claims, Claims};
use crate::util::validation::{
    password,
    password_is_valid,
    password_message,
    username,
    username_is_valid,
    username_message,
};

verus! {

/// The body of a registration request.
pub struct Body {
    pub username: String,
    pub email: String,
    pub password: String,
}

/// Why a registration is refused. The two validation refusals carry the
/// rule that was broken.
#[derive(Debug)]
pub enum NewUserError {
    InvalidUsername(String),
    InvalidPassword(String),
    HashFailed,
    JwtFailed,
    InsertFailed,
}

pub open spec fn new_user_status(e: NewUserError) -> StatusCode {
    match e {
        NewUserError::InvalidUsername(_) => StatusCode::BAD_REQUEST,
        NewUserError::InvalidPassword(_) => StatusCode::BAD_REQUEST,
        _ => StatusCode::INTERNAL_SERVER_ERROR,
    }
}

pub open spec fn new_user_message(e: NewUserError) -> Seq<char> {
    match e {
        NewUserError::InvalidUsername(m) => "Username is not valid: "@ + m@,
        NewUserError::InvalidPassword(m) => "Password is not valid: "@ + m@,
        NewUserError::HashFailed => "Failed to hash password"@,
        NewUserError::JwtFailed => "Failed to generate jwt"@,
        NewUserError::InsertFailed => "Failed to insert user into db"@,
    }
}

impl NewUserError {
    /// The status that the refusal is answered with.
    pub fn status(&self) -> (s: StatusCode)
        ensures
            s == new_user_status(*self),
    {
        match self {
            NewUserError::InvalidUsername(_) => StatusCode::BAD_REQUEST,
            NewUserError::InvalidPassword(_) => StatusCode::BAD_REQUEST,
            _ => StatusCode::INTERNAL_SERVER_ERROR,
        }
    }

    /// The text that the refusal is answered with.
    pub fn message(&self) -> (m: String)
        ensures
            m@ == new_user_message(*self),
    {
        match self {
            NewUserError::InvalidUsername(e) => String::from_str("Username is not valid: ").concat(
                e.as_str(),
            ),
            NewUserError::InvalidPassword(e) => String::from_str("Password is not valid: ").concat(
                e.as_str(),
            ),
            NewUserError::HashFailed => String::from_str("Failed to hash password"),
            NewUserError::JwtFailed => String::from_str("Failed to generate jwt"),
            NewUserError::InsertFailed => String::from_str("Failed to insert user into db"),
        }
    }
}

/// The user that registration builds from the body, the password's hash,
/// its identifiers and the second of creation: user permission, serial 0.
pub open spec fn is_built_user(
    user: User,
    body: Body,
    phc: Seq<char>,
    uuid: Uuid,
    tokenid: Uuid,
    now: usize,
) -> bool {
    &&& user.username@ == body.username@
    &&& user.email@ == body.email@
    &&& user.password@ == phc
    &&& user.permission == Permission::USER
    &&& user.tokenserial == 0
    &&& user.uuid == uuid
    &&& user.tokenid == tokenid
    &&& user.timestamp == now
}

/// What registration gives once the body is valid, the salt drawn, the
/// identifiers drawn and the clock read: a refusal where hashing fails or
/// the expiry time does not fit, else the user and the claims of its first
/// token; the password matches the stored hash.
pub open spec fn registered(
    r: Result<(User, Claims), NewUserError>,
    body: Body,
    salt: Seq<char>,
    uuid: Uuid,
    tokenid: Uuid,
    now: usize,
) -> bool {
    match argon2_phc(body.password@, salt) {
        None => r matches Err(NewUserError::HashFailed),
        Some(phc) => if can_issue_at(now) {
            &&& r matches Ok((user, claims))
            &&& is_built_user(user, body, phc, uuid, tokenid, now)
            &&& claims == issued_claims(user, now)
            &&& is_phc_for_salt(phc, salt)
            &&& argon2_matches(body.password@, phc) == Some(true)
        } else {
            r matches Err(NewUserError::JwtFailed)
        },
    }
}

/// Registration with the salt, the identifiers and the second of creation
/// given. The username is checked before the password, and nothing is
/// hashed unless both are valid. With a generated salt, hashing a valid
/// password succeeds.
pub fn prepare_user_with(body: Body, salt: &str, uuid: Uuid, tokenid: Uuid, now: usize) -> (r: Result<
    (User, Claims),
    NewUserError,
>)
    ensures
        !username_is_valid(body.username@) ==> (r matches Err(NewUserError::InvalidUsername(m))
            && m@ == username_message(body.username@)),
        username_is_valid(body.username@) && !password_is_valid(body.password@) ==> (r matches Err(
            NewUserError::InvalidPassword(m),
        ) && m@ == password_message(body.password@)),
        username_is_valid(body.username@) && password_is_valid(body.password@) ==> registered(
            r,
            body,
            salt@,
            uuid,
            tokenid,
            now,
        ),
        username_is_valid(body.username@) && password_is_valid(body.password@) && is_generated_salt(
            salt@,
        ) ==> argon2_phc(body.password@, salt@) is Some,
{
    let (ok, e) = username(&body.username);
    if !ok {
        return Err(NewUserError::InvalidUsername(e));
    }
    let (ok, e) = password(&body.password);
    if !ok {
        return Err(NewUserError::InvalidPassword(e));
    }
    let ghost given = body;
    proof {
        lemma_short_password_fits(given.password@);
    }
    let hashed = match hash_password_with_salt(body.password.as_str(), salt) {
        Ok(h) => h,
        Err(_) => {
            return Err(NewUserError::HashFailed);
        },
    };
    let user = User::with_identity(
        body.username,
        hashed,
        body.email,
        Permission::USER,
        uuid,
        tokenid,
        now,
    );
    match Claims::try_for_user(&user, now) {
        Some(claims) => Ok((user, claims)),
        None => Err(NewUserError::JwtFailed),
    }
}

/// Validates the body, hashes the password with a fresh salt, builds the new
/// user with fresh random identifiers, created now, and issues the claims
/// of its first token. The username is checked before the password, and a
/// valid body is never refused for its hash.
pub fn prepare_user(body: Body) -> (r: Result<(User, Claims), NewUserError>)
    ensures
        !username_is_valid(body.username@) ==> (r matches Err(NewUserError::InvalidUsername(m))
            && m@ == username_message(body.username@)),
        username_is_valid(body.username@) && !password_is_valid(body.password@) ==> (r matches Err(
            NewUserError::InvalidPassword(m),
        ) && m@ == password_message(body.password@)),
        username_is_valid(body.username@) && password_is_valid(body.password@) ==> exists|
            salt: Seq<char>,
            uuid: Uuid,
            tokenid: Uuid,
            now: usize,
        |
            #![trigger registered(r, body, salt, uuid, tokenid, now)]
            {
                &&& is_generated_salt(salt)
                &&& is_random_uuid(uuid.value)
                &&& is_random_uuid(tokenid.value)
                &&& argon2_phc(body.password@, salt) is Some
                &&& registered(r, body, salt, uuid, tokenid, now)
            },
{
    let salt = generate_salt();
    let uuid = Uuid::new_v4();
    let tokenid = Uuid::new_v4();
    let now = now_timestamp() as usize;
    let ghost given = body;
    let r = prepare_user_with(body, salt.as_str(), uuid, tokenid, now);
    assert(username_is_valid(given.username@) && password_is_valid(given.password@) ==> {
        &&& is_generated_salt(salt@)
        &&& argon2_phc(given.password@, salt@) is Some
        &&& registered(r, given, salt@, uuid, tokenid, now)
    });
    r
}

} // verus!
