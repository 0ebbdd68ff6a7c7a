//! Users of the service and their identifiers.
use vstd::prelude::*;
use crate::util::clock::now_timestamp;
use crate::util::hash::{argon2_matches, verify_password, HashError};

verus! {

/// What a user is allowed to do.
#[derive(Debug, Clone, Copy, PartialEq, Eq, Structural)]
pub enum Permission {
    USER,
    ADMIN,
}

/// A 128-bit universally unique identifier, held as its integer value
/// (the big-endian reading of its sixteen bytes).
#[derive(Debug, Clone, Copy, PartialEq, Eq, Structural)]
pub struct Uuid {
    pub value: u128,
}

/// The bits that mark a random (version 4) identifier of the RFC 4122
/// variant: the version nibble holds 4 and the two variant bits hold `10`.
pub open spec fn is_random_uuid(value: u128) -> bool {
    (value >> 76u128) & 0xfu128 == 4u128 && (value >> 62u128) & 3u128 == 2u128
}

/// Calls `uuid::Uuid::new_v4()` and hands back its value as a `u128`.
/// The random bits come from the operating system; the uuid crate masks the
/// version and variant bits into place before returning, which is all that
/// is claimed here.
#[verifier::external_body]
fn random_uuid_value() -> (value: u128)
    ensures
        is_random_uuid(value),
{
    uuid::Uuid::new_v4().as_u128()
}

impl Uuid {
    /// A fresh random identifier.
    pub fn new_v4() -> (id: Uuid)
        ensures
            is_random_uuid(id.value),
    {
        Uuid { value: random_uuid_value() }
    }

    pub fn from_u128(value: u128) -> (id: Uuid)
        ensures
            id.value == value,
    {
        Uuid { value }
    }

    pub fn as_u128(&self) -> (value: u128)
        ensures
            value == self.value,
    {
        self.value
    }
}

/// A registered user.
///
/// `password` holds the PHC string of the password's hash, never the
/// password itself. `tokenid` is stamped into every token issued for the
/// user; a token is accepted only while it matches, so changing it revokes
/// all tokens issued before.
#[derive(Debug, Clone)]
pub struct User {
    pub uuid: Uuid,
    pub username: String,
    pub password: String,
    pub email: String,
    pub permission: Permission,
    pub tokenid: Uuid,
    pub tokenserial: usize,
    pub timestamp: usize,
}

/// Reading or writing the user store failed.
#[derive(Debug, Clone, Copy, PartialEq, Eq, Structural)]
pub struct DbError;

impl User {
    /// The user that `new` builds, once its identifiers and the time of
    /// creation are known: serial 0 and the given time as its timestamp.
    pub fn with_identity(
        username: String,
        password: String,
        email: String,
        permission: Permission,
        uuid: Uuid,
        tokenid: Uuid,
        now: usize,
    ) -> (user: User)
        ensures
            user.uuid == uuid,
            user.username@ == username@,
            user.password@ == password@,
            user.email@ == email@,
            user.permission == permission,
            user.tokenid == tokenid,
            user.tokenserial == 0,
            user.timestamp == now,
    {
        User {
            uuid,
            username,
            password,
            email,
            permission,
            tokenid,
            tokenserial: 0,
            timestamp: now,
        }
    }

    /// A new user with a fresh random identifier and token id, created now.
    pub fn new(username: String, password: String, email: String, permission: Permission) -> (user: User)
        ensures
            is_random_uuid(user.uuid.value),
            is_random_uuid(user.tokenid.value),
            user.username@ == username@,
            user.password@ == password@,
            user.email@ == email@,
            user.permission == permission,
            user.tokenserial == 0,
    {
        let uuid = Uuid::new_v4();
        let tokenid = Uuid::new_v4();
        let now = now_timestamp() as usize;
        User::with_identity(username, password, email, permission, uuid, tokenid, now)
    }

    /// Checks `password` against the user's stored hash: `Ok(true)` when it
    /// matches, `Ok(false)` when it does not, an error where the hash cannot
    /// be checked.
    pub fn compare_passwords(&self, password: &String) -> (r: Result<bool, HashError>)
        ensures
            r is Ok <==> argon2_matches(password@, self.password@) is Some,
            r matches Ok(m) ==> argon2_matches(password@, self.password@) == Some(m),
    {
        verify_password(password.as_str(), self.password.as_str())
    }
}

} // verus!
