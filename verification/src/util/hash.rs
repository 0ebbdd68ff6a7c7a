//! Password hashing with Argon2 (default parameters) in PHC string form.
use vstd::prelude::*;
use vstd::utf8::encode_utf8;
use argon2::password_hash::rand_core::OsRng;
use argon2::password_hash::{Salt, SaltString};
use argon2::{Argon2, PasswordHash, PasswordHasher, PasswordVerifier};

verus! {

#[verifier::external_type_specification]
#[verifier::external_body]
pub struct ExPasswordHashError(argon2::password_hash::Error);

/// What hashing `password` with Argon2's default parameters and the B64 salt
/// `salt` gives, as a PHC string; `None` where the argon2 crate refuses.
pub uninterp spec fn argon2_phc(password: Seq<char>, salt: Seq<char>) -> Option<Seq<char>>;

/// Whether `password` matches the PHC string `phc` under Argon2; `None` where
/// the argon2 crate cannot decide (the string does not parse, or it names
/// parameters the crate refuses).
pub uninterp spec fn argon2_matches(password: Seq<char>, phc: Seq<char>) -> Option<bool>;

/// A character of the standard Base64 alphabet.
pub open spec fn is_b64_char(c: char) -> bool {
    ('a' <= c && c <= 'z') || ('A' <= c && c <= 'Z') || ('0' <= c && c <= '9') || c == '+' || c
        == '/'
}

/// The shape of a generated salt: sixteen bytes in unpadded standard Base64,
/// that is 22 characters of the standard alphabet, the last of which carries
/// only the two low bits of the last byte (so it is `A`, `Q`, `g` or `w`).
pub open spec fn is_generated_salt(salt: Seq<char>) -> bool {
    &&& salt.len() == 22
    &&& forall|i: int| 0 <= i < salt.len() ==> is_b64_char(#[trigger] salt[i])
    &&& (salt[21] == 'A' || salt[21] == 'Q' || salt[21] == 'g' || salt[21] == 'w')
}

/// Argon2's limit on the length of a password, in bytes (`u32::MAX`).
pub const MAX_PASSWORD_BYTES: usize = 0xFFFF_FFFF;

/// Whether the password's UTF-8 bytes are within Argon2's limit: the one
/// check that Argon2 makes of a password.
pub open spec fn fits_argon2(password: Seq<char>) -> bool {
    encode_utf8(password).len() <= MAX_PASSWORD_BYTES
}

/// Every character takes at most four bytes in UTF-8.
pub proof fn lemma_utf8_len_bound(chars: Seq<char>)
    ensures
        encode_utf8(chars).len() <= 4 * chars.len(),
    decreases chars.len(),
{
    if chars.len() > 0 {
        lemma_utf8_len_bound(chars.drop_first());
    }
}

/// A password of at most `u32::MAX / 4` characters fits Argon2's limit.
pub proof fn lemma_short_password_fits(password: Seq<char>)
    requires
        password.len() <= MAX_PASSWORD_BYTES / 4,
    ensures
        fits_argon2(password),
{
    lemma_utf8_len_bound(password);
}

/// The start of every PHC string made with Argon2's default parameters:
/// algorithm, version and parameters, each after a `$`, and the `$` that
/// opens the salt.
pub open spec fn phc_prefix() -> Seq<char> {
    "$argon2id$v=19$m=19456,t=2,p=1$"@
}

/// The shape of a PHC string made with the default parameters and `salt`:
/// the prefix, the salt, a `$`, and the 32-byte hash in 43 Base64
/// characters.
pub open spec fn is_phc_for_salt(phc: Seq<char>, salt: Seq<char>) -> bool {
    &&& phc.len() == phc_prefix().len() + salt.len() + 44
    &&& phc.subrange(0, phc_prefix().len() as int) == phc_prefix()
    &&& phc.subrange(phc_prefix().len() as int, (phc_prefix().len() + salt.len()) as int) == salt
    &&& phc[(phc_prefix().len() + salt.len()) as int] == '$'
}

/// Calls `SaltString::generate(&mut OsRng)` and returns the salt's text.
/// The crate fills sixteen bytes from the operating system's generator and
/// encodes them as unpadded standard Base64; the bytes themselves are left
/// unsaid, being random.
#[verifier::external_body]
pub(crate) fn generate_salt() -> (salt: String)
    ensures
        is_generated_salt(salt@),
{
    SaltString::generate(&mut OsRng).as_str().to_string()
}

/// Calls `Argon2::default().hash_password` on the password's bytes and the
/// salt read by `Salt::from_b64`, and renders the hash as a PHC string. The
/// hash itself is named, not stated. What the source shows is stated:
/// - a generated salt decodes to 16 bytes, and a password whose bytes
///   (`as_bytes`, its UTF-8 encoding) number at most `u32::MAX` passes
///   `verify_inputs`; nothing else can fail with the
///   default parameters, so hashing succeeds;
/// - the PHC string is the default prefix, the salt, `$` and the hash;
/// - `verify_password` reads the algorithm, version, parameters, salt and
///   hash length back from that string and recomputes the same hash, so the
///   password matches it.
#[verifier::external_body]
fn argon2_hash(password: &str, salt: &str) -> (r: Result<String, argon2::password_hash::Error>)
    ensures
        match r {
            Ok(phc) => argon2_phc(password@, salt@) == Some(phc@),
            Err(_) => argon2_phc(password@, salt@) is None,
        },
        is_generated_salt(salt@) && fits_argon2(password@) ==> r is Ok,
        r matches Ok(phc) ==> is_phc_for_salt(phc@, salt@) && argon2_matches(password@, phc@)
            == Some(true),
{
    let salt = Salt::from_b64(salt)?;
    Ok(Argon2::default().hash_password(password.as_bytes(), salt)?.to_string())
}

/// Reads `phc` with `PasswordHash::new` and calls
/// `Argon2::default().verify_password` on the password's bytes. A success
/// is a match, the crate's `Error::Password` a mismatch, any other error is
/// handed back. The outcome is named, not stated.
#[verifier::external_body]
fn argon2_verify(password: &str, phc: &str) -> (r: Result<bool, argon2::password_hash::Error>)
    ensures
        match r {
            Ok(m) => argon2_matches(password@, phc@) == Some(m),
            Err(_) => argon2_matches(password@, phc@) is None,
        },
{
    let hash = PasswordHash::new(phc)?;
    match Argon2::default().verify_password(password.as_bytes(), &hash) {
        Ok(()) => Ok(true),
        Err(argon2::password_hash::Error::Password) => Ok(false),
        Err(e) => Err(e),
    }
}

/// Hashing or checking a password failed inside the argon2 crate.
#[derive(Debug)]
pub struct HashError {
    pub source: argon2::password_hash::Error,
}

/// Hashes `password` with the given B64 salt. A generated salt and a
/// password of at most `u32::MAX` UTF-8 bytes always hash; the
/// password then matches the PHC string that comes back.
pub fn hash_password_with_salt(password: &str, salt: &str) -> (r: Result<String, HashError>)
    ensures
        r is Ok <==> argon2_phc(password@, salt@) is Some,
        is_generated_salt(salt@) && fits_argon2(password@) ==> r is Ok,
        r matches Ok(phc) ==> {
            &&& argon2_phc(password@, salt@) == Some(phc@)
            &&& is_phc_for_salt(phc@, salt@)
            &&& argon2_matches(password@, phc@) == Some(true)
        },
{
    match argon2_hash(password, salt) {
        Ok(phc) => Ok(phc),
        Err(source) => Err(HashError { source }),
    }
}

/// Hashes `password` with a freshly generated random salt. It succeeds for
/// every password of at most `u32::MAX` UTF-8 bytes, and the
/// password matches the PHC string that comes back.
pub fn hash_password(password: String) -> (r: Result<String, HashError>)
    ensures
        fits_argon2(password@) ==> r is Ok,
        exists|salt: Seq<char>|
            {
                &&& is_generated_salt(salt)
                &&& #[trigger] argon2_phc(password@, salt) is Some <==> r is Ok
                &&& r matches Ok(phc) ==> {
                    &&& argon2_phc(password@, salt) == Some(phc@)
                    &&& is_phc_for_salt(phc@, salt)
                    &&& argon2_matches(password@, phc@) == Some(true)
                }
            },
{
    let salt = generate_salt();
    hash_password_with_salt(password.as_str(), salt.as_str())
}

/// Checks `password` against the PHC string `phc`: `Ok(true)` on a match,
/// `Ok(false)` on a mismatch, an error where the crate cannot decide.
pub fn verify_password(password: &str, phc: &str) -> (r: Result<bool, HashError>)
    ensures
        r is Ok <==> argon2_matches(password@, phc@) is Some,
        r matches Ok(m) ==> argon2_matches(password@, phc@) == Some(m),
{
    match argon2_verify(password, phc) {
        Ok(m) => Ok(m),
        Err(source) => Err(HashError { source }),
    }
}

} // verus!
