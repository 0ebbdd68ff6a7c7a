//! The claims that a token carries, how they are issued for a user, and the
//! decisions taken when a token comes back.
use vstd::prelude::*;
use crate::models::user::{User, Uuid};
use crate::util::clock::now_timestamp;

verus! {

/// How long an issued token stays valid: one year, in seconds.
pub const TOKEN_LIFETIME: usize = 31536000;

/// The claims of a token: whose it is (`sub`), the user's token id at the
/// time of issue, and when it was issued and expires (seconds since the
/// Unix epoch).
#[derive(Debug, Clone, Copy, PartialEq, Eq, Structural)]
pub struct Claims {
    pub sub: Uuid,
    pub tokenid: Uuid,
    pub iat: usize,
    pub exp: usize,
}

/// The claims issued for `user` at second `now`.
pub open spec fn issued_claims(user: User, now: usize) -> Claims {
    Claims {
        sub: user.uuid,
        tokenid: user.tokenid,
        iat: now,
        exp: (now + TOKEN_LIFETIME) as usize,
    }
}

/// Whether claims issued at second `now` have an expiry time that fits.
pub open spec fn can_issue_at(now: usize) -> bool {
    now + TOKEN_LIFETIME <= usize::MAX
}

/// The first decision on claims that came back: refuse them when expired,
/// else look up their subject.
pub enum ClaimsCheck {
    Expired,
    LookUp(Uuid),
}

pub open spec fn expired_at(claims: Claims, now: usize) -> bool {
    claims.exp < now
}

pub open spec fn first_check(claims: Claims, now: usize) -> ClaimsCheck {
    if expired_at(claims, now) {
        ClaimsCheck::Expired
    } else {
        ClaimsCheck::LookUp(claims.sub)
    }
}

/// Whether the stored `user` is the one the claims were issued for, with the
/// token id they carry still current.
pub open spec fn user_accepted(claims: Claims, user: User) -> bool {
    user.tokenid == claims.tokenid
}

impl Claims {
    /// The claims for `user`, issued at second `now` and valid for
    /// `TOKEN_LIFETIME` seconds.
    pub fn for_user(user: &User, now: usize) -> (c: Claims)
        requires
            can_issue_at(now),
        ensures
            c == issued_claims(*user, now),
    {
        Claims { sub: user.uuid, tokenid: user.tokenid, iat: now, exp: now + TOKEN_LIFETIME }
    }

    /// The claims for `user` issued at second `now`, or `None` where the
    /// expiry time would not fit in a `usize`.
    pub fn try_for_user(user: &User, now: usize) -> (r: Option<Claims>)
        ensures
            r is Some <==> can_issue_at(now),
            r matches Some(c) ==> c == issued_claims(*user, now),
    {
        if now <= usize::MAX - TOKEN_LIFETIME {
            Some(Claims::for_user(user, now))
        } else {
            None
        }
    }

    /// The claims for `user`, issued now (the clock's reading taken as a
    /// `usize`). `None` where the expiry time would
    /// not fit in a `usize`.
    pub fn for_user_now(user: &User) -> (r: Option<Claims>)
        ensures
            exists|now: usize|
                r == if #[trigger] can_issue_at(now) {
                    Some(issued_claims(*user, now))
                } else {
                    None
                },
    {
        let now = now_timestamp() as usize;
        Claims::try_for_user(user, now)
    }

    /// Whether the claims have expired at second `now`.
    pub fn is_expired(&self, now: usize) -> (r: bool)
        ensures
            r == expired_at(*self, now),
    {
        self.exp < now
    }

    /// The first step of checking claims that came back at second `now`:
    /// expired claims are refused; otherwise their subject is to be looked
    /// up.
    pub fn validate_claims(&self, now: usize) -> (r: ClaimsCheck)
        ensures
            r == first_check(*self, now),
    {
        if self.is_expired(now) {
            ClaimsCheck::Expired
        } else {
            ClaimsCheck::LookUp(self.sub)
        }
    }

    /// The first step of checking claims, taken now.
    pub fn validate_claims_now(&self) -> (r: ClaimsCheck)
        ensures
            exists|now: usize| r == #[trigger] first_check(*self, now),
    {
        let now = now_timestamp() as usize;
        self.validate_claims(now)
    }

    /// The last step: the user found for the subject is accepted only while
    /// its token id is the one the claims carry.
    pub fn accept_user(&self, user: User) -> (r: Option<User>)
        ensures
            r is Some <==> user_accepted(*self, user),
            r matches Some(u) ==> u == user,
    {
        if user.tokenid == self.tokenid {
            Some(user)
        } else {
            None
        }
    }
}

/// Claims issued for a user at second `issued` pass the first check at any
/// second up to their expiry, and the user they were issued for, looked up
/// with an unchanged token id, is accepted: a token works for the user it
/// was issued to for `TOKEN_LIFETIME` seconds.
pub proof fn lemma_issued_claims_accepted(user: User, issued: usize, later: usize)
    requires
        can_issue_at(issued),
        later <= issued + TOKEN_LIFETIME,
    ensures
        first_check(issued_claims(user, issued), later) == ClaimsCheck::LookUp(user.uuid),
        user_accepted(issued_claims(user, issued), user),
{
}

/// Claims are refused once their lifetime has passed.
pub proof fn lemma_issued_claims_expire(user: User, issued: usize, later: usize)
    requires
        can_issue_at(issued),
        issued + TOKEN_LIFETIME < later,
    ensures
        first_check(issued_claims(user, issued), later) == ClaimsCheck::Expired,
{
}

/// Giving a user a new token id revokes every token issued before: claims
/// issued under the old id are not accepted for the user under the new one.
pub proof fn lemma_new_tokenid_revokes(user: User, changed: User, issued: usize)
    requires
        changed.uuid == user.uuid,
        changed.tokenid != user.tokenid,
    ensures
        !user_accepted(issued_claims(user, issued), changed),
{
}

/// Issued claims name the user's identifier and token id, and expire
/// exactly `TOKEN_LIFETIME` seconds after they were issued.
pub proof fn lemma_issued_claims_shape(user: User, issued: usize)
    requires
        can_issue_at(issued),
    ensures
        issued_claims(user, issued).sub == user.uuid,
        issued_claims(user, issued).tokenid == user.tokenid,
        issued_claims(user, issued).iat == issued,
        issued_claims(user, issued).exp == issued + TOKEN_LIFETIME,
{
}

} // verus!
