//! API tokens with a short lifetime that can only be rotated while valid.
use vstd::prelude::*;

use std::time::Instant;

use crate::clock::{instant_now, nanos_between};
use crate::text::to_string;

verus! {

/// A token's lifetime, in seconds (one hour).
pub const TOKEN_TTL_SECS: u64 = 3600;

/// A token's lifetime, in nanoseconds.
pub const TOKEN_TTL_NANOS: u128 = 3_600_000_000_000;

/// Whether a token this many nanoseconds old is expired: it is once its age
/// exceeds the lifetime.
pub open spec fn expired_after(age_nanos: u128) -> bool {
    age_nanos > TOKEN_TTL_NANOS
}

/// An API token and when it was issued.
pub struct AuthToken {
    pub value: String,
    issued_at: Instant,
}

impl AuthToken {
    /// The token's text.
    pub closed spec fn token_value(&self) -> Seq<char> {
        self.value@
    }

    /// The instant the token was issued.
    pub closed spec fn issued(&self) -> Instant {
        self.issued_at
    }

    /// A token issued now.
    pub fn new(value: &str) -> (t: Self)
        ensures
            t.token_value() == value@,
    {
        AuthToken { value: to_string(value), issued_at: instant_now() }
    }

    /// A token issued at the given instant.
    pub fn issued_at(value: &str, issued_at: Instant) -> (t: Self)
        ensures
            t.token_value() == value@,
            t.issued() == issued_at,
    {
        AuthToken { value: to_string(value), issued_at }
    }

    /// Whether a token of the given age is expired.
    pub fn is_expired_after(age_nanos: u128) -> (r: bool)
        ensures
            r == expired_after(age_nanos),
    {
        age_nanos > TOKEN_TTL_NANOS
    }

    /// The token's age now, in nanoseconds (0 if the clock reads earlier
    /// than its issue). It depends on the clock, so nothing is stated of it.
    pub fn age_nanos(&self) -> (r: u128) {
        nanos_between(&instant_now(), &self.issued_at)
    }

    /// Whether the token outlived its lifetime, judged on its age now
    /// (`is_expired_after` decides).
    pub fn is_expired(&self) -> (r: bool) {
        let age = self.age_nanos();
        Self::is_expired_after(age)
    }

    /// Rotation at the instant `now` of a token that is then `age_nanos`
    /// old: refused exactly when the token is expired; otherwise a fresh
    /// token with `new_value`, issued at `now` (its lifetime starts at the
    /// rotation, not at the old token's issue).
    pub fn rotate_at(&self, new_value: &str, now: Instant, age_nanos: u128) -> (r: Result<AuthToken, &'static str>)
        ensures
            r is Err <==> age_nanos > TOKEN_TTL_NANOS,
            r is Err <==> expired_after(age_nanos),
            r matches Ok(t) ==> t.token_value() == new_value@ && t.issued() == now,
            r matches Err(e) ==> e@ == "token expired, re-authentication required"@,
    {
        if Self::is_expired_after(age_nanos) {
            return Err("token expired, re-authentication required");
        }
        Ok(AuthToken::issued_at(new_value, now))
    }

    /// Rotation of a token that is `age_nanos` old: refused exactly when the
    /// token is expired, otherwise a fresh token with `new_value`, issued at
    /// a reading of the clock taken for the rotation (`rotate_at` decides).
    pub fn rotate_at_age(&self, new_value: &str, age_nanos: u128) -> (r: Result<AuthToken, &'static str>)
        ensures
            r is Err <==> expired_after(age_nanos),
            r matches Ok(t) ==> t.token_value() == new_value@,
            r matches Err(e) ==> e@ == "token expired, re-authentication required"@,
    {
        self.rotate_at(new_value, instant_now(), age_nanos)
    }

    /// A fresh token with `new_value`, issued only while this one is still
    /// valid; an expired token requires re-authentication. The clock is read
    /// once: the old token's age is measured up to that reading, and the new
    /// token is issued at it (`rotate_at` decides).
    pub fn rotate(&self, new_value: &str) -> (r: Result<AuthToken, &'static str>)
        ensures
            r matches Ok(t) ==> t.token_value() == new_value@,
            r matches Err(e) ==> e@ == "token expired, re-authentication required"@,
    {
        let now = instant_now();
        let age = nanos_between(&now, &self.issued_at);
        self.rotate_at(new_value, now, age)
    }
}

/// A token may be rotated exactly while it is at most one hour old: at an
/// age of 3600 s it still rotates, one nanosecond later it is refused.
pub proof fn law_rotation_window(age: u128)
    ensures
        expired_after(age) <==> age > 3_600_000_000_000,
        !expired_after(3_600_000_000_000),
        expired_after(3_600_000_000_001),
{
}

/// The rotation decision for a token of a given age: refused exactly when
/// it is expired.
pub fn rotation_allowed(age_nanos: u128) -> (r: bool)
    ensures
        r == !expired_after(age_nanos),
{
    !AuthToken::is_expired_after(age_nanos)
}

} // verus!
