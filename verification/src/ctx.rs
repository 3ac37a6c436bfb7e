//! The claims of an access token: who the bearer is and when the token ends.
use vstd::prelude::*;

verus! {

/// Seconds an access token stays valid: 24 hours.
pub const TOKEN_LIFETIME_SECS: i64 = 86400;

/// The claims of an access token (`iat`, `exp` in seconds since 1970).
#[derive(Debug, Clone, PartialEq, Eq)]
pub struct Ctx {
    pub exp: usize,
    pub iat: usize,
    pub email: String,
}

/// The claims of a token issued to `email` at second `now`: issued now,
/// expiring 24 hours later.
pub fn token_claims(email: String, now: i64) -> (c: Ctx)
    requires
        0 <= now,
        now + TOKEN_LIFETIME_SECS <= usize::MAX,
    ensures
        c.iat == now,
        c.exp == now + TOKEN_LIFETIME_SECS,
        c.email == email,
{
    let iat = now as usize;
    Ctx { iat, exp: iat + (TOKEN_LIFETIME_SECS as usize), email }
}

} // verus!
