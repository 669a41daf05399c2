//! Claims of the signed access and refresh tokens. Signing and checking
//! signatures belong to the surrounding layer; the claims themselves and
//! their timing arithmetic live here.

use vstd::prelude::*;

verus! {

/// Seconds in the thirty days a refresh token lives.
pub const REFRESH_LIFETIME_SECS: i64 = 2592000;

/// Claims carried by a signed token.
#[derive(Debug, Clone)]
pub struct Claims {
    pub sub: String,
    pub exp: i64,
    pub iat: i64,
    pub refresh: bool,
}

impl Claims {
    /// Claims issued at `now` for `user_id`: a refresh token lives thirty
    /// days, an access token `access_lifetime_secs` seconds (each clamped at
    /// the largest representable timestamp).
    pub fn new(user_id: String, is_refresh: bool, now: i64, access_lifetime_secs: i64) -> (r:
        Claims)
        requires
            access_lifetime_secs >= 0,
        ensures
            r.sub == user_id,
            r.iat == now,
            r.refresh == is_refresh,
            r.exp == {
                let lifetime: i64 = if is_refresh {
                    REFRESH_LIFETIME_SECS
                } else {
                    access_lifetime_secs
                };
                if now + lifetime <= i64::MAX {
                    now + lifetime
                } else {
                    i64::MAX as int
                }
            },
    {
        let lifetime: i64 = if is_refresh {
            REFRESH_LIFETIME_SECS
        } else {
            access_lifetime_secs
        };
        let exp = if now <= i64::MAX - lifetime {
            now + lifetime
        } else {
            i64::MAX
        };
        Claims { sub: user_id, exp, iat: now, refresh: is_refresh }
    }
}

} // verus!
