//! Bearer-token claims and the token exchange as the surrounding layer
//! currently performs it.

use vstd::prelude::*;
use vstd::string::StringExecFns;

verus! {

/// Claims carried by a bearer token.
pub struct Claims {
    pub sub: String,
    pub exp: usize,
}

/// Exchanges a refresh token for an access token: the refresh token is
/// handed back unchanged, and the exchange never fails.
pub fn refresh_access_token(refresh_token: &str) -> (r: Result<String, ()>)
    ensures
        r matches Ok(t) && t@ == refresh_token@,
{
    Ok(String::from_str(refresh_token))
}

} // verus!
