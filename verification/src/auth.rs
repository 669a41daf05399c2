//! The identity a request carries once its token has been checked.

use vstd::prelude::*;

verus! {

/// A request's authenticated user. The surrounding HTTP layer resolves the
/// bearer token to this identity.
pub struct AuthenticatedUser {
    pub user_id: String,
}

impl AuthenticatedUser {
    /// Whether the request may use administrator endpoints. Token claims
    /// carry no role yet, so no request is treated as an administrator.
    pub fn is_admin(&self) -> (r: bool)
        ensures
            r == false,
    {
        false
    }
}

} // verus!
