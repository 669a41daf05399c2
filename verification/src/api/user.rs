//! Profile endpoint payloads.

use vstd::prelude::*;
use crate::user::User;

verus! {

/// The asking user's own account.
pub struct ProfileResponse {
    pub user: User,
}

/// How many AI partners the user woke and how many slots remain.
pub struct UserStatsResponse {
    pub total_ais: usize,
    pub available_slots: usize,
}

} // verus!
