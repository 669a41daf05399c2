//! Invite endpoint payloads.

use vstd::prelude::*;
use crate::invite::Invite;

verus! {

/// The invite code a creation produced.
pub struct CreateInviteResponse {
    pub invite: Invite,
}

/// Request to redeem an invite code.
pub struct UseInvitePayload {
    pub code: String,
}

} // verus!
