//! Friendship endpoint payloads.

use vstd::prelude::*;

verus! {

/// Request to apply for a friendship.
pub struct AddFriendRequest {
    pub user_id: String,
    pub remark: Option<String>,
    pub apply_message: String,
}

/// Request to accept or reject a friendship application.
pub struct VerifyFriendRequest {
    pub apply_id: String,
    pub status: i32,
    pub remark: Option<String>,
}

/// Request to change a friend's display remark.
pub struct UpdateFriendRequest {
    pub friend_id: String,
    pub remark: String,
}

/// Request to move a friend onto or off the blacklist.
pub struct BlacklistRequest {
    pub friend_id: String,
    pub is_blacklist: bool,
}

} // verus!
