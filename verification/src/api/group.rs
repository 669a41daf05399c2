//! Group management endpoint payloads.

use vstd::prelude::*;

verus! {

/// Request to create a group with initial members.
pub struct CreateGroupRequest {
    pub name: String,
    pub user_ids: Vec<String>,
}

/// Request to rename a group or change its notice.
pub struct UpdateGroupRequest {
    pub name: Option<String>,
    pub notice: Option<String>,
}

/// Request to add members to a group.
pub struct AddGroupUserRequest {
    pub group_id: String,
    pub user_ids: Vec<String>,
}

/// Request to remove one member from a group.
pub struct RemoveGroupUserRequest {
    pub group_id: String,
    pub user_id: String,
}

/// Request to change a group's management switches.
pub struct GroupSettingRequest {
    pub group_id: String,
    pub manage: Option<i32>,
    pub invite: Option<i32>,
    pub nospeak: Option<i32>,
}

/// Request to apply for membership of a group.
pub struct ApplyGroupRequest {
    pub group_id: String,
    pub reason: String,
}

/// Request to accept or reject a membership application.
pub struct VerifyApplyRequest {
    pub apply_id: String,
    pub status: i32,
}

/// Request to hand a group to a new owner.
pub struct ChangeOwnerRequest {
    pub group_id: String,
    pub new_owner_id: String,
}

} // verus!
