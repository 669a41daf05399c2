//! Messaging endpoint payloads.

use vstd::prelude::*;

verus! {

/// Request to send one chat message.
pub struct SendMessageRequest {
    pub to_contact_id: String,
    pub content: String,
    pub message_type: String,
    pub is_group: bool,
    pub file_id: Option<String>,
    pub extends: Option<String>,
    pub at: Option<String>,
}

/// Request to forward stored messages to other users.
pub struct ForwardMessageRequest {
    pub msg_ids: Vec<String>,
    pub user_ids: Vec<String>,
    pub forward_type: String,
}

/// Request for one page of a conversation's history.
pub struct GetMessagesRequest {
    pub chat_id: String,
    pub page: Option<u32>,
    pub limit: Option<u32>,
}

/// Request to mark a conversation as read.
pub struct SetReadRequest {
    pub chat_id: String,
    pub is_group: bool,
}

/// Request naming one conversation for pinning or muting.
pub struct ChatActionRequest {
    pub chat_id: String,
    pub is_group: bool,
}

} // verus!
