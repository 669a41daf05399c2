//! Chat domain entities: the durable chat message, groups and their
//! membership, friendships, and uploaded files.

use vstd::prelude::*;
use vstd::string::StringExecFns;
use crate::ids::{fresh_uuid, now_unix_timestamp};

verus! {

/// The deterministic conversation key of a chat message: `"group-{to}"` for
/// a group message, `"{from}-{to}"` for a direct one. It is a pure function
/// of sender, recipient and the group flag, so it is reproducible without a
/// storage round-trip.
pub open spec fn spec_chat_identify(
    from_user: Seq<char>,
    to_user: Seq<char>,
    is_group: bool,
) -> Seq<char> {
    if is_group {
        "group-"@ + to_user
    } else {
        from_user + "-"@ + to_user
    }
}

/// Content-type tag of a chat message.
#[derive(Debug, Clone, Copy, PartialEq, Eq, Structural)]
pub enum MessageType {
    Text,
    Image,
    Voice,
    Video,
    File,
    Event,
    System,
}

/// The durable chat message carried inside a `message` envelope. Created by
/// the router on receipt, persisted before fan-out, and never mutated by
/// the hub afterwards.
#[derive(Debug, Clone)]
pub struct Message {
    pub id: String,
    pub msg_id: String,
    pub from_user: String,
    pub to_user: String,
    pub content: String,
    pub message_type: MessageType,
    pub is_group: bool,
    pub is_read: bool,
    pub is_last: bool,
    pub chat_identify: String,
    pub file_id: Option<String>,
    pub extends: Option<String>,
    pub at: Option<String>,
    pub created_at: i64,
    pub updated_at: i64,
}

impl Message {
    /// Builds a fresh message: new identifiers, the current timestamp, the
    /// read flag down, and the conversation key derived deterministically
    /// from sender, recipient and the group flag.
    pub fn new(
        from_user: String,
        to_user: String,
        content: String,
        message_type: MessageType,
        is_group: bool,
        file_id: Option<String>,
        extends: Option<String>,
        at: Option<String>,
    ) -> (r: Message)
        ensures
            r.from_user == from_user,
            r.to_user == to_user,
            r.content == content,
            r.message_type == message_type,
            r.is_group == is_group,
            r.is_read == false,
            r.is_last == true,
            r.chat_identify@ == spec_chat_identify(from_user@, to_user@, is_group),
            r.file_id == file_id,
            r.extends == extends,
            r.at == at,
            r.created_at == r.updated_at,
            r.id@.len() == 36,
            r.msg_id@.len() == 36,
    {
        let now = now_unix_timestamp();
        let msg_id = fresh_uuid();
        let chat_identify = if is_group {
            let mut s = "group-".to_owned();
            s.append(to_user.as_str());
            s
        } else {
            let mut s = from_user.clone();
            s.append("-");
            s.append(to_user.as_str());
            s
        };
        Message {
            id: fresh_uuid(),
            msg_id,
            from_user,
            to_user,
            content,
            message_type,
            is_group,
            is_read: false,
            is_last: true,
            chat_identify,
            file_id,
            extends,
            at,
            created_at: now,
            updated_at: now,
        }
    }
}

/// An equal copy of an optional string.
fn clone_opt(o: &Option<String>) -> (r: Option<String>)
    ensures
        r == *o,
{
    match o {
        Some(s) => Some(s.clone()),
        None => None,
    }
}

impl Message {
    /// An equal copy of the message, made field by field so that the copy is
    /// known to equal the original.
    pub fn duplicate(&self) -> (r: Message)
        ensures
            r == *self,
    {
        Message {
            id: self.id.clone(),
            msg_id: self.msg_id.clone(),
            from_user: self.from_user.clone(),
            to_user: self.to_user.clone(),
            content: self.content.clone(),
            message_type: self.message_type,
            is_group: self.is_group,
            is_read: self.is_read,
            is_last: self.is_last,
            chat_identify: self.chat_identify.clone(),
            file_id: clone_opt(&self.file_id),
            extends: clone_opt(&self.extends),
            at: clone_opt(&self.at),
            created_at: self.created_at,
            updated_at: self.updated_at,
        }
    }
}

/// State of a friendship record.
#[derive(Debug, Clone, Copy, PartialEq, Eq, Structural)]
pub enum FriendStatus {
    Applying,
    Normal,
    Blacklist,
}

/// Group management switches: who may manage, who may invite, and whether
/// the whole group is muted.
#[derive(Debug, Clone)]
pub struct GroupSetting {
    pub manage: i32,
    pub invite: i32,
    pub nospeak: i32,
}

impl Default for GroupSetting {
    /// All switches down: only the owner manages, only the owner invites,
    /// everyone may speak.
    fn default() -> (r: GroupSetting)
        ensures
            r.manage == 0,
            r.invite == 0,
            r.nospeak == 0,
    {
        GroupSetting { manage: 0, invite: 0, nospeak: 0 }
    }
}

/// A chat group.
#[derive(Debug, Clone)]
pub struct Group {
    pub id: String,
    pub group_id: String,
    pub name: String,
    pub owner_id: String,
    pub avatar: Option<String>,
    pub notice: Option<String>,
    pub setting: GroupSetting,
    pub created_at: i64,
    pub updated_at: i64,
}

impl Group {
    /// A fresh group owned by `owner_id`, with everyone allowed to invite.
    pub fn new(name: String, owner_id: String) -> (r: Group)
        ensures
            r.id == r.group_id,
            r.name == name,
            r.owner_id == owner_id,
            r.avatar is None,
            r.notice is None,
            r.setting.manage == 0,
            r.setting.invite == 1,
            r.setting.nospeak == 0,
            r.created_at == r.updated_at,
            r.group_id@.len() == 36,
    {
        let now = now_unix_timestamp();
        let group_id = fresh_uuid();
        Group {
            id: group_id.clone(),
            group_id,
            name,
            owner_id,
            avatar: None,
            notice: None,
            setting: GroupSetting { manage: 0, invite: 1, nospeak: 0 },
            created_at: now,
            updated_at: now,
        }
    }
}

/// Membership of one user in one group.
#[derive(Debug, Clone)]
pub struct GroupUser {
    pub id: String,
    pub group_id: String,
    pub user_id: String,
    pub role: i32,
    pub invite_id: Option<String>,
    pub created_at: i64,
}

impl GroupUser {
    /// A fresh membership record.
    pub fn new(group_id: String, user_id: String, role: i32, invite_id: Option<String>) -> (r:
        GroupUser)
        ensures
            r.group_id == group_id,
            r.user_id == user_id,
            r.role == role,
            r.invite_id == invite_id,
            r.id@.len() == 36,
    {
        let now = now_unix_timestamp();
        GroupUser { id: fresh_uuid(), group_id, user_id, role, invite_id, created_at: now }
    }
}

/// A pending application to join a group.
#[derive(Debug, Clone)]
pub struct GroupApply {
    pub id: String,
    pub group_id: String,
    pub user_id: String,
    pub reason: String,
    pub status: i32,
    pub created_at: i64,
}

impl GroupApply {
    /// A fresh application, initially pending.
    pub fn new(group_id: String, user_id: String, reason: String) -> (r: GroupApply)
        ensures
            r.group_id == group_id,
            r.user_id == user_id,
            r.reason == reason,
            r.status == 0,
            r.id@.len() == 36,
    {
        let now = now_unix_timestamp();
        GroupApply { id: fresh_uuid(), group_id, user_id, reason, status: 0, created_at: now }
    }
}

/// A friendship record between two users.
#[derive(Debug, Clone)]
pub struct Friend {
    pub id: String,
    pub user_id: String,
    pub friend_id: String,
    pub remark: Option<String>,
    pub apply_message: String,
    pub status: i32,
    pub is_top: bool,
    pub is_notice: bool,
    pub created_at: i64,
    pub updated_at: i64,
}

impl Friend {
    /// A fresh friendship record, not pinned, with notifications on.
    pub fn new(
        user_id: String,
        friend_id: String,
        remark: Option<String>,
        apply_message: String,
        status: i32,
    ) -> (r: Friend)
        ensures
            r.user_id == user_id,
            r.friend_id == friend_id,
            r.remark == remark,
            r.apply_message == apply_message,
            r.status == status,
            r.is_top == false,
            r.is_notice == true,
            r.created_at == r.updated_at,
            r.id@.len() == 36,
    {
        let now = now_unix_timestamp();
        Friend {
            id: fresh_uuid(),
            user_id,
            friend_id,
            remark,
            apply_message,
            status,
            is_top: false,
            is_notice: true,
            created_at: now,
            updated_at: now,
        }
    }
}

/// A file uploaded through the chat.
#[derive(Debug, Clone)]
pub struct ChatFile {
    pub id: String,
    pub user_id: String,
    pub original_name: String,
    pub save_name: String,
    pub save_path: String,
    pub file_ext: String,
    pub file_size: i64,
    pub file_type: String,
    pub created_at: i64,
}

impl ChatFile {
    /// A fresh file record.
    pub fn new(
        user_id: String,
        original_name: String,
        save_name: String,
        save_path: String,
        file_ext: String,
        file_size: i64,
        file_type: String,
    ) -> (r: ChatFile)
        ensures
            r.user_id == user_id,
            r.original_name == original_name,
            r.save_name == save_name,
            r.save_path == save_path,
            r.file_ext == file_ext,
            r.file_size == file_size,
            r.file_type == file_type,
            r.id@.len() == 36,
    {
        let now = now_unix_timestamp();
        ChatFile {
            id: fresh_uuid(),
            user_id,
            original_name,
            save_name,
            save_path,
            file_ext,
            file_size,
            file_type,
            created_at: now,
        }
    }
}

} // verus!
