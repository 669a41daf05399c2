//! Invite codes with a weekly usage budget and a seven-day lifetime.

use vstd::prelude::*;
use crate::ids::{fresh_uuid, now_unix_timestamp};

verus! {

/// Seconds in the seven days an invite code lives.
pub const INVITE_LIFETIME_SECS: i64 = 604800;

/// An invite code.
#[derive(Debug, Clone)]
pub struct Invite {
    pub code: String,
    pub used_by: Vec<String>,
    pub creator_id: String,
    pub usage_limit: u32,
    pub expires_at: i64,
    pub created_at: i64,
    pub updated_at: i64,
}

impl Invite {
    /// A fresh, unused invite code that expires seven days after creation
    /// (clamped at the largest representable timestamp).
    pub fn new(creator_id: String, usage_limit: u32) -> (r: Invite)
        ensures
            r.creator_id == creator_id,
            r.usage_limit == usage_limit,
            r.used_by@.len() == 0,
            r.created_at == r.updated_at,
            r.expires_at == if r.created_at + INVITE_LIFETIME_SECS <= i64::MAX {
                r.created_at + INVITE_LIFETIME_SECS
            } else {
                i64::MAX as int
            },
            r.code@.len() == 36,
    {
        let now = now_unix_timestamp();
        let expires_at = if now <= i64::MAX - INVITE_LIFETIME_SECS {
            now + INVITE_LIFETIME_SECS
        } else {
            i64::MAX
        };
        Invite {
            code: fresh_uuid(),
            used_by: Vec::new(),
            creator_id,
            usage_limit,
            expires_at,
            created_at: now,
            updated_at: now,
        }
    }

    /// Whether the code can still be used at time `now`: it must not have
    /// expired and its weekly budget must not be spent.
    pub fn can_be_used_at(&self, now: i64) -> (r: bool)
        ensures
            r == (now < self.expires_at && self.used_by@.len() < self.usage_limit as int),
    {
        now < self.expires_at && self.used_by.len() < self.usage_limit as usize
    }

    /// Whether the code can still be used right now, against the wall
    /// clock. The clock's value cannot be pinned down, so only the
    /// time-independent part is stated; `can_be_used_at` carries the exact
    /// contract.
    pub fn can_be_used(&self) -> (r: bool)
        ensures
            self.used_by@.len() >= self.usage_limit as int ==> !r,
    {
        let now = now_unix_timestamp();
        self.can_be_used_at(now)
    }
}

} // verus!
