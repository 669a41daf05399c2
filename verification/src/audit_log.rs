//! Audit trail of sensitive actions.

use vstd::prelude::*;
use crate::ids::{fresh_uuid, now_unix_timestamp};

verus! {

/// The audited kinds of action.
#[derive(Debug, Clone, Copy)]
pub enum AuditAction {
    UserRegister,
    UserLogin,
    UserUpgrade,
    AIInitiate,
    InviteCreate,
    InviteUse,
    AdminAction,
}

/// One audit entry.
#[derive(Debug, Clone)]
pub struct AuditLog {
    pub id: String,
    pub user_id: String,
    pub action: AuditAction,
    pub details: String,
    pub ip_address: String,
    pub user_agent: String,
    pub created_at: i64,
}

impl AuditLog {
    /// A fresh audit entry.
    pub fn new(
        user_id: String,
        action: AuditAction,
        details: String,
        ip_address: String,
        user_agent: String,
    ) -> (r: AuditLog)
        ensures
            r.user_id == user_id,
            r.action == action,
            r.details == details,
            r.ip_address == ip_address,
            r.user_agent == user_agent,
            r.id@.len() == 36,
    {
        AuditLog {
            id: fresh_uuid(),
            user_id,
            action,
            details,
            ip_address,
            user_agent,
            created_at: now_unix_timestamp(),
        }
    }
}

} // verus!
