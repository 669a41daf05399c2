//! AI partner entities, and what each subscription tier may initiate.

use vstd::prelude::*;
use crate::ids::{fresh_uuid, now_unix_timestamp};
use crate::user::{User, VipLevel};

verus! {

/// Kind of AI partner.
#[derive(Debug, Clone, Copy, PartialEq, Eq, Structural)]
pub enum AIType {
    Companion,
    Creative,
    Work,
    Service,
    Coordination,
    Business,
    Governance,
}

/// Which AI kinds a subscription tier grants access to.
pub open spec fn spec_compatible(t: AIType, vip_level: VipLevel) -> bool {
    match t {
        AIType::Companion => true,
        AIType::Creative => vip_level matches (VipLevel::Pro | VipLevel::Premium
            | VipLevel::Ultimate | VipLevel::Team),
        AIType::Work => vip_level matches (VipLevel::Premium | VipLevel::Ultimate | VipLevel::Team),
        AIType::Service => vip_level matches (VipLevel::Ultimate | VipLevel::Team),
        AIType::Coordination | AIType::Business | AIType::Governance => vip_level
            matches VipLevel::Team,
    }
}

impl AIType {
    /// Whether this AI kind is available at the given subscription tier:
    /// companions everywhere, and each further kind one tier later, with the
    /// coordination, business and governance kinds reserved to teams.
    pub fn is_compatible_with_vip(&self, vip_level: &VipLevel) -> (r: bool)
        ensures
            r == spec_compatible(*self, *vip_level),
    {
        match self {
            AIType::Companion => true,
            AIType::Creative => matches!(
                vip_level,
                VipLevel::Pro | VipLevel::Premium | VipLevel::Ultimate | VipLevel::Team
            ),
            AIType::Work => matches!(
                vip_level,
                VipLevel::Premium | VipLevel::Ultimate | VipLevel::Team
            ),
            AIType::Service => matches!(vip_level, VipLevel::Ultimate | VipLevel::Team),
            AIType::Coordination | AIType::Business | AIType::Governance => matches!(
                vip_level,
                VipLevel::Team
            ),
        }
    }

    /// The kind's display name.
    pub fn to_string(&self) -> (r: &str)
        ensures
            r@ == match *self {
                AIType::Companion => "伴侣型"@,
                AIType::Creative => "创造型"@,
                AIType::Work => "工作型"@,
                AIType::Service => "服务型"@,
                AIType::Coordination => "协调型"@,
                AIType::Business => "业务型"@,
                AIType::Governance => "治理型"@,
            },
    {
        match self {
            AIType::Companion => "伴侣型",
            AIType::Creative => "创造型",
            AIType::Work => "工作型",
            AIType::Service => "服务型",
            AIType::Coordination => "协调型",
            AIType::Business => "业务型",
            AIType::Governance => "治理型",
        }
    }
}

/// Lifecycle state of an AI partner.
#[derive(Debug, Clone, Copy, PartialEq, Eq, Structural)]
pub enum AIStatus {
    Active,
    Inactive,
    Suspended,
    Deleted,
}

/// An AI partner owned by a user.
#[derive(Debug, Clone)]
pub struct AI {
    pub id: String,
    pub name: String,
    pub ai_type: AIType,
    pub user_id: String,
    pub status: AIStatus,
    pub awakened: bool,
    pub awakened_by: Option<String>,
    pub created_at: i64,
    pub updated_at: i64,
}

impl AI {
    /// A fresh, active, not yet awakened AI partner.
    pub fn new(name: String, ai_type: AIType, user_id: String) -> (r: AI)
        ensures
            r.name == name,
            r.ai_type == ai_type,
            r.user_id == user_id,
            r.status == AIStatus::Active,
            r.awakened == false,
            r.awakened_by is None,
            r.created_at == r.updated_at,
            r.id@.len() == 36,
    {
        let now = now_unix_timestamp();
        AI {
            id: fresh_uuid(),
            name,
            ai_type,
            user_id,
            status: AIStatus::Active,
            awakened: false,
            awakened_by: None,
            created_at: now,
            updated_at: now,
        }
    }

    /// Marks the AI as awakened and records who did it.
    pub fn awaken(&mut self, user_id: String)
        ensures
            *final(self) == (AI { awakened: true, awakened_by: Some(user_id), ..*old(self) }),
    {
        self.awakened = true;
        self.awakened_by = Some(user_id);
    }
}

impl User {
    /// Whether the user may initiate an AI of the given kind: the kind must
    /// be available at the user's tier and a free slot must remain.
    pub fn can_initiate_ai(&self, ai_type: AIType) -> (r: bool)
        ensures
            r == (spec_compatible(ai_type, self.vip_level) && self.ai_partner_count
                < self.ai_slots),
    {
        ai_type.is_compatible_with_vip(&self.vip_level) && self.ai_partner_count < self.ai_slots
    }

    /// Resets the AI partner count when the account has fallen back to the
    /// free tier.
    pub fn handle_vip_expiration(&mut self)
        ensures
            *final(self) == (User {
                ai_partner_count: if old(self).vip_level == VipLevel::Free {
                    0u32
                } else {
                    old(self).ai_partner_count
                },
                ..*old(self)
            }),
    {
        if self.vip_level == VipLevel::Free {
            self.ai_partner_count = 0;
        }
    }
}

} // verus!
