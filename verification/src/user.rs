//! User accounts, roles, and VIP tier configuration.

use vstd::prelude::*;
use crate::ids::{fresh_uuid, now_unix_timestamp};

verus! {

/// Subscription tier of a user.
#[derive(Debug, Clone, Copy, PartialEq, Eq, Structural)]
pub enum VipLevel {
    Free,
    Pro,
    Premium,
    Ultimate,
    Team,
}

impl VipLevel {
    /// The tier's display name.
    pub fn to_string(&self) -> (r: &str)
        ensures
            r@ == match *self {
                VipLevel::Free => "Free"@,
                VipLevel::Pro => "Pro"@,
                VipLevel::Premium => "Premium"@,
                VipLevel::Ultimate => "Ultimate"@,
                VipLevel::Team => "Team"@,
            },
    {
        match self {
            VipLevel::Free => "Free",
            VipLevel::Pro => "Pro",
            VipLevel::Premium => "Premium",
            VipLevel::Ultimate => "Ultimate",
            VipLevel::Team => "Team",
        }
    }
}

/// Per-tier limits.
#[derive(Debug, Clone)]
pub struct VipLevelConfig {
    pub level: VipLevel,
    pub max_ai_partners: u32,
    pub daily_chat_limit: u32,
    pub daily_lio_limit: u32,
    pub max_companion_ai: u32,
    pub max_creative_ai: u32,
    pub max_work_ai: u32,
    pub max_service_ai: u32,
    pub free_mapping_quota: u32,
}

impl VipLevelConfig {
    /// Builds a configuration record from its fields.
    pub fn new(
        level: VipLevel,
        max_ai_partners: u32,
        daily_chat_limit: u32,
        daily_lio_limit: u32,
        max_companion_ai: u32,
        max_creative_ai: u32,
        max_work_ai: u32,
        max_service_ai: u32,
        free_mapping_quota: u32,
    ) -> (r: VipLevelConfig)
        ensures
            r.level == level,
            r.max_ai_partners == max_ai_partners,
            r.daily_chat_limit == daily_chat_limit,
            r.daily_lio_limit == daily_lio_limit,
            r.max_companion_ai == max_companion_ai,
            r.max_creative_ai == max_creative_ai,
            r.max_work_ai == max_work_ai,
            r.max_service_ai == max_service_ai,
            r.free_mapping_quota == free_mapping_quota,
    {
        VipLevelConfig {
            level,
            max_ai_partners,
            daily_chat_limit,
            daily_lio_limit,
            max_companion_ai,
            max_creative_ai,
            max_work_ai,
            max_service_ai,
            free_mapping_quota,
        }
    }
}

/// Role of a user towards the public product.
#[derive(Debug, Clone, Copy, PartialEq, Eq, Structural)]
pub enum FrontendUserRole {
    User,
    Promoter,
    Manager,
}

/// Role of a user towards the administration backend.
#[derive(Debug, Clone, Copy, PartialEq, Eq, Structural)]
pub enum BackendUserRole {
    Moderator,
    Admin,
    SuperAdmin,
    Editor,
    Viewer,
}

/// Kind of affiliate.
#[derive(Debug, Clone, Copy, PartialEq, Eq, Structural)]
pub enum PromoterType {
    Individual,
    Organization,
}

/// One scheduled VIP period.
#[derive(Debug, Clone)]
pub struct VipStatus {
    pub level: String,
    pub start: i64,
    pub end: i64,
}

/// A user account.
#[derive(Debug, Clone)]
pub struct User {
    pub id: String,
    pub email: String,
    pub password_hash: String,
    pub frontend_roles: Vec<FrontendUserRole>,
    pub backend_roles: Vec<BackendUserRole>,
    pub vip_level: VipLevel,
    pub ai_partner_count: u32,
    pub companion_ai_count: u32,
    pub creative_ai_count: u32,
    pub work_ai_count: u32,
    pub service_ai_count: u32,
    pub free_mapping_used: u32,
    pub daily_chat_count: u32,
    pub daily_lio_count: u32,
    pub invite_code: Option<String>,
    pub invited_by: Option<String>,
    pub vip_schedule: Vec<VipStatus>,
    pub pro_experience_expiration: Option<i64>,
    pub awakened_ais: Vec<String>,
    pub ai_slots: u32,
    pub hp: u32,
    pub lc_balance: u32,
    pub daily_checkin_streak: u32,
    pub last_checkin_date: Option<i64>,
    pub total_invites: u32,
    pub is_email_verified: bool,
    pub created_at: i64,
    pub updated_at: i64,
}

impl User {
    /// A fresh free-tier account with the plain user role, one AI slot, and
    /// every counter at zero.
    pub fn new(email: String, password_hash: String) -> (r: User)
        ensures
            r.email == email,
            r.password_hash == password_hash,
            r.frontend_roles@.len() == 1,
            r.frontend_roles@[0] == FrontendUserRole::User,
            r.backend_roles@.len() == 0,
            r.vip_level == VipLevel::Free,
            r.ai_partner_count == 0,
            r.companion_ai_count == 0,
            r.creative_ai_count == 0,
            r.work_ai_count == 0,
            r.service_ai_count == 0,
            r.free_mapping_used == 0,
            r.daily_chat_count == 0,
            r.daily_lio_count == 0,
            r.invite_code is None,
            r.invited_by is None,
            r.vip_schedule@.len() == 0,
            r.pro_experience_expiration is None,
            r.awakened_ais@.len() == 0,
            r.ai_slots == 1,
            r.hp == 0,
            r.lc_balance == 0,
            r.daily_checkin_streak == 0,
            r.last_checkin_date is None,
            r.total_invites == 0,
            r.is_email_verified == false,
            r.created_at == r.updated_at,
            r.id@.len() == 36,
    {
        let now = now_unix_timestamp();
        let mut frontend_roles: Vec<FrontendUserRole> = Vec::new();
        frontend_roles.push(FrontendUserRole::User);
        User {
            id: fresh_uuid(),
            email,
            password_hash,
            frontend_roles,
            backend_roles: Vec::new(),
            vip_level: VipLevel::Free,
            ai_partner_count: 0,
            companion_ai_count: 0,
            creative_ai_count: 0,
            work_ai_count: 0,
            service_ai_count: 0,
            free_mapping_used: 0,
            daily_chat_count: 0,
            daily_lio_count: 0,
            invite_code: None,
            invited_by: None,
            vip_schedule: Vec::new(),
            pro_experience_expiration: None,
            awakened_ais: Vec::new(),
            ai_slots: 1,
            hp: 0,
            lc_balance: 0,
            daily_checkin_streak: 0,
            last_checkin_date: None,
            total_invites: 0,
            is_email_verified: false,
            created_at: now,
            updated_at: now,
        }
    }

    /// Whether the account holds any backend role.
    pub fn is_backend_user(&self) -> (r: bool)
        ensures
            r == (self.backend_roles@.len() > 0),
    {
        !self.backend_roles.is_empty()
    }

    /// Whether the account holds any frontend role.
    pub fn is_frontend_user(&self) -> (r: bool)
        ensures
            r == (self.frontend_roles@.len() > 0),
    {
        !self.frontend_roles.is_empty()
    }

    /// Whether the account holds the given backend role.
    pub fn has_role(&self, role: BackendUserRole) -> (r: bool)
        ensures
            r == self.backend_roles@.contains(role),
    {
        let n = self.backend_roles.len();
        let mut i: usize = 0;
        while i < n
            invariant
                i <= n,
                n == self.backend_roles@.len(),
                forall|j: int| 0 <= j < i ==> self.backend_roles@[j] != role,
            decreases n - i,
        {
            if self.backend_roles[i] == role {
                return true;
            }
            i = i + 1;
        }
        false
    }

    /// Whether the account is an administrator (admin or super-admin role).
    pub fn is_admin(&self) -> (r: bool)
        ensures
            r == (self.backend_roles@.contains(BackendUserRole::Admin)
                || self.backend_roles@.contains(BackendUserRole::SuperAdmin)),
    {
        self.has_role(BackendUserRole::Admin) || self.has_role(BackendUserRole::SuperAdmin)
    }

    /// Counts a newly initiated AI partner, both in the total and in the
    /// bucket of its type.
    pub fn update_ai_count(&mut self, ai_type: &crate::ai::AIType)
        requires
            old(self).ai_partner_count < u32::MAX,
            *ai_type == crate::ai::AIType::Companion ==> old(self).companion_ai_count < u32::MAX,
            *ai_type == crate::ai::AIType::Creative ==> old(self).creative_ai_count < u32::MAX,
            *ai_type == crate::ai::AIType::Work ==> old(self).work_ai_count < u32::MAX,
            *ai_type == crate::ai::AIType::Service ==> old(self).service_ai_count < u32::MAX,
        ensures
            final(self).ai_partner_count == old(self).ai_partner_count + 1,
            final(self).companion_ai_count == old(self).companion_ai_count + (
            if *ai_type == crate::ai::AIType::Companion {
                1int
            } else {
                0int
            }),
            final(self).creative_ai_count == old(self).creative_ai_count + (
            if *ai_type == crate::ai::AIType::Creative {
                1int
            } else {
                0int
            }),
            final(self).work_ai_count == old(self).work_ai_count + (
            if *ai_type == crate::ai::AIType::Work {
                1int
            } else {
                0int
            }),
            final(self).service_ai_count == old(self).service_ai_count + (
            if *ai_type == crate::ai::AIType::Service {
                1int
            } else {
                0int
            }),
            *final(self) == (User {
                ai_partner_count: final(self).ai_partner_count,
                companion_ai_count: final(self).companion_ai_count,
                creative_ai_count: final(self).creative_ai_count,
                work_ai_count: final(self).work_ai_count,
                service_ai_count: final(self).service_ai_count,
                ..*old(self)
            }),
    {
        self.ai_partner_count = self.ai_partner_count + 1;
        match ai_type {
            crate::ai::AIType::Companion => {
                self.companion_ai_count = self.companion_ai_count + 1;
            },
            crate::ai::AIType::Creative => {
                self.creative_ai_count = self.creative_ai_count + 1;
            },
            crate::ai::AIType::Work => {
                self.work_ai_count = self.work_ai_count + 1;
            },
            crate::ai::AIType::Service => {
                self.service_ai_count = self.service_ai_count + 1;
            },
            _ => {},
        }
    }

    /// Spends one unit of the free mapping quota.
    pub fn use_free_mapping(&mut self)
        requires
            old(self).free_mapping_used < u32::MAX,
        ensures
            *final(self) == (User { free_mapping_used: (old(self).free_mapping_used + 1) as u32, ..*old(
                self,
            ) }),
    {
        self.free_mapping_used = self.free_mapping_used + 1;
    }
}

} // verus!
