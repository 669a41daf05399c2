//! Administration endpoint payloads.

use vstd::prelude::*;
use crate::audit_log::AuditLog;
use crate::gift::{Gift, GiftCategory, GiftEffectType, GiftFeedbackTemplate};

verus! {

/// Request to change a user's backend role.
pub struct UpdateUserRolePayload {
    pub user_id: String,
    pub new_role: String,
}

/// The audit entries an administrator asked for.
pub struct AuditLogResponse {
    pub logs: Vec<AuditLog>,
}

/// Every gift on record.
pub struct GiftListResponse {
    pub gifts: Vec<Gift>,
}

/// Request to create a gift.
pub struct CreateGiftPayload {
    pub name: String,
    pub description: Option<String>,
    pub price_lc: u32,
    pub emotional_value: u32,
    pub effect_type: GiftEffectType,
    pub category: GiftCategory,
    pub image_url: Option<String>,
    pub is_limited: bool,
    pub available_until: Option<i64>,
    pub boost_value: Option<u32>,
}

/// Request to update a gift.
pub struct UpdateGiftPayload {
    pub id: String,
    pub name: String,
    pub description: Option<String>,
    pub price_lc: u32,
    pub emotional_value: u32,
    pub effect_type: GiftEffectType,
    pub category: GiftCategory,
    pub image_url: Option<String>,
    pub is_limited: bool,
    pub available_until: Option<i64>,
    pub boost_value: Option<u32>,
    pub is_active: bool,
}

/// Outcome of a gift operation.
pub struct GiftResponse {
    pub success: bool,
    pub gift: Option<Gift>,
}

/// Request to create a gift feedback template set.
pub struct CreateFeedbackTemplatePayload {
    pub gift_category: GiftCategory,
    pub feedback_templates: Vec<String>,
}

/// Outcome of a template operation.
pub struct FeedbackTemplateResponse {
    pub success: bool,
}

/// Every feedback template set on record.
pub struct FeedbackTemplateListResponse {
    pub templates: Vec<GiftFeedbackTemplate>,
}

} // verus!
