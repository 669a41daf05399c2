//! Gifts that users send to their AI partners, and the records they leave.

use vstd::prelude::*;
use crate::ids::{fresh_uuid, now_unix_timestamp};

verus! {

/// What sending the gift does.
#[derive(Debug, Clone, Copy, PartialEq, Eq, Structural)]
pub enum GiftEffectType {
    Boost,
    Memory,
    Exclusive,
}

/// Tier of a gift.
#[derive(Debug, Clone, Copy, PartialEq, Eq, Structural)]
pub enum GiftCategory {
    Light,
    Medium,
    Advanced,
    Rare,
    Limited,
}

/// A gift on offer.
#[derive(Debug, Clone)]
pub struct Gift {
    pub id: String,
    pub name: String,
    pub description: Option<String>,
    pub price_lc: u32,
    pub emotional_value: u32,
    pub effect_type: GiftEffectType,
    pub category: GiftCategory,
    pub image_url: Option<String>,
    pub created_at: i64,
    pub is_limited: bool,
    pub available_until: Option<i64>,
    pub boost_value: Option<u32>,
    pub is_active: bool,
}

impl Gift {
    /// A fresh, active gift.
    pub fn new(
        name: String,
        description: Option<String>,
        price_lc: u32,
        emotional_value: u32,
        effect_type: GiftEffectType,
        category: GiftCategory,
        image_url: Option<String>,
        is_limited: bool,
        available_until: Option<i64>,
        boost_value: Option<u32>,
    ) -> (r: Gift)
        ensures
            r.name == name,
            r.description == description,
            r.price_lc == price_lc,
            r.emotional_value == emotional_value,
            r.effect_type == effect_type,
            r.category == category,
            r.image_url == image_url,
            r.is_limited == is_limited,
            r.available_until == available_until,
            r.boost_value == boost_value,
            r.is_active == true,
            r.id@.len() == 36,
    {
        Gift {
            id: fresh_uuid(),
            name,
            description,
            price_lc,
            emotional_value,
            effect_type,
            category,
            image_url,
            created_at: now_unix_timestamp(),
            is_limited,
            available_until,
            boost_value,
            is_active: true,
        }
    }
}

/// One gift sent by a user to an AI partner.
#[derive(Debug, Clone)]
pub struct GiftRecord {
    pub id: String,
    pub gift_id: String,
    pub sender_id: String,
    pub receiver_ai_id: String,
    pub sent_at: i64,
    pub message: Option<String>,
}

impl GiftRecord {
    /// A fresh sending record.
    pub fn new(
        gift_id: String,
        sender_id: String,
        receiver_ai_id: String,
        message: Option<String>,
    ) -> (r: GiftRecord)
        ensures
            r.gift_id == gift_id,
            r.sender_id == sender_id,
            r.receiver_ai_id == receiver_ai_id,
            r.message == message,
            r.id@.len() == 36,
    {
        GiftRecord {
            id: fresh_uuid(),
            gift_id,
            sender_id,
            receiver_ai_id,
            sent_at: now_unix_timestamp(),
            message,
        }
    }
}

/// A user's streak of sending gifts to one AI partner.
#[derive(Debug, Clone)]
pub struct ConsecutiveGiftRecord {
    pub id: String,
    pub user_id: String,
    pub ai_id: String,
    pub consecutive_days: u32,
    pub last_gift_date: i64,
    pub total_gifts_sent: u32,
    pub total_emotional_value: u32,
}

impl ConsecutiveGiftRecord {
    /// A fresh one-day streak.
    pub fn new(user_id: String, ai_id: String) -> (r: ConsecutiveGiftRecord)
        ensures
            r.user_id == user_id,
            r.ai_id == ai_id,
            r.consecutive_days == 1,
            r.total_gifts_sent == 1,
            r.total_emotional_value == 0,
            r.id@.len() == 36,
    {
        ConsecutiveGiftRecord {
            id: fresh_uuid(),
            user_id,
            ai_id,
            consecutive_days: 1,
            last_gift_date: now_unix_timestamp(),
            total_gifts_sent: 1,
            total_emotional_value: 0,
        }
    }
}

/// The reply templates an AI picks from when thanked with a gift of a given
/// category.
#[derive(Debug, Clone)]
pub struct GiftFeedbackTemplate {
    pub id: String,
    pub gift_category: GiftCategory,
    pub feedback_templates: Vec<String>,
    pub created_at: i64,
}

impl GiftFeedbackTemplate {
    /// A fresh template set.
    pub fn new(gift_category: GiftCategory, feedback_templates: Vec<String>) -> (r:
        GiftFeedbackTemplate)
        ensures
            r.gift_category == gift_category,
            r.feedback_templates == feedback_templates,
            r.id@.len() == 36,
    {
        GiftFeedbackTemplate {
            id: fresh_uuid(),
            gift_category,
            feedback_templates,
            created_at: now_unix_timestamp(),
        }
    }
}

} // verus!
