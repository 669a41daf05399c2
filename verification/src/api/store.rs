//! Redemption shop endpoint payloads.

use vstd::prelude::*;
use crate::point_shop::{MonthlyRedemptionStat, PurchaseRecord, ShopItem};
use crate::user::User;

verus! {

/// The items on offer.
pub struct StoreItemsResponse {
    pub items: Vec<ShopItem>,
}

/// One item with the price the asking user would pay.
pub struct StoreItemResponse {
    pub item: ShopItem,
    pub discounted_price: u32,
}

/// Request to redeem an item.
pub struct RedeemItemRequest {
    pub item_id: String,
    pub remark: Option<String>,
}

/// Outcome of a redemption.
pub struct RedeemItemResponse {
    pub success: bool,
    pub message: String,
    pub purchase_id: Option<String>,
}

/// A user's redemption history by month.
pub struct UserRedemptionHistoryResponse {
    pub monthly_stats: Vec<MonthlyRedemptionStat>,
    pub total_points_spent: u32,
}

/// A user's purchases.
pub struct UserPurchasesResponse {
    pub purchases: Vec<PurchaseWithItem>,
}

/// One purchase with the item it bought, if it still exists.
pub struct PurchaseWithItem {
    pub purchase: PurchaseRecord,
    pub item: Option<ShopItem>,
}

/// Request to create an item.
pub struct CreateItemRequest {
    pub name: String,
    pub description: String,
    pub item_type: String,
    pub category: String,
    pub price_hp: u32,
    pub image_url: Option<String>,
    pub is_limited: bool,
    pub available_until: Option<i64>,
    pub stock: Option<u32>,
    pub visible: bool,
    pub linked_coupon_id: Option<String>,
    pub monthly_limit: Option<u32>,
    pub vip_discount: Option<bool>,
}

/// Outcome of creating an item.
pub struct CreateItemResponse {
    pub success: bool,
    pub item_id: Option<String>,
    pub message: String,
}

/// Request to update an item.
pub struct UpdateItemRequest {
    pub id: String,
    pub name: Option<String>,
    pub description: Option<String>,
    pub price_hp: Option<u32>,
    pub image_url: Option<String>,
    pub is_limited: Option<bool>,
    pub available_until: Option<i64>,
    pub stock: Option<u32>,
    pub visible: Option<bool>,
    pub linked_coupon_id: Option<String>,
    pub monthly_limit: Option<u32>,
    pub vip_discount: Option<bool>,
}

/// Outcome of updating an item.
pub struct UpdateItemResponse {
    pub success: bool,
    pub message: String,
}

/// Outcome of deleting an item.
pub struct DeleteItemResponse {
    pub success: bool,
    pub message: String,
}

/// Request for redemption records, optionally for one user.
pub struct AdminGetRedemptionsRequest {
    pub user_id: Option<String>,
    pub limit: Option<usize>,
}

/// The redemption records an administrator asked for.
pub struct AdminGetRedemptionsResponse {
    pub purchases: Vec<PurchaseWithUserAndItem>,
}

/// One purchase with its buyer and item, where they still exist.
pub struct PurchaseWithUserAndItem {
    pub purchase: PurchaseRecord,
    pub user: Option<User>,
    pub item: Option<ShopItem>,
}

} // verus!
