//! Coupon transfer and redemption payloads. The coupon record itself
//! carries a fractional value, which the verified library does not model.

use vstd::prelude::*;

verus! {

/// Request to redeem a coupon for a user.
pub struct RedeemCouponPayload {
    pub coupon_id: String,
    pub user_id: String,
}

/// Request to hand a coupon to another user.
pub struct TransferCouponPayload {
    pub coupon_id: String,
    pub new_owner_id: String,
}

} // verus!
