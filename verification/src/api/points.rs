//! Points and gifting endpoint payloads.

use vstd::prelude::*;

verus! {

/// Request to record the day's check-in.
pub struct DailyCheckinRequest {
    pub user_id: String,
}

/// Outcome of a check-in: the running streak and the balance it earned.
pub struct DailyCheckinResponse {
    pub success: bool,
    pub streak: u32,
    pub current_hp: u32,
}

/// Request to send a gift to an AI partner.
pub struct SendGiftRequest {
    pub gift_id: String,
    pub receiver_ai_id: String,
    pub message: Option<String>,
}

/// Outcome of sending a gift.
pub struct SendGiftResponse {
    pub success: bool,
}

/// Request to play a lucky card.
pub struct UseLuckyCardRequest {
    pub card_id: String,
}

/// Request to top up light coins.
pub struct RechargeLCRequest {
    pub amount: u32,
}

/// Outcome of a top-up.
pub struct RechargeLCResponse {
    pub success: bool,
    pub new_balance: u32,
}

/// A wallet's two balances.
pub struct WalletInfoResponse {
    pub hp: u32,
    pub lc_balance: u32,
}

} // verus!
