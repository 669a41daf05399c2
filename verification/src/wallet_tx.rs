//! Wallet transactions over the two virtual currencies.

use vstd::prelude::*;
use crate::ids::{fresh_uuid, now_unix_timestamp};

verus! {

/// Kind of wallet movement.
#[derive(Debug, Clone, Copy, PartialEq, Eq, Structural)]
pub enum TxType {
    Recharge,
    GiftSend,
    GiftReceive,
    Reward,
    PointsEarned,
    PointsSpent,
}

/// Which of the two currencies a transaction moves.
#[derive(Debug, Clone, Copy, PartialEq, Eq, Structural)]
pub enum CurrencyType {
    HP,
    LC,
}

/// One wallet transaction.
#[derive(Debug, Clone)]
pub struct WalletTx {
    pub id: String,
    pub user_id: String,
    pub tx_type: TxType,
    pub amount: u32,
    pub currency: CurrencyType,
    pub timestamp: i64,
    pub related_entity_id: Option<String>,
    pub remark: Option<String>,
}

impl WalletTx {
    /// A fresh transaction record.
    pub fn new(
        user_id: String,
        tx_type: TxType,
        amount: u32,
        currency: CurrencyType,
        related_entity_id: Option<String>,
        remark: Option<String>,
    ) -> (r: WalletTx)
        ensures
            r.user_id == user_id,
            r.tx_type == tx_type,
            r.amount == amount,
            r.currency == currency,
            r.related_entity_id == related_entity_id,
            r.remark == remark,
            r.id@.len() == 36,
    {
        WalletTx {
            id: fresh_uuid(),
            user_id,
            tx_type,
            amount,
            currency,
            timestamp: now_unix_timestamp(),
            related_entity_id,
            remark,
        }
    }
}

} // verus!
