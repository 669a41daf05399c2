//! Affiliate program endpoint payloads.

use vstd::prelude::*;

verus! {

/// Request to join the affiliate program.
pub struct ApplyForPromoterRequest {
    pub promoter_type: String,
    pub wallet_account: String,
}

/// A bare success flag.
pub struct SuccessResponse {
    pub success: bool,
}

/// Request to attach an identity document.
pub struct UploadDocumentRequest {
    pub document_path: String,
}

/// A promoter's invite code.
pub struct InviteCodeResponse {
    pub invite_code: String,
}

/// Request to change the payout account.
pub struct UpdatePaymentAccountRequest {
    pub wallet_account: String,
}

/// Request to approve or reject an application.
pub struct ReviewPromoterRequest {
    pub promoter_id: String,
    pub approved: bool,
}

/// Request to settle one withdrawal.
pub struct ProcessWithdrawalRequestPayload {
    pub request_id: String,
    pub approved: bool,
    pub transaction_id: Option<String>,
}

} // verus!
