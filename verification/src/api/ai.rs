//! AI partner endpoint payloads.

use vstd::prelude::*;
use crate::ai::AIType;

verus! {

/// Request to initiate an AI partner.
pub struct InitiateAIPayload {
    pub ai_type: AIType,
    pub name: Option<String>,
}

/// The identifier of a freshly initiated AI partner.
pub struct InitiateAIResponse {
    pub ai_id: String,
}

} // verus!
