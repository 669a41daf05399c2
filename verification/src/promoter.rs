//! Affiliate program states. Only the discrete states live here: the
//! promoter record itself carries fractional commission rates, which the
//! verified library does not model.

use vstd::prelude::*;

verus! {

/// Progress of a promoter's identity verification.
#[derive(Debug, Clone, Copy)]
pub enum VerificationStatus {
    Pending,
    Approved,
    Rejected,
}

/// Settlement state of one commission.
#[derive(Debug, Clone, Copy)]
pub enum CommissionStatus {
    Pending,
    Paid,
    Cancelled,
}

/// What earned the commission.
#[derive(Debug, Clone, Copy)]
pub enum CommissionType {
    FirstPayment,
    Renewal,
}

} // verus!
