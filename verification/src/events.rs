//! What each accepted call announces. `name` is the event's topic.

use vstd::prelude::*;

use crate::types::InvoiceEscrow;

verus! {

#[derive(Debug, PartialEq, Eq)]
pub struct EscrowInitialized {
    pub name: String,
    pub escrow: InvoiceEscrow,
}

#[derive(Debug, PartialEq, Eq)]
pub struct EscrowFunded {
    pub name: String,
    pub invoice_id: String,
    pub investor: String,
    pub amount: i128,
    pub funded_amount: i128,
    pub status: u32,
}

#[derive(Debug, PartialEq, Eq)]
pub struct EscrowSettled {
    pub name: String,
    pub invoice_id: String,
    pub funded_amount: i128,
    pub yield_bps: i64,
    pub maturity: u64,
}

#[derive(Debug, PartialEq, Eq)]
pub struct MaturityUpdatedEvent {
    pub name: String,
    pub invoice_id: String,
    pub old_maturity: u64,
    pub new_maturity: u64,
}

#[derive(Debug, PartialEq, Eq)]
pub struct AdminTransferredEvent {
    pub name: String,
    pub invoice_id: String,
    pub new_admin: String,
}

#[derive(Debug, PartialEq, Eq)]
pub struct FundingTargetUpdated {
    pub name: String,
    pub invoice_id: String,
    pub old_target: i128,
    pub new_target: i128,
}

#[derive(Debug, PartialEq, Eq)]
pub struct LegalHoldChanged {
    pub name: String,
    pub invoice_id: String,
    /// `1` = hold enabled, `0` = cleared.
    pub active: u32,
}

/// Collateral pledge recorded; the asset code is in the stored pledge.
#[derive(Debug, PartialEq, Eq)]
pub struct CollateralRecordedEvt {
    pub name: String,
    pub invoice_id: String,
    pub amount: i128,
}

#[derive(Debug, PartialEq, Eq)]
pub struct SmeWithdrew {
    pub name: String,
    pub invoice_id: String,
    pub amount: i128,
}

#[derive(Debug, PartialEq, Eq)]
pub struct InvestorPayoutClaimed {
    pub name: String,
    pub invoice_id: String,
    pub investor: String,
}

/// The one event an accepted call publishes.
#[derive(Debug, PartialEq, Eq)]
pub enum EscrowEvent {
    Initialized(EscrowInitialized),
    Funded(EscrowFunded),
    Settled(EscrowSettled),
    MaturityUpdated(MaturityUpdatedEvent),
    AdminTransferred(AdminTransferredEvent),
    TargetUpdated(FundingTargetUpdated),
    LegalHold(LegalHoldChanged),
    CollateralRecorded(CollateralRecordedEvt),
    Withdrew(SmeWithdrew),
    PayoutClaimed(InvestorPayoutClaimed),
}

} // verus!
