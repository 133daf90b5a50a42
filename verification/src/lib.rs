//! Invoice escrow: investors fund an invoice up to a target, the SME withdraws or settles,
//! investors mark payout claims, and an admin governs the target, the maturity, the admin
//! role and a compliance (legal) hold. The SME may also record a collateral pledge, which
//! is metadata only.
//!
//! [`LiquifactEscrow`] is one escrow's storage; each call on it checks, decides and, when
//! accepted, updates the storage and reports the event to publish and the entries written.

pub mod call_laws;
pub mod contract;
pub mod digest;
pub mod events;
pub mod laws;
pub mod ledger;
pub mod model;
pub mod types;

pub use contract::{Effect, LiquifactEscrow, Outcome};
pub use digest::sample_digest;
pub use events::{
    AdminTransferredEvent, CollateralRecordedEvt, EscrowEvent, EscrowFunded, EscrowInitialized,
    EscrowSettled, FundingTargetUpdated, InvestorPayoutClaimed, LegalHoldChanged,
    MaturityUpdatedEvent, SmeWithdrew,
};
pub use types::{
    DataKey, EscrowError, InvoiceEscrow, SmeCollateralCommitment, MAX_YIELD_BPS, SCHEMA_VERSION,
    STATUS_FUNDED, STATUS_OPEN, STATUS_SETTLED, STATUS_WITHDRAWN,
};
