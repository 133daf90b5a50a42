//! The escrow's records and the ways a call can be refused.

use vstd::prelude::*;

verus! {

/// Current storage schema version, stored under [`DataKey::Version`] by `init`.
pub const SCHEMA_VERSION: u32 = 2;

/// Lifecycle: accepting funds.
pub const STATUS_OPEN: u32 = 0;

/// Lifecycle: the funding target was reached.
pub const STATUS_FUNDED: u32 = 1;

/// Lifecycle: finalized after maturity.
pub const STATUS_SETTLED: u32 = 2;

/// Lifecycle: the SME pulled the funded liquidity.
pub const STATUS_WITHDRAWN: u32 = 3;

/// Largest accepted yield, in basis points (100 %).
pub const MAX_YIELD_BPS: i64 = 10_000;

/// The storage entries an escrow keeps; an address is held by its strkey text.
#[derive(Debug, PartialEq, Eq)]
pub enum DataKey {
    Escrow,
    Version,
    /// Per-investor contributed principal recorded by `fund`.
    InvestorContribution(String),
    /// When true, the compliance/legal hold blocks payouts and settlement finalization.
    LegalHold,
    /// Optional SME collateral pledge metadata (record only, no asset lock).
    SmeCollateralPledge,
    /// Set once an investor has exercised a claim after settlement.
    InvestorClaimed(String),
}

/// Full state of an invoice escrow.
///
/// `invoice_id` is the invoice symbol's text; `admin` and `sme_address` are addresses
/// in strkey form.
#[derive(Debug, PartialEq, Eq)]
pub struct InvoiceEscrow {
    pub invoice_id: String,
    pub admin: String,
    pub sme_address: String,
    pub amount: i128,
    pub funding_target: i128,
    pub funded_amount: i128,
    pub yield_bps: i64,
    pub maturity: u64,
    /// 0 = open, 1 = funded, 2 = settled, 3 = withdrawn (SME pulled liquidity)
    pub status: u32,
}

impl Clone for InvoiceEscrow {
    fn clone(&self) -> (r: Self)
        ensures
            r == *self,
    {
        InvoiceEscrow {
            invoice_id: self.invoice_id.clone(),
            admin: self.admin.clone(),
            sme_address: self.sme_address.clone(),
            amount: self.amount,
            funding_target: self.funding_target,
            funded_amount: self.funded_amount,
            yield_bps: self.yield_bps,
            maturity: self.maturity,
            status: self.status,
        }
    }
}

/// SME-reported collateral, stored for transparency only: it does not custody
/// collateral, freeze tokens or trigger liquidation.
#[derive(Debug, PartialEq, Eq)]
pub struct SmeCollateralCommitment {
    pub asset: String,
    pub amount: i128,
    pub recorded_at: u64,
}

impl Clone for SmeCollateralCommitment {
    fn clone(&self) -> (r: Self)
        ensures
            r == *self,
    {
        SmeCollateralCommitment {
            asset: self.asset.clone(),
            amount: self.amount,
            recorded_at: self.recorded_at,
        }
    }
}

/// Why a call was refused. Each refusal aborts the call and leaves the escrow unchanged.
#[derive(Debug, Clone, Copy, PartialEq, Eq, Structural)]
pub enum EscrowError {
    /// No escrow was initialized.
    NotInitialized,
    /// `init` with a non-positive amount.
    AmountNotPositive,
    /// `init` with `yield_bps` outside `0..=10_000`.
    YieldOutOfRange,
    /// `init` on an escrow that exists.
    AlreadyInitialized,
    /// Collateral pledge with a non-positive amount.
    CollateralNotPositive,
    /// New funding target not strictly positive.
    TargetNotPositive,
    /// Funding target changed outside the open state.
    TargetNotOpen,
    /// New funding target below what was already funded.
    TargetBelowFunded,
    /// `migrate` with a version other than the stored one.
    VersionMismatch,
    /// `migrate` at or past the current schema version.
    AlreadyCurrentVersion,
    /// `migrate` from an older version: no path is implemented.
    NoMigrationPath(u32),
    /// Funding with a non-positive amount.
    FundingNotPositive,
    /// The legal hold blocks new funding.
    HoldBlocksFunding,
    /// Funding an escrow that is not open.
    NotOpenForFunding,
    /// The funded total would overflow.
    FundedAmountOverflow,
    /// The investor's recorded contribution would overflow.
    ContributionOverflow,
    /// The legal hold blocks settlement.
    HoldBlocksSettlement,
    /// Settling an escrow that is not funded.
    NotFundedForSettlement,
    /// Settling before maturity.
    NotMatured,
    /// The legal hold blocks the SME withdrawal.
    HoldBlocksWithdrawal,
    /// Withdrawing from an escrow that is not funded.
    NotFundedForWithdrawal,
    /// The legal hold blocks investor claims.
    HoldBlocksClaim,
    /// Claiming before settlement.
    NotSettled,
    /// The investor has no recorded contribution.
    NoContribution,
    /// The investor has claimed already.
    AlreadyClaimed,
    /// Maturity changed outside the open state.
    MaturityNotOpen,
    /// The new admin is the current admin.
    SameAdmin,
}

} // verus!
