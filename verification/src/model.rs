//! The escrow's storage as a mathematical value, what every call keeps, and for each
//! changing call the refusal it gives (in the order it checks) and the storage it leaves.

use vstd::prelude::*;

use crate::ledger::map_total;
use crate::types::{
    EscrowError, InvoiceEscrow, SmeCollateralCommitment, MAX_YIELD_BPS, SCHEMA_VERSION,
    STATUS_FUNDED, STATUS_OPEN, STATUS_SETTLED, STATUS_WITHDRAWN,
};

verus! {

/// The escrow's storage, as values.
pub struct EscrowState {
    pub escrow: Option<InvoiceEscrow>,
    /// Stored schema version (0 when unset).
    pub version: u32,
    /// Compliance hold (false when unset).
    pub legal_hold: bool,
    pub collateral: Option<SmeCollateralCommitment>,
    /// Contributed principal per investor (absent means 0).
    pub contributions: Map<Seq<char>, i128>,
    /// Claim markers per investor (absent means not claimed).
    pub claimed: Map<Seq<char>, bool>,
}

/// The contribution recorded for `investor` (0 when none).
pub open spec fn contribution_of(s: EscrowState, investor: Seq<char>) -> int {
    if s.contributions.contains_key(investor) {
        s.contributions[investor] as int
    } else {
        0
    }
}

/// Whether `investor` has claimed (false when unset).
pub open spec fn claimed_by(s: EscrowState, investor: Seq<char>) -> bool {
    s.claimed.contains_key(investor) && s.claimed[investor]
}

/// The status changes the lifecycle allows: open to funded, funded to settled or withdrawn.
pub open spec fn status_step(from: u32, to: u32) -> bool {
    ||| from == to
    ||| from == STATUS_OPEN && to == STATUS_FUNDED
    ||| from == STATUS_FUNDED && to == STATUS_SETTLED
    ||| from == STATUS_FUNDED && to == STATUS_WITHDRAWN
}

impl EscrowState {
    /// The storage of an escrow that only this contract's calls have written: among others,
    /// the recorded contributions sum to the funded total, and only investors with a
    /// contribution have claimed.
    pub open spec fn valid(self) -> bool {
        match self.escrow {
            None => {
                &&& self.version == 0
                &&& !self.legal_hold
                &&& self.collateral is None
                &&& self.contributions == Map::<Seq<char>, i128>::empty()
                &&& self.claimed == Map::<Seq<char>, bool>::empty()
            },
            Some(e) => {
                &&& e.amount > 0
                &&& 0 <= e.yield_bps <= MAX_YIELD_BPS
                &&& e.funding_target > 0
                &&& e.funded_amount >= 0
                &&& e.status <= STATUS_WITHDRAWN
                &&& e.status == STATUS_OPEN ==> e.funded_amount <= e.funding_target
                &&& e.status != STATUS_OPEN ==> e.funded_amount >= e.funding_target
                &&& self.version == SCHEMA_VERSION
                &&& self.contributions.dom().finite()
                &&& map_total(self.contributions) == e.funded_amount
                &&& forall|k: Seq<char>|
                    #[trigger] self.contributions.contains_key(k) ==> self.contributions[k] > 0
                &&& forall|k: Seq<char>| #[trigger]
                    self.claimed.contains_key(k) ==> self.claimed[k] && e.status == STATUS_SETTLED
                        && self.contributions.contains_key(k)
                &&& self.collateral matches Some(c) ==> c.amount > 0
            },
        }
    }

    /// What no call undoes: once created, the escrow keeps its invoice, SME, amount and
    /// yield; its status only moves forward; the funded total and each contribution never
    /// go back; a claim once marked stays marked.
    pub open spec fn progresses_to(self, post: EscrowState) -> bool {
        &&& self.escrow matches Some(e) ==> {
            &&& post.escrow matches Some(f)
            &&& f.invoice_id == e.invoice_id
            &&& f.sme_address == e.sme_address
            &&& f.amount == e.amount
            &&& f.yield_bps == e.yield_bps
            &&& status_step(e.status, f.status)
            &&& f.funded_amount >= e.funded_amount
        }
        &&& forall|k: Seq<char>| #[trigger]
            self.contributions.contains_key(k) ==> post.contributions.contains_key(k)
                && post.contributions[k] >= self.contributions[k]
        &&& forall|k: Seq<char>| #[trigger] claimed_by(self, k) ==> claimed_by(post, k)
    }
}

/// Why `init` refuses, in the order it checks (after the admin's and the SME's
/// authorization).
pub open spec fn init_refusal(s: EscrowState, amount: i128, yield_bps: i64) -> Option<EscrowError> {
    if amount <= 0 {
        Some(EscrowError::AmountNotPositive)
    } else if yield_bps < 0 || yield_bps > MAX_YIELD_BPS {
        Some(EscrowError::YieldOutOfRange)
    } else if s.escrow is Some {
        Some(EscrowError::AlreadyInitialized)
    } else {
        None
    }
}

/// Why `fund` refuses, in the order it checks (after the investor's authorization).
pub open spec fn fund_refusal(s: EscrowState, investor: Seq<char>, amount: i128) -> Option<
    EscrowError,
> {
    if amount <= 0 {
        Some(EscrowError::FundingNotPositive)
    } else if s.escrow is None {
        Some(EscrowError::NotInitialized)
    } else if s.legal_hold {
        Some(EscrowError::HoldBlocksFunding)
    } else if s.escrow->0.status != STATUS_OPEN {
        Some(EscrowError::NotOpenForFunding)
    } else if s.escrow->0.funded_amount + amount > i128::MAX {
        Some(EscrowError::FundedAmountOverflow)
    } else if contribution_of(s, investor) + amount > i128::MAX {
        Some(EscrowError::ContributionOverflow)
    } else {
        None
    }
}

/// Why `settle` refuses at time `now`.
pub open spec fn settle_refusal(s: EscrowState, now: u64) -> Option<EscrowError> {
    if s.legal_hold {
        Some(EscrowError::HoldBlocksSettlement)
    } else if s.escrow is None {
        Some(EscrowError::NotInitialized)
    } else if s.escrow->0.status != STATUS_FUNDED {
        Some(EscrowError::NotFundedForSettlement)
    } else if s.escrow->0.maturity > 0 && now < s.escrow->0.maturity {
        Some(EscrowError::NotMatured)
    } else {
        None
    }
}

/// Why `claim_investor_payout` refuses.
pub open spec fn claim_refusal(s: EscrowState, investor: Seq<char>) -> Option<EscrowError> {
    if s.legal_hold {
        Some(EscrowError::HoldBlocksClaim)
    } else if s.escrow is None {
        Some(EscrowError::NotInitialized)
    } else if s.escrow->0.status != STATUS_SETTLED {
        Some(EscrowError::NotSettled)
    } else if contribution_of(s, investor) == 0 {
        Some(EscrowError::NoContribution)
    } else if claimed_by(s, investor) {
        Some(EscrowError::AlreadyClaimed)
    } else {
        None
    }
}

/// Why `update_funding_target` refuses (after the admin's authorization, bar the first).
pub open spec fn target_refusal(s: EscrowState, new_target: i128) -> Option<EscrowError> {
    if s.escrow is None {
        Some(EscrowError::NotInitialized)
    } else if new_target <= 0 {
        Some(EscrowError::TargetNotPositive)
    } else if s.escrow->0.status != STATUS_OPEN {
        Some(EscrowError::TargetNotOpen)
    } else if new_target < s.escrow->0.funded_amount {
        Some(EscrowError::TargetBelowFunded)
    } else {
        None
    }
}

/// What `migrate` answers: every call is refused, since no migration path exists.
pub open spec fn migrate_refusal(s: EscrowState, from_version: u32) -> EscrowError {
    if s.version != from_version {
        EscrowError::VersionMismatch
    } else if from_version >= SCHEMA_VERSION {
        EscrowError::AlreadyCurrentVersion
    } else {
        EscrowError::NoMigrationPath(from_version)
    }
}

/// Why `withdraw` refuses.
pub open spec fn withdraw_refusal(s: EscrowState) -> Option<EscrowError> {
    if s.legal_hold {
        Some(EscrowError::HoldBlocksWithdrawal)
    } else if s.escrow is None {
        Some(EscrowError::NotInitialized)
    } else if s.escrow->0.status != STATUS_FUNDED {
        Some(EscrowError::NotFundedForWithdrawal)
    } else {
        None
    }
}

/// Why `record_sme_collateral_commitment` refuses.
pub open spec fn collateral_refusal(s: EscrowState, amount: i128) -> Option<EscrowError> {
    if amount <= 0 {
        Some(EscrowError::CollateralNotPositive)
    } else if s.escrow is None {
        Some(EscrowError::NotInitialized)
    } else {
        None
    }
}

/// Why `set_legal_hold` and `clear_legal_hold` refuse.
pub open spec fn hold_refusal(s: EscrowState) -> Option<EscrowError> {
    if s.escrow is None {
        Some(EscrowError::NotInitialized)
    } else {
        None
    }
}

/// Why `update_maturity` refuses.
pub open spec fn maturity_refusal(s: EscrowState) -> Option<EscrowError> {
    if s.escrow is None {
        Some(EscrowError::NotInitialized)
    } else if s.escrow->0.status != STATUS_OPEN {
        Some(EscrowError::MaturityNotOpen)
    } else {
        None
    }
}

/// Why `transfer_admin` refuses.
pub open spec fn admin_refusal(s: EscrowState, new_admin: Seq<char>) -> Option<EscrowError> {
    if s.escrow is None {
        Some(EscrowError::NotInitialized)
    } else if s.escrow->0.admin@ == new_admin {
        Some(EscrowError::SameAdmin)
    } else {
        None
    }
}

/// The escrow `init` creates: target equal to the amount, nothing funded, open.
pub open spec fn new_escrow(
    admin: String,
    invoice_id: String,
    sme_address: String,
    amount: i128,
    yield_bps: i64,
    maturity: u64,
) -> InvoiceEscrow {
    InvoiceEscrow {
        invoice_id,
        admin,
        sme_address,
        amount,
        funding_target: amount,
        funded_amount: 0,
        yield_bps,
        maturity,
        status: STATUS_OPEN,
    }
}

/// The storage after `init` created `e`.
pub open spec fn init_post(s: EscrowState, e: InvoiceEscrow) -> EscrowState {
    EscrowState { escrow: Some(e), version: SCHEMA_VERSION, ..s }
}

/// The escrow after `amount` more funding: funded once the total reaches the target.
pub open spec fn funded_escrow(e: InvoiceEscrow, amount: i128) -> InvoiceEscrow {
    let funded = (e.funded_amount + amount) as i128;
    InvoiceEscrow {
        funded_amount: funded,
        status: if funded >= e.funding_target {
            STATUS_FUNDED
        } else {
            STATUS_OPEN
        },
        ..e
    }
}

/// The storage after `investor` funded `amount`: the escrow's total and the investor's
/// contribution both grow by `amount`.
pub open spec fn fund_post(s: EscrowState, investor: Seq<char>, amount: i128) -> EscrowState {
    EscrowState {
        escrow: Some(funded_escrow(s.escrow->0, amount)),
        contributions: s.contributions.insert(
            investor,
            (contribution_of(s, investor) + amount) as i128,
        ),
        ..s
    }
}

/// The storage with the escrow's status set to `status`.
pub open spec fn with_status(s: EscrowState, status: u32) -> EscrowState {
    EscrowState { escrow: Some(InvoiceEscrow { status, ..s.escrow->0 }), ..s }
}

/// The storage after `investor` claimed.
pub open spec fn claim_post(s: EscrowState, investor: Seq<char>) -> EscrowState {
    EscrowState { claimed: s.claimed.insert(investor, true), ..s }
}

/// The storage after the collateral pledge `c` was recorded.
pub open spec fn collateral_post(s: EscrowState, c: SmeCollateralCommitment) -> EscrowState {
    EscrowState { collateral: Some(c), ..s }
}

/// The storage after the legal hold was set to `active`.
pub open spec fn hold_post(s: EscrowState, active: bool) -> EscrowState {
    EscrowState { legal_hold: active, ..s }
}

/// The storage after the funding target became `new_target`.
pub open spec fn target_post(s: EscrowState, new_target: i128) -> EscrowState {
    EscrowState { escrow: Some(InvoiceEscrow { funding_target: new_target, ..s.escrow->0 }), ..s }
}

/// The storage after the maturity became `new_maturity`.
pub open spec fn maturity_post(s: EscrowState, new_maturity: u64) -> EscrowState {
    EscrowState { escrow: Some(InvoiceEscrow { maturity: new_maturity, ..s.escrow->0 }), ..s }
}

/// The storage after the admin role passed to `new_admin`.
pub open spec fn admin_post(s: EscrowState, new_admin: String) -> EscrowState {
    EscrowState { escrow: Some(InvoiceEscrow { admin: new_admin, ..s.escrow->0 }), ..s }
}

/// The addresses `init` demands authorization from: the admin and the SME, once each.
pub open spec fn init_signers(admin: String, sme_address: String) -> Seq<String> {
    if admin@ == sme_address@ {
        seq![admin]
    } else {
        seq![admin, sme_address]
    }
}

/// A changing call on the escrow, with its arguments (the ledger time where it reads one).
pub enum Call {
    Init {
        admin: String,
        invoice_id: String,
        sme_address: String,
        amount: i128,
        yield_bps: i64,
        maturity: u64,
    },
    Fund { investor: String, amount: i128 },
    Settle { now: u64 },
    Withdraw,
    Claim { investor: String },
    RecordCollateral { asset: String, amount: i128, now: u64 },
    SetLegalHold { active: bool },
    UpdateFundingTarget { new_target: i128 },
    UpdateMaturity { new_maturity: u64 },
    TransferAdmin { new_admin: String },
    Migrate { from_version: u32 },
}

/// Whether the call is accepted on storage `s`.
pub open spec fn accepted(s: EscrowState, c: Call) -> bool {
    match c {
        Call::Init { amount, yield_bps, .. } => init_refusal(s, amount, yield_bps) is None,
        Call::Fund { investor, amount } => fund_refusal(s, investor@, amount) is None,
        Call::Settle { now } => settle_refusal(s, now) is None,
        Call::Withdraw => withdraw_refusal(s) is None,
        Call::Claim { investor } => claim_refusal(s, investor@) is None,
        Call::RecordCollateral { amount, .. } => collateral_refusal(s, amount) is None,
        Call::SetLegalHold { .. } => hold_refusal(s) is None,
        Call::UpdateFundingTarget { new_target } => target_refusal(s, new_target) is None,
        Call::UpdateMaturity { .. } => maturity_refusal(s) is None,
        Call::TransferAdmin { new_admin } => admin_refusal(s, new_admin@) is None,
        Call::Migrate { .. } => false,
    }
}

/// The storage after the call: unchanged when it is refused.
pub open spec fn step(s: EscrowState, c: Call) -> EscrowState {
    if !accepted(s, c) {
        s
    } else {
        match c {
            Call::Init { admin, invoice_id, sme_address, amount, yield_bps, maturity } => init_post(
                s,
                new_escrow(admin, invoice_id, sme_address, amount, yield_bps, maturity),
            ),
            Call::Fund { investor, amount } => fund_post(s, investor@, amount),
            Call::Settle { .. } => with_status(s, STATUS_SETTLED),
            Call::Withdraw => with_status(s, STATUS_WITHDRAWN),
            Call::Claim { investor } => claim_post(s, investor@),
            Call::RecordCollateral { asset, amount, now } => collateral_post(
                s,
                SmeCollateralCommitment { asset, amount, recorded_at: now },
            ),
            Call::SetLegalHold { active } => hold_post(s, active),
            Call::UpdateFundingTarget { new_target } => target_post(s, new_target),
            Call::UpdateMaturity { new_maturity } => maturity_post(s, new_maturity),
            Call::TransferAdmin { new_admin } => admin_post(s, new_admin),
            Call::Migrate { .. } => s,
        }
    }
}

/// The storage after the calls, in order.
pub open spec fn run(s: EscrowState, calls: Seq<Call>) -> EscrowState
    decreases calls.len(),
{
    if calls.len() == 0 {
        s
    } else {
        step(run(s, calls.drop_last()), calls.last())
    }
}

/// The amount that the accepted `fund` calls by `investor` among `calls` add up to.
pub open spec fn accepted_funding(s: EscrowState, calls: Seq<Call>, investor: Seq<char>) -> int
    decreases calls.len(),
{
    if calls.len() == 0 {
        0
    } else {
        let before = run(s, calls.drop_last());
        accepted_funding(s, calls.drop_last(), investor) + match calls.last() {
            Call::Fund { investor: i, amount } => if i@ == investor && accepted(before, calls.last()) {
                amount as int
            } else {
                0
            },
            _ => 0,
        }
    }
}

/// Whether a claim by `investor` is accepted among `calls`.
pub open spec fn claim_accepted_in(s: EscrowState, calls: Seq<Call>, investor: Seq<char>) -> bool
    decreases calls.len(),
{
    if calls.len() == 0 {
        false
    } else {
        claim_accepted_in(s, calls.drop_last(), investor) || match calls.last() {
            Call::Claim { investor: i } => i@ == investor && accepted(
                run(s, calls.drop_last()),
                calls.last(),
            ),
            _ => false,
        }
    }
}

/// The pledge of the last accepted collateral record among `calls`, if any.
pub open spec fn last_pledge(s: EscrowState, calls: Seq<Call>) -> Option<SmeCollateralCommitment>
    decreases calls.len(),
{
    if calls.len() == 0 {
        None
    } else {
        match calls.last() {
            Call::RecordCollateral { asset, amount, now } => if accepted(
                run(s, calls.drop_last()),
                calls.last(),
            ) {
                Some(SmeCollateralCommitment { asset, amount, recorded_at: now })
            } else {
                last_pledge(s, calls.drop_last())
            },
            _ => last_pledge(s, calls.drop_last()),
        }
    }
}

} // verus!
