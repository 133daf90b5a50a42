//! What each changing call does, stated over its arguments and the escrow's fields: exactly
//! when it is accepted, and the storage it leaves then (a refused call leaves it as it was).

use vstd::prelude::*;

use crate::model::{
    accepted, admin_refusal, claim_refusal, claimed_by, collateral_refusal, contribution_of,
    fund_refusal, hold_refusal, init_refusal, init_signers, maturity_refusal, migrate_refusal,
    settle_refusal, step, target_refusal, withdraw_refusal, Call, EscrowState,
};
use crate::types::{
    EscrowError, InvoiceEscrow, SmeCollateralCommitment, MAX_YIELD_BPS, SCHEMA_VERSION, STATUS_FUNDED,
    STATUS_OPEN, STATUS_SETTLED, STATUS_WITHDRAWN,
};

verus! {

/// A refused call changes nothing.
pub proof fn law_refused_call_changes_nothing(s: EscrowState, c: Call)
    requires
        !accepted(s, c),
    ensures
        step(s, c) == s,
{
}

/// `migrate` is never accepted: no migration path exists.
pub proof fn law_migrate_never_accepted(s: EscrowState, from_version: u32)
    ensures
        !accepted(s, Call::Migrate { from_version }),
        step(s, Call::Migrate { from_version }) == s,
{
}

/// `init` demands the admin's authorization, and the SME's when it is another address.
pub proof fn law_init_signers(admin: String, sme_address: String)
    ensures
        init_signers(admin, sme_address)[0] == admin,
        admin@ == sme_address@ ==> init_signers(admin, sme_address).len() == 1,
        admin@ != sme_address@ ==> init_signers(admin, sme_address).len() == 2
            && init_signers(admin, sme_address)[1] == sme_address,
{
}

/// `init` is accepted exactly for a positive amount, a yield of at most 10 000 basis points
/// and no existing escrow; it stores an open escrow whose target is the amount, with
/// nothing funded, and the current schema version.
pub proof fn law_init(
    s: EscrowState,
    admin: String,
    invoice_id: String,
    sme_address: String,
    amount: i128,
    yield_bps: i64,
    maturity: u64,
)
    ensures
        ({
            let c = Call::Init { admin, invoice_id, sme_address, amount, yield_bps, maturity };
            &&& accepted(s, c) <==> (amount > 0 && 0 <= yield_bps <= MAX_YIELD_BPS
                && s.escrow is None)
            &&& accepted(s, c) ==> step(s, c) == (EscrowState {
                escrow: Some(
                    InvoiceEscrow {
                        invoice_id,
                        admin,
                        sme_address,
                        amount,
                        funding_target: amount,
                        funded_amount: 0,
                        yield_bps,
                        maturity,
                        status: STATUS_OPEN,
                    },
                ),
                version: SCHEMA_VERSION,
                ..s
            })
        }),
{
}

/// `fund` is accepted exactly for a positive amount on an open escrow without a hold, when
/// neither the funded total nor the investor's contribution would overflow. It adds the
/// amount to both; the escrow becomes funded exactly when the new total reaches the target
/// stored before the call; every other field, the target included, stays as it was.
pub proof fn law_fund(s: EscrowState, investor: String, amount: i128)
    ensures
        ({
            let c = Call::Fund { investor, amount };
            let e = s.escrow->0;
            let total = e.funded_amount + amount;
            let contribution = contribution_of(s, investor@) + amount;
            &&& accepted(s, c) <==> (amount > 0 && s.escrow is Some && !s.legal_hold && e.status
                == STATUS_OPEN && total <= i128::MAX && contribution <= i128::MAX)
            &&& accepted(s, c) ==> step(s, c) == (EscrowState {
                escrow: Some(
                    InvoiceEscrow {
                        funded_amount: total as i128,
                        status: if total >= e.funding_target {
                            STATUS_FUNDED
                        } else {
                            STATUS_OPEN
                        },
                        ..e
                    },
                ),
                contributions: s.contributions.insert(investor@, contribution as i128),
                ..s
            })
            &&& accepted(s, c) ==> step(s, c).escrow->0.funding_target == e.funding_target
            &&& accepted(s, c) ==> (step(s, c).escrow->0.status == STATUS_FUNDED <==> total
                >= e.funding_target)
        }),
{
}

/// `settle` is accepted exactly on a funded escrow without a hold once maturity is reached
/// (`now >= maturity`, any time when the maturity is 0); it marks the escrow settled and
/// changes nothing else.
pub proof fn law_settle(s: EscrowState, now: u64)
    ensures
        ({
            let c = Call::Settle { now };
            let e = s.escrow->0;
            &&& accepted(s, c) <==> (!s.legal_hold && s.escrow is Some && e.status == STATUS_FUNDED
                && (e.maturity == 0 || now >= e.maturity))
            &&& accepted(s, c) ==> step(s, c) == (EscrowState {
                escrow: Some(InvoiceEscrow { status: STATUS_SETTLED, ..e }),
                ..s
            })
        }),
{
}

/// `withdraw` is accepted exactly on a funded escrow without a hold, whatever the funded
/// total; it marks the escrow withdrawn and changes nothing else.
pub proof fn law_withdraw(s: EscrowState)
    ensures
        ({
            let c = Call::Withdraw;
            let e = s.escrow->0;
            &&& accepted(s, c) <==> (!s.legal_hold && s.escrow is Some && e.status
                == STATUS_FUNDED)
            &&& accepted(s, c) ==> step(s, c) == (EscrowState {
                escrow: Some(InvoiceEscrow { status: STATUS_WITHDRAWN, ..e }),
                ..s
            })
        }),
{
}

/// `claim_investor_payout` is accepted exactly on a settled escrow without a hold, for an
/// investor with a non-zero contribution of any size who has not claimed yet; it marks that
/// investor claimed and changes nothing else.
pub proof fn law_claim(s: EscrowState, investor: String)
    ensures
        ({
            let c = Call::Claim { investor };
            &&& accepted(s, c) <==> (!s.legal_hold && s.escrow is Some && s.escrow->0.status
                == STATUS_SETTLED && contribution_of(s, investor@) != 0 && !claimed_by(
                s,
                investor@,
            ))
            &&& accepted(s, c) ==> step(s, c) == (EscrowState {
                claimed: s.claimed.insert(investor@, true),
                ..s
            })
            &&& accepted(s, c) ==> claimed_by(step(s, c), investor@)
        }),
{
}

/// `record_sme_collateral_commitment` is accepted exactly for a positive amount on an
/// existing escrow; it stores the pledge with the given asset, amount and time and changes
/// nothing else.
pub proof fn law_record_collateral(s: EscrowState, asset: String, amount: i128, now: u64)
    ensures
        ({
            let c = Call::RecordCollateral { asset, amount, now };
            &&& accepted(s, c) <==> (amount > 0 && s.escrow is Some)
            &&& accepted(s, c) ==> step(s, c) == (EscrowState {
                collateral: Some(SmeCollateralCommitment { asset, amount, recorded_at: now }),
                ..s
            })
        }),
{
}

/// Setting the legal hold is accepted exactly on an existing escrow; it stores the given
/// flag and changes nothing else.
pub proof fn law_set_legal_hold(s: EscrowState, active: bool)
    ensures
        ({
            let c = Call::SetLegalHold { active };
            &&& accepted(s, c) <==> s.escrow is Some
            &&& accepted(s, c) ==> step(s, c) == (EscrowState { legal_hold: active, ..s })
        }),
{
}

/// `update_funding_target` is accepted exactly for a positive target, no lower than the
/// funded total, on an open escrow; it stores the new target and changes nothing else.
pub proof fn law_update_funding_target(s: EscrowState, new_target: i128)
    ensures
        ({
            let c = Call::UpdateFundingTarget { new_target };
            let e = s.escrow->0;
            &&& accepted(s, c) <==> (s.escrow is Some && new_target > 0 && e.status
                == STATUS_OPEN && new_target >= e.funded_amount)
            &&& accepted(s, c) ==> step(s, c) == (EscrowState {
                escrow: Some(InvoiceEscrow { funding_target: new_target, ..e }),
                ..s
            })
        }),
{
}

/// `update_maturity` is accepted exactly on an open escrow; it stores the given maturity,
/// earlier or later than before, and changes nothing else.
pub proof fn law_update_maturity(s: EscrowState, new_maturity: u64)
    ensures
        ({
            let c = Call::UpdateMaturity { new_maturity };
            let e = s.escrow->0;
            &&& accepted(s, c) <==> (s.escrow is Some && e.status == STATUS_OPEN)
            &&& accepted(s, c) ==> step(s, c) == (EscrowState {
                escrow: Some(InvoiceEscrow { maturity: new_maturity, ..e }),
                ..s
            })
            &&& accepted(s, c) ==> step(s, c).escrow->0.maturity == new_maturity
        }),
{
}

/// `transfer_admin` is accepted exactly on an existing escrow when the new admin differs
/// from the current one; it stores the new admin and changes nothing else.
pub proof fn law_transfer_admin(s: EscrowState, new_admin: String)
    ensures
        ({
            let c = Call::TransferAdmin { new_admin };
            let e = s.escrow->0;
            &&& accepted(s, c) <==> (s.escrow is Some && e.admin@ != new_admin@)
            &&& accepted(s, c) ==> step(s, c) == (EscrowState {
                escrow: Some(InvoiceEscrow { admin: new_admin, ..e }),
                ..s
            })
        }),
{
}

/// Which refusal `init` gives: a non-positive amount first, then a yield out of range, then
/// an existing escrow.
pub proof fn law_init_refusals(s: EscrowState, amount: i128, yield_bps: i64)
    ensures
        amount <= 0 ==> init_refusal(s, amount, yield_bps) == Some(EscrowError::AmountNotPositive),
        amount > 0 && (yield_bps < 0 || yield_bps > MAX_YIELD_BPS) ==> init_refusal(
            s,
            amount,
            yield_bps,
        ) == Some(EscrowError::YieldOutOfRange),
        amount > 0 && 0 <= yield_bps <= MAX_YIELD_BPS && s.escrow is Some ==> init_refusal(
            s,
            amount,
            yield_bps,
        ) == Some(EscrowError::AlreadyInitialized),
{
}

/// Which refusal `fund` gives, in order: non-positive amount, no escrow, the hold, an
/// escrow that is not open, an overflowing total, an overflowing contribution.
pub proof fn law_fund_refusals(s: EscrowState, investor: Seq<char>, amount: i128)
    ensures
        ({
            let r = fund_refusal(s, investor, amount);
            let e = s.escrow->0;
            &&& amount <= 0 ==> r == Some(EscrowError::FundingNotPositive)
            &&& amount > 0 && s.escrow is None ==> r == Some(EscrowError::NotInitialized)
            &&& amount > 0 && s.escrow is Some && s.legal_hold ==> r == Some(
                EscrowError::HoldBlocksFunding,
            )
            &&& amount > 0 && s.escrow is Some && !s.legal_hold && e.status != STATUS_OPEN ==> r
                == Some(EscrowError::NotOpenForFunding)
            &&& amount > 0 && s.escrow is Some && !s.legal_hold && e.status == STATUS_OPEN
                && e.funded_amount + amount > i128::MAX ==> r == Some(
                EscrowError::FundedAmountOverflow,
            )
            &&& amount > 0 && s.escrow is Some && !s.legal_hold && e.status == STATUS_OPEN
                && e.funded_amount + amount <= i128::MAX && contribution_of(s, investor) + amount
                > i128::MAX ==> r == Some(EscrowError::ContributionOverflow)
        }),
{
}

/// Which refusal `settle` gives, in order: the hold, no escrow, not funded, not matured.
pub proof fn law_settle_refusals(s: EscrowState, now: u64)
    ensures
        ({
            let r = settle_refusal(s, now);
            let e = s.escrow->0;
            &&& s.legal_hold ==> r == Some(EscrowError::HoldBlocksSettlement)
            &&& !s.legal_hold && s.escrow is None ==> r == Some(EscrowError::NotInitialized)
            &&& !s.legal_hold && s.escrow is Some && e.status != STATUS_FUNDED ==> r == Some(
                EscrowError::NotFundedForSettlement,
            )
            &&& !s.legal_hold && s.escrow is Some && e.status == STATUS_FUNDED && e.maturity > 0
                && now < e.maturity ==> r == Some(EscrowError::NotMatured)
        }),
{
}

/// Which refusal `withdraw` gives, in order: the hold, no escrow, not funded.
pub proof fn law_withdraw_refusals(s: EscrowState)
    ensures
        ({
            let r = withdraw_refusal(s);
            &&& s.legal_hold ==> r == Some(EscrowError::HoldBlocksWithdrawal)
            &&& !s.legal_hold && s.escrow is None ==> r == Some(EscrowError::NotInitialized)
            &&& !s.legal_hold && s.escrow is Some && s.escrow->0.status != STATUS_FUNDED ==> r
                == Some(EscrowError::NotFundedForWithdrawal)
        }),
{
}

/// Which refusal a claim gives, in order: the hold, no escrow, not settled, no
/// contribution, already claimed.
pub proof fn law_claim_refusals(s: EscrowState, investor: Seq<char>)
    ensures
        ({
            let r = claim_refusal(s, investor);
            let settled = s.escrow is Some && s.escrow->0.status == STATUS_SETTLED;
            &&& s.legal_hold ==> r == Some(EscrowError::HoldBlocksClaim)
            &&& !s.legal_hold && s.escrow is None ==> r == Some(EscrowError::NotInitialized)
            &&& !s.legal_hold && s.escrow is Some && !settled ==> r == Some(
                EscrowError::NotSettled,
            )
            &&& !s.legal_hold && settled && contribution_of(s, investor) == 0 ==> r == Some(
                EscrowError::NoContribution,
            )
            &&& !s.legal_hold && settled && contribution_of(s, investor) != 0 && claimed_by(
                s,
                investor,
            ) ==> r == Some(EscrowError::AlreadyClaimed)
        }),
{
}

/// Which refusal the admin and SME calls give when refused.
pub proof fn law_governance_refusals(
    s: EscrowState,
    amount: i128,
    new_target: i128,
    new_admin: Seq<char>,
)
    ensures
        amount <= 0 ==> collateral_refusal(s, amount) == Some(EscrowError::CollateralNotPositive),
        amount > 0 && s.escrow is None ==> collateral_refusal(s, amount) == Some(
            EscrowError::NotInitialized,
        ),
        s.escrow is None ==> hold_refusal(s) == Some(EscrowError::NotInitialized),
        s.escrow is None ==> target_refusal(s, new_target) == Some(EscrowError::NotInitialized),
        s.escrow is Some && new_target <= 0 ==> target_refusal(s, new_target) == Some(
            EscrowError::TargetNotPositive,
        ),
        s.escrow is Some && new_target > 0 && s.escrow->0.status != STATUS_OPEN ==> target_refusal(
            s,
            new_target,
        ) == Some(EscrowError::TargetNotOpen),
        s.escrow is Some && new_target > 0 && s.escrow->0.status == STATUS_OPEN && new_target
            < s.escrow->0.funded_amount ==> target_refusal(s, new_target) == Some(
            EscrowError::TargetBelowFunded,
        ),
        s.escrow is None ==> maturity_refusal(s) == Some(EscrowError::NotInitialized),
        s.escrow is Some && s.escrow->0.status != STATUS_OPEN ==> maturity_refusal(s) == Some(
            EscrowError::MaturityNotOpen,
        ),
        s.escrow is None ==> admin_refusal(s, new_admin) == Some(EscrowError::NotInitialized),
        s.escrow is Some && s.escrow->0.admin@ == new_admin ==> admin_refusal(s, new_admin) == Some(
            EscrowError::SameAdmin,
        ),
{
}

/// Which refusal `migrate` gives: a version other than the stored one first, then one at or
/// past the current schema, else the missing path from that version.
pub proof fn law_migrate_refusals(s: EscrowState, from_version: u32)
    ensures
        s.version != from_version ==> migrate_refusal(s, from_version)
            == EscrowError::VersionMismatch,
        s.version == from_version && from_version >= SCHEMA_VERSION ==> migrate_refusal(
            s,
            from_version,
        ) == EscrowError::AlreadyCurrentVersion,
        s.version == from_version && from_version < SCHEMA_VERSION ==> migrate_refusal(
            s,
            from_version,
        ) == EscrowError::NoMigrationPath(from_version),
{
}

} // verus!
