//! Properties of the escrow that span calls, stated over the storage model the calls'
//! contracts use.

use vstd::prelude::*;

use crate::ledger::{lemma_map_total_insert, lemma_map_value_le_total, map_total};
use crate::model::{
    accepted, accepted_funding, claim_accepted_in, claim_post, claim_refusal, claimed_by,
    collateral_post, collateral_refusal, contribution_of, fund_post, fund_refusal, hold_post,
    init_post, init_refusal, last_pledge, run, settle_refusal, step, with_status,
    withdraw_refusal, Call, EscrowState,
};
use crate::types::{
    EscrowError, InvoiceEscrow, SmeCollateralCommitment, STATUS_FUNDED, STATUS_SETTLED,
};

verus! {

/// An accepted `fund` adds its amount to the investor's contribution and to the escrow's
/// funded total, and leaves every other investor's contribution as it was.
pub proof fn law_funding_accumulates(
    s: EscrowState,
    investor: Seq<char>,
    other: Seq<char>,
    amount: i128,
)
    requires
        fund_refusal(s, investor, amount) is None,
    ensures
        contribution_of(fund_post(s, investor, amount), investor) == contribution_of(s, investor)
            + amount,
        fund_post(s, investor, amount).escrow->0.funded_amount == s.escrow->0.funded_amount
            + amount,
        other != investor ==> contribution_of(fund_post(s, investor, amount), other)
            == contribution_of(s, other),
{
}

/// Repeated funding by the same investor adds up: the ledger entry is additive, not
/// overwritten.
pub proof fn law_repeated_funding_adds_up(s: EscrowState, investor: Seq<char>, a: i128, b: i128)
    requires
        fund_refusal(s, investor, a) is None,
        fund_refusal(fund_post(s, investor, a), investor, b) is None,
    ensures
        contribution_of(fund_post(fund_post(s, investor, a), investor, b), investor)
            == contribution_of(s, investor) + a + b,
{
}

/// After an accepted `fund` the escrow is funded exactly when the funded total has reached
/// the funding target; otherwise it stays open.
pub proof fn law_funded_when_target_reached(s: EscrowState, investor: Seq<char>, amount: i128)
    requires
        fund_refusal(s, investor, amount) is None,
    ensures
        ({
            let e = fund_post(s, investor, amount).escrow->0;
            &&& e.status == STATUS_FUNDED <==> e.funded_amount >= e.funding_target
            &&& e.status != STATUS_FUNDED ==> e.status == s.escrow->0.status
        }),
{
}

/// While the legal hold is active, new funding, settlement, the SME's withdrawal and
/// investor claims are all refused; on an existing escrow the refusal names the hold
/// (for funding, once the amount is positive).
pub proof fn law_hold_blocks_payouts(
    s: EscrowState,
    investor: Seq<char>,
    amount: i128,
    now: u64,
)
    requires
        s.legal_hold,
    ensures
        fund_refusal(s, investor, amount) is Some,
        settle_refusal(s, now) == Some(EscrowError::HoldBlocksSettlement),
        withdraw_refusal(s) == Some(EscrowError::HoldBlocksWithdrawal),
        claim_refusal(s, investor) == Some(EscrowError::HoldBlocksClaim),
        s.escrow is Some && amount > 0 ==> fund_refusal(s, investor, amount) == Some(
            EscrowError::HoldBlocksFunding,
        ),
{
}

/// The hold only gates: setting it and clearing it again gives back the storage as it was
/// before the hold was set.
pub proof fn law_hold_round_trip(s: EscrowState)
    requires
        !s.legal_hold,
    ensures
        hold_post(hold_post(s, true), false) == s,
{
}

/// A collateral pledge is a record only: recording one changes nothing but the pledge, and
/// no call that moves funds or status is refused, or accepted, differently because of it.
pub proof fn law_collateral_is_record_only(
    s: EscrowState,
    c: SmeCollateralCommitment,
    investor: Seq<char>,
    amount: i128,
    now: u64,
)
    requires
        collateral_refusal(s, c.amount) is None,
    ensures
        ({
            let p = collateral_post(s, c);
            &&& p.escrow == s.escrow
            &&& p.legal_hold == s.legal_hold
            &&& p.contributions == s.contributions
            &&& p.claimed == s.claimed
            &&& fund_refusal(p, investor, amount) == fund_refusal(s, investor, amount)
            &&& settle_refusal(p, now) == settle_refusal(s, now)
            &&& withdraw_refusal(p) == withdraw_refusal(s)
            &&& claim_refusal(p, investor) == claim_refusal(s, investor)
        }),
{
}

/// Settlement moves a funded escrow, and only a funded one, to settled, and only once
/// maturity is reached (a maturity of 0 means none).
pub proof fn law_settle_only_from_funded_after_maturity(s: EscrowState, now: u64)
    requires
        settle_refusal(s, now) is None,
    ensures
        !s.legal_hold,
        s.escrow->0.status == STATUS_FUNDED,
        s.escrow->0.maturity == 0 || now >= s.escrow->0.maturity,
        with_status(s, STATUS_SETTLED).escrow->0.status == STATUS_SETTLED,
{
}

/// Re-initialization is blocked: once an escrow exists, `init` is refused whatever it is
/// given.
pub proof fn law_no_reinitialization(
    s: EscrowState,
    e: InvoiceEscrow,
    amount: i128,
    yield_bps: i64,
)
    ensures
        init_refusal(init_post(s, e), amount, yield_bps) is Some,
{
}

/// Each investor claims at most once: after an accepted claim, the same investor's next
/// claim is refused as already claimed.
pub proof fn law_claim_once(s: EscrowState, investor: Seq<char>)
    requires
        claim_refusal(s, investor) is None,
    ensures
        claim_refusal(claim_post(s, investor), investor) == Some(EscrowError::AlreadyClaimed),
{
}

/// In storage that only this contract's calls have written, no investor's contribution
/// exceeds the funded total, and the contributions sum to it.
pub proof fn law_contributions_within_funded(s: EscrowState, investor: Seq<char>)
    requires
        s.valid(),
        s.escrow is Some,
    ensures
        map_total(s.contributions) == s.escrow->0.funded_amount,
        0 <= contribution_of(s, investor) <= s.escrow->0.funded_amount,
{
    if s.contributions.contains_key(investor) {
        lemma_map_value_le_total(s.contributions, investor);
    }
}

/// Every call, accepted or refused, keeps the storage consistent.
pub proof fn law_step_keeps_valid(s: EscrowState, c: Call)
    requires
        s.valid(),
    ensures
        step(s, c).valid(),
{
    if accepted(s, c) {
        match c {
            Call::Fund { investor, amount } => {
                lemma_map_total_insert(
                    s.contributions,
                    investor@,
                    (contribution_of(s, investor@) + amount) as i128,
                );
                let p = step(s, c);
                assert forall|k: Seq<char>| #[trigger] p.claimed.contains_key(k) implies p.claimed[k]
                    && p.escrow->0.status == STATUS_SETTLED && p.contributions.contains_key(k) by {
                    assert(s.claimed.contains_key(k));
                }
            },
            _ => {},
        }
    }
}

/// Any sequence of calls keeps the storage consistent; in particular, starting from a
/// fresh instance, the recorded contributions always sum to the funded total.
pub proof fn law_run_keeps_valid(s: EscrowState, calls: Seq<Call>)
    requires
        s.valid(),
    ensures
        run(s, calls).valid(),
        run(s, calls).escrow matches Some(e) ==> map_total(run(s, calls).contributions)
            == e.funded_amount,
    decreases calls.len(),
{
    if calls.len() > 0 {
        law_run_keeps_valid(s, calls.drop_last());
        law_step_keeps_valid(run(s, calls.drop_last()), calls.last());
    }
}

/// An investor's contribution is what it was plus the amounts of that investor's accepted
/// `fund` calls (0 for an investor who never funded); no other call changes it.
pub proof fn law_contribution_is_accepted_funding(
    s: EscrowState,
    calls: Seq<Call>,
    investor: Seq<char>,
)
    ensures
        contribution_of(run(s, calls), investor) == contribution_of(s, investor)
            + accepted_funding(s, calls, investor),
    decreases calls.len(),
{
    if calls.len() > 0 {
        law_contribution_is_accepted_funding(s, calls.drop_last(), investor);
    }
}

/// An investor is marked claimed exactly when it was before or one of its claims was
/// accepted.
pub proof fn law_claimed_iff_claim_accepted(s: EscrowState, calls: Seq<Call>, investor: Seq<char>)
    ensures
        claimed_by(run(s, calls), investor) == (claimed_by(s, investor) || claim_accepted_in(
            s,
            calls,
            investor,
        )),
    decreases calls.len(),
{
    if calls.len() > 0 {
        law_claimed_iff_claim_accepted(s, calls.drop_last(), investor);
    }
}

/// The stored pledge is the one of the last accepted collateral record, or the earlier one
/// (none for a fresh instance) when no record was accepted.
pub proof fn law_pledge_is_last_recorded(s: EscrowState, calls: Seq<Call>)
    ensures
        run(s, calls).collateral == (match last_pledge(s, calls) {
            Some(c) => Some(c),
            None => s.collateral,
        }),
    decreases calls.len(),
{
    if calls.len() > 0 {
        law_pledge_is_last_recorded(s, calls.drop_last());
    }
}

} // verus!
