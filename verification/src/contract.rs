//! The escrow contract: its storage and the calls that read and change it.
//!
//! Each changing call returns an [`Outcome`]: the addresses whose authorization the call
//! demands before it reaches its verdict (if it gets that far), and either the refusal
//! or the accepted [`Effect`] (the call's return value, the event it publishes and the
//! storage entries it writes). A refused call leaves the storage unchanged.

use vstd::prelude::*;

use crate::events::{
    AdminTransferredEvent, CollateralRecordedEvt, EscrowEvent, EscrowFunded, EscrowInitialized,
    EscrowSettled, FundingTargetUpdated, InvestorPayoutClaimed, LegalHoldChanged,
    MaturityUpdatedEvent, SmeWithdrew,
};
use crate::laws::law_step_keeps_valid;
use crate::ledger::{entries_map, lemma_map_value_le_total, Ledger};
use crate::model::{
    admin_post, admin_refusal, claim_post, claim_refusal, claimed_by, collateral_post,
    collateral_refusal, contribution_of, fund_post, fund_refusal, funded_escrow, hold_post,
    hold_refusal, init_post, init_refusal, init_signers, maturity_post, maturity_refusal, migrate_refusal,
    new_escrow, settle_refusal, step, target_post, target_refusal, with_status,
    withdraw_refusal, Call, EscrowState,
};
use crate::types::{
    DataKey, EscrowError, InvoiceEscrow, SmeCollateralCommitment, MAX_YIELD_BPS, SCHEMA_VERSION,
    STATUS_FUNDED, STATUS_OPEN, STATUS_SETTLED, STATUS_WITHDRAWN,
};

verus! {

/// What an accepted call returns, publishes and writes.
#[derive(Debug)]
pub struct Effect<T> {
    pub value: T,
    pub event: EscrowEvent,
    pub writes: Vec<DataKey>,
}

/// The result of a changing call.
#[derive(Debug)]
pub struct Outcome<T> {
    /// The addresses that must have authorized the call before its verdict, in the order
    /// they are demanded (empty when the call is refused before demanding any).
    pub signers: Vec<String>,
    pub result: Result<Effect<T>, EscrowError>,
}

fn refuse<T>(signers: Vec<String>, error: EscrowError) -> (out: Outcome<T>)
    ensures
        out.signers@ == signers@,
        out.result == Err::<Effect<T>, EscrowError>(error),
{
    Outcome { signers, result: Err(error) }
}

fn no_signers() -> (r: Vec<String>)
    ensures
        r@ == Seq::<String>::empty(),
{
    Vec::new()
}

fn one_signer(s: String) -> (r: Vec<String>)
    ensures
        r@ == seq![s],
{
    let mut r = Vec::new();
    r.push(s);
    r
}

fn one_write(k: DataKey) -> (r: Vec<DataKey>)
    ensures
        r@ == seq![k],
{
    let mut r = Vec::new();
    r.push(k);
    r
}

fn two_writes(k1: DataKey, k2: DataKey) -> (r: Vec<DataKey>)
    ensures
        r@ == seq![k1, k2],
{
    let mut r = Vec::new();
    r.push(k1);
    r.push(k2);
    r
}

/// One invoice escrow's storage.
pub struct LiquifactEscrow {
    escrow: Option<InvoiceEscrow>,
    version: u32,
    legal_hold: bool,
    collateral: Option<SmeCollateralCommitment>,
    contributions: Ledger<i128>,
    claimed: Ledger<bool>,
}

impl View for LiquifactEscrow {
    type V = EscrowState;

    closed spec fn view(&self) -> EscrowState {
        EscrowState {
            escrow: self.escrow,
            version: self.version,
            legal_hold: self.legal_hold,
            collateral: self.collateral,
            contributions: self.contributions@,
            claimed: self.claimed@,
        }
    }
}

impl LiquifactEscrow {
    /// A fresh contract instance: nothing stored.
    pub fn new() -> (r: Self)
        ensures
            r@.valid(),
            r@.escrow is None,
    {
        LiquifactEscrow {
            escrow: None,
            version: 0,
            legal_hold: false,
            collateral: None,
            contributions: Ledger::new(),
            claimed: Ledger::new(),
        }
    }

    /// Storage made of stored entries: the singletons, and per-investor contributions and
    /// claim markers (a later entry for an address overrides an earlier one).
    pub fn from_storage(
        escrow: Option<InvoiceEscrow>,
        version: u32,
        legal_hold: bool,
        collateral: Option<SmeCollateralCommitment>,
        contributions: Vec<(String, i128)>,
        claimed: Vec<(String, bool)>,
    ) -> (r: Self)
        ensures
            r@.escrow == escrow,
            r@.version == version,
            r@.legal_hold == legal_hold,
            r@.collateral == collateral,
            r@.contributions == entries_map(contributions@),
            r@.claimed == entries_map(claimed@),
    {
        let mut c: Ledger<i128> = Ledger::new();
        let n = contributions.len();
        let mut i: usize = 0;
        while i < n
            invariant
                n == contributions@.len(),
                i <= n,
                c@ == entries_map(contributions@.take(i as int)),
            decreases n - i,
        {
            let (k, v) = (contributions[i].0.clone(), contributions[i].1);
            proof {
                let s = contributions@;
                assert(s.take(i + 1).drop_last() =~= s.take(i as int));
                assert(s.take(i + 1).last() == s[i as int]);
            }
            c.set(k, v);
            i = i + 1;
        }
        proof {
            assert(contributions@.take(n as int) =~= contributions@);
        }
        let mut d: Ledger<bool> = Ledger::new();
        let m = claimed.len();
        let mut j: usize = 0;
        while j < m
            invariant
                m == claimed@.len(),
                j <= m,
                d@ == entries_map(claimed@.take(j as int)),
            decreases m - j,
        {
            let (k, v) = (claimed[j].0.clone(), claimed[j].1);
            proof {
                let s = claimed@;
                assert(s.take(j + 1).drop_last() =~= s.take(j as int));
                assert(s.take(j + 1).last() == s[j as int]);
            }
            d.set(k, v);
            j = j + 1;
        }
        proof {
            assert(claimed@.take(m as int) =~= claimed@);
        }
        LiquifactEscrow { escrow, version, legal_hold, collateral, contributions: c, claimed: d }
    }

    fn legal_hold_active(&self) -> (r: bool)
        ensures
            r == self@.legal_hold,
    {
        self.legal_hold
    }

    /// Create the invoice escrow; the funding target starts at `amount`.
    /// Demands the authorization of `admin` and of `sme_address` first, so no escrow is
    /// created for an SME that did not consent.
    pub fn init(
        &mut self,
        admin: String,
        invoice_id: String,
        sme_address: String,
        amount: i128,
        yield_bps: i64,
        maturity: u64,
    ) -> (out: Outcome<InvoiceEscrow>)
        ensures
            out.signers@ == init_signers(admin, sme_address),
            match init_refusal(old(self)@, amount, yield_bps) {
                Some(err) => out.result == Err::<Effect<InvoiceEscrow>, EscrowError>(err)
                    && final(self)@ == old(self)@,
                None => out.result matches Ok(eff) && {
                    let e = new_escrow(admin, invoice_id, sme_address, amount, yield_bps, maturity);
                    &&& eff.value == e
                    &&& final(self)@ == init_post(old(self)@, e)
                    &&& eff.event matches EscrowEvent::Initialized(ev) && ev.name@ == "escrow_ii"@
                        && ev.escrow == e
                    &&& eff.writes@ == seq![DataKey::Escrow, DataKey::Version]
                },
            },
            final(self)@ == step(old(self)@, Call::Init { admin, invoice_id, sme_address, amount, yield_bps, maturity }),
            old(self)@.valid() ==> final(self)@.valid(),
            old(self)@.progresses_to(final(self)@),
    {
        proof {
            if old(self)@.valid() {
                law_step_keeps_valid(old(self)@, Call::Init { admin, invoice_id, sme_address, amount, yield_bps, maturity });
            }
        }
        let mut signers = one_signer(admin.clone());
        if sme_address != admin {
            signers.push(sme_address.clone());
        }
        if amount <= 0 {
            return refuse(signers, EscrowError::AmountNotPositive);
        }
        if yield_bps < 0 || yield_bps > MAX_YIELD_BPS {
            return refuse(signers, EscrowError::YieldOutOfRange);
        }
        if self.escrow.is_some() {
            return refuse(signers, EscrowError::AlreadyInitialized);
        }
        let escrow = InvoiceEscrow {
            invoice_id,
            admin,
            sme_address,
            amount,
            funding_target: amount,
            funded_amount: 0,
            yield_bps,
            maturity,
            status: STATUS_OPEN,
        };
        self.escrow = Some(escrow.clone());
        self.version = SCHEMA_VERSION;
        let event = EscrowEvent::Initialized(
            EscrowInitialized { name: "escrow_ii".to_owned(), escrow: escrow.clone() },
        );
        Outcome {
            signers,
            result: Ok(
                Effect { value: escrow, event, writes: two_writes(DataKey::Escrow, DataKey::Version) },
            ),
        }
    }
    /// Record investor funding: the funded total grows by `amount`, the investor's
    /// contribution accumulates, and the escrow becomes funded once the total reaches the
    /// target. Demands `investor`'s authorization first.
    pub fn fund(&mut self, investor: String, amount: i128) -> (out: Outcome<InvoiceEscrow>)
        ensures
            out.signers@ == seq![investor],
            match fund_refusal(old(self)@, investor@, amount) {
                Some(err) => out.result == Err::<Effect<InvoiceEscrow>, EscrowError>(err)
                    && final(self)@ == old(self)@,
                None => out.result matches Ok(eff) && {
                    let e = funded_escrow(old(self)@.escrow->0, amount);
                    &&& eff.value == e
                    &&& final(self)@ == fund_post(old(self)@, investor@, amount)
                    &&& eff.event matches EscrowEvent::Funded(ev) && ev.name@ == "funded"@
                        && ev.invoice_id == e.invoice_id && ev.investor == investor && ev.amount
                        == amount && ev.funded_amount == e.funded_amount && ev.status == e.status
                    &&& eff.writes@ == seq![
                        DataKey::InvestorContribution(investor),
                        DataKey::Escrow,
                    ]
                },
            },
            final(self)@ == step(old(self)@, Call::Fund { investor, amount }),
            old(self)@.valid() ==> final(self)@.valid(),
            old(self)@.valid() ==> out.result != Err::<Effect<InvoiceEscrow>, EscrowError>(
                EscrowError::ContributionOverflow,
            ),
            old(self)@.progresses_to(final(self)@),
    {
        proof {
            if old(self)@.valid() {
                law_step_keeps_valid(old(self)@, Call::Fund { investor, amount });
            }
        }
        let signers = one_signer(investor.clone());
        if amount <= 0 {
            return refuse(signers, EscrowError::FundingNotPositive);
        }
        let mut escrow = match &self.escrow {
            None => {
                return refuse(signers, EscrowError::NotInitialized);
            },
            Some(e) => e.clone(),
        };
        if self.legal_hold_active() {
            return refuse(signers, EscrowError::HoldBlocksFunding);
        }
        if escrow.status != STATUS_OPEN {
            return refuse(signers, EscrowError::NotOpenForFunding);
        }
        let funded = match escrow.funded_amount.checked_add(amount) {
            None => {
                return refuse(signers, EscrowError::FundedAmountOverflow);
            },
            Some(f) => f,
        };
        escrow.funded_amount = funded;
        if funded >= escrow.funding_target {
            escrow.status = STATUS_FUNDED;
        }
        let prev = match self.contributions.get(&investor) {
            Some(v) => v,
            None => 0,
        };
        proof {
            if old(self)@.valid() && self@.contributions.contains_key(investor@) {
                lemma_map_value_le_total(self@.contributions, investor@);
            }
        }
        let contribution = match prev.checked_add(amount) {
            None => {
                return refuse(signers, EscrowError::ContributionOverflow);
            },
            Some(c) => c,
        };
        self.contributions.set(investor.clone(), contribution);
        self.escrow = Some(escrow.clone());
        let event = EscrowEvent::Funded(
            EscrowFunded {
                name: "funded".to_owned(),
                invoice_id: escrow.invoice_id.clone(),
                investor: investor.clone(),
                amount,
                funded_amount: escrow.funded_amount,
                status: escrow.status,
            },
        );
        Outcome {
            signers,
            result: Ok(
                Effect {
                    value: escrow,
                    event,
                    writes: two_writes(DataKey::InvestorContribution(investor), DataKey::Escrow),
                },
            ),
        }
    }
    /// Finalize a funded escrow once maturity is reached (`maturity == 0` means no
    /// maturity). Blocked by the legal hold. Demands the SME's authorization once the
    /// escrow is found.
    pub fn settle(&mut self, now: u64) -> (out: Outcome<InvoiceEscrow>)
        ensures
            out.signers@ == (if old(self)@.legal_hold || old(self)@.escrow is None {
                Seq::<String>::empty()
            } else {
                seq![old(self)@.escrow->0.sme_address]
            }),
            match settle_refusal(old(self)@, now) {
                Some(err) => out.result == Err::<Effect<InvoiceEscrow>, EscrowError>(err)
                    && final(self)@ == old(self)@,
                None => out.result matches Ok(eff) && {
                    let post = with_status(old(self)@, STATUS_SETTLED);
                    let e = post.escrow->0;
                    &&& eff.value == e
                    &&& final(self)@ == post
                    &&& eff.event matches EscrowEvent::Settled(ev) && ev.name@ == "escrow_sd"@
                        && ev.invoice_id == e.invoice_id && ev.funded_amount == e.funded_amount
                        && ev.yield_bps == e.yield_bps && ev.maturity == e.maturity
                    &&& eff.writes@ == seq![DataKey::Escrow]
                },
            },
            final(self)@ == step(old(self)@, Call::Settle { now }),
            old(self)@.valid() ==> final(self)@.valid(),
            old(self)@.progresses_to(final(self)@),
    {
        proof {
            if old(self)@.valid() {
                law_step_keeps_valid(old(self)@, Call::Settle { now });
            }
        }
        if self.legal_hold_active() {
            return refuse(no_signers(), EscrowError::HoldBlocksSettlement);
        }
        let mut escrow = match &self.escrow {
            None => {
                return refuse(no_signers(), EscrowError::NotInitialized);
            },
            Some(e) => e.clone(),
        };
        let signers = one_signer(escrow.sme_address.clone());
        if escrow.status != STATUS_FUNDED {
            return refuse(signers, EscrowError::NotFundedForSettlement);
        }
        if escrow.maturity > 0 && now < escrow.maturity {
            return refuse(signers, EscrowError::NotMatured);
        }
        escrow.status = STATUS_SETTLED;
        self.escrow = Some(escrow.clone());
        let event = EscrowEvent::Settled(
            EscrowSettled {
                name: "escrow_sd".to_owned(),
                invoice_id: escrow.invoice_id.clone(),
                funded_amount: escrow.funded_amount,
                yield_bps: escrow.yield_bps,
                maturity: escrow.maturity,
            },
        );
        Outcome {
            signers,
            result: Ok(Effect { value: escrow, event, writes: one_write(DataKey::Escrow) }),
        }
    }

    /// The SME pulls the funded liquidity: a funded escrow becomes withdrawn. Blocked by
    /// the legal hold. Demands the SME's authorization once the escrow is found.
    pub fn withdraw(&mut self) -> (out: Outcome<InvoiceEscrow>)
        ensures
            out.signers@ == (if old(self)@.legal_hold || old(self)@.escrow is None {
                Seq::<String>::empty()
            } else {
                seq![old(self)@.escrow->0.sme_address]
            }),
            match withdraw_refusal(old(self)@) {
                Some(err) => out.result == Err::<Effect<InvoiceEscrow>, EscrowError>(err)
                    && final(self)@ == old(self)@,
                None => out.result matches Ok(eff) && {
                    let post = with_status(old(self)@, STATUS_WITHDRAWN);
                    let e = post.escrow->0;
                    &&& eff.value == e
                    &&& final(self)@ == post
                    &&& eff.event matches EscrowEvent::Withdrew(ev) && ev.name@ == "sme_wd"@
                        && ev.invoice_id == e.invoice_id && ev.amount == e.funded_amount
                    &&& eff.writes@ == seq![DataKey::Escrow]
                },
            },
            final(self)@ == step(old(self)@, Call::Withdraw),
            old(self)@.valid() ==> final(self)@.valid(),
            old(self)@.progresses_to(final(self)@),
    {
        proof {
            if old(self)@.valid() {
                law_step_keeps_valid(old(self)@, Call::Withdraw);
            }
        }
        if self.legal_hold_active() {
            return refuse(no_signers(), EscrowError::HoldBlocksWithdrawal);
        }
        let mut escrow = match &self.escrow {
            None => {
                return refuse(no_signers(), EscrowError::NotInitialized);
            },
            Some(e) => e.clone(),
        };
        let signers = one_signer(escrow.sme_address.clone());
        if escrow.status != STATUS_FUNDED {
            return refuse(signers, EscrowError::NotFundedForWithdrawal);
        }
        let amount = escrow.funded_amount;
        escrow.status = STATUS_WITHDRAWN;
        self.escrow = Some(escrow.clone());
        let event = EscrowEvent::Withdrew(
            SmeWithdrew {
                name: "sme_wd".to_owned(),
                invoice_id: escrow.invoice_id.clone(),
                amount,
            },
        );
        Outcome {
            signers,
            result: Ok(Effect { value: escrow, event, writes: one_write(DataKey::Escrow) }),
        }
    }

    /// An investor with a recorded contribution marks the payout claim after settlement,
    /// once per investor. Blocked by the legal hold. Demands `investor`'s authorization after the hold check.
    pub fn claim_investor_payout(&mut self, investor: String) -> (out: Outcome<()>)
        ensures
            out.signers@ == (if old(self)@.legal_hold {
                Seq::<String>::empty()
            } else {
                seq![investor]
            }),
            match claim_refusal(old(self)@, investor@) {
                Some(err) => out.result == Err::<Effect<()>, EscrowError>(err) && final(self)@
                    == old(self)@,
                None => out.result matches Ok(eff) && {
                    &&& final(self)@ == claim_post(old(self)@, investor@)
                    &&& eff.event matches EscrowEvent::PayoutClaimed(ev) && ev.name@
                        == "inv_claim"@ && ev.invoice_id == old(self)@.escrow->0.invoice_id
                        && ev.investor == investor
                    &&& eff.writes@ == seq![DataKey::InvestorClaimed(investor)]
                },
            },
            final(self)@ == step(old(self)@, Call::Claim { investor }),
            old(self)@.valid() ==> final(self)@.valid(),
            old(self)@.progresses_to(final(self)@),
    {
        proof {
            if old(self)@.valid() {
                law_step_keeps_valid(old(self)@, Call::Claim { investor });
            }
        }
        if self.legal_hold_active() {
            return refuse(no_signers(), EscrowError::HoldBlocksClaim);
        }
        let signers = one_signer(investor.clone());
        let escrow = match &self.escrow {
            None => {
                return refuse(signers, EscrowError::NotInitialized);
            },
            Some(e) => e,
        };
        if escrow.status != STATUS_SETTLED {
            return refuse(signers, EscrowError::NotSettled);
        }
        let contribution = match self.contributions.get(&investor) {
            Some(v) => v,
            None => 0,
        };
        if contribution == 0 {
            return refuse(signers, EscrowError::NoContribution);
        }
        let already = match self.claimed.get(&investor) {
            Some(b) => b,
            None => false,
        };
        if already {
            return refuse(signers, EscrowError::AlreadyClaimed);
        }
        let invoice_id = escrow.invoice_id.clone();
        self.claimed.set(investor.clone(), true);
        let event = EscrowEvent::PayoutClaimed(
            InvestorPayoutClaimed {
                name: "inv_claim".to_owned(),
                invoice_id,
                investor: investor.clone(),
            },
        );
        Outcome {
            signers,
            result: Ok(
                Effect { value: (), event, writes: one_write(DataKey::InvestorClaimed(investor)) },
            ),
        }
    }
    /// Record or replace the SME's collateral pledge, stamped with the ledger time `now`.
    /// Metadata only: nothing else in the storage changes. Demands the SME's
    /// authorization once the escrow is found.
    pub fn record_sme_collateral_commitment(&mut self, asset: String, amount: i128, now: u64) -> (out:
        Outcome<SmeCollateralCommitment>)
        ensures
            out.signers@ == (if amount <= 0 || old(self)@.escrow is None {
                Seq::<String>::empty()
            } else {
                seq![old(self)@.escrow->0.sme_address]
            }),
            match collateral_refusal(old(self)@, amount) {
                Some(err) => out.result == Err::<Effect<SmeCollateralCommitment>, EscrowError>(err)
                    && final(self)@ == old(self)@,
                None => out.result matches Ok(eff) && {
                    let c = (SmeCollateralCommitment { asset, amount, recorded_at: now });
                    &&& eff.value == c
                    &&& final(self)@ == collateral_post(old(self)@, c)
                    &&& eff.event matches EscrowEvent::CollateralRecorded(ev) && ev.name@
                        == "coll_rec"@ && ev.invoice_id == old(self)@.escrow->0.invoice_id
                        && ev.amount == amount
                    &&& eff.writes@ == seq![DataKey::SmeCollateralPledge]
                },
            },
            final(self)@ == step(old(self)@, Call::RecordCollateral { asset, amount, now }),
            old(self)@.valid() ==> final(self)@.valid(),
            old(self)@.progresses_to(final(self)@),
    {
        proof {
            if old(self)@.valid() {
                law_step_keeps_valid(old(self)@, Call::RecordCollateral { asset, amount, now });
            }
        }
        if amount <= 0 {
            return refuse(no_signers(), EscrowError::CollateralNotPositive);
        }
        let escrow = match &self.escrow {
            None => {
                return refuse(no_signers(), EscrowError::NotInitialized);
            },
            Some(e) => e,
        };
        let signers = one_signer(escrow.sme_address.clone());
        let invoice_id = escrow.invoice_id.clone();
        let commitment = SmeCollateralCommitment { asset, amount, recorded_at: now };
        self.collateral = Some(commitment.clone());
        let event = EscrowEvent::CollateralRecorded(
            CollateralRecordedEvt { name: "coll_rec".to_owned(), invoice_id, amount },
        );
        Outcome {
            signers,
            result: Ok(
                Effect {
                    value: commitment,
                    event,
                    writes: one_write(DataKey::SmeCollateralPledge),
                },
            ),
        }
    }

    /// Set or clear the compliance hold. Only the admin may call.
    pub fn set_legal_hold(&mut self, active: bool) -> (out: Outcome<()>)
        ensures
            out.signers@ == (if old(self)@.escrow is None {
                Seq::<String>::empty()
            } else {
                seq![old(self)@.escrow->0.admin]
            }),
            match hold_refusal(old(self)@) {
                Some(err) => out.result == Err::<Effect<()>, EscrowError>(err) && final(self)@
                    == old(self)@,
                None => out.result matches Ok(eff) && {
                    &&& final(self)@ == hold_post(old(self)@, active)
                    &&& eff.event matches EscrowEvent::LegalHold(ev) && ev.name@ == "legalhld"@
                        && ev.invoice_id == old(self)@.escrow->0.invoice_id && ev.active == (
                    if active {
                        1u32
                    } else {
                        0u32
                    })
                    &&& eff.writes@ == seq![DataKey::LegalHold]
                },
            },
            final(self)@ == step(old(self)@, Call::SetLegalHold { active }),
            old(self)@.valid() ==> final(self)@.valid(),
            old(self)@.progresses_to(final(self)@),
    {
        proof {
            if old(self)@.valid() {
                law_step_keeps_valid(old(self)@, Call::SetLegalHold { active });
            }
        }
        let escrow = match &self.escrow {
            None => {
                return refuse(no_signers(), EscrowError::NotInitialized);
            },
            Some(e) => e,
        };
        let signers = one_signer(escrow.admin.clone());
        let invoice_id = escrow.invoice_id.clone();
        self.legal_hold = active;
        let event = EscrowEvent::LegalHold(
            LegalHoldChanged {
                name: "legalhld".to_owned(),
                invoice_id,
                active: if active {
                    1
                } else {
                    0
                },
            },
        );
        Outcome {
            signers,
            result: Ok(Effect { value: (), event, writes: one_write(DataKey::LegalHold) }),
        }
    }

    /// [`LiquifactEscrow::set_legal_hold`] with `active = false`.
    pub fn clear_legal_hold(&mut self) -> (out: Outcome<()>)
        ensures
            out.signers@ == (if old(self)@.escrow is None {
                Seq::<String>::empty()
            } else {
                seq![old(self)@.escrow->0.admin]
            }),
            match hold_refusal(old(self)@) {
                Some(err) => out.result == Err::<Effect<()>, EscrowError>(err) && final(self)@
                    == old(self)@,
                None => out.result matches Ok(eff) && {
                    &&& final(self)@ == hold_post(old(self)@, false)
                    &&& eff.event matches EscrowEvent::LegalHold(ev) && ev.name@ == "legalhld"@
                        && ev.invoice_id == old(self)@.escrow->0.invoice_id && ev.active == 0
                    &&& eff.writes@ == seq![DataKey::LegalHold]
                },
            },
            final(self)@ == step(old(self)@, Call::SetLegalHold { active: false }),
            old(self)@.valid() ==> final(self)@.valid(),
            old(self)@.progresses_to(final(self)@),
    {
        proof {
            if old(self)@.valid() {
                law_step_keeps_valid(old(self)@, Call::SetLegalHold { active: false });
            }
        }
        self.set_legal_hold(false)
    }

    /// Change the funding target while the escrow is open; it may not drop below the
    /// funded total. Only the admin may call.
    pub fn update_funding_target(&mut self, new_target: i128) -> (out: Outcome<InvoiceEscrow>)
        ensures
            out.signers@ == (if old(self)@.escrow is None {
                Seq::<String>::empty()
            } else {
                seq![old(self)@.escrow->0.admin]
            }),
            match target_refusal(old(self)@, new_target) {
                Some(err) => out.result == Err::<Effect<InvoiceEscrow>, EscrowError>(err)
                    && final(self)@ == old(self)@,
                None => out.result matches Ok(eff) && {
                    let e0 = old(self)@.escrow->0;
                    let post = target_post(old(self)@, new_target);
                    let e = post.escrow->0;
                    &&& eff.value == e
                    &&& final(self)@ == post
                    &&& eff.event matches EscrowEvent::TargetUpdated(ev) && ev.name@
                        == "fund_tgt"@ && ev.invoice_id == e.invoice_id && ev.old_target
                        == e0.funding_target && ev.new_target == new_target
                    &&& eff.writes@ == seq![DataKey::Escrow]
                },
            },
            final(self)@ == step(old(self)@, Call::UpdateFundingTarget { new_target }),
            old(self)@.valid() ==> final(self)@.valid(),
            old(self)@.progresses_to(final(self)@),
    {
        proof {
            if old(self)@.valid() {
                law_step_keeps_valid(old(self)@, Call::UpdateFundingTarget { new_target });
            }
        }
        let mut escrow = match &self.escrow {
            None => {
                return refuse(no_signers(), EscrowError::NotInitialized);
            },
            Some(e) => e.clone(),
        };
        let signers = one_signer(escrow.admin.clone());
        if new_target <= 0 {
            return refuse(signers, EscrowError::TargetNotPositive);
        }
        if escrow.status != STATUS_OPEN {
            return refuse(signers, EscrowError::TargetNotOpen);
        }
        if new_target < escrow.funded_amount {
            return refuse(signers, EscrowError::TargetBelowFunded);
        }
        let old_target = escrow.funding_target;
        escrow.funding_target = new_target;
        self.escrow = Some(escrow.clone());
        let event = EscrowEvent::TargetUpdated(
            FundingTargetUpdated {
                name: "fund_tgt".to_owned(),
                invoice_id: escrow.invoice_id.clone(),
                old_target,
                new_target,
            },
        );
        Outcome {
            signers,
            result: Ok(Effect { value: escrow, event, writes: one_write(DataKey::Escrow) }),
        }
    }

    /// Change the maturity while the escrow is open. Only the admin may call.
    pub fn update_maturity(&mut self, new_maturity: u64) -> (out: Outcome<InvoiceEscrow>)
        ensures
            out.signers@ == (if old(self)@.escrow is None {
                Seq::<String>::empty()
            } else {
                seq![old(self)@.escrow->0.admin]
            }),
            match maturity_refusal(old(self)@) {
                Some(err) => out.result == Err::<Effect<InvoiceEscrow>, EscrowError>(err)
                    && final(self)@ == old(self)@,
                None => out.result matches Ok(eff) && {
                    let e0 = old(self)@.escrow->0;
                    let post = maturity_post(old(self)@, new_maturity);
                    let e = post.escrow->0;
                    &&& eff.value == e
                    &&& final(self)@ == post
                    &&& eff.event matches EscrowEvent::MaturityUpdated(ev) && ev.name@
                        == "maturity"@ && ev.invoice_id == e.invoice_id && ev.old_maturity
                        == e0.maturity && ev.new_maturity == new_maturity
                    &&& eff.writes@ == seq![DataKey::Escrow]
                },
            },
            final(self)@ == step(old(self)@, Call::UpdateMaturity { new_maturity }),
            old(self)@.valid() ==> final(self)@.valid(),
            old(self)@.progresses_to(final(self)@),
    {
        proof {
            if old(self)@.valid() {
                law_step_keeps_valid(old(self)@, Call::UpdateMaturity { new_maturity });
            }
        }
        let mut escrow = match &self.escrow {
            None => {
                return refuse(no_signers(), EscrowError::NotInitialized);
            },
            Some(e) => e.clone(),
        };
        let signers = one_signer(escrow.admin.clone());
        if escrow.status != STATUS_OPEN {
            return refuse(signers, EscrowError::MaturityNotOpen);
        }
        let old_maturity = escrow.maturity;
        escrow.maturity = new_maturity;
        self.escrow = Some(escrow.clone());
        let event = EscrowEvent::MaturityUpdated(
            MaturityUpdatedEvent {
                name: "maturity".to_owned(),
                invoice_id: escrow.invoice_id.clone(),
                old_maturity,
                new_maturity,
            },
        );
        Outcome {
            signers,
            result: Ok(Effect { value: escrow, event, writes: one_write(DataKey::Escrow) }),
        }
    }

    /// Hand the admin role to another address. Only the current admin may call.
    pub fn transfer_admin(&mut self, new_admin: String) -> (out: Outcome<InvoiceEscrow>)
        ensures
            out.signers@ == (if old(self)@.escrow is None {
                Seq::<String>::empty()
            } else {
                seq![old(self)@.escrow->0.admin]
            }),
            match admin_refusal(old(self)@, new_admin@) {
                Some(err) => out.result == Err::<Effect<InvoiceEscrow>, EscrowError>(err)
                    && final(self)@ == old(self)@,
                None => out.result matches Ok(eff) && {
                    let post = admin_post(old(self)@, new_admin);
                    let e = post.escrow->0;
                    &&& eff.value == e
                    &&& final(self)@ == post
                    &&& eff.event matches EscrowEvent::AdminTransferred(ev) && ev.name@
                        == "admin"@ && ev.invoice_id == e.invoice_id && ev.new_admin == new_admin
                    &&& eff.writes@ == seq![DataKey::Escrow]
                },
            },
            final(self)@ == step(old(self)@, Call::TransferAdmin { new_admin }),
            old(self)@.valid() ==> final(self)@.valid(),
            old(self)@.progresses_to(final(self)@),
    {
        proof {
            if old(self)@.valid() {
                law_step_keeps_valid(old(self)@, Call::TransferAdmin { new_admin });
            }
        }
        let mut escrow = match &self.escrow {
            None => {
                return refuse(no_signers(), EscrowError::NotInitialized);
            },
            Some(e) => e.clone(),
        };
        let signers = one_signer(escrow.admin.clone());
        if escrow.admin == new_admin {
            return refuse(signers, EscrowError::SameAdmin);
        }
        escrow.admin = new_admin.clone();
        self.escrow = Some(escrow.clone());
        let event = EscrowEvent::AdminTransferred(
            AdminTransferredEvent {
                name: "admin".to_owned(),
                invoice_id: escrow.invoice_id.clone(),
                new_admin,
            },
        );
        Outcome {
            signers,
            result: Ok(Effect { value: escrow, event, writes: one_write(DataKey::Escrow) }),
        }
    }

    /// Migrate the stored schema version. No migration path exists in this version, so
    /// every call is refused; the refusal says why.
    pub fn migrate(&self, from_version: u32) -> (r: Result<u32, EscrowError>)
        ensures
            r == Err::<u32, EscrowError>(migrate_refusal(self@, from_version)),
    {
        let stored = self.version;
        if stored != from_version {
            return Err(EscrowError::VersionMismatch);
        }
        if from_version >= SCHEMA_VERSION {
            return Err(EscrowError::AlreadyCurrentVersion);
        }
        Err(EscrowError::NoMigrationPath(from_version))
    }

    /// The escrow record.
    pub fn get_escrow(&self) -> (r: Result<InvoiceEscrow, EscrowError>)
        ensures
            r == (match self@.escrow {
                Some(e) => Ok::<InvoiceEscrow, EscrowError>(e),
                None => Err(EscrowError::NotInitialized),
            }),
    {
        match &self.escrow {
            Some(e) => Ok(e.clone()),
            None => Err(EscrowError::NotInitialized),
        }
    }

    /// The stored schema version (0 when unset).
    pub fn get_version(&self) -> (r: u32)
        ensures
            r == self@.version,
    {
        self.version
    }

    /// Whether the compliance hold is active (false when unset).
    pub fn get_legal_hold(&self) -> (r: bool)
        ensures
            r == self@.legal_hold,
    {
        self.legal_hold_active()
    }

    /// The principal `investor` has contributed (0 when none).
    pub fn get_contribution(&self, investor: String) -> (r: i128)
        ensures
            r == contribution_of(self@, investor@),
    {
        match self.contributions.get(&investor) {
            Some(v) => v,
            None => 0,
        }
    }

    /// The SME's collateral pledge, if one was recorded.
    pub fn get_sme_collateral_commitment(&self) -> (r: Option<SmeCollateralCommitment>)
        ensures
            r == self@.collateral,
    {
        match &self.collateral {
            Some(c) => Some(c.clone()),
            None => None,
        }
    }

    /// Whether `investor` has claimed (false when unset).
    pub fn is_investor_claimed(&self, investor: String) -> (r: bool)
        ensures
            r == claimed_by(self@, investor@),
    {
        match self.claimed.get(&investor) {
            Some(b) => b,
            None => false,
        }
    }
}

} // verus!
