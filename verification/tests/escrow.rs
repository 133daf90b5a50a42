use liquifact_escrow::{
    DataKey, EscrowError, EscrowEvent, InvoiceEscrow, LiquifactEscrow, SCHEMA_VERSION,
};

const CREATED_AT: u64 = 1_000_000;

fn addr(name: &str) -> String {
    name.to_string()
}

/// A fresh escrow initialized by "ADMIN" for the SME "SME".
fn setup_escrow(invoice_id: &str, amount: i128, yield_bps: i64, maturity: u64) -> LiquifactEscrow {
    let mut s = LiquifactEscrow::new();
    let out = s.init(addr("ADMIN"), invoice_id.to_string(), addr("SME"), amount, yield_bps, maturity);
    assert_eq!(out.signers, vec![addr("ADMIN"), addr("SME")]);
    out.result.unwrap();
    s
}

fn escrow_of(s: &LiquifactEscrow) -> InvoiceEscrow {
    s.get_escrow().unwrap()
}

#[test]
fn test_init_and_get_escrow_and_version() {
    let amount = 10_000i128;
    let yield_bps = 800i64;
    let maturity = CREATED_AT + 365 * 86_400u64;
    let s = setup_escrow("INV001", amount, yield_bps, maturity);

    let stored = escrow_of(&s);
    assert_eq!(stored.invoice_id, "INV001");
    assert_eq!(stored.admin, "ADMIN");
    assert_eq!(stored.sme_address, "SME");
    assert_eq!(stored.amount, amount);
    assert_eq!(stored.funding_target, amount);
    assert_eq!(stored.funded_amount, 0);
    assert_eq!(stored.yield_bps, yield_bps);
    assert_eq!(stored.maturity, maturity);
    assert_eq!(stored.status, 0);
    assert_eq!(s.get_version(), SCHEMA_VERSION);
}

#[test]
fn test_init_reports_event_and_writes() {
    let mut s = LiquifactEscrow::new();
    let out = s.init(addr("ADMIN"), "INV001".to_string(), addr("SME"), 10_000, 800, 5);
    let eff = out.result.unwrap();
    assert_eq!(eff.writes, vec![DataKey::Escrow, DataKey::Version]);
    match eff.event {
        EscrowEvent::Initialized(ev) => {
            assert_eq!(ev.name, "escrow_ii");
            assert_eq!(ev.escrow, eff.value);
        }
        other => panic!("unexpected event {:?}", other),
    }
}

#[test]
fn test_init_rejects_zero_amount() {
    let mut s = LiquifactEscrow::new();
    let out = s.init(addr("ADMIN"), "INV002".to_string(), addr("SME"), 0, 800, 1_000);
    assert_eq!(out.signers, vec![addr("ADMIN"), addr("SME")]);
    assert_eq!(out.result.unwrap_err(), EscrowError::AmountNotPositive);
    assert_eq!(s.get_escrow().unwrap_err(), EscrowError::NotInitialized);
    assert_eq!(s.get_version(), 0);
}

#[test]
fn test_init_rejects_yield_out_of_range() {
    let mut s = LiquifactEscrow::new();
    let out = s.init(addr("ADMIN"), "INV002".to_string(), addr("SME"), 1_000, 10_001, 1_000);
    assert_eq!(out.result.unwrap_err(), EscrowError::YieldOutOfRange);
    let out = s.init(addr("ADMIN"), "INV002".to_string(), addr("SME"), 1_000, -1, 1_000);
    assert_eq!(out.result.unwrap_err(), EscrowError::YieldOutOfRange);
    let out = s.init(addr("ADMIN"), "INV002".to_string(), addr("SME"), 1_000, 10_000, 1_000);
    assert!(out.result.is_ok());
}

#[test]
fn test_init_rejects_second_init() {
    let mut s = setup_escrow("INV001", 10_000, 800, 0);
    let out = s.init(addr("OTHER"), "INV999".to_string(), addr("SME2"), 5, 1, 1);
    assert_eq!(out.signers, vec![addr("OTHER"), addr("SME2")]);
    assert_eq!(out.result.unwrap_err(), EscrowError::AlreadyInitialized);
    assert_eq!(escrow_of(&s).invoice_id, "INV001");
}

#[test]
fn test_fund_and_query_position_before_settlement() {
    let maturity = CREATED_AT + 365 * 86_400u64;
    let mut s = setup_escrow("INV003", 10_000, 800, maturity);

    // Partial funding: status remains open.
    let out = s.fund(addr("INVESTOR"), 4_000);
    assert_eq!(out.signers, vec![addr("INVESTOR")]);
    let esc = out.result.unwrap().value;
    assert_eq!(esc.status, 0);
    assert_eq!(s.get_contribution(addr("INVESTOR")), 4_000);
    assert!(!s.is_investor_claimed(addr("INVESTOR")));

    // Unknown investor has a zero position.
    assert_eq!(s.get_contribution(addr("OTHER")), 0);
    assert!(!s.is_investor_claimed(addr("OTHER")));
}

#[test]
fn test_fund_reports_event_and_writes() {
    let mut s = setup_escrow("INV003", 10_000, 800, 0);
    let eff = s.fund(addr("INVESTOR"), 4_000).result.unwrap();
    assert_eq!(
        eff.writes,
        vec![DataKey::InvestorContribution(addr("INVESTOR")), DataKey::Escrow]
    );
    match eff.event {
        EscrowEvent::Funded(ev) => {
            assert_eq!(ev.name, "funded");
            assert_eq!(ev.invoice_id, "INV003");
            assert_eq!(ev.investor, "INVESTOR");
            assert_eq!(ev.amount, 4_000);
            assert_eq!(ev.funded_amount, 4_000);
            assert_eq!(ev.status, 0);
        }
        other => panic!("unexpected event {:?}", other),
    }
}

#[test]
fn test_repeated_funding_accumulates() {
    let mut s = setup_escrow("INV003", 10_000, 800, 0);
    s.fund(addr("A"), 1_500).result.unwrap();
    s.fund(addr("B"), 2_000).result.unwrap();
    s.fund(addr("A"), 2_500).result.unwrap();
    assert_eq!(s.get_contribution(addr("A")), 4_000);
    assert_eq!(s.get_contribution(addr("B")), 2_000);
    assert_eq!(escrow_of(&s).funded_amount, 6_000);
    assert_eq!(escrow_of(&s).status, 0);
}

#[test]
fn test_fund_reaching_target_marks_funded() {
    let mut s = setup_escrow("INV003", 10_000, 800, 0);
    s.fund(addr("A"), 9_999).result.unwrap();
    assert_eq!(escrow_of(&s).status, 0);
    let esc = s.fund(addr("B"), 5).result.unwrap().value;
    assert_eq!(esc.status, 1);
    assert_eq!(esc.funded_amount, 10_004);
    // No further funding once funded.
    let out = s.fund(addr("C"), 1);
    assert_eq!(out.result.unwrap_err(), EscrowError::NotOpenForFunding);
    assert_eq!(s.get_contribution(addr("C")), 0);
}

#[test]
fn test_fund_rejections() {
    let mut empty = LiquifactEscrow::new();
    assert_eq!(
        empty.fund(addr("A"), 10).result.unwrap_err(),
        EscrowError::NotInitialized
    );
    let mut s = setup_escrow("INV003", 10_000, 800, 0);
    let out = s.fund(addr("A"), 0);
    assert_eq!(out.signers, vec![addr("A")]);
    assert_eq!(out.result.unwrap_err(), EscrowError::FundingNotPositive);
    assert_eq!(
        s.fund(addr("A"), -5).result.unwrap_err(),
        EscrowError::FundingNotPositive
    );
    assert_eq!(escrow_of(&s).funded_amount, 0);
}

#[test]
fn test_fund_overflow_is_refused() {
    let mut s = setup_escrow("BIG", i128::MAX, 800, 0);
    s.fund(addr("A"), i128::MAX - 1).result.unwrap();
    assert_eq!(
        s.fund(addr("B"), 2).result.unwrap_err(),
        EscrowError::FundedAmountOverflow
    );
    assert_eq!(escrow_of(&s).funded_amount, i128::MAX - 1);
}

#[test]
fn test_fund_contribution_overflow_on_inconsistent_storage() {
    // Storage in which the investor's entry already exceeds the escrow's total: the
    // contribution overflow is caught rather than wrapped.
    let escrow = InvoiceEscrow {
        invoice_id: "ODD".to_string(),
        admin: addr("ADMIN"),
        sme_address: addr("SME"),
        amount: 100,
        funding_target: 100,
        funded_amount: 0,
        yield_bps: 0,
        maturity: 0,
        status: 0,
    };
    let mut s = LiquifactEscrow::from_storage(
        Some(escrow),
        SCHEMA_VERSION,
        false,
        None,
        vec![(addr("A"), i128::MAX)],
        vec![],
    );
    assert_eq!(
        s.fund(addr("A"), 1).result.unwrap_err(),
        EscrowError::ContributionOverflow
    );
    assert_eq!(s.get_contribution(addr("A")), i128::MAX);
    assert_eq!(escrow_of(&s).funded_amount, 0);
}

#[test]
fn test_settle_flow_and_redeem_updates_claim_status() {
    let maturity = CREATED_AT + 365 * 86_400u64;
    let mut s = setup_escrow("INV005", 10_000, 800, maturity);

    s.fund(addr("INVESTOR"), 10_000).result.unwrap();
    assert_eq!(escrow_of(&s).status, 1);

    let out = s.settle(maturity);
    assert_eq!(out.signers, vec![addr("SME")]);
    let settled = out.result.unwrap().value;
    assert_eq!(settled.status, 2);

    assert!(!s.is_investor_claimed(addr("INVESTOR")));
    let out = s.claim_investor_payout(addr("INVESTOR"));
    assert_eq!(out.signers, vec![addr("INVESTOR")]);
    let eff = out.result.unwrap();
    assert_eq!(eff.writes, vec![DataKey::InvestorClaimed(addr("INVESTOR"))]);
    assert!(s.is_investor_claimed(addr("INVESTOR")));
    assert_eq!(s.get_contribution(addr("INVESTOR")), 10_000);
}

#[test]
fn test_settle_before_maturity_is_refused() {
    let maturity = CREATED_AT + 365 * 86_400u64;
    let mut s = setup_escrow("INV005", 10_000, 800, maturity);
    s.fund(addr("INVESTOR"), 10_000).result.unwrap();
    let out = s.settle(CREATED_AT);
    assert_eq!(out.signers, vec![addr("SME")]);
    assert_eq!(out.result.unwrap_err(), EscrowError::NotMatured);
    assert_eq!(escrow_of(&s).status, 1);
    assert!(s.settle(maturity - 1).result.is_err());
    assert!(s.settle(maturity).result.is_ok());
}

#[test]
fn test_settle_requires_funded() {
    let mut s = setup_escrow("INV005", 10_000, 800, 0);
    let out = s.settle(0);
    assert_eq!(out.signers, vec![addr("SME")]);
    assert_eq!(out.result.unwrap_err(), EscrowError::NotFundedForSettlement);
    let mut empty = LiquifactEscrow::new();
    let out = empty.settle(0);
    assert_eq!(out.signers, Vec::<String>::new());
    assert_eq!(out.result.unwrap_err(), EscrowError::NotInitialized);
}

#[test]
fn test_settle_event() {
    let mut s = setup_escrow("INV005", 10_000, 800, 7);
    s.fund(addr("I"), 10_000).result.unwrap();
    let eff = s.settle(7).result.unwrap();
    assert_eq!(eff.writes, vec![DataKey::Escrow]);
    match eff.event {
        EscrowEvent::Settled(ev) => {
            assert_eq!(ev.name, "escrow_sd");
            assert_eq!(ev.invoice_id, "INV005");
            assert_eq!(ev.funded_amount, 10_000);
            assert_eq!(ev.yield_bps, 800);
            assert_eq!(ev.maturity, 7);
        }
        other => panic!("unexpected event {:?}", other),
    }
}

#[test]
fn test_redeem_rejected_when_not_settled() {
    let maturity = CREATED_AT + 365 * 86_400u64;
    let mut s = setup_escrow("INV006", 10_000, 800, maturity);
    s.fund(addr("INVESTOR"), 1_000).result.unwrap();
    let out = s.claim_investor_payout(addr("INVESTOR"));
    assert_eq!(out.signers, vec![addr("INVESTOR")]);
    assert_eq!(out.result.unwrap_err(), EscrowError::NotSettled);
    assert!(!s.is_investor_claimed(addr("INVESTOR")));
}

#[test]
fn test_redeem_rejected_second_time() {
    let mut s = setup_escrow("INV007", 10_000, 800, 0);
    s.fund(addr("INVESTOR"), 10_000).result.unwrap();
    s.settle(0).result.unwrap();
    s.claim_investor_payout(addr("INVESTOR")).result.unwrap();
    let out = s.claim_investor_payout(addr("INVESTOR"));
    assert_eq!(out.result.unwrap_err(), EscrowError::AlreadyClaimed);
    assert!(s.is_investor_claimed(addr("INVESTOR")));
}

#[test]
fn test_claim_without_escrow_is_refused() {
    let mut s = LiquifactEscrow::new();
    let out = s.claim_investor_payout(addr("I"));
    assert_eq!(out.signers, vec![addr("I")]);
    assert_eq!(out.result.unwrap_err(), EscrowError::NotInitialized);
}

#[test]
fn test_withdraw_moves_funded_to_withdrawn() {
    let mut s = setup_escrow("WD", 1_000, 800, 0);
    let out = s.withdraw();
    assert_eq!(out.result.unwrap_err(), EscrowError::NotFundedForWithdrawal);
    s.fund(addr("I"), 1_000).result.unwrap();
    let out = s.withdraw();
    assert_eq!(out.signers, vec![addr("SME")]);
    let eff = out.result.unwrap();
    assert_eq!(eff.value.status, 3);
    match eff.event {
        EscrowEvent::Withdrew(ev) => {
            assert_eq!(ev.name, "sme_wd");
            assert_eq!(ev.amount, 1_000);
        }
        other => panic!("unexpected event {:?}", other),
    }
    // Withdrawn is final: neither settle nor another withdrawal is accepted.
    assert_eq!(s.settle(0).result.unwrap_err(), EscrowError::NotFundedForSettlement);
    assert_eq!(s.withdraw().result.unwrap_err(), EscrowError::NotFundedForWithdrawal);
    let mut empty = LiquifactEscrow::new();
    assert_eq!(empty.withdraw().result.unwrap_err(), EscrowError::NotInitialized);
}

#[test]
fn test_migrate_rejects_wrong_from_version() {
    let s = setup_escrow("INV008", 10_000, 800, CREATED_AT + 365 * 86_400u64);
    assert_eq!(s.migrate(SCHEMA_VERSION + 1), Err(EscrowError::VersionMismatch));
}

#[test]
fn test_migrate_rejects_when_already_current() {
    let s = setup_escrow("INV009", 10_000, 800, CREATED_AT + 365 * 86_400u64);
    assert_eq!(s.migrate(SCHEMA_VERSION), Err(EscrowError::AlreadyCurrentVersion));
}

#[test]
fn test_migrate_reaches_no_path_panic() {
    // An older stored version (0 here) has no migration path.
    let s = LiquifactEscrow::from_storage(None, 0, false, None, vec![], vec![]);
    assert_eq!(s.migrate(0), Err(EscrowError::NoMigrationPath(0)));
    let s = LiquifactEscrow::from_storage(None, 1, false, None, vec![], vec![]);
    assert_eq!(s.migrate(1), Err(EscrowError::NoMigrationPath(1)));
}

#[test]
fn test_from_storage_reads_entries() {
    let s = LiquifactEscrow::from_storage(
        None,
        2,
        true,
        None,
        vec![(addr("A"), 5), (addr("B"), 7), (addr("A"), 9)],
        vec![(addr("A"), true), (addr("B"), false)],
    );
    assert_eq!(s.get_version(), 2);
    assert!(s.get_legal_hold());
    assert_eq!(s.get_contribution(addr("A")), 9);
    assert_eq!(s.get_contribution(addr("B")), 7);
    assert_eq!(s.get_contribution(addr("C")), 0);
    assert!(s.is_investor_claimed(addr("A")));
    assert!(!s.is_investor_claimed(addr("B")));
    assert!(!s.is_investor_claimed(addr("C")));
}

#[test]
fn test_init_demands_admin_and_sme_once_each() {
    let mut s = LiquifactEscrow::new();
    let out = s.init(addr("SAME"), "INV013".to_string(), addr("SAME"), 10, 0, 0);
    assert_eq!(out.signers, vec![addr("SAME")]);
    assert!(out.result.is_ok());
}

#[test]
fn test_redeem_rejected_when_investor_has_zero_contribution() {
    let maturity = CREATED_AT + 365 * 86_400u64;
    let mut s = setup_escrow("INV011", 10_000, 800, maturity);
    // Fund with another investor, so `investor` below has 0 contribution.
    s.fund(addr("FUNDED_INVESTOR"), 10_000).result.unwrap();
    s.settle(maturity).result.unwrap();
    let out = s.claim_investor_payout(addr("INVESTOR"));
    assert_eq!(out.signers, vec![addr("INVESTOR")]);
    assert_eq!(out.result.unwrap_err(), EscrowError::NoContribution);
    assert!(!s.is_investor_claimed(addr("INVESTOR")));
    assert!(s.claim_investor_payout(addr("FUNDED_INVESTOR")).result.is_ok());
}
