use liquifact_escrow::{EscrowError, LiquifactEscrow};
use proptest::test_runner::{Config, TestCaseError, TestRunner};

// Randomized checks of the invariants the contracts prove, on concrete runs.

fn addr(name: &str) -> String {
    name.to_string()
}

fn check(cond: bool, why: &str) -> Result<(), TestCaseError> {
    if cond {
        Ok(())
    } else {
        Err(TestCaseError::fail(why.to_string()))
    }
}

#[test]
fn prop_funded_amount_non_decreasing() {
    let mut runner = TestRunner::new(Config::with_cases(256));
    let strategy = (1i128..5_000_0000000i128, 1i128..5_000_0000000i128);
    runner
        .run(&strategy, |(amount1, amount2)| {
            let mut s = LiquifactEscrow::new();
            let target = 20_000_0000000i128;
            s.init(addr("ADMIN"), "INVTST".to_string(), addr("SME"), target, 800, 0)
                .result
                .unwrap();
            let before = s.get_escrow().unwrap().funded_amount;
            s.fund(addr("INVESTOR1"), amount1).result.unwrap();
            let after1 = s.get_escrow().unwrap().funded_amount;
            check(after1 >= before, "funded_amount must be non-decreasing")?;
            if s.get_escrow().unwrap().status == 0 {
                s.fund(addr("INVESTOR2"), amount2).result.unwrap();
                let after2 = s.get_escrow().unwrap().funded_amount;
                check(after2 >= after1, "funded_amount must be non-decreasing on successive funds")?;
            }
            Ok(())
        })
        .unwrap();
}

#[test]
fn prop_status_only_increases() {
    let mut runner = TestRunner::new(Config::with_cases(256));
    let strategy = (1i128..10_000_0000000i128, 1i128..10_000_0000000i128);
    runner
        .run(&strategy, |(amount, target)| {
            let mut s = LiquifactEscrow::new();
            let escrow = s
                .init(addr("ADMIN"), "INVSTA".to_string(), addr("SME"), target, 800, 0)
                .result
                .unwrap()
                .value;
            check(escrow.status == 0, "a new escrow is open")?;
            let after_fund = s.fund(addr("INVESTOR"), amount).result.unwrap().value;
            check(after_fund.status >= escrow.status, "status must not decrease")?;
            check(after_fund.status <= 3, "status must be in valid range")?;
            if amount >= target {
                check(after_fund.status == 1, "reaching the target funds the escrow")?;
                let after_settle = s.settle(0).result.unwrap().value;
                check(after_settle.status == 2, "settling a funded escrow")?;
            } else {
                check(after_fund.status == 0, "below the target the escrow stays open")?;
            }
            Ok(())
        })
        .unwrap();
}

#[test]
fn prop_contributions_sum_to_funded_amount() {
    let mut runner = TestRunner::new(Config::with_cases(128));
    let strategy = proptest::collection::vec((0usize..4, 1i128..1_000i128), 0..20);
    runner
        .run(&strategy, |steps| {
            let investors = ["A", "B", "C", "D"];
            let mut s = LiquifactEscrow::new();
            s.init(addr("ADMIN"), "SUM".to_string(), addr("SME"), 1_000_000, 800, 0)
                .result
                .unwrap();
            let mut expected = [0i128; 4];
            for (who, amount) in steps {
                s.fund(addr(investors[who]), amount).result.unwrap();
                expected[who] += amount;
            }
            let mut total = 0i128;
            for (i, who) in investors.iter().enumerate() {
                let c = s.get_contribution(addr(who));
                check(c == expected[i], "each contribution accumulates")?;
                check(c <= s.get_escrow().unwrap().funded_amount, "contribution within funded")?;
                total += c;
            }
            check(total == s.get_escrow().unwrap().funded_amount, "contributions sum to funded")?;
            Ok(())
        })
        .unwrap();
}

#[test]
fn prop_hold_blocks_every_payout_path() {
    let mut runner = TestRunner::new(Config::with_cases(64));
    let strategy = (1i128..10_000i128, 0u64..1_000u64);
    runner
        .run(&strategy, |(amount, now)| {
            let mut s = LiquifactEscrow::new();
            s.init(addr("ADMIN"), "HOLD".to_string(), addr("SME"), 10_000, 800, 0)
                .result
                .unwrap();
            s.set_legal_hold(true).result.unwrap();
            check(
                s.fund(addr("I"), amount).result.unwrap_err() == EscrowError::HoldBlocksFunding,
                "hold blocks funding",
            )?;
            check(
                s.settle(now).result.unwrap_err() == EscrowError::HoldBlocksSettlement,
                "hold blocks settlement",
            )?;
            check(
                s.withdraw().result.unwrap_err() == EscrowError::HoldBlocksWithdrawal,
                "hold blocks withdrawal",
            )?;
            check(
                s.claim_investor_payout(addr("I")).result.unwrap_err()
                    == EscrowError::HoldBlocksClaim,
                "hold blocks claims",
            )?;
            Ok(())
        })
        .unwrap();
}
