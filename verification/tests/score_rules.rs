use shambachain::score::{calculate, max_loan_usdc, to_tier, MIN_LOAN_SCORE};
use shambachain::{ContractError, CreditTier};

#[test]
fn base_score_is_one_hundred() {
    assert_eq!(calculate(0, 0, 0, 0), 100);
}

#[test]
fn each_component_adds_its_points() {
    // 25 per harvest
    assert_eq!(calculate(1, 0, 0, 0), 125);
    // 30 per sale
    assert_eq!(calculate(0, 1, 0, 0), 130);
    // one point per 500 of income
    assert_eq!(calculate(0, 0, 500, 0), 101);
    assert_eq!(calculate(0, 0, 499, 0), 100);
    // 10 per entry
    assert_eq!(calculate(0, 0, 0, 1), 110);
    assert_eq!(calculate(1, 0, 0, 1), 135);
}

#[test]
fn each_component_is_capped() {
    assert_eq!(calculate(8, 0, 0, 0), 300);
    assert_eq!(calculate(9, 0, 0, 0), 300);
    assert_eq!(calculate(0, 7, 0, 0), 300);
    assert_eq!(calculate(0, 0, 100_000, 0), 300);
    assert_eq!(calculate(0, 0, 1_000_000, 0), 300);
    assert_eq!(calculate(0, 0, 0, 15), 250);
    assert_eq!(calculate(0, 0, 0, 1_000), 250);
}

#[test]
fn maximum_score_is_850() {
    assert_eq!(calculate(8, 7, 100_000, 15), 850);
    assert_eq!(calculate(u32::MAX, u32::MAX, u64::MAX, u64::MAX), 100 + 200 + 200 + 200 + 150);
}

#[test]
fn huge_income_earns_the_full_income_points() {
    assert_eq!(calculate(0, 0, 2_147_483_647_500, 0), 300);
    assert_eq!(calculate(0, 0, 2_147_483_648_000, 0), 300);
    assert_eq!(calculate(0, 0, u64::MAX, 0), 300);
}

#[test]
fn huge_entry_counts_earn_the_full_regularity_points() {
    assert_eq!(calculate(0, 0, 0, 14), 240);
    assert_eq!(calculate(0, 0, 0, 429_496_730), 250);
    assert_eq!(calculate(0, 0, 0, u64::MAX), 250);
}

#[test]
fn tiers_follow_score_bands() {
    assert_eq!(to_tier(0), CreditTier::Unranked);
    assert_eq!(to_tier(100), CreditTier::Unranked);
    assert_eq!(to_tier(299), CreditTier::Unranked);
    assert_eq!(to_tier(300), CreditTier::Bronze);
    assert_eq!(to_tier(499), CreditTier::Bronze);
    assert_eq!(to_tier(500), CreditTier::Silver);
    assert_eq!(to_tier(649), CreditTier::Silver);
    assert_eq!(to_tier(650), CreditTier::Gold);
    assert_eq!(to_tier(749), CreditTier::Gold);
    assert_eq!(to_tier(750), CreditTier::Platinum);
    assert_eq!(to_tier(850), CreditTier::Platinum);
    assert_eq!(to_tier(851), CreditTier::Unranked);
    assert_eq!(to_tier(u32::MAX), CreditTier::Unranked);
}

#[test]
fn loan_limits_per_tier() {
    assert_eq!(max_loan_usdc(&CreditTier::Platinum), 5_000);
    assert_eq!(max_loan_usdc(&CreditTier::Gold), 2_000);
    assert_eq!(max_loan_usdc(&CreditTier::Silver), 800);
    assert_eq!(max_loan_usdc(&CreditTier::Bronze), 200);
    assert_eq!(max_loan_usdc(&CreditTier::Unranked), 50);
    assert_eq!(MIN_LOAN_SCORE, 200);
}

#[test]
fn higher_score_never_lowers_the_limit() {
    let mut previous = 0u64;
    for score in 0..=850u32 {
        let limit = max_loan_usdc(&to_tier(score));
        assert!(limit >= previous, "limit dropped at score {}", score);
        previous = limit;
    }
}

#[test]
fn score_grows_with_activity() {
    let mut previous = calculate(0, 0, 0, 0);
    for n in 1..40u32 {
        let score = calculate(n, n, (n as u64) * 1_000, n as u64);
        assert!(score >= previous);
        assert!((100..=850).contains(&score));
        previous = score;
    }
}

#[test]
fn error_codes_match_the_contract_abi() {
    let all = [
        (ContractError::Unauthorized, 1),
        (ContractError::AlreadyInitialized, 2),
        (ContractError::FarmerNotFound, 3),
        (ContractError::FarmerAlreadyExists, 4),
        (ContractError::InvalidEntryType, 5),
        (ContractError::InvalidAmount, 6),
        (ContractError::LoanNotFound, 7),
        (ContractError::ActiveLoanExists, 8),
        (ContractError::ScoreTooLow, 9),
        (ContractError::AmountExceedsLimit, 10),
        (ContractError::LoanNotPending, 11),
        (ContractError::LoanNotDisbursed, 12),
        (ContractError::NotLoanLender, 13),
        (ContractError::OverRepayment, 14),
        (ContractError::NotInitialized, 15),
    ];
    for (e, c) in all {
        assert_eq!(e.code(), c);
    }
}
