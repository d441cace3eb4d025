use vstd::prelude::*;
use crate::types::CreditTier;

verus! {

/// Minimum credit score required to apply for any loan.
pub const MIN_LOAN_SCORE: u32 = 200;

/// Highest credit score.
pub const MAX_SCORE: u32 = 850;

/// `min(a, b)` over integers.
pub open spec fn min_int(a: int, b: int) -> int {
    if a <= b { a } else { b }
}

/// Points for harvest frequency: 25 per harvest, at most 200.
pub open spec fn harvest_points(total_harvests: u32) -> int {
    min_int(25 * total_harvests, 200)
}

/// Points for sales consistency: 30 per sale, at most 200.
pub open spec fn sales_points(total_sales: u32) -> int {
    min_int(30 * total_sales, 200)
}

/// Points for income: one per full 500 units of income, at most 200.
pub open spec fn income_points(total_income_kes: u64) -> int {
    min_int((total_income_kes / 500) as int, 200)
}

/// Points for record regularity: 10 per entry, at most 150.
pub open spec fn entry_points(total_entries: u64) -> int {
    min_int(10 * total_entries, 150)
}

/// The credit score: a base of 100 plus the four point components, capped at 850.
pub open spec fn score_of(total_harvests: u32, total_sales: u32, total_income_kes: u64, total_entries: u64) -> int {
    min_int(
        100 + harvest_points(total_harvests) + sales_points(total_sales) + income_points(total_income_kes)
            + entry_points(total_entries),
        850,
    )
}

/// The tier a score falls in.
pub open spec fn tier_of(score: u32) -> CreditTier {
    if 750 <= score && score <= 850 {
        CreditTier::Platinum
    } else if 650 <= score && score <= 749 {
        CreditTier::Gold
    } else if 500 <= score && score <= 649 {
        CreditTier::Silver
    } else if 300 <= score && score <= 499 {
        CreditTier::Bronze
    } else {
        CreditTier::Unranked
    }
}

/// The largest loan, in USDC, that a tier allows.
pub open spec fn loan_limit(tier: CreditTier) -> u64 {
    match tier {
        CreditTier::Platinum => 5000,
        CreditTier::Gold => 2000,
        CreditTier::Silver => 800,
        CreditTier::Bronze => 200,
        CreditTier::Unranked => 50,
    }
}

/// Rank of a tier, from Unranked (0) to Platinum (4).
pub open spec fn tier_rank(tier: CreditTier) -> int {
    match tier {
        CreditTier::Unranked => 0,
        CreditTier::Bronze => 1,
        CreditTier::Silver => 2,
        CreditTier::Gold => 3,
        CreditTier::Platinum => 4,
    }
}

/// Computes the credit score of a farmer from the profile statistics.
///
/// Score = 100 (base) + harvest frequency (max 200) + sales consistency
/// (max 200) + income (max 200) + record regularity (max 150), at most 850.
pub fn calculate(total_harvests: u32, total_sales: u32, total_income_kes: u64, total_entries: u64) -> (score: u32)
    ensures
        score == score_of(total_harvests, total_sales, total_income_kes, total_entries),
        100 <= score <= 850,
{
    let harvest_product: u64 = (total_harvests as u64) * 25;
    let freq: u32 = if harvest_product < 200 { harvest_product as u32 } else { 200 };
    let sales_product: u64 = (total_sales as u64) * 30;
    let cons: u32 = if sales_product < 200 { sales_product as u32 } else { 200 };
    let income_units: u64 = total_income_kes / 500;
    let grow: u32 = if income_units < 200 { income_units as u32 } else { 200 };
    let reg: u32 = if total_entries < 15 { (total_entries * 10) as u32 } else { 150 };
    100 + freq + cons + grow + reg
}

/// Maps a score to its credit tier: 750..=850 Platinum, 650..=749 Gold,
/// 500..=649 Silver, 300..=499 Bronze, anything else Unranked.
pub fn to_tier(score: u32) -> (tier: CreditTier)
    ensures
        tier == tier_of(score),
{
    if 750 <= score && score <= 850 {
        CreditTier::Platinum
    } else if 650 <= score && score <= 749 {
        CreditTier::Gold
    } else if 500 <= score && score <= 649 {
        CreditTier::Silver
    } else if 300 <= score && score <= 499 {
        CreditTier::Bronze
    } else {
        CreditTier::Unranked
    }
}

/// The largest loan, in USDC, permitted for a tier.
pub fn max_loan_usdc(tier: &CreditTier) -> (limit: u64)
    ensures
        limit == loan_limit(*tier),
{
    match tier {
        CreditTier::Platinum => 5000,
        CreditTier::Gold => 2000,
        CreditTier::Silver => 800,
        CreditTier::Bronze => 200,
        CreditTier::Unranked => 50,
    }
}


/// Every credit score lies between the base of 100 and the cap of 850.
pub proof fn law_score_bounds(total_harvests: u32, total_sales: u32, total_income_kes: u64, total_entries: u64)
    ensures
        100 <= score_of(total_harvests, total_sales, total_income_kes, total_entries) <= 850,
{
}

/// The credit score never drops when a farmer records more harvests, more
/// sales, more income or more entries.
pub proof fn law_score_monotone(
    harvests_a: u32, sales_a: u32, income_a: u64, entries_a: u64,
    harvests_b: u32, sales_b: u32, income_b: u64, entries_b: u64,
)
    requires
        harvests_a <= harvests_b,
        sales_a <= sales_b,
        income_a <= income_b,
        entries_a <= entries_b,
    ensures
        score_of(harvests_a, sales_a, income_a, entries_a) <= score_of(harvests_b, sales_b, income_b, entries_b),
{
    assert(income_a / 500 <= income_b / 500) by (nonlinear_arith)
        requires income_a <= income_b;
}

/// A higher score (up to the cap of 850) never lands in a lower tier.
pub proof fn law_tier_monotone(score_a: u32, score_b: u32)
    requires
        score_a <= score_b <= 850,
    ensures
        tier_rank(tier_of(score_a)) <= tier_rank(tier_of(score_b)),
{
}

/// A higher tier never allows a smaller loan; so, up to the cap of 850, a
/// higher score never lowers the loan limit.
pub proof fn law_limit_monotone(score_a: u32, score_b: u32)
    requires
        score_a <= score_b <= 850,
    ensures
        loan_limit(tier_of(score_a)) <= loan_limit(tier_of(score_b)),
{
}

/// The score is the documented sum: 100, plus 25 per harvest up to 200, plus
/// 30 per sale up to 200, plus one per 500 of income up to 200, plus 10 per
/// entry up to 150; at most 850.
pub proof fn law_score_formula(total_harvests: u32, total_sales: u32, total_income_kes: u64, total_entries: u64)
    ensures
        ({
            let h: int = if 25 * total_harvests < 200 { 25 * total_harvests } else { 200 };
            let s: int = if 30 * total_sales < 200 { 30 * total_sales } else { 200 };
            let i: int = if total_income_kes / 500 < 200 { (total_income_kes / 500) as int } else { 200 };
            let e: int = if 10 * total_entries < 150 { 10 * total_entries } else { 150 };
            let sum = 100 + h + s + i + e;
            score_of(total_harvests, total_sales, total_income_kes, total_entries) == if sum < 850 { sum } else { 850 }
        }),
{
}

/// The tier bands: 750 to 850 Platinum, 650 to 749 Gold, 500 to 649 Silver,
/// 300 to 499 Bronze, any other score Unranked.
pub proof fn law_tier_bands(score: u32)
    ensures
        750 <= score <= 850 ==> tier_of(score) == CreditTier::Platinum,
        650 <= score <= 749 ==> tier_of(score) == CreditTier::Gold,
        500 <= score <= 649 ==> tier_of(score) == CreditTier::Silver,
        300 <= score <= 499 ==> tier_of(score) == CreditTier::Bronze,
        (score < 300 || score > 850) ==> tier_of(score) == CreditTier::Unranked,
{
}

} // verus!
