use shambachain::{
    ContractError, ContractEvent, CreditTier, EntryKey, EntryType, FarmerProfile, LedgerParts, LoanStatus,
    ShambaChain,
};

const FARMER: &str = "GFARMERWANJIKU";
const OTHER: &str = "GFARMEROTIENO";
const LENDER: &str = "GLENDERSACCO";
const ADMIN: &str = "GADMIN";

fn s(text: &str) -> String {
    String::from(text)
}

fn registered() -> ShambaChain {
    let mut chain = ShambaChain::new();
    chain.register_farmer(s(FARMER), s("Wanjiku"), s("Nyeri"), s("coffee"), 2500, 1_000).unwrap();
    chain.take_events();
    chain
}

fn log(chain: &mut ShambaChain, farmer: &str, t: EntryType, value: u64) {
    chain.log_entry(s(farmer), t, s("coffee"), 10, value, s(""), 2_000).unwrap();
}

/// A farmer with eight harvests: score 100 + 200 + 80 = 380, Bronze.
fn bronze_farmer() -> ShambaChain {
    let mut chain = registered();
    for _ in 0..8 {
        log(&mut chain, FARMER, EntryType::Harvest, 0);
    }
    chain.take_events();
    chain
}

#[test]
fn initialize_sets_admin_once() {
    let mut chain = ShambaChain::new();
    assert_eq!(chain.get_admin(), Err(ContractError::NotInitialized));
    assert_eq!(chain.initialize(s(ADMIN)), Ok(()));
    assert_eq!(chain.get_admin(), Ok(s(ADMIN)));
    assert_eq!(chain.initialize(s("GSOMEONE")), Err(ContractError::AlreadyInitialized));
    assert_eq!(chain.get_admin(), Ok(s(ADMIN)));
}

#[test]
fn register_creates_fresh_profile() {
    let mut chain = ShambaChain::new();
    let p = chain.register_farmer(s(FARMER), s("Wanjiku"), s("Nyeri"), s("coffee"), 2500, 1_000).unwrap();
    let expected = FarmerProfile {
        address: s(FARMER),
        name: s("Wanjiku"),
        county: s("Nyeri"),
        primary_crop: s("coffee"),
        farm_size_acres: 2500,
        registered_at: 1_000,
        total_harvests: 0,
        total_sales: 0,
        total_income_kes: 0,
        credit_score: 100,
        tier: CreditTier::Unranked,
        active_loan: false,
        total_entries: 0,
    };
    assert_eq!(p, expected);
    assert_eq!(chain.get_farmer(s(FARMER)), Ok(expected));
    assert_eq!(chain.get_credit_score(s(FARMER)), Ok(100));
    assert_eq!(
        chain.take_events(),
        vec![ContractEvent::FarmerRegistered { farmer: s(FARMER), name: s("Wanjiku"), county: s("Nyeri") }]
    );
}

#[test]
fn register_twice_is_refused() {
    let mut chain = registered();
    let r = chain.register_farmer(s(FARMER), s("Other"), s("Kisumu"), s("maize"), 1, 5);
    assert_eq!(r, Err(ContractError::FarmerAlreadyExists));
    assert_eq!(chain.get_farmer(s(FARMER)).unwrap().name, s("Wanjiku"));
    assert_eq!(chain.get_all_farmers(), vec![s(FARMER)]);
    assert!(chain.take_events().is_empty());
}

#[test]
fn farmers_listed_in_registration_order() {
    let mut chain = ShambaChain::new();
    assert!(chain.get_all_farmers().is_empty());
    chain.register_farmer(s(FARMER), s("A"), s("B"), s("C"), 1, 1).unwrap();
    chain.register_farmer(s(OTHER), s("D"), s("E"), s("F"), 2, 2).unwrap();
    assert_eq!(chain.get_all_farmers(), vec![s(FARMER), s(OTHER)]);
}

#[test]
fn unknown_farmer_is_not_found() {
    let mut chain = registered();
    assert_eq!(chain.get_farmer(s(OTHER)), Err(ContractError::FarmerNotFound));
    assert_eq!(chain.get_credit_score(s(OTHER)), Err(ContractError::FarmerNotFound));
    let r = chain.log_entry(s(OTHER), EntryType::Harvest, s("maize"), 1, 1, s(""), 3);
    assert_eq!(r, Err(ContractError::FarmerNotFound));
    let r = chain.apply_for_loan(s(OTHER), s(LENDER), 10, 6, s("seed"), 3);
    assert_eq!(r, Err(ContractError::FarmerNotFound));
    assert!(chain.get_ledger(s(OTHER)).is_empty());
    assert_eq!(chain.get_farmer_loan_id(s(OTHER)), None);
}

#[test]
fn harvest_entry_updates_profile_and_score() {
    let mut chain = registered();
    let e = chain.log_entry(s(FARMER), EntryType::Harvest, s("coffee"), 120, 0, s("first pick"), 5_000).unwrap();
    assert_eq!(e.id, 1);
    assert_eq!(e.entry_type, EntryType::Harvest);
    assert_eq!(e.quantity_kg, 120);
    assert_eq!(e.timestamp, 5_000);
    assert_eq!(e.notes, s("first pick"));
    let p = chain.get_farmer(s(FARMER)).unwrap();
    assert_eq!(p.total_harvests, 1);
    assert_eq!(p.total_sales, 0);
    assert_eq!(p.total_entries, 1);
    assert_eq!(p.credit_score, 135);
    assert_eq!(p.tier, CreditTier::Unranked);
    assert_eq!(
        chain.take_events(),
        vec![
            ContractEvent::EntryLogged { farmer: s(FARMER), entry_id: 1, entry_type: 0, value_kes: 0, new_score: 135 },
            ContractEvent::ScoreUpdated { farmer: s(FARMER), old_score: 100, new_score: 135 },
        ]
    );
}

#[test]
fn sale_entry_adds_income() {
    let mut chain = registered();
    let e = chain.log_entry(s(FARMER), EntryType::Sale, s("coffee"), 50, 50_000, s(""), 6_000).unwrap();
    assert_eq!(e.value_kes, 50_000);
    let p = chain.get_farmer(s(FARMER)).unwrap();
    assert_eq!(p.total_sales, 1);
    assert_eq!(p.total_income_kes, 50_000);
    // 100 + 30 (one sale) + 100 (income / 500) + 10 (one entry)
    assert_eq!(p.credit_score, 240);
    let events = chain.take_events();
    assert_eq!(events.len(), 2);
    assert_eq!(
        events[0],
        ContractEvent::EntryLogged { farmer: s(FARMER), entry_id: 1, entry_type: 1, value_kes: 50_000, new_score: 240 }
    );
}

#[test]
fn expense_entry_counts_only_as_entry() {
    let mut chain = registered();
    log(&mut chain, FARMER, EntryType::Expense, 9_999);
    let p = chain.get_farmer(s(FARMER)).unwrap();
    assert_eq!((p.total_harvests, p.total_sales, p.total_income_kes, p.total_entries), (0, 0, 0, 1));
    assert_eq!(p.credit_score, 110);
}

#[test]
fn unchanged_score_publishes_no_score_event() {
    let mut chain = registered();
    // 15 entries bring the regularity points to their cap of 150
    for _ in 0..15 {
        log(&mut chain, FARMER, EntryType::Expense, 0);
    }
    chain.take_events();
    log(&mut chain, FARMER, EntryType::Expense, 0);
    assert_eq!(
        chain.take_events(),
        vec![ContractEvent::EntryLogged { farmer: s(FARMER), entry_id: 16, entry_type: 2, value_kes: 0, new_score: 250 }]
    );
}

#[test]
fn ledger_lists_entries_in_id_order() {
    let mut chain = registered();
    assert!(chain.get_ledger(s(FARMER)).is_empty());
    let a = chain.log_entry(s(FARMER), EntryType::Harvest, s("coffee"), 1, 0, s("a"), 1).unwrap();
    let b = chain.log_entry(s(FARMER), EntryType::Sale, s("coffee"), 2, 700, s("b"), 2).unwrap();
    let c = chain.log_entry(s(FARMER), EntryType::Expense, s("fertiliser"), 3, 300, s("c"), 3).unwrap();
    assert_eq!((a.id, b.id, c.id), (1, 2, 3));
    assert_eq!(chain.get_ledger(s(FARMER)), vec![a.clone(), b.clone(), c.clone()]);
    assert_eq!(chain.get_entry(s(FARMER), 2), Ok(b));
    assert_eq!(chain.get_entry(s(FARMER), 4), Err(ContractError::FarmerNotFound));
    assert_eq!(chain.get_entry(s(OTHER), 1), Err(ContractError::FarmerNotFound));
}

#[test]
fn ledgers_are_kept_per_farmer() {
    let mut chain = registered();
    chain.register_farmer(s(OTHER), s("Otieno"), s("Kisumu"), s("rice"), 1000, 1).unwrap();
    log(&mut chain, FARMER, EntryType::Harvest, 0);
    log(&mut chain, OTHER, EntryType::Sale, 1_000);
    log(&mut chain, OTHER, EntryType::Sale, 1_000);
    assert_eq!(chain.get_ledger(s(FARMER)).len(), 1);
    let other = chain.get_ledger(s(OTHER));
    assert_eq!(other.iter().map(|e| e.id).collect::<Vec<_>>(), vec![1, 2]);
}

#[test]
fn loan_needs_score_of_two_hundred() {
    let mut chain = registered();
    let r = chain.apply_for_loan(s(FARMER), s(LENDER), 10, 6, s("seed"), 3);
    assert_eq!(r, Err(ContractError::ScoreTooLow));
    assert_eq!(chain.get_loan(1), Err(ContractError::LoanNotFound));
}

#[test]
fn loan_limited_by_tier() {
    let mut chain = registered();
    // four harvests: 100 + 100 + 40 = 240, still Unranked
    for _ in 0..4 {
        log(&mut chain, FARMER, EntryType::Harvest, 0);
    }
    assert_eq!(chain.get_credit_score(s(FARMER)), Ok(240));
    let r = chain.apply_for_loan(s(FARMER), s(LENDER), 51, 6, s("seed"), 3);
    assert_eq!(r, Err(ContractError::AmountExceedsLimit));
    assert_eq!(chain.apply_for_loan(s(FARMER), s(LENDER), 50, 6, s("seed"), 3), Ok(1));
}

#[test]
fn application_is_stored_pending() {
    let mut chain = bronze_farmer();
    assert_eq!(chain.get_farmer(s(FARMER)).unwrap().tier, CreditTier::Bronze);
    assert_eq!(chain.apply_for_loan(s(FARMER), s(LENDER), 201, 6, s("seed"), 7), Err(ContractError::AmountExceedsLimit));
    let id = chain.apply_for_loan(s(FARMER), s(LENDER), 200, 6, s("seed"), 7).unwrap();
    assert_eq!(id, 1);
    let loan = chain.get_loan(1).unwrap();
    assert_eq!(loan.id, 1);
    assert_eq!(loan.farmer, s(FARMER));
    assert_eq!(loan.lender, s(LENDER));
    assert_eq!(loan.amount_usdc, 200);
    assert_eq!(loan.period_months, 6);
    assert_eq!(loan.purpose, s("seed"));
    assert_eq!(loan.status, LoanStatus::Pending);
    assert_eq!(loan.applied_at, 7);
    assert_eq!(loan.approved_at, 0);
    assert_eq!(loan.repaid_amount, 0);
    assert_eq!(loan.credit_score_at_application, 380);
    assert_eq!(chain.get_farmer_loan_id(s(FARMER)), Some(1));
    assert_eq!(
        chain.take_events(),
        vec![ContractEvent::LoanApplied { farmer: s(FARMER), loan_id: 1, amount: 200, period: 6 }]
    );
    // a second application gets the next id and becomes the latest
    assert_eq!(chain.apply_for_loan(s(FARMER), s(LENDER), 100, 3, s("tools"), 8), Ok(2));
    assert_eq!(chain.get_farmer_loan_id(s(FARMER)), Some(2));
}

#[test]
fn approval_disburses_and_blocks_new_applications() {
    let mut chain = bronze_farmer();
    let id = chain.apply_for_loan(s(FARMER), s(LENDER), 200, 6, s("seed"), 7).unwrap();
    chain.take_events();
    assert_eq!(chain.approve_loan(s(OTHER), id, 9), Err(ContractError::NotLoanLender));
    assert_eq!(chain.approve_loan(s(LENDER), 99, 9), Err(ContractError::LoanNotFound));
    let loan = chain.approve_loan(s(LENDER), id, 9).unwrap();
    assert_eq!(loan.status, LoanStatus::Disbursed);
    assert_eq!(loan.approved_at, 9);
    assert_eq!(chain.get_loan(id), Ok(loan));
    assert!(chain.get_farmer(s(FARMER)).unwrap().active_loan);
    assert_eq!(
        chain.take_events(),
        vec![ContractEvent::LoanApproved { lender: s(LENDER), loan_id: id, farmer: s(FARMER) }]
    );
    assert_eq!(chain.approve_loan(s(LENDER), id, 10), Err(ContractError::LoanNotPending));
    assert_eq!(chain.reject_loan(s(LENDER), id), Err(ContractError::LoanNotPending));
    let r = chain.apply_for_loan(s(FARMER), s(LENDER), 10, 6, s("more"), 11);
    assert_eq!(r, Err(ContractError::ActiveLoanExists));
}

#[test]
fn rejection_marks_loan_rejected() {
    let mut chain = bronze_farmer();
    let id = chain.apply_for_loan(s(FARMER), s(LENDER), 100, 6, s("seed"), 7).unwrap();
    chain.take_events();
    assert_eq!(chain.reject_loan(s(OTHER), id), Err(ContractError::NotLoanLender));
    assert_eq!(chain.reject_loan(s(LENDER), 42), Err(ContractError::LoanNotFound));
    assert_eq!(chain.reject_loan(s(LENDER), id), Ok(()));
    assert_eq!(chain.get_loan(id).unwrap().status, LoanStatus::Rejected);
    assert!(!chain.get_farmer(s(FARMER)).unwrap().active_loan);
    assert!(chain.take_events().is_empty());
    assert_eq!(chain.approve_loan(s(LENDER), id, 9), Err(ContractError::LoanNotPending));
}

#[test]
fn repayment_checks() {
    let mut chain = bronze_farmer();
    let id = chain.apply_for_loan(s(FARMER), s(LENDER), 200, 6, s("seed"), 7).unwrap();
    assert_eq!(chain.repay_loan(s(FARMER), id, 10), Err(ContractError::LoanNotDisbursed));
    chain.approve_loan(s(LENDER), id, 9).unwrap();
    assert_eq!(chain.repay_loan(s(OTHER), id, 10), Err(ContractError::Unauthorized));
    assert_eq!(chain.repay_loan(s(FARMER), 77, 10), Err(ContractError::LoanNotFound));
    assert_eq!(chain.repay_loan(s(FARMER), id, 201), Err(ContractError::OverRepayment));
    assert_eq!(chain.get_loan(id).unwrap().repaid_amount, 0);
}

#[test]
fn partial_then_full_repayment() {
    let mut chain = bronze_farmer();
    let id = chain.apply_for_loan(s(FARMER), s(LENDER), 200, 6, s("seed"), 7).unwrap();
    chain.approve_loan(s(LENDER), id, 9).unwrap();
    chain.take_events();
    let loan = chain.repay_loan(s(FARMER), id, 120).unwrap();
    assert_eq!(loan.repaid_amount, 120);
    assert_eq!(loan.status, LoanStatus::Disbursed);
    assert!(chain.get_farmer(s(FARMER)).unwrap().active_loan);
    assert_eq!(chain.repay_loan(s(FARMER), id, 81), Err(ContractError::OverRepayment));
    let loan = chain.repay_loan(s(FARMER), id, 80).unwrap();
    assert_eq!(loan.repaid_amount, 200);
    assert_eq!(loan.status, LoanStatus::Repaid);
    let p = chain.get_farmer(s(FARMER)).unwrap();
    assert!(!p.active_loan);
    assert_eq!(p.credit_score, 430);
    assert_eq!(p.tier, CreditTier::Bronze);
    assert_eq!(
        chain.take_events(),
        vec![
            ContractEvent::LoanRepaid { farmer: s(FARMER), loan_id: id, amount: 120, fully_repaid: false },
            ContractEvent::LoanRepaid { farmer: s(FARMER), loan_id: id, amount: 80, fully_repaid: true },
        ]
    );
    assert_eq!(chain.repay_loan(s(FARMER), id, 0), Err(ContractError::LoanNotDisbursed));
    // with the loan closed the farmer may apply again
    assert_eq!(chain.apply_for_loan(s(FARMER), s(LENDER), 50, 1, s("again"), 20), Ok(2));
}

#[test]
fn repayment_bonus_is_capped_at_850() {
    let mut chain = registered();
    // 8 harvests, 7 sales, 100_000 income, 15 entries: score 850 would need
    // all of them; use 8 harvests + 6 sales (180) + 100 000 income: 820
    for _ in 0..8 {
        log(&mut chain, FARMER, EntryType::Harvest, 0);
    }
    for _ in 0..5 {
        log(&mut chain, FARMER, EntryType::Sale, 0);
    }
    log(&mut chain, FARMER, EntryType::Sale, 100_000);
    // 100 + 200 + 180 + 200 + 140
    assert_eq!(chain.get_credit_score(s(FARMER)), Ok(820));
    assert_eq!(chain.get_farmer(s(FARMER)).unwrap().tier, CreditTier::Platinum);
    let id = chain.apply_for_loan(s(FARMER), s(LENDER), 5_000, 12, s("tractor"), 30).unwrap();
    chain.approve_loan(s(LENDER), id, 31).unwrap();
    chain.repay_loan(s(FARMER), id, 5_000).unwrap();
    assert_eq!(chain.get_credit_score(s(FARMER)), Ok(850));
}

#[test]
fn zero_amount_loan_is_repaid_by_zero() {
    let mut chain = bronze_farmer();
    let id = chain.apply_for_loan(s(FARMER), s(LENDER), 0, 1, s("nothing"), 7).unwrap();
    chain.approve_loan(s(LENDER), id, 8).unwrap();
    let loan = chain.repay_loan(s(FARMER), id, 0).unwrap();
    assert_eq!(loan.status, LoanStatus::Repaid);
}

#[test]
fn refused_operations_change_nothing() {
    let mut chain = bronze_farmer();
    let id = chain.apply_for_loan(s(FARMER), s(LENDER), 100, 6, s("seed"), 7).unwrap();
    chain.take_events();
    let before_profile = chain.get_farmer(s(FARMER)).unwrap();
    let before_loan = chain.get_loan(id).unwrap();
    let before_ledger = chain.get_ledger(s(FARMER));
    assert!(chain.apply_for_loan(s(FARMER), s(LENDER), 201, 6, s("x"), 8).is_err());
    assert!(chain.approve_loan(s(OTHER), id, 8).is_err());
    assert!(chain.repay_loan(s(FARMER), id, 1).is_err());
    assert!(chain.register_farmer(s(FARMER), s("x"), s("y"), s("z"), 1, 1).is_err());
    assert!(chain.log_entry(s(OTHER), EntryType::Sale, s("x"), 1, 1, s(""), 1).is_err());
    assert_eq!(chain.get_farmer(s(FARMER)), Ok(before_profile));
    assert_eq!(chain.get_loan(id), Ok(before_loan));
    assert_eq!(chain.get_ledger(s(FARMER)), before_ledger);
    assert_eq!(chain.get_farmer_loan_id(s(FARMER)), Some(id));
    assert!(chain.take_events().is_empty());
}

#[test]
fn late_initialize_resets_loan_counter() {
    let mut chain = bronze_farmer();
    assert_eq!(chain.apply_for_loan(s(FARMER), s(LENDER), 100, 6, s("first"), 7), Ok(1));
    chain.initialize(s(ADMIN)).unwrap();
    // the counter starts again, and the next application takes id 1
    chain.reject_loan(s(LENDER), 1).unwrap();
    assert_eq!(chain.apply_for_loan(s(FARMER), s(LENDER), 50, 6, s("second"), 8), Ok(1));
    assert_eq!(chain.get_loan(1).unwrap().purpose, s("second"));
}

#[test]
fn parts_roundtrip_keeps_the_ledger() {
    let mut chain = bronze_farmer();
    let id = chain.apply_for_loan(s(FARMER), s(LENDER), 100, 6, s("seed"), 7).unwrap();
    chain.initialize(s(ADMIN)).unwrap();
    let ledger = chain.get_ledger(s(FARMER));
    let profile = chain.get_farmer(s(FARMER)).unwrap();
    let loan = chain.get_loan(id).unwrap();
    let parts = chain.into_parts();
    assert_eq!(parts.farmers, vec![s(FARMER)]);
    let restored = ShambaChain::restore(parts).unwrap();
    assert_eq!(restored.get_ledger(s(FARMER)), ledger);
    assert_eq!(restored.get_farmer(s(FARMER)), Ok(profile));
    assert_eq!(restored.get_loan(id), Ok(loan));
    assert_eq!(restored.get_admin(), Ok(s(ADMIN)));
    assert_eq!(restored.get_farmer_loan_id(s(FARMER)), Some(id));
}

#[test]
fn restore_refuses_duplicate_keys() {
    let parts = LedgerParts {
        admin: None,
        loan_counter: 0,
        farmers: vec![],
        profiles: vec![],
        entry_counters: vec![(s(FARMER), 1), (s(FARMER), 2)],
        entries: vec![],
        loans: vec![],
        farmer_loan_ids: vec![],
    };
    assert!(ShambaChain::restore(parts).is_none());
    let entry = shambachain::LedgerEntry {
        id: 1,
        entry_type: EntryType::Harvest,
        crop: s("tea"),
        quantity_kg: 1,
        value_kes: 1,
        timestamp: 1,
        notes: s(""),
    };
    let parts = LedgerParts {
        admin: None,
        loan_counter: 0,
        farmers: vec![],
        profiles: vec![],
        entry_counters: vec![(s(FARMER), 2)],
        entries: vec![
            (EntryKey { farmer: s(FARMER), id: 1 }, entry.clone()),
            (EntryKey { farmer: s(FARMER), id: 2 }, entry),
        ],
        loans: vec![],
        farmer_loan_ids: vec![],
    };
    let restored = ShambaChain::restore(parts).unwrap();
    assert_eq!(restored.get_ledger(s(FARMER)).len(), 2);
}

#[test]
fn records_persist_across_later_calls() {
    let mut chain = ShambaChain::new();
    chain.initialize(s(ADMIN)).unwrap();
    let profile = chain.register_farmer(s(OTHER), s("Otieno"), s("Kisumu"), s("rice"), 1000, 1).unwrap();
    chain.register_farmer(s(FARMER), s("Wanjiku"), s("Nyeri"), s("coffee"), 2500, 1_000).unwrap();
    for _ in 0..8 {
        log(&mut chain, FARMER, EntryType::Harvest, 0);
    }
    let first = chain.get_entry(s(FARMER), 1).unwrap();
    let id = chain.apply_for_loan(s(FARMER), s(LENDER), 100, 6, s("seed"), 7).unwrap();
    let loan = chain.get_loan(id).unwrap();
    // later calls that leave these records alone
    let second = chain.apply_for_loan(s(FARMER), s(LENDER), 50, 6, s("tools"), 8).unwrap();
    chain.approve_loan(s(LENDER), second, 9).unwrap();
    log(&mut chain, FARMER, EntryType::Sale, 5_000);
    chain.repay_loan(s(FARMER), second, 50).unwrap();
    chain.take_events();
    assert_eq!(chain.get_admin(), Ok(s(ADMIN)));
    assert_eq!(chain.get_farmer(s(OTHER)), Ok(profile));
    assert_eq!(chain.get_entry(s(FARMER), 1), Ok(first));
    assert_eq!(chain.get_loan(id), Ok(loan));
    assert_eq!(chain.get_farmer_loan_id(s(FARMER)), Some(second));
    assert_eq!(chain.get_farmer_loan_id(s(OTHER)), None);
    assert_eq!(chain.get_loan(0), Err(ContractError::LoanNotFound));
}

#[test]
fn huge_sale_scores_full_income_points() {
    let mut chain = registered();
    log(&mut chain, FARMER, EntryType::Sale, 2_147_483_648_000);
    // 100 + 30 (one sale) + 200 (income, capped) + 10 (one entry)
    assert_eq!(chain.get_credit_score(s(FARMER)), Ok(340));
}
