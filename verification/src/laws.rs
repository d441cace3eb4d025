//! Properties that span several ledger operations.

use vstd::prelude::*;
use crate::error::ContractError;
use crate::ledger::{
    counter_or_zero, ledger_upto, spec_apply_for_loan, spec_approve_loan, spec_get_admin,
    spec_get_credit_score, spec_get_entry, spec_get_farmer, spec_get_farmer_loan_id, spec_get_ledger, spec_get_loan,
    spec_initialize, spec_log_entry, spec_register_farmer, spec_reject_loan, spec_repay_loan, LedgerView,
};
use crate::score::{loan_limit, score_of, tier_of};
use crate::types::{EntryType, LedgerEntry, LoanApplication, LoanStatus};

verus! {

/// A loan may stay in its status, go from pending to disbursed or rejected,
/// or from disbursed to repaid.
pub open spec fn status_step(before: LoanStatus, after: LoanStatus) -> bool {
    ||| before == after
    ||| before == LoanStatus::Pending && after == LoanStatus::Disbursed
    ||| before == LoanStatus::Pending && after == LoanStatus::Rejected
    ||| before == LoanStatus::Disbursed && after == LoanStatus::Repaid
}

/// Every loan of `before` is still there in `after`, in its status or a
/// status it may move on to.
pub open spec fn loans_progress(before: LedgerView, after: LedgerView) -> bool {
    forall|id: u64| #[trigger] before.loans.contains_key(id) ==> {
        &&& after.loans.contains_key(id)
        &&& status_step(before.loans[id].status, after.loans[id].status)
    }
}

/// A refused operation changes nothing: the ledger, its loans and its
/// published events stay as they were.
pub proof fn law_refusal_changes_nothing(
    s: LedgerView,
    admin: String,
    farmer: String,
    lender: String,
    name: String,
    county: String,
    text: String,
    notes: String,
    entry_type: EntryType,
    small: u32,
    amount: u64,
    id: u64,
    now: u64,
)
    ensures
        spec_initialize(s, admin).1 is Err ==> spec_initialize(s, admin).0 == s,
        spec_register_farmer(s, farmer, name, county, text, small, now).1 is Err
            ==> spec_register_farmer(s, farmer, name, county, text, small, now).0 == s,
        spec_log_entry(s, farmer, entry_type, text, small, amount, notes, now).1 is Err
            ==> spec_log_entry(s, farmer, entry_type, text, small, amount, notes, now).0 == s,
        spec_apply_for_loan(s, farmer, lender, amount, small, text, now).1 is Err
            ==> spec_apply_for_loan(s, farmer, lender, amount, small, text, now).0 == s,
        spec_approve_loan(s, lender, id, now).1 is Err ==> spec_approve_loan(s, lender, id, now).0 == s,
        spec_reject_loan(s, lender, id).1 is Err ==> spec_reject_loan(s, lender, id).0 == s,
        spec_repay_loan(s, farmer, id, amount).1 is Err ==> spec_repay_loan(s, farmer, id, amount).0 == s,
{
}

/// The ledger is initialized once: afterwards the administrator reads back,
/// and a second `initialize` is refused with `AlreadyInitialized`.
pub proof fn law_initialize_once(s: LedgerView, admin: String, other: String)
    requires
        spec_initialize(s, admin).1 is Ok,
    ensures
        s.admin is None,
        spec_get_admin(spec_initialize(s, admin).0) == Ok::<String, ContractError>(admin),
        spec_initialize(spec_initialize(s, admin).0, other).1 == Err::<(), ContractError>(ContractError::AlreadyInitialized),
{
}

/// A registered farmer reads back with a fresh profile and the base score of
/// 100, is listed last among the farmers, and cannot register again.
pub proof fn law_register_then_read(
    s: LedgerView,
    farmer: String,
    name: String,
    county: String,
    primary_crop: String,
    farm_size_acres: u32,
    now: u64,
    name2: String,
    county2: String,
    crop2: String,
    size2: u32,
    now2: u64,
)
    requires
        spec_register_farmer(s, farmer, name, county, primary_crop, farm_size_acres, now).1 is Ok,
    ensures
        ({
            let t = spec_register_farmer(s, farmer, name, county, primary_crop, farm_size_acres, now).0;
            &&& spec_get_farmer(t, farmer@) == Ok::<_, ContractError>(
                crate::types::FarmerProfile {
                    address: farmer,
                    name,
                    county,
                    primary_crop,
                    farm_size_acres,
                    registered_at: now,
                    total_harvests: 0,
                    total_sales: 0,
                    total_income_kes: 0,
                    credit_score: 100,
                    tier: crate::types::CreditTier::Unranked,
                    active_loan: false,
                    total_entries: 0,
                },
            )
            &&& spec_register_farmer(s, farmer, name, county, primary_crop, farm_size_acres, now).1
                == spec_get_farmer(t, farmer@)
            &&& spec_get_credit_score(t, farmer@) == Ok::<u32, ContractError>(100)
            &&& t.farmers == s.farmers.push(farmer)
            &&& spec_register_farmer(t, farmer, name2, county2, crop2, size2, now2).1 == Err::<
                crate::types::FarmerProfile,
                ContractError,
            >(ContractError::FarmerAlreadyExists)
        }),
{
}

proof fn lemma_ledger_upto_unaffected(
    entries: Map<(Seq<char>, u64), LedgerEntry>,
    farmer: Seq<char>,
    key: (Seq<char>, u64),
    e: LedgerEntry,
    n: nat,
)
    requires
        key.0 != farmer || key.1 > n,
        n <= u64::MAX,
    ensures
        ledger_upto(entries.insert(key, e), farmer, n) == ledger_upto(entries, farmer, n),
    decreases n,
{
    if n > 0 {
        lemma_ledger_upto_unaffected(entries, farmer, key, e, (n - 1) as nat);
    }
}

/// A logged entry reads back under its id. When the farmer's entry counter
/// had not reached `u64::MAX`, the farmer's ledger
/// afterwards is the ledger before with the new entry appended.
pub proof fn law_log_entry_then_read(
    s: LedgerView,
    farmer: String,
    entry_type: EntryType,
    crop: String,
    qty_kg: u32,
    value_kes: u64,
    notes: String,
    now: u64,
)
    requires
        spec_log_entry(s, farmer, entry_type, crop, qty_kg, value_kes, notes, now).1 is Ok,
    ensures
        ({
            let (t, r) = spec_log_entry(s, farmer, entry_type, crop, qty_kg, value_kes, notes, now);
            let e = r->Ok_0;
            &&& spec_get_entry(t, farmer@, e.id) == Ok::<LedgerEntry, ContractError>(e)
            &&& counter_or_zero(s.entry_counters, farmer@) < u64::MAX ==> spec_get_ledger(t, farmer@)
                == spec_get_ledger(s, farmer@).push(e)
        }),
{
    let (t, r) = spec_log_entry(s, farmer, entry_type, crop, qty_kg, value_kes, notes, now);
    let e = r->Ok_0;
    let c = counter_or_zero(s.entry_counters, farmer@);
    if c < u64::MAX {
        lemma_ledger_upto_unaffected(s.entries, farmer@, (farmer@, e.id), e, c as nat);
        assert(e.id == c + 1);
        assert(((c + 1) as nat) as u64 == e.id);
    }
}

/// An accepted application reads back as a pending loan of the farmer with
/// the lender, amount, period and purpose asked for, nothing repaid and the
/// farmer's score at the time; it becomes the farmer's latest loan.
pub proof fn law_apply_then_read(
    s: LedgerView,
    farmer: String,
    lender: String,
    amount_usdc: u64,
    period_months: u32,
    purpose: String,
    now: u64,
)
    requires
        spec_apply_for_loan(s, farmer, lender, amount_usdc, period_months, purpose, now).1 is Ok,
    ensures
        ({
            let (t, r) = spec_apply_for_loan(s, farmer, lender, amount_usdc, period_months, purpose, now);
            let id = r->Ok_0;
            &&& spec_get_loan(t, id) == Ok::<LoanApplication, ContractError>(
                LoanApplication {
                    id,
                    farmer,
                    lender,
                    amount_usdc,
                    period_months,
                    purpose,
                    status: LoanStatus::Pending,
                    applied_at: now,
                    approved_at: 0,
                    repaid_amount: 0,
                    credit_score_at_application: s.profiles[farmer@].credit_score,
                },
            )
            &&& spec_get_farmer_loan_id(t, farmer@) == Some(id)
            &&& id == s.loan_counter.saturating_add(1)
        }),
{
}

/// Approving, rejecting and repaying only move loans forward: pending to
/// disbursed or rejected, disbursed to repaid; no loan disappears.
pub proof fn law_loan_lifecycle(s: LedgerView, lender: String, farmer: String, loan_id: u64, amount: u64, now: u64)
    ensures
        loans_progress(s, spec_approve_loan(s, lender, loan_id, now).0),
        loans_progress(s, spec_reject_loan(s, lender, loan_id).0),
        loans_progress(s, spec_repay_loan(s, farmer, loan_id, amount).0),
{
}

/// A loan is settled once: after approval it can be neither approved nor
/// rejected again, and after a full repayment it cannot be repaid again.
pub proof fn law_loan_settles_once(
    s: LedgerView,
    lender: String,
    farmer: String,
    loan_id: u64,
    amount: u64,
    amount2: u64,
    now: u64,
    now2: u64,
)
    ensures
        spec_approve_loan(s, lender, loan_id, now).1 is Ok ==> {
            let t = spec_approve_loan(s, lender, loan_id, now).0;
            &&& spec_approve_loan(t, lender, loan_id, now2).1 == Err::<LoanApplication, ContractError>(
                ContractError::LoanNotPending,
            )
            &&& spec_reject_loan(t, lender, loan_id).1 == Err::<(), ContractError>(ContractError::LoanNotPending)
        },
        (spec_repay_loan(s, farmer, loan_id, amount).1 matches Ok(l) && l.status == LoanStatus::Repaid) ==> {
            let t = spec_repay_loan(s, farmer, loan_id, amount).0;
            spec_repay_loan(t, farmer, loan_id, amount2).1 == Err::<LoanApplication, ContractError>(
                ContractError::LoanNotDisbursed,
            )
        },
{
}

/// A repayment that covers the loan closes it: the loan reads back as
/// repaid, and the farmer has no active loan and gains the repayment bonus
/// (50 points, capped at 850), with the tier of the new score.
pub proof fn law_full_repayment_frees_farmer(s: LedgerView, farmer: String, loan_id: u64, amount: u64)
    requires
        spec_repay_loan(s, farmer, loan_id, amount).1 matches Ok(l) && l.repaid_amount >= l.amount_usdc,
    ensures
        ({
            let t = spec_repay_loan(s, farmer, loan_id, amount).0;
            let before = s.profiles[farmer@];
            &&& spec_get_loan(t, loan_id) matches Ok(l) && l.status == LoanStatus::Repaid
            &&& spec_get_farmer(t, farmer@) matches Ok(p) && !p.active_loan
                && p.credit_score as int == (if before.credit_score + 50 < 850 { before.credit_score + 50 } else { 850 })
                && p.tier == tier_of(p.credit_score)
        }),
{
}

/// Logging is accepted exactly for registered farmers. It counts one more
/// entry, one more harvest for a harvest, one more sale and `value_kes` more
/// income for a sale (each saturating), and nothing else: an expense or a
/// harvest leaves income alone, so logging never lowers income. The score is
/// recomputed from the new counts, the tier follows the score, and the rest
/// of the profile is kept.
pub proof fn law_log_entry_statistics(
    s: LedgerView,
    farmer: String,
    entry_type: EntryType,
    crop: String,
    qty_kg: u32,
    value_kes: u64,
    notes: String,
    now: u64,
)
    ensures
        ({
            let (t, r) = spec_log_entry(s, farmer, entry_type, crop, qty_kg, value_kes, notes, now);
            &&& r is Ok <==> s.profiles.contains_key(farmer@)
            &&& r is Err ==> r == Err::<LedgerEntry, ContractError>(ContractError::FarmerNotFound)
            &&& r is Ok ==> {
                let p = s.profiles[farmer@];
                let q = t.profiles[farmer@];
                &&& t.profiles.contains_key(farmer@)
                &&& q.total_income_kes as int == if entry_type == EntryType::Sale {
                    if p.total_income_kes + value_kes > u64::MAX { u64::MAX as int } else { p.total_income_kes + value_kes }
                } else {
                    p.total_income_kes as int
                }
                &&& q.total_income_kes >= p.total_income_kes
                &&& q.total_harvests as int == if entry_type == EntryType::Harvest {
                    if p.total_harvests + 1 > u32::MAX { u32::MAX as int } else { p.total_harvests + 1 }
                } else {
                    p.total_harvests as int
                }
                &&& q.total_sales as int == if entry_type == EntryType::Sale {
                    if p.total_sales + 1 > u32::MAX { u32::MAX as int } else { p.total_sales + 1 }
                } else {
                    p.total_sales as int
                }
                &&& q.total_entries as int == if p.total_entries + 1 > u64::MAX {
                    u64::MAX as int
                } else {
                    p.total_entries + 1
                }
                &&& q.credit_score as int == score_of(q.total_harvests, q.total_sales, q.total_income_kes, q.total_entries)
                &&& q.tier == tier_of(q.credit_score)
                &&& q.address == p.address && q.name == p.name && q.county == p.county
                &&& q.primary_crop == p.primary_crop && q.farm_size_acres == p.farm_size_acres
                &&& q.registered_at == p.registered_at && q.active_loan == p.active_loan
                &&& r->Ok_0.entry_type == entry_type && r->Ok_0.value_kes == value_kes
                &&& r->Ok_0.quantity_kg == qty_kg && r->Ok_0.timestamp == now
            }
        }),
{
    let (t, r) = spec_log_entry(s, farmer, entry_type, crop, qty_kg, value_kes, notes, now);
    if r is Ok {
        let p = s.profiles[farmer@];
        let q = t.profiles[farmer@];
        crate::score::law_score_bounds(q.total_harvests, q.total_sales, q.total_income_kes, q.total_entries);
    }
}

/// Which application is accepted, and why one is refused: a registered
/// farmer with no active loan, a score of at least 200 and an amount within
/// the limit of the farmer's tier is always accepted; an amount over that
/// limit is the only reason for `AmountExceedsLimit`.
pub proof fn law_apply_decision(
    s: LedgerView,
    farmer: String,
    lender: String,
    amount_usdc: u64,
    period_months: u32,
    purpose: String,
    now: u64,
)
    ensures
        ({
            let r = spec_apply_for_loan(s, farmer, lender, amount_usdc, period_months, purpose, now).1;
            let registered = s.profiles.contains_key(farmer@);
            let p = s.profiles[farmer@];
            &&& r is Ok <==> (registered && !p.active_loan && p.credit_score >= 200 && amount_usdc <= loan_limit(p.tier))
            &&& r == Err::<u64, ContractError>(ContractError::FarmerNotFound) <==> !registered
            &&& r == Err::<u64, ContractError>(ContractError::ActiveLoanExists) <==> (registered && p.active_loan)
            &&& r == Err::<u64, ContractError>(ContractError::ScoreTooLow) <==> (registered && !p.active_loan
                && p.credit_score < 200)
            &&& r == Err::<u64, ContractError>(ContractError::AmountExceedsLimit) <==> (registered && !p.active_loan
                && p.credit_score >= 200 && amount_usdc > loan_limit(p.tier))
        }),
{
}

/// The loan limit of each tier: Unranked 50, Bronze 200, Silver 800, Gold
/// 2000 and Platinum 5000 USDC.
pub proof fn law_loan_limits()
    ensures
        loan_limit(crate::types::CreditTier::Unranked) == 50,
        loan_limit(crate::types::CreditTier::Bronze) == 200,
        loan_limit(crate::types::CreditTier::Silver) == 800,
        loan_limit(crate::types::CreditTier::Gold) == 2000,
        loan_limit(crate::types::CreditTier::Platinum) == 5000,
{
}

/// The score read for a farmer is the score of the stored profile, whatever
/// the farmer's loans: it is found exactly for registered farmers, and it
/// agrees with the profile that `get_farmer` reads.
pub proof fn law_score_read(s: LedgerView, farmer: Seq<char>)
    ensures
        spec_get_credit_score(s, farmer) is Ok <==> s.profiles.contains_key(farmer),
        spec_get_farmer(s, farmer) is Ok <==> s.profiles.contains_key(farmer),
        s.profiles.contains_key(farmer) ==> spec_get_credit_score(s, farmer) == Ok::<u32, ContractError>(
            s.profiles[farmer].credit_score,
        ) && spec_get_farmer(s, farmer) == Ok::<_, ContractError>(s.profiles[farmer]),
        spec_get_farmer(s, farmer) matches Ok(p) ==> spec_get_credit_score(s, farmer) == Ok::<u32, ContractError>(
            p.credit_score,
        ),
{
}

/// Reading a loan gives exactly the stored record, or `LoanNotFound`; the
/// latest loan id is exactly the stored one.
pub proof fn law_loan_read(s: LedgerView, loan_id: u64, farmer: Seq<char>)
    ensures
        s.loans.contains_key(loan_id) ==> spec_get_loan(s, loan_id) == Ok::<LoanApplication, ContractError>(
            s.loans[loan_id],
        ),
        !s.loans.contains_key(loan_id) ==> spec_get_loan(s, loan_id) == Err::<LoanApplication, ContractError>(
            ContractError::LoanNotFound,
        ),
        s.farmer_loan_ids.contains_key(farmer) ==> spec_get_farmer_loan_id(s, farmer) == Some(
            s.farmer_loan_ids[farmer],
        ),
        !s.farmer_loan_ids.contains_key(farmer) ==> spec_get_farmer_loan_id(s, farmer) == None::<u64>,
{
}

/// An approved loan reads back as returned: disbursed at `now`, otherwise as
/// it was.
pub proof fn law_approve_then_read(s: LedgerView, lender: String, loan_id: u64, now: u64)
    requires
        spec_approve_loan(s, lender, loan_id, now).1 is Ok,
    ensures
        ({
            let (t, r) = spec_approve_loan(s, lender, loan_id, now);
            let l = r->Ok_0;
            &&& spec_get_loan(t, loan_id) == Ok::<LoanApplication, ContractError>(l)
            &&& l.status == LoanStatus::Disbursed && l.approved_at == now
            &&& l == LoanApplication { status: LoanStatus::Disbursed, approved_at: now, ..s.loans[loan_id] }
            &&& t.profiles[l.farmer@].active_loan
        }),
{
}

/// A repayment is accepted exactly when the loan exists, is the caller's, is
/// disbursed, the amount does not exceed what remains, and, when it settles
/// the loan, the farmer is registered. The returned loan reads back, its
/// repaid amount grows by exactly `amount`, and it is marked repaid exactly
/// when the repaid amount reaches the loan amount. A repayment that does not
/// settle the loan leaves the profile alone; one that does frees the farmer
/// and adds the bonus of 50 points, capped at 850. (Stated of valid ledgers,
/// where nothing is repaid beyond a loan's amount.)
pub proof fn law_repay_result(s: LedgerView, farmer: String, loan_id: u64, amount: u64)
    requires
        s.valid(),
    ensures
        ({
            let (t, r) = spec_repay_loan(s, farmer, loan_id, amount);
            let l0 = s.loans[loan_id];
            let settles = l0.repaid_amount + amount >= l0.amount_usdc;
            &&& r is Ok <==> (s.loans.contains_key(loan_id) && l0.farmer@ == farmer@ && l0.status
                == LoanStatus::Disbursed && l0.repaid_amount + amount <= l0.amount_usdc && (settles
                ==> s.profiles.contains_key(farmer@)))
            &&& r matches Ok(l) ==> {
                &&& spec_get_loan(t, loan_id) == Ok::<LoanApplication, ContractError>(l)
                &&& l.repaid_amount == l0.repaid_amount + amount
                &&& l.status == (if settles { LoanStatus::Repaid } else { LoanStatus::Disbursed })
                &&& l.amount_usdc == l0.amount_usdc && l.farmer == l0.farmer && l.lender == l0.lender
                &&& !settles ==> t.profiles == s.profiles
                &&& settles ==> {
                    let p = s.profiles[farmer@];
                    let q = t.profiles[farmer@];
                    &&& !q.active_loan
                    &&& q.credit_score as int == (if p.credit_score + 50 < 850 { p.credit_score + 50 } else { 850 })
                    &&& q.tier == tier_of(q.credit_score)
                }
            }
        }),
{
}

/// `initialize` succeeds exactly on a ledger without an administrator.
pub proof fn law_initialize_decision(s: LedgerView, admin: String)
    ensures
        spec_initialize(s, admin).1 is Ok <==> s.admin is None,
        spec_initialize(s, admin).1 is Err ==> spec_initialize(s, admin).1 == Err::<(), ContractError>(
            ContractError::AlreadyInitialized,
        ),
{
}

/// `register_farmer` succeeds exactly for a farmer without a profile.
pub proof fn law_register_decision(
    s: LedgerView,
    farmer: String,
    name: String,
    county: String,
    primary_crop: String,
    farm_size_acres: u32,
    now: u64,
)
    ensures
        ({
            let r = spec_register_farmer(s, farmer, name, county, primary_crop, farm_size_acres, now).1;
            &&& r is Ok <==> !s.profiles.contains_key(farmer@)
            &&& r is Err ==> r == Err::<crate::types::FarmerProfile, ContractError>(ContractError::FarmerAlreadyExists)
        }),
{
}

/// The entry a log call returns takes the next id of the farmer's counter
/// (saturating), records the arguments, and publishes `EntryLogged` with the
/// type code (0 harvest, 1 sale, 2 expense) and the new score, then
/// `ScoreUpdated` exactly when the score changed.
pub proof fn law_log_entry_record(
    s: LedgerView,
    farmer: String,
    entry_type: EntryType,
    crop: String,
    qty_kg: u32,
    value_kes: u64,
    notes: String,
    now: u64,
)
    requires
        spec_log_entry(s, farmer, entry_type, crop, qty_kg, value_kes, notes, now).1 is Ok,
    ensures
        ({
            let (t, r) = spec_log_entry(s, farmer, entry_type, crop, qty_kg, value_kes, notes, now);
            let e = r->Ok_0;
            let c = if s.entry_counters.contains_key(farmer@) { s.entry_counters[farmer@] as int } else { 0 };
            let old_score = s.profiles[farmer@].credit_score;
            let new_score = t.profiles[farmer@].credit_score;
            let code: u32 = match entry_type {
                EntryType::Harvest => 0,
                EntryType::Sale => 1,
                EntryType::Expense => 2,
            };
            let logged = crate::events::ContractEvent::EntryLogged {
                farmer,
                entry_id: e.id,
                entry_type: code,
                value_kes,
                new_score,
            };
            &&& e.id as int == if c + 1 > u64::MAX { u64::MAX as int } else { c + 1 }
            &&& e == LedgerEntry { id: e.id, entry_type, crop, quantity_kg: qty_kg, value_kes, timestamp: now, notes }
            &&& t.entry_counters[farmer@] == e.id
            &&& t.events == if old_score != new_score {
                s.events.push(logged).push(
                    crate::events::ContractEvent::ScoreUpdated { farmer, old_score, new_score },
                )
            } else {
                s.events.push(logged)
            }
        }),
{
    let (t, r) = spec_log_entry(s, farmer, entry_type, crop, qty_kg, value_kes, notes, now);
    assert(t.events =~= (if s.profiles[farmer@].credit_score != t.profiles[farmer@].credit_score {
        s.events.push(crate::events::ContractEvent::EntryLogged {
            farmer,
            entry_id: r->Ok_0.id,
            entry_type: crate::ledger::entry_type_code(entry_type),
            value_kes,
            new_score: t.profiles[farmer@].credit_score,
        }).push(
            crate::events::ContractEvent::ScoreUpdated {
                farmer,
                old_score: s.profiles[farmer@].credit_score,
                new_score: t.profiles[farmer@].credit_score,
            },
        )
    } else {
        s.events.push(crate::events::ContractEvent::EntryLogged {
            farmer,
            entry_id: r->Ok_0.id,
            entry_type: crate::ledger::entry_type_code(entry_type),
            value_kes,
            new_score: t.profiles[farmer@].credit_score,
        })
    }));
}

/// Approval is accepted exactly when the loan exists, the caller is its
/// lender, it is pending and its farmer is registered; refusals come in
/// that order.
pub proof fn law_approve_decision(s: LedgerView, lender: String, loan_id: u64, now: u64)
    ensures
        ({
            let r = spec_approve_loan(s, lender, loan_id, now).1;
            let l = s.loans[loan_id];
            &&& r is Ok <==> (s.loans.contains_key(loan_id) && l.lender@ == lender@ && l.status == LoanStatus::Pending
                && s.profiles.contains_key(l.farmer@))
            &&& r == Err::<LoanApplication, ContractError>(ContractError::LoanNotFound) <==> !s.loans.contains_key(loan_id)
            &&& r == Err::<LoanApplication, ContractError>(ContractError::NotLoanLender) <==> (s.loans.contains_key(
                loan_id,
            ) && l.lender@ != lender@)
            &&& r == Err::<LoanApplication, ContractError>(ContractError::LoanNotPending) <==> (s.loans.contains_key(
                loan_id,
            ) && l.lender@ == lender@ && l.status != LoanStatus::Pending)
        }),
{
}

/// Rejection is accepted exactly when the loan exists, the caller is its
/// lender and it is pending; the loan then reads back rejected and otherwise
/// unchanged, and no other loan or profile changes.
pub proof fn law_reject_result(s: LedgerView, lender: String, loan_id: u64)
    ensures
        ({
            let (t, r) = spec_reject_loan(s, lender, loan_id);
            let l = s.loans[loan_id];
            &&& r is Ok <==> (s.loans.contains_key(loan_id) && l.lender@ == lender@ && l.status == LoanStatus::Pending)
            &&& r is Ok ==> {
                &&& spec_get_loan(t, loan_id) == Ok::<LoanApplication, ContractError>(
                    LoanApplication { status: LoanStatus::Rejected, ..l },
                )
                &&& t.profiles == s.profiles
                &&& forall|id: u64| id != loan_id ==> #[trigger] t.loans.contains_key(id) == s.loans.contains_key(id)
                    && t.loans[id] == s.loans[id]
            }
        }),
{
}

proof fn lemma_ledger_upto_contents(entries: Map<(Seq<char>, u64), LedgerEntry>, farmer: Seq<char>, n: nat)
    requires
        n <= u64::MAX,
        forall|id: u64| #[trigger] entries.contains_key((farmer, id)) ==> entries[(farmer, id)].id == id,
    ensures
        ({
            let l = ledger_upto(entries, farmer, n);
            &&& forall|i: int| 0 <= i < l.len() ==> 1 <= #[trigger] l[i].id <= n && entries.contains_key((farmer, l[i].id))
                && l[i] == entries[(farmer, l[i].id)]
            &&& forall|i: int, j: int| 0 <= i < j < l.len() ==> #[trigger] l[i].id < #[trigger] l[j].id
            &&& forall|id: u64| 1 <= id <= n && #[trigger] entries.contains_key((farmer, id))
                ==> exists|i: int| 0 <= i < l.len() && #[trigger] l[i].id == id
        }),
    decreases n,
{
    if n > 0 {
        let m = (n - 1) as nat;
        lemma_ledger_upto_contents(entries, farmer, m);
        let prev = ledger_upto(entries, farmer, m);
        let l = ledger_upto(entries, farmer, n);
        let k = n as u64;
        if entries.contains_key((farmer, k)) {
            assert(l == prev.push(entries[(farmer, k)]));
            assert forall|id: u64| 1 <= id <= n && #[trigger] entries.contains_key((farmer, id))
                implies exists|i: int| 0 <= i < l.len() && #[trigger] l[i].id == id by {
                if id == k {
                    assert(l[prev.len() as int].id == id);
                } else {
                    let i = choose|i: int| 0 <= i < prev.len() && #[trigger] prev[i].id == id;
                    assert(l[i].id == id);
                }
            }
        } else {
            assert forall|id: u64| 1 <= id <= n && #[trigger] entries.contains_key((farmer, id))
                implies exists|i: int| 0 <= i < l.len() && #[trigger] l[i].id == id by {
                assert(id != k);
            }
        }
    }
}

/// On a valid ledger, a farmer's ledger lists exactly that farmer's stored
/// entries, each once, in increasing id order.
pub proof fn law_ledger_read(s: LedgerView, farmer: Seq<char>)
    requires
        s.valid(),
    ensures
        ({
            let l = spec_get_ledger(s, farmer);
            &&& forall|i: int| 0 <= i < l.len() ==> s.entries.contains_key((farmer, #[trigger] l[i].id))
                && l[i] == s.entries[(farmer, l[i].id)]
            &&& forall|i: int, j: int| 0 <= i < j < l.len() ==> #[trigger] l[i].id < #[trigger] l[j].id
            &&& forall|id: u64| #[trigger] s.entries.contains_key((farmer, id))
                ==> exists|i: int| 0 <= i < l.len() && #[trigger] l[i].id == id
        }),
{
    let n = counter_or_zero(s.entry_counters, farmer);
    assert forall|id: u64| #[trigger] s.entries.contains_key((farmer, id)) implies s.entries[(farmer, id)].id == id by {
        let key = (farmer, id);
        assert(s.entries.contains_key(key));
    }
    lemma_ledger_upto_contents(s.entries, farmer, n as nat);
    let l = spec_get_ledger(s, farmer);
    assert forall|id: u64| #[trigger] s.entries.contains_key((farmer, id))
        implies exists|i: int| 0 <= i < l.len() && #[trigger] l[i].id == id by {
        let key = (farmer, id);
        assert(s.entries.contains_key(key));
        assert(1 <= id <= n);
    }
}

/// The other reads give exactly what is stored: an entry or
/// `FarmerNotFound`, the administrator or `NotInitialized`.
pub proof fn law_other_reads(s: LedgerView, farmer: Seq<char>, entry_id: u64)
    ensures
        s.entries.contains_key((farmer, entry_id)) ==> spec_get_entry(s, farmer, entry_id) == Ok::<
            LedgerEntry,
            ContractError,
        >(s.entries[(farmer, entry_id)]),
        !s.entries.contains_key((farmer, entry_id)) ==> spec_get_entry(s, farmer, entry_id) == Err::<
            LedgerEntry,
            ContractError,
        >(ContractError::FarmerNotFound),
        s.admin matches Some(a) ==> spec_get_admin(s) == Ok::<String, ContractError>(a),
        s.admin is None ==> spec_get_admin(s) == Err::<String, ContractError>(ContractError::NotInitialized),
{
}

} // verus!
