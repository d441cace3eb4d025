//! Runs of several operations, and what survives them.

use vstd::prelude::*;
use crate::error::ContractError;
use crate::ledger::{
    empty_ledger, law_apply_keeps_valid, law_approve_keeps_valid, law_initialize_keeps_valid,
    law_log_entry_keeps_valid, law_register_keeps_valid, law_reject_keeps_valid, law_repay_keeps_valid, law_take_events_keeps_valid,
    spec_apply_for_loan, spec_approve_loan, spec_get_admin, spec_get_entry, spec_get_farmer, spec_get_farmer_loan_id,
    spec_get_loan, spec_initialize, spec_log_entry, spec_register_farmer, spec_reject_loan, spec_repay_loan,
    LedgerView,
};
use crate::types::{EntryType, FarmerProfile, LedgerEntry, LoanApplication, LoanStatus};

verus! {

/// One state-changing call on the ledger, with its arguments.
pub enum LedgerOp {
    Initialize { admin: String },
    RegisterFarmer {
        farmer: String,
        name: String,
        county: String,
        primary_crop: String,
        farm_size_acres: u32,
        now: u64,
    },
    LogEntry {
        farmer: String,
        entry_type: EntryType,
        crop: String,
        qty_kg: u32,
        value_kes: u64,
        notes: String,
        now: u64,
    },
    ApplyForLoan {
        farmer: String,
        lender: String,
        amount_usdc: u64,
        period_months: u32,
        purpose: String,
        now: u64,
    },
    ApproveLoan { lender: String, loan_id: u64, now: u64 },
    RejectLoan { lender: String, loan_id: u64 },
    RepayLoan { farmer: String, loan_id: u64, amount: u64 },
    TakeEvents,
}

/// The ledger after one call, whether the call succeeds or is refused.
pub open spec fn apply_op(s: LedgerView, op: LedgerOp) -> LedgerView {
    match op {
        LedgerOp::Initialize { admin } => spec_initialize(s, admin).0,
        LedgerOp::RegisterFarmer { farmer, name, county, primary_crop, farm_size_acres, now } => spec_register_farmer(
            s,
            farmer,
            name,
            county,
            primary_crop,
            farm_size_acres,
            now,
        ).0,
        LedgerOp::LogEntry { farmer, entry_type, crop, qty_kg, value_kes, notes, now } => spec_log_entry(
            s,
            farmer,
            entry_type,
            crop,
            qty_kg,
            value_kes,
            notes,
            now,
        ).0,
        LedgerOp::ApplyForLoan { farmer, lender, amount_usdc, period_months, purpose, now } => spec_apply_for_loan(
            s,
            farmer,
            lender,
            amount_usdc,
            period_months,
            purpose,
            now,
        ).0,
        LedgerOp::ApproveLoan { lender, loan_id, now } => spec_approve_loan(s, lender, loan_id, now).0,
        LedgerOp::RejectLoan { lender, loan_id } => spec_reject_loan(s, lender, loan_id).0,
        LedgerOp::RepayLoan { farmer, loan_id, amount } => spec_repay_loan(s, farmer, loan_id, amount).0,
        LedgerOp::TakeEvents => LedgerView { events: Seq::empty(), ..s },
    }
}

/// The ledger after the calls `ops`, made in order.
pub open spec fn run(s: LedgerView, ops: Seq<LedgerOp>) -> LedgerView
    decreases ops.len(),
{
    if ops.len() == 0 {
        s
    } else {
        run(apply_op(s, ops[0]), ops.drop_first())
    }
}

proof fn lemma_rest<A>(ops: Seq<A>, i: int)
    requires
        ops.len() > 0,
        0 <= i < ops.len() - 1,
    ensures
        ops.drop_first()[i] == ops[i + 1],
{
}

/// Every run of calls keeps a valid ledger valid.
pub proof fn law_run_keeps_valid(s: LedgerView, ops: Seq<LedgerOp>)
    requires
        s.valid(),
    ensures
        run(s, ops).valid(),
    decreases ops.len(),
{
    if ops.len() > 0 {
        match ops[0] {
            LedgerOp::Initialize { admin } => law_initialize_keeps_valid(s, admin),
            LedgerOp::RegisterFarmer { farmer, name, county, primary_crop, farm_size_acres, now } =>
                law_register_keeps_valid(s, farmer, name, county, primary_crop, farm_size_acres, now),
            LedgerOp::LogEntry { farmer, entry_type, crop, qty_kg, value_kes, notes, now } =>
                law_log_entry_keeps_valid(s, farmer, entry_type, crop, qty_kg, value_kes, notes, now),
            LedgerOp::ApplyForLoan { farmer, lender, amount_usdc, period_months, purpose, now } =>
                law_apply_keeps_valid(s, farmer, lender, amount_usdc, period_months, purpose, now),
            LedgerOp::ApproveLoan { lender, loan_id, now } => law_approve_keeps_valid(s, lender, loan_id, now),
            LedgerOp::RejectLoan { lender, loan_id } => law_reject_keeps_valid(s, lender, loan_id),
            LedgerOp::RepayLoan { farmer, loan_id, amount } => law_repay_keeps_valid(s, farmer, loan_id, amount),
            LedgerOp::TakeEvents => law_take_events_keeps_valid(s),
        }
        law_run_keeps_valid(apply_op(s, ops[0]), ops.drop_first());
    }
}

// ── the administrator ──────────────────────────────────────────────────────

proof fn lemma_admin_kept(s: LedgerView, ops: Seq<LedgerOp>)
    requires
        s.admin is Some,
    ensures
        run(s, ops).admin == s.admin,
    decreases ops.len(),
{
    if ops.len() > 0 {
        lemma_admin_kept(apply_op(s, ops[0]), ops.drop_first());
    }
}

/// Once `initialize` succeeds, the administrator reads back after any
/// further calls.
pub proof fn law_admin_persists(s: LedgerView, admin: String, ops: Seq<LedgerOp>)
    requires
        spec_initialize(s, admin).1 is Ok,
    ensures
        spec_get_admin(run(spec_initialize(s, admin).0, ops)) == Ok::<String, ContractError>(admin),
{
    lemma_admin_kept(spec_initialize(s, admin).0, ops);
}

proof fn lemma_admin_unset(s: LedgerView, ops: Seq<LedgerOp>)
    requires
        s.admin is None,
        forall|i: int| 0 <= i < ops.len() ==> !(#[trigger] ops[i] is Initialize),
    ensures
        run(s, ops).admin is None,
    decreases ops.len(),
{
    if ops.len() > 0 {
        let rest = ops.drop_first();
        assert forall|i: int| 0 <= i < rest.len() implies !(#[trigger] rest[i] is Initialize) by {
            lemma_rest(ops, i);
        }
        assert(!(ops[0] is Initialize));
        lemma_admin_unset(apply_op(s, ops[0]), rest);
    }
}

/// Until some `initialize` call is made, there is no administrator.
pub proof fn law_admin_unset_until_initialized(ops: Seq<LedgerOp>)
    requires
        forall|i: int| 0 <= i < ops.len() ==> !(#[trigger] ops[i] is Initialize),
    ensures
        spec_get_admin(run(empty_ledger(), ops)) == Err::<String, ContractError>(ContractError::NotInitialized),
{
    lemma_admin_unset(empty_ledger(), ops);
}

// ── entries ────────────────────────────────────────────────────────────────

/// What keeps the entry `(farmer, id)` in place: the farmer is registered
/// and the farmer's counter has passed `id`.
pub open spec fn entry_anchored(s: LedgerView, farmer: Seq<char>, id: u64) -> bool {
    &&& s.profiles.contains_key(farmer)
    &&& s.entry_counters.contains_key(farmer)
    &&& id <= s.entry_counters[farmer]
    &&& s.entries.contains_key((farmer, id))
}

proof fn lemma_entry_kept(s: LedgerView, ops: Seq<LedgerOp>, farmer: Seq<char>, id: u64)
    requires
        entry_anchored(s, farmer, id),
        id < u64::MAX,
    ensures
        entry_anchored(run(s, ops), farmer, id),
        run(s, ops).entries[(farmer, id)] == s.entries[(farmer, id)],
    decreases ops.len(),
{
    if ops.len() > 0 {
        let t = apply_op(s, ops[0]);
        assert(entry_anchored(t, farmer, id) && t.entries[(farmer, id)] == s.entries[(farmer, id)]);
        lemma_entry_kept(t, ops.drop_first(), farmer, id);
    }
}

/// A logged entry whose id is below `u64::MAX` reads back after any further
/// calls. (The entry with id `u64::MAX` is overwritten by the next entry of
/// the same farmer, since the counter saturates.)
pub proof fn law_entry_persists(
    s: LedgerView,
    farmer: String,
    entry_type: EntryType,
    crop: String,
    qty_kg: u32,
    value_kes: u64,
    notes: String,
    now: u64,
    ops: Seq<LedgerOp>,
)
    requires
        spec_log_entry(s, farmer, entry_type, crop, qty_kg, value_kes, notes, now).1 matches Ok(e) && e.id < u64::MAX,
    ensures
        ({
            let (t, r) = spec_log_entry(s, farmer, entry_type, crop, qty_kg, value_kes, notes, now);
            let e = r->Ok_0;
            spec_get_entry(run(t, ops), farmer@, e.id) == Ok::<LedgerEntry, ContractError>(e)
        }),
{
    let (t, r) = spec_log_entry(s, farmer, entry_type, crop, qty_kg, value_kes, notes, now);
    let e = r->Ok_0;
    assert(entry_anchored(t, farmer@, e.id));
    lemma_entry_kept(t, ops, farmer@, e.id);
}

// ── profiles ───────────────────────────────────────────────────────────────

/// Whether a call, made on `s`, may write the profile of `farmer`: a
/// registration or an entry of that farmer, the approval of one of that
/// farmer's loans, or a repayment by that farmer.
pub open spec fn touches_profile(s: LedgerView, op: LedgerOp, farmer: Seq<char>) -> bool {
    match op {
        LedgerOp::RegisterFarmer { farmer: f, .. } => f@ == farmer,
        LedgerOp::LogEntry { farmer: f, .. } => f@ == farmer,
        LedgerOp::ApproveLoan { loan_id, .. } => s.loans.contains_key(loan_id) && s.loans[loan_id].farmer@ == farmer,
        LedgerOp::RepayLoan { farmer: f, .. } => f@ == farmer,
        _ => false,
    }
}

/// No call of the run `ops`, made from `s`, touches the profile of `farmer`.
pub open spec fn avoids_profile(s: LedgerView, ops: Seq<LedgerOp>, farmer: Seq<char>) -> bool
    decreases ops.len(),
{
    ops.len() == 0 || (!touches_profile(s, ops[0], farmer) && avoids_profile(
        apply_op(s, ops[0]),
        ops.drop_first(),
        farmer,
    ))
}

proof fn lemma_profile_kept(s: LedgerView, ops: Seq<LedgerOp>, farmer: Seq<char>)
    requires
        avoids_profile(s, ops, farmer),
    ensures
        spec_get_farmer(run(s, ops), farmer) == spec_get_farmer(s, farmer),
    decreases ops.len(),
{
    if ops.len() > 0 {
        let t = apply_op(s, ops[0]);
        assert(spec_get_farmer(t, farmer) == spec_get_farmer(s, farmer));
        lemma_profile_kept(t, ops.drop_first(), farmer);
    }
}

/// A registered profile reads back unchanged after any further calls that
/// leave it alone (no entry, approval of its loans or repayment by the farmer).
pub proof fn law_profile_persists(
    s: LedgerView,
    farmer: String,
    name: String,
    county: String,
    primary_crop: String,
    farm_size_acres: u32,
    now: u64,
    ops: Seq<LedgerOp>,
)
    requires
        ({
            let (t, r) = spec_register_farmer(s, farmer, name, county, primary_crop, farm_size_acres, now);
            r is Ok && avoids_profile(t, ops, farmer@)
        }),
    ensures
        ({
            let (t, r) = spec_register_farmer(s, farmer, name, county, primary_crop, farm_size_acres, now);
            spec_get_farmer(run(t, ops), farmer@) == Ok::<FarmerProfile, ContractError>(r->Ok_0)
        }),
{
    let (t, r) = spec_register_farmer(s, farmer, name, county, primary_crop, farm_size_acres, now);
    lemma_profile_kept(t, ops, farmer@);
}

proof fn lemma_unregistered_stays(s: LedgerView, ops: Seq<LedgerOp>, farmer: Seq<char>)
    requires
        !s.profiles.contains_key(farmer),
        forall|i: int| 0 <= i < ops.len() ==> !(#[trigger] ops[i] matches LedgerOp::RegisterFarmer { farmer: f, .. } && f@ == farmer),
    ensures
        !run(s, ops).profiles.contains_key(farmer),
    decreases ops.len(),
{
    if ops.len() > 0 {
        let rest = ops.drop_first();
        assert forall|i: int| 0 <= i < rest.len()
            implies !(#[trigger] rest[i] matches LedgerOp::RegisterFarmer { farmer: f, .. } && f@ == farmer) by {
            lemma_rest(ops, i);
        }
        assert(!(ops[0] matches LedgerOp::RegisterFarmer { farmer: f, .. } && f@ == farmer));
        let t = apply_op(s, ops[0]);
        assert(!t.profiles.contains_key(farmer));
        lemma_unregistered_stays(t, rest, farmer);
    }
}

/// A farmer who never registers is not found, whatever other calls are made.
pub proof fn law_unregistered_not_found(ops: Seq<LedgerOp>, farmer: Seq<char>)
    requires
        forall|i: int| 0 <= i < ops.len() ==> !(#[trigger] ops[i] matches LedgerOp::RegisterFarmer { farmer: f, .. } && f@ == farmer),
    ensures
        spec_get_farmer(run(empty_ledger(), ops), farmer) == Err::<FarmerProfile, ContractError>(ContractError::FarmerNotFound),
{
    lemma_unregistered_stays(empty_ledger(), ops, farmer);
}

// ── loans ──────────────────────────────────────────────────────────────────

/// The calls that act on an existing loan by its id.
pub open spec fn acts_on_loan(op: LedgerOp, id: u64) -> bool {
    match op {
        LedgerOp::ApproveLoan { loan_id, .. } => loan_id == id,
        LedgerOp::RejectLoan { loan_id, .. } => loan_id == id,
        LedgerOp::RepayLoan { loan_id, .. } => loan_id == id,
        _ => false,
    }
}

/// What keeps loan `id` in place once the ledger is initialized: it is
/// stored, and the loan counter has reached it without saturating.
pub open spec fn loan_anchored(s: LedgerView, id: u64) -> bool {
    &&& s.admin is Some
    &&& s.loans.contains_key(id)
    &&& id <= s.loan_counter
    &&& id < u64::MAX
}

proof fn lemma_loan_kept(s: LedgerView, ops: Seq<LedgerOp>, id: u64)
    requires
        loan_anchored(s, id),
        forall|i: int| 0 <= i < ops.len() ==> !acts_on_loan(#[trigger] ops[i], id),
    ensures
        loan_anchored(run(s, ops), id),
        run(s, ops).loans[id] == s.loans[id],
    decreases ops.len(),
{
    if ops.len() > 0 {
        let rest = ops.drop_first();
        assert forall|i: int| 0 <= i < rest.len() implies !acts_on_loan(#[trigger] rest[i], id) by {
            lemma_rest(ops, i);
        }
        assert(!acts_on_loan(ops[0], id));
        let t = apply_op(s, ops[0]);
        assert(loan_anchored(t, id) && t.loans[id] == s.loans[id]);
        lemma_loan_kept(t, rest, id);
    }
}

/// On an initialized ledger, an accepted application (with an id below
/// `u64::MAX`) reads back as that pending loan after any further calls that
/// do not approve, reject or repay it. (Before `initialize`, a later
/// `initialize` resets the loan counter and a new application may reuse the
/// id; at `u64::MAX` the saturating counter reuses it.)
pub proof fn law_loan_persists(
    s: LedgerView,
    farmer: String,
    lender: String,
    amount_usdc: u64,
    period_months: u32,
    purpose: String,
    now: u64,
    ops: Seq<LedgerOp>,
)
    requires
        s.admin is Some,
        spec_apply_for_loan(s, farmer, lender, amount_usdc, period_months, purpose, now).1 matches Ok(id)
            && id < u64::MAX && forall|i: int| 0 <= i < ops.len() ==> !acts_on_loan(#[trigger] ops[i], id),
    ensures
        ({
            let (t, r) = spec_apply_for_loan(s, farmer, lender, amount_usdc, period_months, purpose, now);
            let id = r->Ok_0;
            spec_get_loan(run(t, ops), id) matches Ok(x) && x == t.loans[id] && x.id == id && x.farmer == farmer
                && x.lender == lender && x.amount_usdc == amount_usdc && x.period_months == period_months
                && x.status == LoanStatus::Pending && x.repaid_amount == 0
        }),
{
    let (t, r) = spec_apply_for_loan(s, farmer, lender, amount_usdc, period_months, purpose, now);
    let id = r->Ok_0;
    lemma_loan_kept(t, ops, id);
}

proof fn lemma_loan_zero_absent(s: LedgerView, ops: Seq<LedgerOp>)
    requires
        !s.loans.contains_key(0),
    ensures
        !run(s, ops).loans.contains_key(0),
    decreases ops.len(),
{
    if ops.len() > 0 {
        lemma_loan_zero_absent(apply_op(s, ops[0]), ops.drop_first());
    }
}

/// No loan is ever stored under id 0: ids start at 1.
pub proof fn law_no_loan_zero(ops: Seq<LedgerOp>)
    ensures
        spec_get_loan(run(empty_ledger(), ops), 0) == Err::<LoanApplication, ContractError>(ContractError::LoanNotFound),
{
    lemma_loan_zero_absent(empty_ledger(), ops);
}

// ── latest loan ids ────────────────────────────────────────────────────────

proof fn lemma_latest_loan_kept(s: LedgerView, ops: Seq<LedgerOp>, farmer: Seq<char>)
    requires
        forall|i: int| 0 <= i < ops.len() ==> !(#[trigger] ops[i] matches LedgerOp::ApplyForLoan { farmer: f, .. } && f@ == farmer),
    ensures
        spec_get_farmer_loan_id(run(s, ops), farmer) == spec_get_farmer_loan_id(s, farmer),
    decreases ops.len(),
{
    if ops.len() > 0 {
        let rest = ops.drop_first();
        assert forall|i: int| 0 <= i < rest.len()
            implies !(#[trigger] rest[i] matches LedgerOp::ApplyForLoan { farmer: f, .. } && f@ == farmer) by {
            lemma_rest(ops, i);
        }
        assert(!(ops[0] matches LedgerOp::ApplyForLoan { farmer: f, .. } && f@ == farmer));
        let t = apply_op(s, ops[0]);
        assert(spec_get_farmer_loan_id(t, farmer) == spec_get_farmer_loan_id(s, farmer));
        lemma_latest_loan_kept(t, rest, farmer);
    }
}

/// After an accepted application, it stays the farmer's latest loan until
/// the farmer applies again.
pub proof fn law_latest_loan_persists(
    s: LedgerView,
    farmer: String,
    lender: String,
    amount_usdc: u64,
    period_months: u32,
    purpose: String,
    now: u64,
    ops: Seq<LedgerOp>,
)
    requires
        spec_apply_for_loan(s, farmer, lender, amount_usdc, period_months, purpose, now).1 is Ok,
        forall|i: int| 0 <= i < ops.len() ==> !(#[trigger] ops[i] matches LedgerOp::ApplyForLoan { farmer: f, .. } && f@ == farmer@),
    ensures
        ({
            let (t, r) = spec_apply_for_loan(s, farmer, lender, amount_usdc, period_months, purpose, now);
            spec_get_farmer_loan_id(run(t, ops), farmer@) == Some(r->Ok_0)
        }),
{
    let (t, r) = spec_apply_for_loan(s, farmer, lender, amount_usdc, period_months, purpose, now);
    lemma_latest_loan_kept(t, ops, farmer@);
}

/// A farmer who never applies has no latest loan.
pub proof fn law_no_latest_loan_without_application(ops: Seq<LedgerOp>, farmer: Seq<char>)
    requires
        forall|i: int| 0 <= i < ops.len() ==> !(#[trigger] ops[i] matches LedgerOp::ApplyForLoan { farmer: f, .. } && f@ == farmer),
    ensures
        spec_get_farmer_loan_id(run(empty_ledger(), ops), farmer) == None::<u64>,
{
    lemma_latest_loan_kept(empty_ledger(), ops, farmer);
}

} // verus!
