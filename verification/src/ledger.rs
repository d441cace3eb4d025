//! The ledger as a mathematical state, and what each operation does to it.

use vstd::prelude::*;
use crate::error::ContractError;
use crate::events::ContractEvent;
use crate::score::{law_score_bounds, loan_limit, score_of, tier_of, MAX_SCORE, MIN_LOAN_SCORE};
use crate::types::{CreditTier, EntryType, FarmerProfile, LedgerEntry, LoanApplication, LoanStatus};

verus! {

/// The whole state of the ledger. Addresses are keyed by their text.
#[verifier::ext_equal]
pub struct LedgerView {
    /// The administrator, once the ledger is initialized.
    pub admin: Option<String>,
    /// The id of the most recent loan application (0 before any).
    pub loan_counter: u64,
    /// Every registered farmer, in registration order.
    pub farmers: Seq<String>,
    pub profiles: Map<Seq<char>, FarmerProfile>,
    /// Per farmer, the id of the most recent ledger entry.
    pub entry_counters: Map<Seq<char>, u64>,
    /// Ledger entries, keyed by farmer and entry id.
    pub entries: Map<(Seq<char>, u64), LedgerEntry>,
    pub loans: Map<u64, LoanApplication>,
    /// Per farmer, the id of the most recent loan application.
    pub farmer_loan_ids: Map<Seq<char>, u64>,
    /// Events published so far, oldest first.
    pub events: Seq<ContractEvent>,
}

/// The ledger before any operation.
pub open spec fn empty_ledger() -> LedgerView {
    LedgerView {
        admin: None,
        loan_counter: 0,
        farmers: Seq::empty(),
        profiles: Map::empty(),
        entry_counters: Map::empty(),
        entries: Map::empty(),
        loans: Map::empty(),
        farmer_loan_ids: Map::empty(),
        events: Seq::empty(),
    }
}

/// A stored counter, or 0 where none is stored.
pub open spec fn counter_or_zero(m: Map<Seq<char>, u64>, k: Seq<char>) -> u64 {
    if m.contains_key(k) { m[k] } else { 0 }
}

/// The code under which an entry type is published: 0 harvest, 1 sale, 2 expense.
pub open spec fn entry_type_code(t: EntryType) -> u32 {
    match t {
        EntryType::Harvest => 0,
        EntryType::Sale => 1,
        EntryType::Expense => 2,
    }
}

/// The profile of a newly registered farmer.
pub open spec fn new_profile(
    farmer: String,
    name: String,
    county: String,
    primary_crop: String,
    farm_size_acres: u32,
    now: u64,
) -> FarmerProfile {
    FarmerProfile {
        address: farmer,
        name,
        county,
        primary_crop,
        farm_size_acres,
        registered_at: now,
        total_harvests: 0,
        total_sales: 0,
        total_income_kes: 0,
        credit_score: 100,
        tier: CreditTier::Unranked,
        active_loan: false,
        total_entries: 0,
    }
}

/// A profile after one more entry of the given type and value: the counts
/// grow (saturating), and the score and tier are recomputed from them.
pub open spec fn profile_after_entry(p: FarmerProfile, entry_type: EntryType, value_kes: u64) -> FarmerProfile {
    let harvests = if entry_type == EntryType::Harvest { p.total_harvests.saturating_add(1) } else { p.total_harvests };
    let sales = if entry_type == EntryType::Sale { p.total_sales.saturating_add(1) } else { p.total_sales };
    let income = if entry_type == EntryType::Sale { p.total_income_kes.saturating_add(value_kes) } else { p.total_income_kes };
    let entries = p.total_entries.saturating_add(1);
    let score = score_of(harvests, sales, income, entries) as u32;
    FarmerProfile {
        total_harvests: harvests,
        total_sales: sales,
        total_income_kes: income,
        total_entries: entries,
        credit_score: score,
        tier: tier_of(score),
        ..p
    }
}

/// The score after the repayment bonus: 50 more, capped at 850.
pub open spec fn boosted_score(score: u32) -> u32 {
    let raised = score.saturating_add(50);
    if raised < MAX_SCORE { raised } else { MAX_SCORE }
}

/// A profile after its loan is fully repaid: no active loan, and the score
/// raised by the repayment bonus.
pub open spec fn profile_after_repayment(p: FarmerProfile) -> FarmerProfile {
    let score = boosted_score(p.credit_score);
    FarmerProfile { active_loan: false, credit_score: score, tier: tier_of(score), ..p }
}

/// `initialize(admin)`: refused once an administrator is set; otherwise
/// records the administrator and sets the loan counter to 0.
pub open spec fn spec_initialize(s: LedgerView, admin: String) -> (LedgerView, Result<(), ContractError>) {
    if s.admin is Some {
        (s, Err(ContractError::AlreadyInitialized))
    } else {
        (LedgerView { admin: Some(admin), loan_counter: 0, ..s }, Ok(()))
    }
}

/// `register_farmer`: refused for a farmer who already has a profile;
/// otherwise stores a fresh profile and an entry counter of 0, appends the
/// farmer to the farmer list and publishes `FarmerRegistered`.
pub open spec fn spec_register_farmer(
    s: LedgerView,
    farmer: String,
    name: String,
    county: String,
    primary_crop: String,
    farm_size_acres: u32,
    now: u64,
) -> (LedgerView, Result<FarmerProfile, ContractError>) {
    if s.profiles.contains_key(farmer@) {
        (s, Err(ContractError::FarmerAlreadyExists))
    } else {
        let p = new_profile(farmer, name, county, primary_crop, farm_size_acres, now);
        (
            LedgerView {
                farmers: s.farmers.push(farmer),
                profiles: s.profiles.insert(farmer@, p),
                entry_counters: s.entry_counters.insert(farmer@, 0),
                events: s.events.push(ContractEvent::FarmerRegistered { farmer, name, county }),
                ..s
            },
            Ok(p),
        )
    }
}

/// `get_farmer`: the stored profile, or `FarmerNotFound`.
pub open spec fn spec_get_farmer(s: LedgerView, farmer: Seq<char>) -> Result<FarmerProfile, ContractError> {
    if s.profiles.contains_key(farmer) {
        Ok(s.profiles[farmer])
    } else {
        Err(ContractError::FarmerNotFound)
    }
}

/// The events that logging an entry publishes: `EntryLogged`, then
/// `ScoreUpdated` when the score changed.
pub open spec fn entry_events(
    farmer: String,
    id: u64,
    entry_type: EntryType,
    value_kes: u64,
    old_score: u32,
    new_score: u32,
) -> Seq<ContractEvent> {
    let logged = ContractEvent::EntryLogged {
        farmer,
        entry_id: id,
        entry_type: entry_type_code(entry_type),
        value_kes,
        new_score,
    };
    if old_score != new_score {
        seq![logged, ContractEvent::ScoreUpdated { farmer, old_score, new_score }]
    } else {
        seq![logged]
    }
}

/// `log_entry`: refused for an unregistered farmer; otherwise the entry gets
/// the next id of the farmer's counter (saturating), the profile counts and
/// score are updated, and the events are published.
pub open spec fn spec_log_entry(
    s: LedgerView,
    farmer: String,
    entry_type: EntryType,
    crop: String,
    qty_kg: u32,
    value_kes: u64,
    notes: String,
    now: u64,
) -> (LedgerView, Result<LedgerEntry, ContractError>) {
    if !s.profiles.contains_key(farmer@) {
        (s, Err(ContractError::FarmerNotFound))
    } else {
        let p = s.profiles[farmer@];
        let id = counter_or_zero(s.entry_counters, farmer@).saturating_add(1);
        let entry = LedgerEntry {
            id,
            entry_type,
            crop,
            quantity_kg: qty_kg,
            value_kes,
            timestamp: now,
            notes,
        };
        let np = profile_after_entry(p, entry_type, value_kes);
        (
            LedgerView {
                profiles: s.profiles.insert(farmer@, np),
                entry_counters: s.entry_counters.insert(farmer@, id),
                entries: s.entries.insert((farmer@, id), entry),
                events: s.events + entry_events(farmer, id, entry_type, value_kes, p.credit_score, np.credit_score),
                ..s
            },
            Ok(entry),
        )
    }
}

/// The entries of `farmer` stored under ids 1 to `n`, in id order.
pub open spec fn ledger_upto(entries: Map<(Seq<char>, u64), LedgerEntry>, farmer: Seq<char>, n: nat) -> Seq<LedgerEntry>
    decreases n,
{
    if n == 0 {
        Seq::empty()
    } else {
        let before = ledger_upto(entries, farmer, (n - 1) as nat);
        if entries.contains_key((farmer, n as u64)) {
            before.push(entries[(farmer, n as u64)])
        } else {
            before
        }
    }
}

/// `get_ledger`: the farmer's entries with ids from 1 to the farmer's counter.
pub open spec fn spec_get_ledger(s: LedgerView, farmer: Seq<char>) -> Seq<LedgerEntry> {
    ledger_upto(s.entries, farmer, counter_or_zero(s.entry_counters, farmer) as nat)
}

/// `get_entry`: the stored entry, or `FarmerNotFound` when there is none.
pub open spec fn spec_get_entry(s: LedgerView, farmer: Seq<char>, entry_id: u64) -> Result<LedgerEntry, ContractError> {
    if s.entries.contains_key((farmer, entry_id)) {
        Ok(s.entries[(farmer, entry_id)])
    } else {
        Err(ContractError::FarmerNotFound)
    }
}

/// `get_credit_score`: the profile's score, or `FarmerNotFound`.
pub open spec fn spec_get_credit_score(s: LedgerView, farmer: Seq<char>) -> Result<u32, ContractError> {
    if s.profiles.contains_key(farmer) {
        Ok(s.profiles[farmer].credit_score)
    } else {
        Err(ContractError::FarmerNotFound)
    }
}

/// `apply_for_loan`: checks, in this order, that the farmer is registered,
/// has no active loan, has a score of at least 200 and asks for no more than
/// the tier allows; then stores a pending application under the next loan
/// id (saturating), records it as the farmer's latest, and publishes
/// `LoanApplied`.
pub open spec fn spec_apply_for_loan(
    s: LedgerView,
    farmer: String,
    lender: String,
    amount_usdc: u64,
    period_months: u32,
    purpose: String,
    now: u64,
) -> (LedgerView, Result<u64, ContractError>) {
    if !s.profiles.contains_key(farmer@) {
        (s, Err(ContractError::FarmerNotFound))
    } else if s.profiles[farmer@].active_loan {
        (s, Err(ContractError::ActiveLoanExists))
    } else if s.profiles[farmer@].credit_score < MIN_LOAN_SCORE {
        (s, Err(ContractError::ScoreTooLow))
    } else if amount_usdc > loan_limit(s.profiles[farmer@].tier) {
        (s, Err(ContractError::AmountExceedsLimit))
    } else {
        let id = s.loan_counter.saturating_add(1);
        let loan = LoanApplication {
            id,
            farmer,
            lender,
            amount_usdc,
            period_months,
            purpose,
            status: LoanStatus::Pending,
            applied_at: now,
            approved_at: 0,
            repaid_amount: 0,
            credit_score_at_application: s.profiles[farmer@].credit_score,
        };
        (
            LedgerView {
                loan_counter: id,
                loans: s.loans.insert(id, loan),
                farmer_loan_ids: s.farmer_loan_ids.insert(farmer@, id),
                events: s.events.push(ContractEvent::LoanApplied { farmer, loan_id: id, amount: amount_usdc, period: period_months }),
                ..s
            },
            Ok(id),
        )
    }
}

/// `approve_loan`: checks that the loan exists, that the caller is its
/// lender, that it is pending and that its farmer is registered; then the
/// loan is disbursed at `now`, the farmer marked as having an active loan,
/// and `LoanApproved` published.
pub open spec fn spec_approve_loan(s: LedgerView, lender: String, loan_id: u64, now: u64) -> (
    LedgerView,
    Result<LoanApplication, ContractError>,
) {
    if !s.loans.contains_key(loan_id) {
        (s, Err(ContractError::LoanNotFound))
    } else if s.loans[loan_id].lender@ != lender@ {
        (s, Err(ContractError::NotLoanLender))
    } else if s.loans[loan_id].status != LoanStatus::Pending {
        (s, Err(ContractError::LoanNotPending))
    } else if !s.profiles.contains_key(s.loans[loan_id].farmer@) {
        (s, Err(ContractError::FarmerNotFound))
    } else {
        let l = s.loans[loan_id];
        let nl = LoanApplication { status: LoanStatus::Disbursed, approved_at: now, ..l };
        let p = s.profiles[l.farmer@];
        (
            LedgerView {
                profiles: s.profiles.insert(l.farmer@, FarmerProfile { active_loan: true, ..p }),
                loans: s.loans.insert(loan_id, nl),
                events: s.events.push(ContractEvent::LoanApproved { lender, loan_id, farmer: l.farmer }),
                ..s
            },
            Ok(nl),
        )
    }
}

/// `reject_loan`: checks that the loan exists, that the caller is its lender
/// and that it is pending; then marks it rejected.
pub open spec fn spec_reject_loan(s: LedgerView, lender: String, loan_id: u64) -> (LedgerView, Result<(), ContractError>) {
    if !s.loans.contains_key(loan_id) {
        (s, Err(ContractError::LoanNotFound))
    } else if s.loans[loan_id].lender@ != lender@ {
        (s, Err(ContractError::NotLoanLender))
    } else if s.loans[loan_id].status != LoanStatus::Pending {
        (s, Err(ContractError::LoanNotPending))
    } else {
        let l = s.loans[loan_id];
        (LedgerView { loans: s.loans.insert(loan_id, LoanApplication { status: LoanStatus::Rejected, ..l }), ..s }, Ok(()))
    }
}

/// `repay_loan`: checks that the loan exists, belongs to the caller, is
/// disbursed, and that `amount` does not exceed what remains; the repaid
/// amount grows by `amount`. When that covers the loan, it is marked repaid
/// and the farmer's profile (which must exist) loses its active loan and
/// gains the repayment bonus. `LoanRepaid` is published.
pub open spec fn spec_repay_loan(s: LedgerView, farmer: String, loan_id: u64, amount: u64) -> (
    LedgerView,
    Result<LoanApplication, ContractError>,
) {
    if !s.loans.contains_key(loan_id) {
        (s, Err(ContractError::LoanNotFound))
    } else if s.loans[loan_id].farmer@ != farmer@ {
        (s, Err(ContractError::Unauthorized))
    } else if s.loans[loan_id].status != LoanStatus::Disbursed {
        (s, Err(ContractError::LoanNotDisbursed))
    } else if amount > s.loans[loan_id].amount_usdc.saturating_sub(s.loans[loan_id].repaid_amount) {
        (s, Err(ContractError::OverRepayment))
    } else {
        let l = s.loans[loan_id];
        let repaid = l.repaid_amount.saturating_add(amount);
        let fully = repaid >= l.amount_usdc;
        if fully && !s.profiles.contains_key(farmer@) {
            (s, Err(ContractError::FarmerNotFound))
        } else {
            let nl = LoanApplication {
                repaid_amount: repaid,
                status: if fully { LoanStatus::Repaid } else { l.status },
                ..l
            };
            let profiles = if fully {
                s.profiles.insert(farmer@, profile_after_repayment(s.profiles[farmer@]))
            } else {
                s.profiles
            };
            (
                LedgerView {
                    profiles,
                    loans: s.loans.insert(loan_id, nl),
                    events: s.events.push(ContractEvent::LoanRepaid { farmer, loan_id, amount, fully_repaid: fully }),
                    ..s
                },
                Ok(nl),
            )
        }
    }
}

/// `get_loan`: the stored loan, or `LoanNotFound`.
pub open spec fn spec_get_loan(s: LedgerView, loan_id: u64) -> Result<LoanApplication, ContractError> {
    if s.loans.contains_key(loan_id) {
        Ok(s.loans[loan_id])
    } else {
        Err(ContractError::LoanNotFound)
    }
}

/// `get_farmer_loan_id`: the id of the farmer's most recent application, if any.
pub open spec fn spec_get_farmer_loan_id(s: LedgerView, farmer: Seq<char>) -> Option<u64> {
    if s.farmer_loan_ids.contains_key(farmer) {
        Some(s.farmer_loan_ids[farmer])
    } else {
        None
    }
}

/// `get_admin`: the administrator, or `NotInitialized`.
pub open spec fn spec_get_admin(s: LedgerView) -> Result<String, ContractError> {
    match s.admin {
        Some(a) => Ok(a),
        None => Err(ContractError::NotInitialized),
    }
}


/// A stored profile is consistent: it is filed under its own address, its
/// score lies between 100 and 850, and its tier is the tier of its score.
pub open spec fn profile_valid(key: Seq<char>, p: FarmerProfile) -> bool {
    &&& p.address@ == key
    &&& 100 <= p.credit_score <= 850
    &&& p.tier == tier_of(p.credit_score)
}

impl LedgerView {
    /// What holds of every ledger that the operations can reach from the
    /// empty one.
    pub open spec fn valid(self) -> bool {
        // profiles
        &&& forall|k: Seq<char>| #[trigger] self.profiles.contains_key(k) ==> profile_valid(k, self.profiles[k])
        &&& forall|k: Seq<char>| #[trigger] self.profiles.contains_key(k)
            ==> self.entry_counters.contains_key(k) && self.entry_counters[k] == self.profiles[k].total_entries
        &&& forall|k: Seq<char>| #[trigger] self.entry_counters.contains_key(k) ==> self.profiles.contains_key(k)
        // the farmer list holds each registered farmer exactly once
        &&& forall|i: int| 0 <= i < self.farmers.len() ==> self.profiles.contains_key(#[trigger] self.farmers[i]@)
        &&& forall|k: Seq<char>| #[trigger] self.profiles.contains_key(k)
            ==> exists|i: int| 0 <= i < self.farmers.len() && #[trigger] self.farmers[i]@ == k
        &&& forall|i: int, j: int| 0 <= i < self.farmers.len() && 0 <= j < self.farmers.len() && i != j
            ==> #[trigger] self.farmers[i]@ != #[trigger] self.farmers[j]@
        // loans
        &&& forall|id: u64| #[trigger] self.loans.contains_key(id) ==> {
            &&& self.loans[id].id == id
            &&& self.loans[id].repaid_amount <= self.loans[id].amount_usdc
            &&& self.profiles.contains_key(self.loans[id].farmer@)
            &&& self.loans[id].status != LoanStatus::Approved
            &&& self.loans[id].status == LoanStatus::Pending ==> self.loans[id].repaid_amount == 0
            &&& self.loans[id].status == LoanStatus::Rejected ==> self.loans[id].repaid_amount == 0
            &&& self.loans[id].status == LoanStatus::Repaid
                ==> self.loans[id].repaid_amount == self.loans[id].amount_usdc
        }
        &&& forall|k: Seq<char>| #[trigger] self.farmer_loan_ids.contains_key(k)
            ==> self.loans.contains_key(self.farmer_loan_ids[k])
        // entries
        &&& forall|key: (Seq<char>, u64)| #[trigger] self.entries.contains_key(key) ==> {
            &&& self.profiles.contains_key(key.0)
            &&& self.entries[key].id == key.1
            &&& 1 <= key.1 <= self.entry_counters[key.0]
        }
    }
}

/// The empty ledger is valid.
pub proof fn law_empty_valid()
    ensures
        empty_ledger().valid(),
{
}

/// `initialize` keeps the ledger valid.
pub proof fn law_initialize_keeps_valid(s: LedgerView, admin: String)
    requires
        s.valid(),
    ensures
        spec_initialize(s, admin).0.valid(),
{
    let t = spec_initialize(s, admin).0;
    assert(t.farmers == s.farmers && t.profiles == s.profiles);
    assert forall|k: Seq<char>| #[trigger] t.profiles.contains_key(k)
        implies exists|i: int| 0 <= i < t.farmers.len() && #[trigger] t.farmers[i]@ == k by {
        let i = choose|i: int| 0 <= i < s.farmers.len() && #[trigger] s.farmers[i]@ == k;
        assert(t.farmers[i]@ == k);
    }
}

/// `register_farmer` keeps the ledger valid.
pub proof fn law_register_keeps_valid(
    s: LedgerView,
    farmer: String,
    name: String,
    county: String,
    primary_crop: String,
    farm_size_acres: u32,
    now: u64,
)
    requires
        s.valid(),
    ensures
        spec_register_farmer(s, farmer, name, county, primary_crop, farm_size_acres, now).0.valid(),
{
    if !s.profiles.contains_key(farmer@) {
        let t = spec_register_farmer(s, farmer, name, county, primary_crop, farm_size_acres, now).0;
        assert forall|k: Seq<char>| #[trigger] t.profiles.contains_key(k)
            implies exists|i: int| 0 <= i < t.farmers.len() && #[trigger] t.farmers[i]@ == k by {
            if k == farmer@ {
                assert(t.farmers[s.farmers.len() as int]@ == k);
            } else {
                let i = choose|i: int| 0 <= i < s.farmers.len() && #[trigger] s.farmers[i]@ == k;
                assert(t.farmers[i]@ == k);
            }
        }
        assert forall|i: int, j: int| 0 <= i < t.farmers.len() && 0 <= j < t.farmers.len() && i != j
            implies #[trigger] t.farmers[i]@ != #[trigger] t.farmers[j]@ by {
            if i == s.farmers.len() {
                assert(s.profiles.contains_key(s.farmers[j]@));
            } else if j == s.farmers.len() {
                assert(s.profiles.contains_key(s.farmers[i]@));
            } else {
                assert(t.farmers[i] == s.farmers[i] && t.farmers[j] == s.farmers[j]);
            }
        }
        assert forall|i: int| 0 <= i < t.farmers.len() implies t.profiles.contains_key(#[trigger] t.farmers[i]@) by {
            if i < s.farmers.len() {
                assert(t.farmers[i] == s.farmers[i]);
            }
        }
        assert forall|key: (Seq<char>, u64)| #[trigger] t.entries.contains_key(key) implies {
            &&& t.profiles.contains_key(key.0)
            &&& t.entries[key].id == key.1
            &&& 1 <= key.1 <= t.entry_counters[key.0]
        } by {
            assert(s.profiles.contains_key(key.0));
        }
    }
}


/// The farmer list is consistent with the profiles.
pub open spec fn farmers_listed(t: LedgerView) -> bool {
    &&& forall|i: int| 0 <= i < t.farmers.len() ==> t.profiles.contains_key(#[trigger] t.farmers[i]@)
    &&& forall|k: Seq<char>| #[trigger] t.profiles.contains_key(k)
        ==> exists|i: int| 0 <= i < t.farmers.len() && #[trigger] t.farmers[i]@ == k
    &&& forall|i: int, j: int| 0 <= i < t.farmers.len() && 0 <= j < t.farmers.len() && i != j
        ==> #[trigger] t.farmers[i]@ != #[trigger] t.farmers[j]@
}

proof fn lemma_farmers_listed_kept(s: LedgerView, t: LedgerView)
    requires
        s.valid(),
        t.farmers == s.farmers,
        t.profiles.dom() == s.profiles.dom(),
    ensures
        farmers_listed(t),
{
    assert forall|k: Seq<char>| #[trigger] t.profiles.contains_key(k)
        implies exists|i: int| 0 <= i < t.farmers.len() && #[trigger] t.farmers[i]@ == k by {
        assert(s.profiles.contains_key(k));
        let i = choose|i: int| 0 <= i < s.farmers.len() && #[trigger] s.farmers[i]@ == k;
        assert(t.farmers[i]@ == k);
    }
    assert forall|i: int| 0 <= i < t.farmers.len() implies t.profiles.contains_key(#[trigger] t.farmers[i]@) by {
        assert(s.profiles.contains_key(s.farmers[i]@));
    }
}

/// `log_entry` keeps the ledger valid.
pub proof fn law_log_entry_keeps_valid(
    s: LedgerView,
    farmer: String,
    entry_type: EntryType,
    crop: String,
    qty_kg: u32,
    value_kes: u64,
    notes: String,
    now: u64,
)
    requires
        s.valid(),
    ensures
        spec_log_entry(s, farmer, entry_type, crop, qty_kg, value_kes, notes, now).0.valid(),
{
    if s.profiles.contains_key(farmer@) {
        let t = spec_log_entry(s, farmer, entry_type, crop, qty_kg, value_kes, notes, now).0;
        let p = s.profiles[farmer@];
        let np = profile_after_entry(p, entry_type, value_kes);
        let harvests = if entry_type == EntryType::Harvest { p.total_harvests.saturating_add(1) } else { p.total_harvests };
        let sales = if entry_type == EntryType::Sale { p.total_sales.saturating_add(1) } else { p.total_sales };
        let income = if entry_type == EntryType::Sale { p.total_income_kes.saturating_add(value_kes) } else { p.total_income_kes };
        let entries = p.total_entries.saturating_add(1);
        law_score_bounds(harvests, sales, income, entries);
        assert(profile_valid(farmer@, np));
        assert(t.profiles.dom() =~= s.profiles.dom());
        lemma_farmers_listed_kept(s, t);
    }
}

/// `apply_for_loan` keeps the ledger valid.
pub proof fn law_apply_keeps_valid(
    s: LedgerView,
    farmer: String,
    lender: String,
    amount_usdc: u64,
    period_months: u32,
    purpose: String,
    now: u64,
)
    requires
        s.valid(),
    ensures
        spec_apply_for_loan(s, farmer, lender, amount_usdc, period_months, purpose, now).0.valid(),
{
    let t = spec_apply_for_loan(s, farmer, lender, amount_usdc, period_months, purpose, now).0;
    lemma_farmers_listed_kept(s, t);
}

/// `approve_loan` keeps the ledger valid.
pub proof fn law_approve_keeps_valid(s: LedgerView, lender: String, loan_id: u64, now: u64)
    requires
        s.valid(),
    ensures
        spec_approve_loan(s, lender, loan_id, now).0.valid(),
{
    let t = spec_approve_loan(s, lender, loan_id, now).0;
    if s.loans.contains_key(loan_id) && s.profiles.contains_key(s.loans[loan_id].farmer@) {
        assert(t.profiles.dom() =~= s.profiles.dom());
    }
    lemma_farmers_listed_kept(s, t);
}

/// `reject_loan` keeps the ledger valid.
pub proof fn law_reject_keeps_valid(s: LedgerView, lender: String, loan_id: u64)
    requires
        s.valid(),
    ensures
        spec_reject_loan(s, lender, loan_id).0.valid(),
{
    let t = spec_reject_loan(s, lender, loan_id).0;
    lemma_farmers_listed_kept(s, t);
}

/// `repay_loan` keeps the ledger valid.
pub proof fn law_repay_keeps_valid(s: LedgerView, farmer: String, loan_id: u64, amount: u64)
    requires
        s.valid(),
    ensures
        spec_repay_loan(s, farmer, loan_id, amount).0.valid(),
{
    let t = spec_repay_loan(s, farmer, loan_id, amount).0;
    if s.loans.contains_key(loan_id) && s.profiles.contains_key(farmer@) {
        assert(t.profiles.dom() =~= s.profiles.dom());
    }
    lemma_farmers_listed_kept(s, t);
}

/// Handing out the published events keeps the ledger valid.
pub proof fn law_take_events_keeps_valid(s: LedgerView)
    requires
        s.valid(),
    ensures
        (LedgerView { events: Seq::empty(), ..s }).valid(),
{
    lemma_farmers_listed_kept(s, LedgerView { events: Seq::empty(), ..s });
}

} // verus!
