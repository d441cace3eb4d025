//! The ledger itself: every operation of the contract, checked against the
//! model in [`crate::ledger`].

use vstd::prelude::*;
use crate::error::ContractError;
use crate::events::{ContractEvent, Events};
use crate::ledger::{
    law_apply_keeps_valid, law_approve_keeps_valid, law_initialize_keeps_valid, law_log_entry_keeps_valid,
    law_register_keeps_valid, law_reject_keeps_valid, law_repay_keeps_valid,
    counter_or_zero, empty_ledger, entry_type_code, ledger_upto, profile_after_entry,
    profile_after_repayment, spec_apply_for_loan, spec_approve_loan, spec_get_admin, spec_get_credit_score,
    spec_get_entry, spec_get_farmer, spec_get_farmer_loan_id, spec_get_ledger, spec_get_loan, spec_initialize,
    spec_log_entry, spec_register_farmer, spec_reject_loan, spec_repay_loan, LedgerView,
};
use crate::score::{calculate, max_loan_usdc, to_tier, MAX_SCORE, MIN_LOAN_SCORE};
use crate::table::{keys_distinct, map_of, EntryKey, Table};
use crate::types::{CreditTier, EntryType, FarmerProfile, LedgerEntry, LoanApplication, LoanStatus};

verus! {

/// The stored records of a ledger, table by table, as they are kept between
/// calls; published events are not part of them.
pub struct LedgerParts {
    pub admin: Option<String>,
    pub loan_counter: u64,
    pub farmers: Vec<String>,
    pub profiles: Vec<(String, FarmerProfile)>,
    pub entry_counters: Vec<(String, u64)>,
    pub entries: Vec<(EntryKey, LedgerEntry)>,
    pub loans: Vec<(u64, LoanApplication)>,
    pub farmer_loan_ids: Vec<(String, u64)>,
}

/// The tables of `parts` each hold every key at most once.
pub open spec fn parts_distinct(parts: LedgerParts) -> bool {
    &&& keys_distinct(parts.profiles@)
    &&& keys_distinct(parts.entry_counters@)
    &&& keys_distinct(parts.entries@)
    &&& keys_distinct(parts.loans@)
    &&& keys_distinct(parts.farmer_loan_ids@)
}

/// The ledger that `parts` stand for, with no published events.
pub open spec fn parts_view(parts: LedgerParts) -> LedgerView {
    LedgerView {
        admin: parts.admin,
        loan_counter: parts.loan_counter,
        farmers: parts.farmers@,
        profiles: map_of(parts.profiles@),
        entry_counters: map_of(parts.entry_counters@),
        entries: map_of(parts.entries@),
        loans: map_of(parts.loans@),
        farmer_loan_ids: map_of(parts.farmer_loan_ids@),
        events: Seq::empty(),
    }
}

/// The ShambaChain ledger: farmers, their entries, their loans, and the
/// events published by the operations.
pub struct ShambaChain {
    admin: Option<String>,
    loan_counter: u64,
    farmers: Vec<String>,
    profiles: Table<String, FarmerProfile>,
    entry_counters: Table<String, u64>,
    entries: Table<EntryKey, LedgerEntry>,
    loans: Table<u64, LoanApplication>,
    farmer_loan_ids: Table<String, u64>,
    events: Vec<ContractEvent>,
}

impl View for ShambaChain {
    type V = LedgerView;

    closed spec fn view(&self) -> LedgerView {
        LedgerView {
            admin: self.admin,
            loan_counter: self.loan_counter,
            farmers: self.farmers@,
            profiles: self.profiles@,
            entry_counters: self.entry_counters@,
            entries: self.entries@,
            loans: self.loans@,
            farmer_loan_ids: self.farmer_loan_ids@,
            events: self.events@,
        }
    }
}

fn entry_type_code_of(t: &EntryType) -> (c: u32)
    ensures
        c == entry_type_code(*t),
{
    match t {
        EntryType::Harvest => 0,
        EntryType::Sale => 1,
        EntryType::Expense => 2,
    }
}

impl ShambaChain {
    /// The tables are well formed.
    pub closed spec fn wf(&self) -> bool {
        &&& self.profiles.wf()
        &&& self.entry_counters.wf()
        &&& self.entries.wf()
        &&& self.loans.wf()
        &&& self.farmer_loan_ids.wf()
    }

    /// An empty ledger: not initialized, no farmers, no loans.
    pub fn new() -> (c: Self)
        ensures
            c.wf(),
            c@ == empty_ledger(),
            c@.valid(),
    {
        proof {
            crate::ledger::law_empty_valid();
        }
        let c = ShambaChain {
            admin: None,
            loan_counter: 0,
            farmers: Vec::new(),
            profiles: Table::new(),
            entry_counters: Table::new(),
            entries: Table::new(),
            loans: Table::new(),
            farmer_loan_ids: Table::new(),
            events: Vec::new(),
        };
        assert(c@ =~= empty_ledger());
        c
    }

    /// Sets the administrator; refused if the ledger is already initialized.
    pub fn initialize(&mut self, admin: String) -> (r: Result<(), ContractError>)
        requires
            old(self).wf(),
        ensures
            final(self).wf(),
            final(self)@ == spec_initialize(old(self)@, admin).0,
            r == spec_initialize(old(self)@, admin).1,
            old(self)@.valid() ==> final(self)@.valid(),
    {
        proof {
            if old(self)@.valid() {
                law_initialize_keeps_valid(old(self)@, admin);
            }
        }
        if self.admin.is_some() {
            return Err(ContractError::AlreadyInitialized);
        }
        self.admin = Some(admin);
        self.loan_counter = 0;
        assert(self@ =~= spec_initialize(old(self)@, admin).0);
        Ok(())
    }

    /// Registers a farmer with a fresh profile dated `now`.
    pub fn register_farmer(
        &mut self,
        farmer: String,
        name: String,
        county: String,
        primary_crop: String,
        farm_size_acres: u32,
        now: u64,
    ) -> (r: Result<FarmerProfile, ContractError>)
        requires
            old(self).wf(),
        ensures
            final(self).wf(),
            final(self)@ == spec_register_farmer(old(self)@, farmer, name, county, primary_crop, farm_size_acres, now).0,
            r == spec_register_farmer(old(self)@, farmer, name, county, primary_crop, farm_size_acres, now).1,
            old(self)@.valid() ==> final(self)@.valid(),
    {
        proof {
            if old(self)@.valid() {
                law_register_keeps_valid(old(self)@, farmer, name, county, primary_crop, farm_size_acres, now);
            }
        }
        if self.profiles.contains(&farmer) {
            return Err(ContractError::FarmerAlreadyExists);
        }
        let profile = FarmerProfile {
            address: farmer.clone(),
            name: name.clone(),
            county: county.clone(),
            primary_crop,
            farm_size_acres,
            registered_at: now,
            total_harvests: 0,
            total_sales: 0,
            total_income_kes: 0,
            credit_score: 100,
            tier: CreditTier::Unranked,
            active_loan: false,
            total_entries: 0,
        };
        self.profiles.insert(farmer.clone(), profile.clone());
        self.entry_counters.insert(farmer.clone(), 0);
        self.farmers.push(farmer.clone());
        self.events.push(Events::farmer_registered(farmer, name, county));
        assert(self@ =~= spec_register_farmer(old(self)@, farmer, name, county, primary_crop, farm_size_acres, now).0);
        Ok(profile)
    }

    /// The profile of a farmer.
    pub fn get_farmer(&self, farmer: String) -> (r: Result<FarmerProfile, ContractError>)
        requires
            self.wf(),
        ensures
            r == spec_get_farmer(self@, farmer@),
    {
        match self.profiles.get(&farmer) {
            Some(p) => Ok(p.clone()),
            None => Err(ContractError::FarmerNotFound),
        }
    }

    /// Every registered farmer, in registration order.
    pub fn get_all_farmers(&self) -> (r: Vec<String>)
        ensures
            r@ == self@.farmers,
    {
        self.farmers.clone()
    }

    /// Records a harvest, sale or expense for a registered farmer, updating
    /// the farmer's statistics, credit score and tier.
    pub fn log_entry(
        &mut self,
        farmer: String,
        entry_type: EntryType,
        crop: String,
        qty_kg: u32,
        value_kes: u64,
        notes: String,
        now: u64,
    ) -> (r: Result<LedgerEntry, ContractError>)
        requires
            old(self).wf(),
        ensures
            final(self).wf(),
            final(self)@ == spec_log_entry(old(self)@, farmer, entry_type, crop, qty_kg, value_kes, notes, now).0,
            r == spec_log_entry(old(self)@, farmer, entry_type, crop, qty_kg, value_kes, notes, now).1,
            old(self)@.valid() ==> final(self)@.valid(),
    {
        proof {
            if old(self)@.valid() {
                law_log_entry_keeps_valid(old(self)@, farmer, entry_type, crop, qty_kg, value_kes, notes, now);
            }
        }
        let mut profile = match self.profiles.get(&farmer) {
            Some(p) => p.clone(),
            None => return Err(ContractError::FarmerNotFound),
        };
        let ghost old_profile = profile;
        let mut counter: u64 = match self.entry_counters.get(&farmer) {
            Some(c) => *c,
            None => 0,
        };
        counter = counter.saturating_add(1);
        let entry = LedgerEntry {
            id: counter,
            entry_type,
            crop,
            quantity_kg: qty_kg,
            value_kes,
            timestamp: now,
            notes,
        };
        match entry_type {
            EntryType::Harvest => {
                profile.total_harvests = profile.total_harvests.saturating_add(1);
            },
            EntryType::Sale => {
                profile.total_sales = profile.total_sales.saturating_add(1);
                profile.total_income_kes = profile.total_income_kes.saturating_add(value_kes);
            },
            EntryType::Expense => {},
        }
        let type_code = entry_type_code_of(&entry_type);
        profile.total_entries = profile.total_entries.saturating_add(1);
        let old_score = profile.credit_score;
        let new_score = calculate(
            profile.total_harvests,
            profile.total_sales,
            profile.total_income_kes,
            profile.total_entries,
        );
        profile.credit_score = new_score;
        profile.tier = to_tier(new_score);
        assert(profile == profile_after_entry(old_profile, entry_type, value_kes));
        self.entries.insert(EntryKey { farmer: farmer.clone(), id: counter }, entry.clone());
        self.entry_counters.insert(farmer.clone(), counter);
        self.profiles.insert(farmer.clone(), profile);
        self.events.push(Events::entry_logged(farmer.clone(), counter, type_code, value_kes, new_score));
        if old_score != new_score {
            self.events.push(Events::score_updated(farmer, old_score, new_score));
        }
        assert(self@ =~= spec_log_entry(old(self)@, farmer, entry_type, crop, qty_kg, value_kes, notes, now).0);
        Ok(entry)
    }

    /// The farmer's entries with ids from 1 up to the farmer's entry counter,
    /// in id order.
    pub fn get_ledger(&self, farmer: String) -> (r: Vec<LedgerEntry>)
        requires
            self.wf(),
        ensures
            r@ == spec_get_ledger(self@, farmer@),
    {
        let count: u64 = match self.entry_counters.get(&farmer) {
            Some(c) => *c,
            None => 0,
        };
        let mut out: Vec<LedgerEntry> = Vec::new();
        let mut id: u64 = 0;
        while id < count
            invariant
                self.wf(),
                id <= count,
                count == counter_or_zero(self@.entry_counters, farmer@),
                out@ == ledger_upto(self@.entries, farmer@, id as nat),
            decreases count - id,
        {
            id = id + 1;
            let key = EntryKey { farmer: farmer.clone(), id };
            match self.entries.get(&key) {
                Some(e) => out.push(e.clone()),
                None => {},
            }
        }
        out
    }

    /// The entry with the given id; `FarmerNotFound` when there is none.
    pub fn get_entry(&self, farmer: String, entry_id: u64) -> (r: Result<LedgerEntry, ContractError>)
        requires
            self.wf(),
        ensures
            r == spec_get_entry(self@, farmer@, entry_id),
    {
        let key = EntryKey { farmer, id: entry_id };
        match self.entries.get(&key) {
            Some(e) => Ok(e.clone()),
            None => Err(ContractError::FarmerNotFound),
        }
    }

    /// The farmer's credit score.
    pub fn get_credit_score(&self, farmer: String) -> (r: Result<u32, ContractError>)
        requires
            self.wf(),
        ensures
            r == spec_get_credit_score(self@, farmer@),
    {
        match self.profiles.get(&farmer) {
            Some(p) => Ok(p.credit_score),
            None => Err(ContractError::FarmerNotFound),
        }
    }

    /// Files a loan application of a registered farmer with a lender.
    pub fn apply_for_loan(
        &mut self,
        farmer: String,
        lender: String,
        amount_usdc: u64,
        period_months: u32,
        purpose: String,
        now: u64,
    ) -> (r: Result<u64, ContractError>)
        requires
            old(self).wf(),
        ensures
            final(self).wf(),
            final(self)@ == spec_apply_for_loan(old(self)@, farmer, lender, amount_usdc, period_months, purpose, now).0,
            r == spec_apply_for_loan(old(self)@, farmer, lender, amount_usdc, period_months, purpose, now).1,
            old(self)@.valid() ==> final(self)@.valid(),
    {
        proof {
            if old(self)@.valid() {
                law_apply_keeps_valid(old(self)@, farmer, lender, amount_usdc, period_months, purpose, now);
            }
        }
        let (active_loan, score, tier) = match self.profiles.get(&farmer) {
            Some(p) => (p.active_loan, p.credit_score, p.tier),
            None => return Err(ContractError::FarmerNotFound),
        };
        if active_loan {
            return Err(ContractError::ActiveLoanExists);
        }
        if score < MIN_LOAN_SCORE {
            return Err(ContractError::ScoreTooLow);
        }
        let max = max_loan_usdc(&tier);
        if amount_usdc > max {
            return Err(ContractError::AmountExceedsLimit);
        }
        let loan_ctr = self.loan_counter.saturating_add(1);
        let loan = LoanApplication {
            id: loan_ctr,
            farmer: farmer.clone(),
            lender,
            amount_usdc,
            period_months,
            purpose,
            status: LoanStatus::Pending,
            applied_at: now,
            approved_at: 0,
            repaid_amount: 0,
            credit_score_at_application: score,
        };
        self.loans.insert(loan_ctr, loan);
        self.loan_counter = loan_ctr;
        self.farmer_loan_ids.insert(farmer.clone(), loan_ctr);
        self.events.push(Events::loan_applied(farmer, loan_ctr, amount_usdc, period_months));
        assert(self@ =~= spec_apply_for_loan(old(self)@, farmer, lender, amount_usdc, period_months, purpose, now).0);
        Ok(loan_ctr)
    }

    /// Disburses a pending loan; only its lender may do so.
    pub fn approve_loan(&mut self, lender: String, loan_id: u64, now: u64) -> (r: Result<LoanApplication, ContractError>)
        requires
            old(self).wf(),
        ensures
            final(self).wf(),
            final(self)@ == spec_approve_loan(old(self)@, lender, loan_id, now).0,
            r == spec_approve_loan(old(self)@, lender, loan_id, now).1,
            old(self)@.valid() ==> final(self)@.valid(),
    {
        proof {
            if old(self)@.valid() {
                law_approve_keeps_valid(old(self)@, lender, loan_id, now);
            }
        }
        let mut loan = match self.loans.get(&loan_id) {
            Some(l) => l.clone(),
            None => return Err(ContractError::LoanNotFound),
        };
        if loan.lender != lender {
            return Err(ContractError::NotLoanLender);
        }
        if loan.status != LoanStatus::Pending {
            return Err(ContractError::LoanNotPending);
        }
        loan.status = LoanStatus::Disbursed;
        loan.approved_at = now;
        let mut profile = match self.profiles.get(&loan.farmer) {
            Some(p) => p.clone(),
            None => return Err(ContractError::FarmerNotFound),
        };
        profile.active_loan = true;
        self.profiles.insert(loan.farmer.clone(), profile);
        self.loans.insert(loan_id, loan.clone());
        self.events.push(Events::loan_approved(lender, loan_id, loan.farmer.clone()));
        assert(self@ =~= spec_approve_loan(old(self)@, lender, loan_id, now).0);
        Ok(loan)
    }

    /// Rejects a pending loan; only its lender may do so.
    pub fn reject_loan(&mut self, lender: String, loan_id: u64) -> (r: Result<(), ContractError>)
        requires
            old(self).wf(),
        ensures
            final(self).wf(),
            final(self)@ == spec_reject_loan(old(self)@, lender, loan_id).0,
            r == spec_reject_loan(old(self)@, lender, loan_id).1,
            old(self)@.valid() ==> final(self)@.valid(),
    {
        proof {
            if old(self)@.valid() {
                law_reject_keeps_valid(old(self)@, lender, loan_id);
            }
        }
        let mut loan = match self.loans.get(&loan_id) {
            Some(l) => l.clone(),
            None => return Err(ContractError::LoanNotFound),
        };
        if loan.lender != lender {
            return Err(ContractError::NotLoanLender);
        }
        if loan.status != LoanStatus::Pending {
            return Err(ContractError::LoanNotPending);
        }
        loan.status = LoanStatus::Rejected;
        self.loans.insert(loan_id, loan);
        assert(self@ =~= spec_reject_loan(old(self)@, lender, loan_id).0);
        Ok(())
    }

    /// Repays part or all of a disbursed loan; only its farmer may do so.
    /// Full repayment closes the loan and raises the farmer's score by 50,
    /// capped at 850.
    pub fn repay_loan(&mut self, farmer: String, loan_id: u64, amount: u64) -> (r: Result<LoanApplication, ContractError>)
        requires
            old(self).wf(),
        ensures
            final(self).wf(),
            final(self)@ == spec_repay_loan(old(self)@, farmer, loan_id, amount).0,
            r == spec_repay_loan(old(self)@, farmer, loan_id, amount).1,
            old(self)@.valid() ==> final(self)@.valid(),
    {
        proof {
            if old(self)@.valid() {
                law_repay_keeps_valid(old(self)@, farmer, loan_id, amount);
            }
        }
        let mut loan = match self.loans.get(&loan_id) {
            Some(l) => l.clone(),
            None => return Err(ContractError::LoanNotFound),
        };
        if loan.farmer != farmer {
            return Err(ContractError::Unauthorized);
        }
        if loan.status != LoanStatus::Disbursed {
            return Err(ContractError::LoanNotDisbursed);
        }
        let remaining = loan.amount_usdc.saturating_sub(loan.repaid_amount);
        if amount > remaining {
            return Err(ContractError::OverRepayment);
        }
        loan.repaid_amount = loan.repaid_amount.saturating_add(amount);
        let fully_repaid = loan.repaid_amount >= loan.amount_usdc;
        if fully_repaid {
            loan.status = LoanStatus::Repaid;
            let mut profile = match self.profiles.get(&farmer) {
                Some(p) => p.clone(),
                None => return Err(ContractError::FarmerNotFound),
            };
            let ghost old_profile = profile;
            profile.active_loan = false;
            let raised = profile.credit_score.saturating_add(50);
            let boosted = if raised < MAX_SCORE { raised } else { MAX_SCORE };
            profile.credit_score = boosted;
            profile.tier = to_tier(boosted);
            assert(profile == profile_after_repayment(old_profile));
            self.profiles.insert(farmer.clone(), profile);
        }
        self.loans.insert(loan_id, loan.clone());
        self.events.push(Events::loan_repaid(farmer, loan_id, amount, fully_repaid));
        assert(self@ =~= spec_repay_loan(old(self)@, farmer, loan_id, amount).0);
        Ok(loan)
    }

    /// The loan application with the given id.
    pub fn get_loan(&self, loan_id: u64) -> (r: Result<LoanApplication, ContractError>)
        requires
            self.wf(),
        ensures
            r == spec_get_loan(self@, loan_id),
    {
        match self.loans.get(&loan_id) {
            Some(l) => Ok(l.clone()),
            None => Err(ContractError::LoanNotFound),
        }
    }

    /// The id of the farmer's most recent loan application, if any.
    pub fn get_farmer_loan_id(&self, farmer: String) -> (r: Option<u64>)
        requires
            self.wf(),
        ensures
            r == spec_get_farmer_loan_id(self@, farmer@),
    {
        match self.farmer_loan_ids.get(&farmer) {
            Some(id) => Some(*id),
            None => None,
        }
    }

    /// The administrator; `NotInitialized` before `initialize`.
    pub fn get_admin(&self) -> (r: Result<String, ContractError>)
        ensures
            r == spec_get_admin(self@),
    {
        match &self.admin {
            Some(a) => Ok(a.clone()),
            None => Err(ContractError::NotInitialized),
        }
    }

    /// Hands out the events published so far, oldest first, and forgets them.
    pub fn take_events(&mut self) -> (r: Vec<ContractEvent>)
        requires
            old(self).wf(),
        ensures
            final(self).wf(),
            r@ == old(self)@.events,
            final(self)@ == (LedgerView { events: Seq::empty(), ..old(self)@ }),
    {
        let mut taken: Vec<ContractEvent> = Vec::new();
        std::mem::swap(&mut taken, &mut self.events);
        assert(self@ =~= (LedgerView { events: Seq::empty(), ..old(self)@ }));
        taken
    }

    /// Rebuilds a ledger from its stored records; refused when a table
    /// holds some key twice.
    pub fn restore(parts: LedgerParts) -> (r: Option<Self>)
        ensures
            r is Some <==> parts_distinct(parts),
            r matches Some(c) ==> c.wf() && c@ == parts_view(parts),
    {
        let LedgerParts { admin, loan_counter, farmers, profiles, entry_counters, entries, loans, farmer_loan_ids } =
            parts;
        let profiles = match Table::from_items(profiles) {
            Some(t) => t,
            None => return None,
        };
        let entry_counters = match Table::from_items(entry_counters) {
            Some(t) => t,
            None => return None,
        };
        let entries = match Table::from_items(entries) {
            Some(t) => t,
            None => return None,
        };
        let loans = match Table::from_items(loans) {
            Some(t) => t,
            None => return None,
        };
        let farmer_loan_ids = match Table::from_items(farmer_loan_ids) {
            Some(t) => t,
            None => return None,
        };
        let c = ShambaChain {
            admin,
            loan_counter,
            farmers,
            profiles,
            entry_counters,
            entries,
            loans,
            farmer_loan_ids,
            events: Vec::new(),
        };
        assert(c@ =~= parts_view(parts));
        Some(c)
    }

    /// The stored records of the ledger, to be kept until the next call;
    /// published events are dropped.
    pub fn into_parts(self) -> (parts: LedgerParts)
        requires
            self.wf(),
        ensures
            parts_distinct(parts),
            parts_view(parts) == (LedgerView { events: Seq::empty(), ..self@ }),
    {
        let parts = LedgerParts {
            admin: self.admin,
            loan_counter: self.loan_counter,
            farmers: self.farmers,
            profiles: self.profiles.into_items(),
            entry_counters: self.entry_counters.into_items(),
            entries: self.entries.into_items(),
            loans: self.loans.into_items(),
            farmer_loan_ids: self.farmer_loan_ids.into_items(),
        };
        assert(parts_view(parts) =~= (LedgerView { events: Seq::empty(), ..self@ }));
        parts
    }
}

} // verus!
