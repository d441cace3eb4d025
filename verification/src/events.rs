use vstd::prelude::*;

verus! {

/// An event published by a ledger operation, with its topics and data.
#[derive(Debug, PartialEq, Eq)]
pub enum ContractEvent {
    /// Topic `f_reg` and the farmer; data: name and county.
    FarmerRegistered { farmer: String, name: String, county: String },
    /// Topic `e_log`, the farmer and the entry id; data: entry type code
    /// (0 harvest, 1 sale, 2 expense), value and the new score.
    EntryLogged { farmer: String, entry_id: u64, entry_type: u32, value_kes: u64, new_score: u32 },
    /// Topic `l_apply`, the farmer and the loan id; data: amount and period.
    LoanApplied { farmer: String, loan_id: u64, amount: u64, period: u32 },
    /// Topic `l_appr`, the lender and the loan id; data: the farmer.
    LoanApproved { lender: String, loan_id: u64, farmer: String },
    /// Topic `l_repay`, the farmer and the loan id; data: amount and whether
    /// the loan is now fully repaid.
    LoanRepaid { farmer: String, loan_id: u64, amount: u64, fully_repaid: bool },
    /// Topic `score` and the farmer; data: old and new score.
    ScoreUpdated { farmer: String, old_score: u32, new_score: u32 },
}

/// Builders for the events that ledger operations publish.
pub struct Events;

impl Events {
    pub fn farmer_registered(farmer: String, name: String, county: String) -> (e: ContractEvent)
        ensures
            e == (ContractEvent::FarmerRegistered { farmer, name, county }),
    {
        ContractEvent::FarmerRegistered { farmer, name, county }
    }

    pub fn entry_logged(farmer: String, entry_id: u64, entry_type: u32, value_kes: u64, new_score: u32) -> (e: ContractEvent)
        ensures
            e == (ContractEvent::EntryLogged { farmer, entry_id, entry_type, value_kes, new_score }),
    {
        ContractEvent::EntryLogged { farmer, entry_id, entry_type, value_kes, new_score }
    }

    pub fn loan_applied(farmer: String, loan_id: u64, amount: u64, period: u32) -> (e: ContractEvent)
        ensures
            e == (ContractEvent::LoanApplied { farmer, loan_id, amount, period }),
    {
        ContractEvent::LoanApplied { farmer, loan_id, amount, period }
    }

    pub fn loan_approved(lender: String, loan_id: u64, farmer: String) -> (e: ContractEvent)
        ensures
            e == (ContractEvent::LoanApproved { lender, loan_id, farmer }),
    {
        ContractEvent::LoanApproved { lender, loan_id, farmer }
    }

    pub fn loan_repaid(farmer: String, loan_id: u64, amount: u64, fully_repaid: bool) -> (e: ContractEvent)
        ensures
            e == (ContractEvent::LoanRepaid { farmer, loan_id, amount, fully_repaid }),
    {
        ContractEvent::LoanRepaid { farmer, loan_id, amount, fully_repaid }
    }

    pub fn score_updated(farmer: String, old_score: u32, new_score: u32) -> (e: ContractEvent)
        ensures
            e == (ContractEvent::ScoreUpdated { farmer, old_score, new_score }),
    {
        ContractEvent::ScoreUpdated { farmer, old_score, new_score }
    }
}

} // verus!
