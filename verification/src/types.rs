use vstd::prelude::*;

verus! {

/// Credit tier derived from a credit score.
#[derive(Debug, Clone, Copy, PartialEq, Eq, Structural)]
pub enum CreditTier {
    Unranked,
    Bronze,
    Silver,
    Gold,
    Platinum,
}

/// Kind of a ledger entry.
#[derive(Debug, Clone, Copy, PartialEq, Eq, Structural)]
pub enum EntryType {
    Harvest,
    Sale,
    Expense,
}

/// Life-cycle state of a loan application.
#[derive(Debug, Clone, Copy, PartialEq, Eq, Structural)]
pub enum LoanStatus {
    Pending,
    Approved,
    Disbursed,
    Repaid,
    Rejected,
}

/// A registered farmer and the statistics the credit score is computed from.
///
/// Addresses are held in their textual (strkey) form.
#[derive(Debug, PartialEq, Eq)]
pub struct FarmerProfile {
    pub address: String,
    pub name: String,
    pub county: String,
    pub primary_crop: String,
    /// Farm size stored as acres × 1000.
    pub farm_size_acres: u32,
    pub registered_at: u64,
    pub total_harvests: u32,
    pub total_sales: u32,
    /// Cumulative income in local currency units.
    pub total_income_kes: u64,
    /// Credit score, between 100 and 850 for every profile the ledger holds.
    pub credit_score: u32,
    pub tier: CreditTier,
    pub active_loan: bool,
    pub total_entries: u64,
}

impl Clone for FarmerProfile {
    fn clone(&self) -> (r: Self)
        ensures
            r == *self,
    {
        FarmerProfile {
            address: self.address.clone(),
            name: self.name.clone(),
            county: self.county.clone(),
            primary_crop: self.primary_crop.clone(),
            farm_size_acres: self.farm_size_acres,
            registered_at: self.registered_at,
            total_harvests: self.total_harvests,
            total_sales: self.total_sales,
            total_income_kes: self.total_income_kes,
            credit_score: self.credit_score,
            tier: self.tier,
            active_loan: self.active_loan,
            total_entries: self.total_entries,
        }
    }
}

/// One harvest, sale or expense recorded by a farmer.
#[derive(Debug, PartialEq, Eq)]
pub struct LedgerEntry {
    pub id: u64,
    pub entry_type: EntryType,
    pub crop: String,
    pub quantity_kg: u32,
    pub value_kes: u64,
    pub timestamp: u64,
    pub notes: String,
}

impl Clone for LedgerEntry {
    fn clone(&self) -> (r: Self)
        ensures
            r == *self,
    {
        LedgerEntry {
            id: self.id,
            entry_type: self.entry_type,
            crop: self.crop.clone(),
            quantity_kg: self.quantity_kg,
            value_kes: self.value_kes,
            timestamp: self.timestamp,
            notes: self.notes.clone(),
        }
    }
}

/// A loan requested by a farmer from a lender.
#[derive(Debug, PartialEq, Eq)]
pub struct LoanApplication {
    pub id: u64,
    pub farmer: String,
    pub lender: String,
    /// Requested amount in USDC integer units.
    pub amount_usdc: u64,
    pub period_months: u32,
    pub purpose: String,
    pub status: LoanStatus,
    pub applied_at: u64,
    pub approved_at: u64,
    pub repaid_amount: u64,
    pub credit_score_at_application: u32,
}

impl Clone for LoanApplication {
    fn clone(&self) -> (r: Self)
        ensures
            r == *self,
    {
        LoanApplication {
            id: self.id,
            farmer: self.farmer.clone(),
            lender: self.lender.clone(),
            amount_usdc: self.amount_usdc,
            period_months: self.period_months,
            purpose: self.purpose.clone(),
            status: self.status,
            applied_at: self.applied_at,
            approved_at: self.approved_at,
            repaid_amount: self.repaid_amount,
            credit_score_at_application: self.credit_score_at_application,
        }
    }
}

} // verus!
