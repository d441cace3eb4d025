use vstd::prelude::*;

verus! {

/// Every way a ledger operation can be refused.
#[derive(Debug, Clone, Copy, PartialEq, Eq, Structural)]
pub enum ContractError {
    Unauthorized,
    AlreadyInitialized,
    FarmerNotFound,
    FarmerAlreadyExists,
    InvalidEntryType,
    InvalidAmount,
    LoanNotFound,
    ActiveLoanExists,
    ScoreTooLow,
    AmountExceedsLimit,
    LoanNotPending,
    LoanNotDisbursed,
    NotLoanLender,
    OverRepayment,
    NotInitialized,
}

impl ContractError {
    /// The numeric code under which the error is reported to callers.
    pub open spec fn spec_code(self) -> u32 {
        match self {
            ContractError::Unauthorized => 1,
            ContractError::AlreadyInitialized => 2,
            ContractError::FarmerNotFound => 3,
            ContractError::FarmerAlreadyExists => 4,
            ContractError::InvalidEntryType => 5,
            ContractError::InvalidAmount => 6,
            ContractError::LoanNotFound => 7,
            ContractError::ActiveLoanExists => 8,
            ContractError::ScoreTooLow => 9,
            ContractError::AmountExceedsLimit => 10,
            ContractError::LoanNotPending => 11,
            ContractError::LoanNotDisbursed => 12,
            ContractError::NotLoanLender => 13,
            ContractError::OverRepayment => 14,
            ContractError::NotInitialized => 15,
        }
    }

    /// The numeric code of this error.
    pub fn code(&self) -> (c: u32)
        ensures
            c == self.spec_code(),
            1 <= c <= 15,
    {
        match self {
            ContractError::Unauthorized => 1,
            ContractError::AlreadyInitialized => 2,
            ContractError::FarmerNotFound => 3,
            ContractError::FarmerAlreadyExists => 4,
            ContractError::InvalidEntryType => 5,
            ContractError::InvalidAmount => 6,
            ContractError::LoanNotFound => 7,
            ContractError::ActiveLoanExists => 8,
            ContractError::ScoreTooLow => 9,
            ContractError::AmountExceedsLimit => 10,
            ContractError::LoanNotPending => 11,
            ContractError::LoanNotDisbursed => 12,
            ContractError::NotLoanLender => 13,
            ContractError::OverRepayment => 14,
            ContractError::NotInitialized => 15,
        }
    }
}

} // verus!
