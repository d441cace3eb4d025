//! ShambaChain: an on-chain farm ledger with credit scoring and micro-loans.
//!
//! Farmers register, log harvests, sales and expenses, and build a credit
//! score from that history. Lenders decide on loan applications against the
//! score and its tier; farmers repay and earn a score bonus on full
//! repayment.

pub mod contract;
pub mod error;
pub mod events;
pub mod history;
pub mod laws;
pub mod ledger;
pub mod score;
pub mod table;
pub mod types;

pub use contract::{LedgerParts, ShambaChain};
pub use error::ContractError;
pub use events::{ContractEvent, Events};
pub use score::{calculate, max_loan_usdc, to_tier, MIN_LOAN_SCORE};
pub use table::EntryKey;
pub use types::{CreditTier, EntryType, FarmerProfile, LedgerEntry, LoanApplication, LoanStatus};
