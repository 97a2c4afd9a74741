//! A single-asset collateralized lending ledger. Lenders supply a loan asset
//! into a shared pool; borrowers lock a collateral asset, draw
//! `collateral * collateral_rate` of the loan asset, and repay principal plus
//! interest to reclaim the collateral. Every operation returns the asset
//! transfers that the host must carry out with it.
pub mod interest;
pub mod laws;
pub mod ledger;
pub mod registry;
pub mod types;

pub use ledger::CollateralizedLoanContract;
pub use types::{AccountId, Borrower, DataKey, LoanError, Party, PoolConfig, Settlement, Transfer};
