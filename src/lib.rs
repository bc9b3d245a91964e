//! Ledger arithmetic: fixed-point money, accounts, and transaction records.

pub mod account;
pub mod money;
pub mod transaction;

pub use account::{Account, AccountSnapshot, Rate};
pub use money::{Money, MoneyError};
pub use transaction::TransactionInstance;
