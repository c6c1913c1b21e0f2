//! A shared tally-list ledger: users with running balances that move through
//! deposits, withdrawals, transfers and purchases, each recorded as an
//! append-only transaction, with a time-limited undo.

pub mod error;
pub mod grace;
pub mod laws;
pub mod ledger;
pub mod model;
pub mod money;
pub mod routes;
pub mod transaction;
pub mod user;

pub use error::LedgerError;
pub use money::Money;
pub use transaction::{DatabaseId, Transaction, TransactionType};
pub use user::{Article, User, UserId};
