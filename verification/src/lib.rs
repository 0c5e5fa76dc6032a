//! Rule-validation core of a DAO governance layer on a cell-based ledger.
//!
//! The crate decides whether a proposed state transition is authorised:
//! it classifies cells into roles, computes vote weights, and checks the
//! rules for treasury spends, proposals, votes and delegations. Every
//! function carries a contract that states its result exactly.

pub mod cell_collector;
pub mod error;
pub mod transaction_context;
pub mod types;
pub mod validation;
