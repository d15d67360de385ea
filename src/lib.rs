//! Swapping balances between two token ledgers through an intermediary
//! account: per-caller holding slots, fee arithmetic, the requests sent to
//! each ledger and the state machine that orders them.

pub mod account;
pub mod amount;
pub mod canister;
pub mod ledger;
pub mod swap;
