//! Verified vault accounting: derived vault addresses, a ledger of balances
//! with reserve floors, overflow-checked deposit and withdrawal with audit
//! records, and a checked-arithmetic calculator with history.

pub mod calculator;
pub mod decimal;
pub mod address;
pub mod ledger;
pub mod vault;
