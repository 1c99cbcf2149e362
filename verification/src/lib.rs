//! A small ledger engine: client accounts hold fixed-point money, and a
//! processor applies deposits, withdrawals, disputes, resolutions and
//! chargebacks to them in input order, emitting one audit record per
//! transaction.

pub mod account;
pub mod laws;
pub mod money;
pub mod processor;
pub mod transactions;
