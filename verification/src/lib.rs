//! Verified core of a shares-based lending protocol: a fixed-point numeric
//! layer, per-asset bank state with interest accrual, per-user balance
//! ledgers, the deposit/withdraw/borrow/repay mutation layer, an oracle price
//! adapter, and the risk engine that gates every state-changing operation.

pub mod account;
pub mod bank;
pub mod cli;
pub mod constants;
pub mod errors;
pub mod group;
pub mod health_cache;
pub mod interest;
pub mod laws;
pub mod liquidate;
pub mod ops;
pub mod price;
pub mod risk;
pub mod wrapped;
pub mod wrapper;
pub mod i80f48;
