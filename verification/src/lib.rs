//! A small payments engine: it ingests a batch of financial transactions
//! (deposits, withdrawals, disputes, resolves, chargebacks) and maintains
//! per-client account balances under strict consistency rules.
//!
//! The crate holds the verified core: the client account invariants, the
//! transaction/dispute state machine, and the processing service that ties
//! them together over in-memory stores. Ingestion and report rendering are
//! I/O adapters and live outside the library.

pub mod infrastructure;
pub mod models;
pub mod services;
