//! A pooled-contribution contract for a single fundraising campaign: its
//! lifecycle, its per-contributor ledger, and the rules for paying
//! contributors back.

pub mod contract;
pub mod laws;
pub mod ledger;
pub mod types;
