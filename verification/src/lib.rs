//! Fixed-price slot sale in rounds of doubling capacity, with a per-mille
//! fee on every sale and a lagged settlement of each buyer's purchases.

pub mod errors;
pub mod state;
pub mod ledger;
pub mod splitter;
pub mod settlement;
pub mod instructions;
