//! Accounting core of a constant-product liquidity pool and of a
//! continuous-reward staking pool.
//!
//! Every operation is a function from the current records and the caller's
//! arguments to the updated records and a description of the ledger movements
//! the host has to carry out. Nothing here talks to a ledger, a clock or a
//! log: the host reads those, calls in, and acts on what comes back.

pub mod address;
pub mod amm;
pub mod amm_laws;
pub mod amm_model;
pub mod errors;
pub mod events;
pub mod math;
pub mod staking;
pub mod staking_laws;
pub mod staking_model;
pub mod state;
