//! Staking vault and stake-weighted governance, as verified state transitions.
//!
//! Every operation is a function from the current records (and the current
//! time, sampled once by the caller) to the next records and an event. Token
//! movements are reported in the returned events; the caller performs them
//! against the token program and commits the new records only together.
pub mod types;
pub mod vault;
pub mod staking;
pub mod governance;
pub mod pool;
