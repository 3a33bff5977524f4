//! A bounty-escrow lifecycle engine: tasks with a token reward held in
//! custody, a submission window, one winner, and settlement by claim or
//! refund.

pub mod errors;
pub mod keys;
pub mod state;
pub mod program;
pub mod laws;
