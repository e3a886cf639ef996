//! Crowdfunding of items toward a fixed goal, with a fee on every contribution,
//! an exact per-contributor ledger and a hand-off to tokenization once the goal
//! is met.
pub mod fee;
pub mod ledger;
pub mod crowdfund;
pub mod message;
pub mod contract;
pub mod laws;
