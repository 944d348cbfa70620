//! A correctness harness for a block-producing node and a validating node.
//!
//! The library deterministically generates self-funded transfer transactions
//! from a seeded random stream, derives the genesis coins that make every
//! generated input spendable, models the submit/produce/fetch/validate loop
//! that drives a producer node and replays each sealed block through a
//! validator node, and models the balance arithmetic of the subcurrency
//! contract scenario.

pub mod genesis;
pub mod harness;
pub mod rng;
pub mod script_build;
pub mod subcurrency;
pub mod transfer;
