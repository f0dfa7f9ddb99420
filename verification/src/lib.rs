//! A model of the multi-contract test suite that drives the JunoSwap RAW
//! staking migration: what each step of the suite sends to the chain, how
//! defaults are chosen, and how the staker migration is driven to its end.
//! The chain itself (a `cw_multi_test::App`) lives outside this library; the
//! library decides, the chain answers.

pub mod amounts;
pub mod builder;
pub mod denom;
pub mod deploy;
pub mod driver;
pub mod hook;
pub mod msgs;
pub mod plan;
pub mod querier;
pub mod suite;
