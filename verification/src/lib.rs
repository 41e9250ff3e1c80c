//! Runtime arithmetic, chain identification and node start-up decisions of the
//! Setheum family of chains (Setheum, Neom and NewRome).

pub mod chain;
pub mod currency;
pub mod fee_rates;
pub mod fractions;
pub mod runtime;
pub mod service;
