//! Accounting core of a leveraged-trading vault.
//!
//! The crate tracks pooled liquidity, open leveraged positions, oracle-derived
//! pricing and time-based funding settlement for a perpetual-style derivatives
//! market, using only fixed-point integer arithmetic across several decimal
//! scales (token decimals, USD quote decimals, oracle feed exponents).
//!
//! Everything that touches the outside world — account custody, token
//! transfers, oracle feed deserialization, clocks — is left to the caller:
//! each operation takes the raw values it needs (prices, timestamps, amounts)
//! and returns the amounts and directions of the transfers it decides on.

pub mod math;

pub mod constants;
pub mod error;

pub mod args;
pub mod cache;
pub mod config;
pub mod conversions;
pub mod events;
pub mod fees;
pub mod instructions;
pub mod laws;
pub mod oracle;
pub mod position;
pub mod price;
pub mod vault;
