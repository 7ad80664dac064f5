//! A deterministic pricing and state-transition engine for an asset traded
//! against a reserve currency along a linear bonding curve
//! `price(supply) = initial_price + supply * slope`.
//!
//! Everything is integer arithmetic: the engine runs in a replicated,
//! deterministic context, so every re-execution must produce identical
//! results. Quotes are pure; the state is mutated only by the transactional
//! operations in `controller`, each of which either fully commits or leaves
//! the state untouched.

pub mod controller;
pub mod errors;
pub mod laws;
pub mod math;
pub mod pricing;
pub mod state;
