//! An in-memory event registry: records proposals (title, budget estimate,
//! description) and lets callers cast votes on them, tallying totals.
//!
//! The registry lives in [`registry::Contract`]; each recorded proposal is an
//! [`event::Event`]. Caller identity and the current time are taken as
//! explicit parameters, so the core stays testable without a simulated host.

pub mod event;
pub mod registry;
