//! A milestone-based escrow between a client and a freelancer, with an arbiter
//! for disputes and an administrator for platform settings.
//!
//! The escrow's state and every entry point are modelled here as plain data and
//! verified functions. An entry point either fails with an [`types::Error`] and
//! leaves the state as it was, or updates the state and returns the
//! [`types::Effects`] that the host must carry out: token transfers, an event,
//! and the storage entries that were written.
pub mod address;
pub mod types;
pub mod arith;
pub mod allocation;
pub mod escrow;
pub mod workflow;
pub mod laws;
