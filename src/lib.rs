//! State-transition core of a multi-pool automated market maker.
//!
//! The library decodes operation requests, validates them against the
//! decoded account records, and computes the new records together with the
//! token movements the host has to perform.
pub mod error;
pub mod key;
pub mod instruction;
pub mod state;
pub mod curve;
pub mod authority;
pub mod processor;
pub mod laws;
pub mod store;
