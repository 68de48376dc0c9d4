//! Verified core of an account migration between two personal data servers.
//!
//! The library decides; it performs no I/O. A caller feeds it the outcome of
//! each external call and receives the next call to make: `session` holds
//! the state machine that runs, `model` says what it does, and `laws` says
//! what follows for whole runs.

pub mod blobs;
pub mod credentials;
pub mod error;
pub mod handle;
pub mod identity;
pub mod input;
pub mod keys;
pub mod laws;
pub mod model;
pub mod plan;
pub mod protocol;
pub mod session;
pub mod stage;
pub mod token;
