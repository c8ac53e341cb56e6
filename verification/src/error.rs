//! Errors surfaced by the connection and transaction layer.
//!
//! The layer recovers nothing locally: a backend failure is passed through
//! unchanged, annotated with the SQL text it was running, and configuration
//! errors fail fast instead of touching a backend.

use vstd::prelude::*;

verus! {

/// The error kinds of this layer.
#[derive(Debug)]
pub enum SqlError {
    /// A failure reported by a backend while running `sql`; `message` is the
    /// backend's own description, propagated unchanged.
    Backend {
        /// The SQL text that the backend was asked to run.
        sql: String,
        /// The backend's own description of the failure.
        message: String,
    },
    /// Schema bootstrap was requested on a networked schema connection. The
    /// networked backend's schema is provisioned out of band, so this is a
    /// configuration error and nothing is executed.
    ConfigurationMismatch,
    /// The statement was issued on the networked variant, whose statement
    /// execution belongs to the external pooled client, not to this crate.
    NetworkedClientRequired,
}

} // verus!
