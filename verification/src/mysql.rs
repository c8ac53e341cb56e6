//! The networked backend's connection value.
//!
//! The pooled client that opens, multiplexes and drives connections to the
//! networked database service is an external collaborator. This crate only
//! routes values of this type; it never opens the pool or executes statements
//! through it, and it adds no concurrency control of its own on top of the
//! pool's.

use vstd::prelude::*;

verus! {

/// A connection obtained from (or routed through) the pooled client of the
/// networked database service, treated by this layer as an opaque capability.
/// Concurrent use is safe and managed by the service's own pool.
pub struct Connection;

impl Connection {
    /// A connection value standing for one routed through the pooled client.
    pub fn new() -> (r: Connection) {
        Connection
    }
}

impl Clone for Connection {
    fn clone(&self) -> (r: Self)
        ensures
            r == *self,
    {
        Connection
    }
}

} // verus!
