//! Settings of the bounded pool of connections to the in-memory replica.
use vstd::prelude::*;

verus! {

/// The sizing and recycling policy of the connection pool.
#[derive(Clone, Copy, Debug, PartialEq, Eq, Structural)]
pub struct PoolSettings {
    /// Connections opened when the pool is created and kept open.
    pub min_connections: u32,
    /// Most connections open at once; further acquirers wait.
    pub max_connections: u32,
    /// Milliseconds after which an idle connection is closed; never if `None`.
    pub idle_timeout_ms: Option<u64>,
    /// Milliseconds after which a connection is replaced; never if `None`.
    pub max_lifetime_ms: Option<u64>,
    /// Whether a connection is pinged before it is handed out.
    pub test_before_acquire: bool,
}

impl PoolSettings {
    /// At least one connection can be open, and the minimum does not exceed
    /// the maximum.
    pub open spec fn wf(self) -> bool {
        1 <= self.max_connections && self.min_connections <= self.max_connections
    }

    /// A pool of between `min` and `max` connections that are never recycled
    /// and never checked before use; `None` when no pool has those bounds.
    pub fn bounded(min: u32, max: u32) -> (r: Option<PoolSettings>)
        ensures
            r is Some <==> 1 <= max && min <= max,
            r is Some ==> {
                &&& r->0.wf()
                &&& r->0.min_connections == min
                &&& r->0.max_connections == max
                &&& r->0.idle_timeout_ms is None
                &&& r->0.max_lifetime_ms is None
                &&& !r->0.test_before_acquire
            },
    {
        if 1 <= max && min <= max {
            Some(
                PoolSettings {
                    min_connections: min,
                    max_connections: max,
                    idle_timeout_ms: None,
                    max_lifetime_ms: None,
                    test_before_acquire: false,
                },
            )
        } else {
            None
        }
    }

    /// The pool the simulation runs with: four to sixteen connections, never
    /// recycled, never checked before use.
    pub fn standard() -> (r: PoolSettings)
        ensures
            r.wf(),
            r.min_connections == 4,
            r.max_connections == 16,
            r.idle_timeout_ms is None,
            r.max_lifetime_ms is None,
            !r.test_before_acquire,
    {
        PoolSettings {
            min_connections: 4,
            max_connections: 16,
            idle_timeout_ms: None,
            max_lifetime_ms: None,
            test_before_acquire: false,
        }
    }
}

} // verus!
