//! Resource-limit configuration and the node-local guard made from it.
use vstd::prelude::*;

verus! {

/// Memory ceiling used when the configuration names none, in bytes.
pub const DEFAULT_MEMORY_LIMIT: u64 = 500_000_000;

/// Bucket ceiling used when the configuration names none.
pub const DEFAULT_BUCKET_LIMIT: u32 = 65000;

/// An immutable resource-limit configuration.
#[derive(Clone, Copy, Debug, PartialEq, Eq, Structural)]
pub struct AggregationLimits {
    pub memory_limit: u64,
    pub bucket_limit: u32,
}

/// A fresh accounting object, scoped to one bound node.
#[derive(Debug, PartialEq, Eq, Structural)]
pub struct ResourceLimitGuard {
    pub memory_limit: u64,
    pub allocated: u64,
}

/// Raised when a guard would pass its memory ceiling.
#[derive(Debug, PartialEq, Eq, Structural)]
pub struct MemoryLimitExceeded {
    pub limit: u64,
    pub requested: u64,
}

impl AggregationLimits {
    /// A configuration with the given ceilings, or the defaults where none is given.
    pub fn new(memory_limit: Option<u64>, bucket_limit: Option<u32>) -> (r: Self)
        ensures
            r.memory_limit == (match memory_limit {
                Some(m) => m,
                None => DEFAULT_MEMORY_LIMIT,
            }),
            r.bucket_limit == (match bucket_limit {
                Some(b) => b,
                None => DEFAULT_BUCKET_LIMIT,
            }),
    {
        let memory_limit = match memory_limit {
            Some(m) => m,
            None => DEFAULT_MEMORY_LIMIT,
        };
        let bucket_limit = match bucket_limit {
            Some(b) => b,
            None => DEFAULT_BUCKET_LIMIT,
        };
        AggregationLimits { memory_limit, bucket_limit }
    }

    /// The guard that `new_guard` makes: nothing accounted yet.
    pub open spec fn fresh_guard(&self) -> ResourceLimitGuard {
        ResourceLimitGuard { memory_limit: self.memory_limit, allocated: 0 }
    }

    /// A new, independent guard for one node.
    pub fn new_guard(&self) -> (r: ResourceLimitGuard)
        ensures
            r == self.fresh_guard(),
    {
        ResourceLimitGuard { memory_limit: self.memory_limit, allocated: 0 }
    }
}

impl ResourceLimitGuard {
    /// Accounts `num_bytes` more to this guard, or refuses them, leaving the
    /// guard unchanged, where the total would pass the ceiling.
    pub fn add_memory_consumed(&mut self, num_bytes: u64) -> (r: Result<(), MemoryLimitExceeded>)
        ensures
            old(self).allocated + num_bytes <= old(self).memory_limit ==> {
                &&& r is Ok
                &&& final(self).allocated == old(self).allocated + num_bytes
                &&& final(self).memory_limit == old(self).memory_limit
            },
            old(self).allocated + num_bytes > old(self).memory_limit ==> {
                &&& r == Err::<(), MemoryLimitExceeded>(
                    MemoryLimitExceeded { limit: old(self).memory_limit, requested: num_bytes },
                )
                &&& *final(self) == *old(self)
            },
    {
        if num_bytes <= self.memory_limit && self.allocated <= self.memory_limit - num_bytes {
            self.allocated = self.allocated + num_bytes;
            Ok(())
        } else {
            Err(MemoryLimitExceeded { limit: self.memory_limit, requested: num_bytes })
        }
    }
}

} // verus!
