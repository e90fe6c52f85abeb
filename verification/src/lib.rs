//! A sans-I/O binding of POSIX message queues for asynchronous programs: the
//! attribute record, the typed errors, the kernel requests of each queue
//! operation, and the readiness-driven state machine that turns a
//! non-blocking queue descriptor into awaitable reads and writes.

use vstd::prelude::*;

pub mod error;
pub mod mqueue;
pub mod am;
pub mod simple;
pub mod model;

verus! {

/// Sum of two unsigned integers that is known not to overflow.
pub fn add(left: u64, right: u64) -> (sum: u64)
    requires
        left + right <= u64::MAX,
    ensures
        sum == left + right,
{
    left + right
}

} // verus!
