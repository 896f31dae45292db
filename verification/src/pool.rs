//! Sizing of the two fixed worker pools.
//!
//! The pipeline owns one pool for CPU-bound parallel work and one for
//! I/O-bound concurrent work.  Both are sized once from the hardware
//! parallelism available at startup: the CPU pool takes roughly half the
//! threads (minus one for the driving thread, but never fewer than one),
//! the I/O pool takes roughly a quarter, capped at six.

use vstd::prelude::*;

verus! {

/// Number of workers in the CPU-bound pool for hardware parallelism `t`:
/// `max(1, ceil(t / 2) - 1)`.
pub open spec fn spec_compute_threads(t: nat) -> nat {
    let half = t / 2 + t % 2;
    if half <= 1 {
        1
    } else {
        (half - 1) as nat
    }
}

/// Number of workers in the I/O-bound pool for hardware parallelism `t`:
/// `min(6, ceil(t / 4))`.
pub open spec fn spec_io_threads(t: nat) -> nat {
    let quarter = t / 4 + (if t % 4 == 0 {
        0nat
    } else {
        1nat
    });
    if quarter >= 6 {
        6
    } else {
        quarter as nat
    }
}

/// The sizes of the two worker pools that a run of the pipeline uses.
pub struct PoolSizes {
    /// Workers in the pool for CPU-bound parallel phase work.
    pub compute: usize,
    /// Workers in the pool for I/O-bound background tasks.
    pub io: usize,
}

impl PoolSizes {
    /// Derives both pool sizes from the hardware parallelism `threads`.
    pub fn for_parallelism(threads: usize) -> (r: PoolSizes)
        ensures
            r.compute == spec_compute_threads(threads as nat),
            r.io == spec_io_threads(threads as nat),
    {
        let half: usize = threads / 2 + threads % 2;
        let compute: usize = if half <= 1 {
            1
        } else {
            half - 1
        };
        let quarter: usize = threads / 4 + if threads % 4 == 0 {
            0
        } else {
            1
        };
        let io: usize = if quarter >= 6 {
            6
        } else {
            quarter
        };
        PoolSizes { compute, io }
    }
}

} // verus!
