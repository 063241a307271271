//! The status record of the MEV protection service. The scanner itself is
//! not part of this crate.

use vstd::prelude::*;

verus! {

/// Whether the scanner runs, for how long, how many scans it made, the size
/// of the mempool it watches, whether its circuit breaker is open, and when
/// it last scanned.
#[derive(Debug, Clone, Copy)]
pub struct MEVStatus {
    pub running: bool,
    pub uptime_seconds: u64,
    pub total_scans: u64,
    pub mempool_size: usize,
    pub circuit_breaker: bool,
    pub last_scan_time: u64,
}

} // verus!
