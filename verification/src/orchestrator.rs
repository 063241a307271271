//! The dark-pool orchestrator's settings and the order-book figures it
//! reports. The orchestrator itself drives the encrypted mempool, the
//! batch-auction engine and the privacy layer, which are not part of this
//! crate.

use vstd::prelude::*;

verus! {

/// How often the orchestrator drains the mempool and runs a batch auction,
/// and the threshold scheme (threshold, validators) it decrypts with.
#[derive(Debug, Clone, Copy)]
pub struct OrchestratorConfig {
    pub mempool_interval_ms: u64,
    pub fba_interval_ms: u64,
    pub threshold_crypto_params: (usize, usize),
}

impl Default for OrchestratorConfig {
    /// Every 100 ms, with a 3-of-5 threshold scheme.
    fn default() -> (r: OrchestratorConfig)
        ensures
            r.mempool_interval_ms == 100,
            r.fba_interval_ms == 100,
            r.threshold_crypto_params == (3usize, 5usize),
    {
        OrchestratorConfig { mempool_interval_ms: 100, fba_interval_ms: 100, threshold_crypto_params: (3, 5) }
    }
}

/// The order book's figures as the orchestrator reports them.
#[derive(Debug, Clone, Copy)]
pub struct OrderBookStats {
    pub total_orders: u64,
    pub total_trades: u64,
    pub tps_current: u64,
    pub tps_peak: u64,
    pub active_pairs: u64,
}

} // verus!
