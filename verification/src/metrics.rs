//! The integer parts of the metrics: what to collect, network counters
//! and disk space.
use vstd::prelude::*;
use crate::cli::SortKey;

verus! {

/// Traffic of one network interface, in bytes.
#[derive(Clone, Debug)]
pub struct NetworkMetrics {
    pub interface: String,
    /// Received since the previous refresh.
    pub rx_bytes: u64,
    /// Transmitted since the previous refresh.
    pub tx_bytes: u64,
    /// Received in total.
    pub total_rx: u64,
    /// Transmitted in total.
    pub total_tx: u64,
}

/// Which optional sections a collection includes.
pub struct CollectArgs<'a> {
    pub disk: bool,
    pub network: bool,
    pub processes: bool,
    pub process_count: usize,
    pub sort_key: &'a SortKey,
    pub include_timestamp: bool,
}

/// The used space of a disk: total minus available, or zero when the
/// disk reports more available space than it has.
pub open spec fn used_space_spec(total: u64, available: u64) -> u64 {
    if total >= available {
        (total - available) as u64
    } else {
        0
    }
}

/// The used space of a disk (`total.saturating_sub(available)`).
pub fn used_space(total: u64, available: u64) -> (used: u64)
    ensures
        used == used_space_spec(total, available),
{
    total.saturating_sub(available)
}

/// Used and available space add up to the total whenever the available
/// space does not exceed it, and used space never exceeds the total.
pub proof fn lemma_used_space(total: u64, available: u64)
    ensures
        used_space_spec(total, available) <= total,
        available <= total ==> used_space_spec(total, available) + available == total,
{
}

} // verus!
