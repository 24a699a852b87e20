//! The option sets of the subcommands, as plain values.
use vstd::prelude::*;

verus! {

/// Which field the process table is ordered by.
#[derive(PartialEq, Eq, Structural, Clone, Copy, Debug)]
pub enum SortKey {
    Cpu,
    Mem,
}

impl Default for SortKey {
    /// CPU usage is the default order.
    fn default() -> (k: SortKey)
        ensures
            k == SortKey::Cpu,
    {
        SortKey::Cpu
    }
}

/// Options of `top`.
#[derive(Clone, Copy, Debug)]
pub struct TopArgs {
    /// Sort by field.
    pub sort: SortKey,
    /// Number of processes to show.
    pub count: usize,
    /// Output as JSON.
    pub json: bool,
}

/// Options of `snapshot`.
#[derive(Clone, Copy, Debug)]
pub struct SnapshotArgs {
    /// Output as JSON.
    pub json: bool,
    /// Output as CSV.
    pub csv: bool,
    /// Include disk metrics.
    pub disk: bool,
    /// Include network metrics.
    pub network: bool,
}

/// Options of `watch`.  `T` is the type of the alert thresholds (a
/// percentage), which this crate only carries through.
#[derive(Clone, Debug)]
pub struct WatchArgs<T> {
    /// Refresh interval in seconds.
    pub interval: u64,
    /// Show per-core CPU usage.
    pub cores: bool,
    /// Show disk usage.
    pub disk: bool,
    /// Show network throughput.
    pub network: bool,
    /// Show top processes.
    pub processes: bool,
    /// Number of top processes to show.
    pub process_count: usize,
    /// Sort processes by field.
    pub sort: SortKey,
    /// Add timestamp to each output line.
    pub timestamp: bool,
    /// Output as JSON lines.
    pub json: bool,
    /// Log metrics to this CSV file.
    pub log: Option<String>,
    /// Use the interactive dashboard.
    pub tui: bool,
    /// Alert when CPU usage exceeds this threshold.
    pub alert_cpu: Option<T>,
    /// Alert when memory usage exceeds this threshold.
    pub alert_mem: Option<T>,
}

/// The default of `watch --interval`.
pub const DEFAULT_INTERVAL: u64 = 1;

/// The default of `watch --process-count`.
pub const DEFAULT_WATCH_PROCESS_COUNT: usize = 5;

/// The default of `top --count`.
pub const DEFAULT_TOP_COUNT: usize = 10;

} // verus!
