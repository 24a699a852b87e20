//! How command-line options and the configuration file combine.
//!
//! The configuration provides defaults; a command-line value takes
//! precedence where it can be told apart from the option's own default,
//! and a section switched on by a flag stays on.
use vstd::prelude::*;
use crate::cli::{SnapshotArgs, SortKey, TopArgs, WatchArgs, DEFAULT_INTERVAL, DEFAULT_WATCH_PROCESS_COUNT, DEFAULT_TOP_COUNT};
use crate::config::Config;
use crate::metrics::CollectArgs;
use crate::tui::AppState;

verus! {

/// The number of processes the dashboard shows when it is started without
/// any command and the configuration does not say.
pub const DEFAULT_DASHBOARD_PROCESS_COUNT: usize = 10;

/// `value` or, when absent, `default`.
pub open spec fn or_default<A>(value: Option<A>, default: A) -> A {
    match value {
        Some(v) => v,
        None => default,
    }
}

/// `first` if present, else `second`.
pub open spec fn either<A>(first: Option<A>, second: Option<A>) -> Option<A> {
    match first {
        Some(v) => Some(v),
        None => second,
    }
}

/// A command-line value, unless it equals the option's default, in which
/// case the configured value (or else `fallback`) is used.
pub open spec fn prefer_explicit<A>(arg: A, option_default: A, configured: Option<A>, fallback: A) -> A {
    if arg == option_default {
        or_default(configured, fallback)
    } else {
        arg
    }
}

/// The effective settings of `watch`.
#[derive(Clone, Copy, Debug)]
pub struct WatchSettings<T> {
    pub interval: u64,
    pub show_disk: bool,
    pub show_network: bool,
    pub show_processes: bool,
    pub process_count: usize,
    pub alert_cpu: Option<T>,
    pub alert_mem: Option<T>,
}

/// The effective settings of `watch`, as a function of its options and
/// the configuration.
pub open spec fn watch_settings_spec<T>(args: WatchArgs<T>, config: Config<T>) -> WatchSettings<T> {
    WatchSettings {
        interval: prefer_explicit(args.interval, DEFAULT_INTERVAL, config.interval, args.interval),
        show_disk: args.disk || or_default(config.show_disk, false),
        show_network: args.network || or_default(config.show_network, false),
        show_processes: args.processes || or_default(config.show_processes, false),
        process_count: prefer_explicit(
            args.process_count,
            DEFAULT_WATCH_PROCESS_COUNT,
            config.process_count,
            args.process_count,
        ),
        alert_cpu: either(args.alert_cpu, config.alert_cpu),
        alert_mem: either(args.alert_mem, config.alert_mem),
    }
}

/// The dashboard's starting settings when started from `watch --tui`.
pub open spec fn dashboard_state_spec<T>(args: WatchArgs<T>, config: Config<T>) -> AppState {
    AppState {
        show_disk: args.disk || or_default(config.show_disk, false),
        show_network: args.network || or_default(config.show_network, false),
        show_processes: args.processes || or_default(config.show_processes, true),
        show_cores: args.cores,
        sort_key: args.sort,
        interval_secs: prefer_explicit(args.interval, DEFAULT_INTERVAL, config.interval, DEFAULT_INTERVAL),
        process_count: prefer_explicit(
            args.process_count,
            DEFAULT_WATCH_PROCESS_COUNT,
            config.process_count,
            DEFAULT_WATCH_PROCESS_COUNT,
        ),
    }
}

/// The dashboard's starting settings when started without options.
pub open spec fn default_dashboard_state_spec<T>(config: Config<T>) -> AppState {
    AppState {
        show_disk: or_default(config.show_disk, false),
        show_network: or_default(config.show_network, false),
        show_processes: or_default(config.show_processes, true),
        show_cores: false,
        sort_key: SortKey::Cpu,
        interval_secs: or_default(config.interval, DEFAULT_INTERVAL),
        process_count: or_default(config.process_count, DEFAULT_DASHBOARD_PROCESS_COUNT),
    }
}

fn unwrap_or_u64(value: Option<u64>, default: u64) -> (v: u64)
    ensures
        v == or_default(value, default),
{
    match value {
        Some(v) => v,
        None => default,
    }
}

fn unwrap_or_usize(value: Option<usize>, default: usize) -> (v: usize)
    ensures
        v == or_default(value, default),
{
    match value {
        Some(v) => v,
        None => default,
    }
}

fn unwrap_or_bool(value: Option<bool>, default: bool) -> (v: bool)
    ensures
        v == or_default(value, default),
{
    match value {
        Some(v) => v,
        None => default,
    }
}

fn either_copy<T: Copy>(first: Option<T>, second: Option<T>) -> (v: Option<T>)
    ensures
        v == either(first, second),
{
    match first {
        Some(v) => Some(v),
        None => second,
    }
}

/// The effective settings of `watch`.
pub fn resolve_watch<T: Copy>(args: &WatchArgs<T>, config: &Config<T>) -> (s: WatchSettings<T>)
    ensures
        s == watch_settings_spec(*args, *config),
{
    let interval = if args.interval == DEFAULT_INTERVAL {
        unwrap_or_u64(config.interval, args.interval)
    } else {
        args.interval
    };
    let process_count = if args.process_count == DEFAULT_WATCH_PROCESS_COUNT {
        unwrap_or_usize(config.process_count, args.process_count)
    } else {
        args.process_count
    };
    WatchSettings {
        interval,
        show_disk: args.disk || unwrap_or_bool(config.show_disk, false),
        show_network: args.network || unwrap_or_bool(config.show_network, false),
        show_processes: args.processes || unwrap_or_bool(config.show_processes, false),
        process_count,
        alert_cpu: either_copy(args.alert_cpu, config.alert_cpu),
        alert_mem: either_copy(args.alert_mem, config.alert_mem),
    }
}

/// What `watch` collects at each tick.
pub fn watch_collect_args<'a, T>(settings: &WatchSettings<T>, args: &'a WatchArgs<T>) -> (c: CollectArgs<'a>)
    ensures
        c.disk == settings.show_disk,
        c.network == settings.show_network,
        c.processes == settings.show_processes,
        c.process_count == settings.process_count,
        *c.sort_key == args.sort,
        c.include_timestamp == args.timestamp,
{
    CollectArgs {
        disk: settings.show_disk,
        network: settings.show_network,
        processes: settings.show_processes,
        process_count: settings.process_count,
        sort_key: &args.sort,
        include_timestamp: args.timestamp,
    }
}

/// The dashboard's starting settings for `watch --tui`.
pub fn dashboard_state<T>(args: &WatchArgs<T>, config: &Config<T>) -> (s: AppState)
    ensures
        s == dashboard_state_spec(*args, *config),
{
    AppState {
        show_disk: args.disk || unwrap_or_bool(config.show_disk, false),
        show_network: args.network || unwrap_or_bool(config.show_network, false),
        show_processes: args.processes || unwrap_or_bool(config.show_processes, true),
        show_cores: args.cores,
        sort_key: args.sort,
        interval_secs: if args.interval == DEFAULT_INTERVAL {
            unwrap_or_u64(config.interval, DEFAULT_INTERVAL)
        } else {
            args.interval
        },
        process_count: if args.process_count == DEFAULT_WATCH_PROCESS_COUNT {
            unwrap_or_usize(config.process_count, DEFAULT_WATCH_PROCESS_COUNT)
        } else {
            args.process_count
        },
    }
}

/// The dashboard's starting settings when it is started without options.
pub fn default_dashboard_state<T>(config: &Config<T>) -> (s: AppState)
    ensures
        s == default_dashboard_state_spec(*config),
{
    AppState {
        show_disk: unwrap_or_bool(config.show_disk, false),
        show_network: unwrap_or_bool(config.show_network, false),
        show_processes: unwrap_or_bool(config.show_processes, true),
        show_cores: false,
        sort_key: SortKey::Cpu,
        interval_secs: unwrap_or_u64(config.interval, DEFAULT_INTERVAL),
        process_count: unwrap_or_usize(config.process_count, DEFAULT_DASHBOARD_PROCESS_COUNT),
    }
}

/// The number of processes `top` shows.
pub open spec fn top_count_spec<T>(args: TopArgs, config: Config<T>) -> usize {
    prefer_explicit(args.count, DEFAULT_TOP_COUNT, config.process_count, args.count)
}

/// What `top` collects: the processes only, without a timestamp.
pub fn top_collect_args<'a, T>(args: &'a TopArgs, config: &Config<T>) -> (c: CollectArgs<'a>)
    ensures
        !c.disk,
        !c.network,
        c.processes,
        c.process_count == top_count_spec(*args, *config),
        *c.sort_key == args.sort,
        !c.include_timestamp,
{
    let count = if args.count == DEFAULT_TOP_COUNT {
        unwrap_or_usize(config.process_count, args.count)
    } else {
        args.count
    };
    CollectArgs {
        disk: false,
        network: false,
        processes: true,
        process_count: count,
        sort_key: &args.sort,
        include_timestamp: false,
    }
}

/// What `snapshot` collects: CPU and memory, the sections asked for on
/// the command line or in the configuration, no processes, and a
/// timestamp.
pub fn snapshot_collect_args<'a, T>(args: &SnapshotArgs, config: &Config<T>, sort_key: &'a SortKey) -> (c: CollectArgs<'a>)
    ensures
        c.disk == (args.disk || or_default(config.show_disk, false)),
        c.network == (args.network || or_default(config.show_network, false)),
        c.disk == (args.disk || config.show_disk == Some(true)),
        c.network == (args.network || config.show_network == Some(true)),
        !c.processes,
        c.process_count == 0,
        c.sort_key == sort_key,
        c.include_timestamp,
{
    CollectArgs {
        disk: args.disk || unwrap_or_bool(config.show_disk, false),
        network: args.network || unwrap_or_bool(config.show_network, false),
        processes: false,
        process_count: 0,
        sort_key,
        include_timestamp: true,
    }
}

/// The CSV log gets its header line when the file is new: it does not
/// exist yet, its size cannot be read (`None`), or it is empty.
pub fn csv_needs_header(file_exists: bool, size: Option<u64>) -> (header: bool)
    ensures
        header == (!file_exists || match size {
            None => true,
            Some(n) => n == 0,
        }),
{
    if !file_exists {
        return true;
    }
    match size {
        None => true,
        Some(n) => n == 0,
    }
}

/// How a command prints its result.
#[derive(Clone, Copy, PartialEq, Eq, Structural, Debug)]
pub enum OutputMode {
    Json,
    Csv,
    Plain,
}

/// `snapshot` prints JSON when asked for, else CSV when asked for, else
/// plain text.
pub fn snapshot_output(args: &SnapshotArgs) -> (m: OutputMode)
    ensures
        m == (if args.json {
            OutputMode::Json
        } else if args.csv {
            OutputMode::Csv
        } else {
            OutputMode::Plain
        }),
{
    if args.json {
        OutputMode::Json
    } else if args.csv {
        OutputMode::Csv
    } else {
        OutputMode::Plain
    }
}

/// `top` prints JSON when asked for, else plain text.
pub fn top_output(args: &TopArgs) -> (m: OutputMode)
    ensures
        m == (if args.json { OutputMode::Json } else { OutputMode::Plain }),
{
    if args.json {
        OutputMode::Json
    } else {
        OutputMode::Plain
    }
}

/// `watch` prints JSON lines when asked for, else plain text.
pub fn watch_output<T>(args: &WatchArgs<T>) -> (m: OutputMode)
    ensures
        m == (if args.json { OutputMode::Json } else { OutputMode::Plain }),
{
    if args.json {
        OutputMode::Json
    } else {
        OutputMode::Plain
    }
}

/// A value given on the command line that differs from the option's
/// default is used whatever the configuration says; a value equal to the
/// default gives way to the configured one.
pub proof fn lemma_explicit_wins<A>(arg: A, option_default: A, configured: Option<A>, fallback: A)
    ensures
        arg != option_default ==> prefer_explicit(arg, option_default, configured, fallback) == arg,
        arg == option_default && configured is Some ==> prefer_explicit(arg, option_default, configured, fallback)
            == configured->0,
        arg == option_default && configured is None ==> prefer_explicit(arg, option_default, configured, fallback)
            == fallback,
{
}

/// The configuration never switches off a section that a flag switched
/// on, and never replaces a threshold given on the command line.
pub proof fn lemma_flags_stay_on<T>(args: WatchArgs<T>, config: Config<T>)
    ensures
        args.disk ==> watch_settings_spec(args, config).show_disk,
        args.network ==> watch_settings_spec(args, config).show_network,
        args.processes ==> watch_settings_spec(args, config).show_processes,
        args.alert_cpu is Some ==> watch_settings_spec(args, config).alert_cpu == args.alert_cpu,
        args.alert_mem is Some ==> watch_settings_spec(args, config).alert_mem == args.alert_mem,
        args.disk ==> dashboard_state_spec(args, config).show_disk,
        args.network ==> dashboard_state_spec(args, config).show_network,
        args.processes ==> dashboard_state_spec(args, config).show_processes,
{
}

/// The plain and the dashboard views of `watch` refresh at the same
/// interval and show the same disk and network sections.
pub proof fn lemma_watch_views_agree<T>(args: WatchArgs<T>, config: Config<T>)
    ensures
        dashboard_state_spec(args, config).interval_secs == watch_settings_spec(args, config).interval,
        dashboard_state_spec(args, config).show_disk == watch_settings_spec(args, config).show_disk,
        dashboard_state_spec(args, config).show_network == watch_settings_spec(args, config).show_network,
{
}

/// With no options given, `watch --tui` starts the dashboard as starting
/// it without any command does, except that the number of processes
/// falls back on the documented default of `--process-count` (5) rather
/// than on 10; with a configured count the two are the same.
pub proof fn lemma_default_dashboard<T>(args: WatchArgs<T>, config: Config<T>)
    requires
        args.interval == DEFAULT_INTERVAL,
        args.process_count == DEFAULT_WATCH_PROCESS_COUNT,
        !args.disk,
        !args.network,
        !args.processes,
        !args.cores,
        args.sort == SortKey::Cpu,
    ensures
        dashboard_state_spec(args, config) == (AppState {
            process_count: or_default(config.process_count, DEFAULT_WATCH_PROCESS_COUNT),
            ..default_dashboard_state_spec(config)
        }),
        config.process_count is Some ==> dashboard_state_spec(args, config) == default_dashboard_state_spec(
            config,
        ),
{
}

/// `watch` and `watch --tui` show the same number of processes.
pub proof fn lemma_process_count_agrees<T>(args: WatchArgs<T>, config: Config<T>)
    ensures
        dashboard_state_spec(args, config).process_count == watch_settings_spec(args, config).process_count,
{
}

/// `watch` shows a section exactly when its flag is given or the
/// configuration switches it on. The interval and the number of processes
/// are the ones given on the command line, except that a value equal to
/// the option's default (one second, five processes) gives way to a
/// configured one; with nothing configured the command line's value
/// stands. A threshold given on the command line is used, else the
/// configured one.
pub proof fn lemma_watch_resolution<T>(args: WatchArgs<T>, config: Config<T>)
    ensures
        ({
            let w = watch_settings_spec(args, config);
            &&& w.show_disk == (args.disk || config.show_disk == Some(true))
            &&& w.show_network == (args.network || config.show_network == Some(true))
            &&& w.show_processes == (args.processes || config.show_processes == Some(true))
            &&& config.interval is None ==> w.interval == args.interval
            &&& args.interval != 1 ==> w.interval == args.interval
            &&& args.interval == 1 && config.interval is Some ==> w.interval == config.interval->0
            &&& config.process_count is None ==> w.process_count == args.process_count
            &&& args.process_count != 5 ==> w.process_count == args.process_count
            &&& args.process_count == 5 && config.process_count is Some ==> w.process_count
                == config.process_count->0
            &&& args.alert_cpu is Some ==> w.alert_cpu == args.alert_cpu
            &&& args.alert_cpu is None ==> w.alert_cpu == config.alert_cpu
            &&& args.alert_mem is Some ==> w.alert_mem == args.alert_mem
            &&& args.alert_mem is None ==> w.alert_mem == config.alert_mem
        }),
{
}

/// `watch --tui` starts the dashboard with the disk and network sections
/// on exactly when their flag is given or the configuration switches them
/// on, the process table on unless neither the flag nor the configuration
/// asks for it and the configuration switches it off, the cores and the
/// order as given. Its interval and number of processes are resolved as
/// in plain `watch`.
pub proof fn lemma_dashboard_resolution<T>(args: WatchArgs<T>, config: Config<T>)
    ensures
        ({
            let d = dashboard_state_spec(args, config);
            &&& d.show_disk == (args.disk || config.show_disk == Some(true))
            &&& d.show_network == (args.network || config.show_network == Some(true))
            &&& d.show_processes == (args.processes || config.show_processes != Some(false))
            &&& d.show_cores == args.cores
            &&& d.sort_key == args.sort
            &&& config.interval is None ==> d.interval_secs == args.interval
            &&& args.interval != 1 ==> d.interval_secs == args.interval
            &&& args.interval == 1 && config.interval is Some ==> d.interval_secs == config.interval->0
            &&& config.process_count is None ==> d.process_count == args.process_count
            &&& args.process_count != 5 ==> d.process_count == args.process_count
            &&& args.process_count == 5 && config.process_count is Some ==> d.process_count
                == config.process_count->0
        }),
{
}

/// The dashboard started without any command takes every setting from the
/// configuration: disk and network off and the process table on unless
/// configured otherwise, a one-second interval and ten processes unless
/// configured otherwise, no cores, ordered by CPU.
pub proof fn lemma_default_dashboard_resolution<T>(config: Config<T>)
    ensures
        ({
            let d = default_dashboard_state_spec(config);
            &&& d.show_disk == (config.show_disk == Some(true))
            &&& d.show_network == (config.show_network == Some(true))
            &&& d.show_processes == (config.show_processes != Some(false))
            &&& !d.show_cores
            &&& d.sort_key == SortKey::Cpu
            &&& config.interval is None ==> d.interval_secs == 1
            &&& config.interval is Some ==> d.interval_secs == config.interval->0
            &&& config.process_count is None ==> d.process_count == 10
            &&& config.process_count is Some ==> d.process_count == config.process_count->0
        }),
{
}

/// `top` shows the number of processes given by `--count`; only a count
/// equal to the option's default of ten gives way to a configured one.
pub proof fn lemma_top_count<T>(args: TopArgs, config: Config<T>)
    ensures
        config.process_count is None ==> top_count_spec(args, config) == args.count,
        args.count != 10 ==> top_count_spec(args, config) == args.count,
        args.count == 10 && config.process_count is Some ==> top_count_spec(args, config)
            == config.process_count->0,
{
}

} // verus!
