//! The decisions of the interactive dashboard: what each key does to the
//! dashboard's settings, and when the metrics are collected again.
use vstd::prelude::*;
use crate::cli::SortKey;
use crate::metrics::CollectArgs;

verus! {

/// The settings of the dashboard that keys change.
#[derive(Clone, Copy, Debug)]
pub struct AppState {
    pub show_disk: bool,
    pub show_network: bool,
    pub show_processes: bool,
    pub show_cores: bool,
    pub sort_key: SortKey,
    pub interval_secs: u64,
    pub process_count: usize,
}

/// A key press: a character with or without the Control modifier, or any
/// other key.
#[derive(Clone, Copy, PartialEq, Eq, Structural, Debug)]
pub enum KeyPress {
    Char { c: char, control: bool },
    Other,
}

/// What the dashboard does after a key.
#[derive(Clone, Copy, PartialEq, Eq, Structural, Debug)]
pub enum KeyOutcome {
    /// Leave the dashboard.
    Quit,
    /// Collect the metrics again now.
    Refresh,
    /// Nothing beyond the next redraw.
    Continue,
}

/// The slowest refresh interval the keys can set, in seconds.
pub const MAX_INTERVAL: u64 = 60;

/// The fastest refresh interval the keys can set, in seconds.
pub const MIN_INTERVAL: u64 = 1;

/// The key is `+` or `=`, which slow the refresh down by a second.
pub open spec fn is_slower_key(key: KeyPress) -> bool {
    key matches KeyPress::Char { c, .. } && (c == '+' || c == '=')
}

/// The key leaves the dashboard: `q`, or `c` with Control.
pub open spec fn is_quit_key(key: KeyPress) -> bool {
    match key {
        KeyPress::Char { c, control } => c == 'q' || (c == 'c' && control),
        KeyPress::Other => false,
    }
}

/// The other sort order.
pub open spec fn flipped(k: SortKey) -> SortKey {
    match k {
        SortKey::Cpu => SortKey::Mem,
        SortKey::Mem => SortKey::Cpu,
    }
}

/// The settings after a key.
pub open spec fn key_next(s: AppState, key: KeyPress) -> AppState {
    if is_quit_key(key) {
        s
    } else {
        match key {
            KeyPress::Char { c, control } => {
                if c == 'd' {
                    AppState { show_disk: !s.show_disk, ..s }
                } else if c == 'n' {
                    AppState { show_network: !s.show_network, ..s }
                } else if c == 'p' {
                    AppState { show_processes: !s.show_processes, ..s }
                } else if c == 'c' {
                    AppState { show_cores: !s.show_cores, ..s }
                } else if c == 's' {
                    AppState { sort_key: flipped(s.sort_key), ..s }
                } else if c == '+' || c == '=' {
                    AppState {
                        interval_secs: if s.interval_secs + 1 < MAX_INTERVAL {
                            (s.interval_secs + 1) as u64
                        } else {
                            MAX_INTERVAL
                        },
                        ..s
                    }
                } else if c == '-' {
                    AppState {
                        interval_secs: if s.interval_secs > MIN_INTERVAL + 1 {
                            (s.interval_secs - 1) as u64
                        } else {
                            MIN_INTERVAL
                        },
                        ..s
                    }
                } else {
                    s
                }
            },
            KeyPress::Other => s,
        }
    }
}

/// What follows a key: quitting, collecting again (after a section is
/// switched on or off, or the order changes while processes are shown), or
/// nothing.
pub open spec fn key_outcome(s: AppState, key: KeyPress) -> KeyOutcome {
    if is_quit_key(key) {
        KeyOutcome::Quit
    } else {
        match key {
            KeyPress::Char { c, .. } => {
                if c == 'd' || c == 'n' || c == 'p' || (c == 's' && s.show_processes) {
                    KeyOutcome::Refresh
                } else {
                    KeyOutcome::Continue
                }
            },
            KeyPress::Other => KeyOutcome::Continue,
        }
    }
}

/// Applies a key to the dashboard's settings and says what follows.
pub fn handle_key(state: &mut AppState, key: KeyPress) -> (outcome: KeyOutcome)
    requires
        is_slower_key(key) ==> old(state).interval_secs < u64::MAX,
    ensures
        *final(state) == key_next(*old(state), key),
        outcome == key_outcome(*old(state), key),
{
    match key {
        KeyPress::Char { c, control } => {
            if c == 'q' {
                KeyOutcome::Quit
            } else if c == 'c' && control {
                KeyOutcome::Quit
            } else if c == 'd' {
                state.show_disk = !state.show_disk;
                KeyOutcome::Refresh
            } else if c == 'n' {
                state.show_network = !state.show_network;
                KeyOutcome::Refresh
            } else if c == 'p' {
                state.show_processes = !state.show_processes;
                KeyOutcome::Refresh
            } else if c == 'c' {
                state.show_cores = !state.show_cores;
                KeyOutcome::Continue
            } else if c == 's' {
                state.sort_key = match state.sort_key {
                    SortKey::Cpu => SortKey::Mem,
                    SortKey::Mem => SortKey::Cpu,
                };
                if state.show_processes {
                    KeyOutcome::Refresh
                } else {
                    KeyOutcome::Continue
                }
            } else if c == '+' || c == '=' {
                let next = state.interval_secs + 1;
                state.interval_secs = if next < MAX_INTERVAL {
                    next
                } else {
                    MAX_INTERVAL
                };
                KeyOutcome::Continue
            } else if c == '-' {
                let next = state.interval_secs.saturating_sub(1);
                state.interval_secs = if next > MIN_INTERVAL {
                    next
                } else {
                    MIN_INTERVAL
                };
                KeyOutcome::Continue
            } else {
                KeyOutcome::Continue
            }
        },
        KeyPress::Other => KeyOutcome::Continue,
    }
}

/// The metrics are due again once a whole refresh interval has passed
/// since the last collection (`elapsed_secs` whole seconds have passed).
pub fn refresh_due(elapsed_secs: u64, interval_secs: u64) -> (due: bool)
    ensures
        due == (elapsed_secs >= interval_secs),
{
    elapsed_secs >= interval_secs
}

/// What the dashboard collects: the sections it shows, without a
/// timestamp.
pub fn dashboard_collect_args<'a>(state: &'a AppState) -> (args: CollectArgs<'a>)
    ensures
        args.disk == state.show_disk,
        args.network == state.show_network,
        args.processes == state.show_processes,
        args.process_count == state.process_count,
        *args.sort_key == state.sort_key,
        !args.include_timestamp,
{
    CollectArgs {
        disk: state.show_disk,
        network: state.show_network,
        processes: state.show_processes,
        process_count: state.process_count,
        sort_key: &state.sort_key,
        include_timestamp: false,
    }
}

/// Pressing a section key, `c` or `s` twice gives back the settings one
/// started from.
pub proof fn lemma_toggle_twice(s: AppState, c: char, control: bool)
    requires
        c == 'd' || c == 'n' || c == 'p' || c == 's' || (c == 'c' && !control),
    ensures
        key_next(key_next(s, KeyPress::Char { c, control }), KeyPress::Char { c, control }) == s,
{
}

/// The quit keys leave the settings as they are.
pub proof fn lemma_quit_keeps_state(s: AppState, key: KeyPress)
    requires
        is_quit_key(key),
    ensures
        key_next(s, key) == s,
        key_outcome(s, key) == KeyOutcome::Quit,
{
}

/// `+` never sets an interval above sixty seconds, `-` never one below
/// one second, and no key takes an interval in that range out of it.
pub proof fn lemma_interval_range(s: AppState, key: KeyPress)
    ensures
        is_slower_key(key) ==> key_next(s, key).interval_secs <= MAX_INTERVAL,
        key == (KeyPress::Char { c: '-', control: false }) || key == (KeyPress::Char { c: '-', control: true })
            ==> key_next(s, key).interval_secs >= MIN_INTERVAL,
        MIN_INTERVAL <= s.interval_secs <= MAX_INTERVAL
            ==> MIN_INTERVAL <= key_next(s, key).interval_secs <= MAX_INTERVAL,
{
}

/// Below the slowest interval, `+` then `-` restores the interval; above
/// the fastest, `-` then `+` does.
pub proof fn lemma_interval_round_trip(s: AppState)
    ensures
        MIN_INTERVAL <= s.interval_secs < MAX_INTERVAL ==> key_next(
            key_next(s, KeyPress::Char { c: '+', control: false }),
            KeyPress::Char { c: '-', control: false },
        ) == s,
        MIN_INTERVAL < s.interval_secs <= MAX_INTERVAL ==> key_next(
            key_next(s, KeyPress::Char { c: '-', control: false }),
            KeyPress::Char { c: '+', control: false },
        ) == s,
{
}

/// Only the section keys, and `s` while processes are shown, ask for the
/// metrics to be collected again; `c` only changes what is drawn.
pub proof fn lemma_refresh_keys(s: AppState, control: bool)
    ensures
        key_outcome(s, KeyPress::Char { c: 'c', control }) == (if control {
            KeyOutcome::Quit
        } else {
            KeyOutcome::Continue
        }),
        key_outcome(s, KeyPress::Char { c: 's', control }) == (if s.show_processes {
            KeyOutcome::Refresh
        } else {
            KeyOutcome::Continue
        }),
        key_outcome(s, KeyPress::Other) == KeyOutcome::Continue,
{
}

/// Each section key, `c` without Control and `s` change one setting and
/// nothing else: `d`, `n`, `p` and `c` switch their own section, `s` swaps
/// the order between CPU and memory; every other setting stays as it was.
/// `d`, `n` and `p` ask for the metrics again.
pub proof fn lemma_section_key_frame(s: AppState, control: bool)
    ensures
        ({
            let t = key_next(s, KeyPress::Char { c: 'd', control });
            t.show_disk == !s.show_disk && t.show_network == s.show_network
                && t.show_processes == s.show_processes && t.show_cores == s.show_cores
                && t.sort_key == s.sort_key && t.interval_secs == s.interval_secs
                && t.process_count == s.process_count
        }),
        ({
            let t = key_next(s, KeyPress::Char { c: 'n', control });
            t.show_disk == s.show_disk && t.show_network == !s.show_network
                && t.show_processes == s.show_processes && t.show_cores == s.show_cores
                && t.sort_key == s.sort_key && t.interval_secs == s.interval_secs
                && t.process_count == s.process_count
        }),
        ({
            let t = key_next(s, KeyPress::Char { c: 'p', control });
            t.show_disk == s.show_disk && t.show_network == s.show_network
                && t.show_processes == !s.show_processes && t.show_cores == s.show_cores
                && t.sort_key == s.sort_key && t.interval_secs == s.interval_secs
                && t.process_count == s.process_count
        }),
        !control ==> ({
            let t = key_next(s, KeyPress::Char { c: 'c', control });
            t.show_disk == s.show_disk && t.show_network == s.show_network
                && t.show_processes == s.show_processes && t.show_cores == !s.show_cores
                && t.sort_key == s.sort_key && t.interval_secs == s.interval_secs
                && t.process_count == s.process_count
        }),
        ({
            let t = key_next(s, KeyPress::Char { c: 's', control });
            t.show_disk == s.show_disk && t.show_network == s.show_network
                && t.show_processes == s.show_processes && t.show_cores == s.show_cores
                && t.sort_key != s.sort_key && t.interval_secs == s.interval_secs
                && t.process_count == s.process_count
        }),
        key_outcome(s, KeyPress::Char { c: 'd', control }) == KeyOutcome::Refresh,
        key_outcome(s, KeyPress::Char { c: 'n', control }) == KeyOutcome::Refresh,
        key_outcome(s, KeyPress::Char { c: 'p', control }) == KeyOutcome::Refresh,
{
}

/// `+`, `=` and `-` change the refresh interval and nothing else: `+` and
/// `=` add a second up to sixty, `-` takes one away down to one; none of
/// them asks for the metrics again.
pub proof fn lemma_interval_key_frame(s: AppState, c: char, control: bool)
    requires
        c == '+' || c == '=' || c == '-',
    ensures
        ({
            let t = key_next(s, KeyPress::Char { c, control });
            t.show_disk == s.show_disk && t.show_network == s.show_network
                && t.show_processes == s.show_processes && t.show_cores == s.show_cores
                && t.sort_key == s.sort_key && t.process_count == s.process_count
        }),
        c != '-' ==> key_next(s, KeyPress::Char { c, control }).interval_secs == (if s.interval_secs + 1 < 60 {
            s.interval_secs + 1
        } else {
            60
        }),
        c == '-' ==> key_next(s, KeyPress::Char { c, control }).interval_secs == (if s.interval_secs > 2 {
            s.interval_secs - 1
        } else {
            1
        }),
        key_outcome(s, KeyPress::Char { c, control }) == KeyOutcome::Continue,
{
}

/// Any key other than `q`, `d`, `n`, `p`, `c`, `s`, `+`, `=` and `-`, and
/// any key that is no character, leaves the settings as they are and asks
/// for nothing but a redraw.
pub proof fn lemma_other_keys_inert(s: AppState, key: KeyPress)
    requires
        !(key matches KeyPress::Char { c, .. } && (c == 'q' || c == 'd' || c == 'n' || c == 'p'
            || c == 'c' || c == 's' || c == '+' || c == '=' || c == '-')),
    ensures
        key_next(s, key) == s,
        key_outcome(s, key) == KeyOutcome::Continue,
{
}

} // verus!
