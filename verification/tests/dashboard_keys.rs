use lightsysmon::cli::SortKey;
use lightsysmon::tui::{dashboard_collect_args, handle_key, refresh_due, AppState, KeyOutcome, KeyPress};

fn state() -> AppState {
    AppState {
        show_disk: false,
        show_network: false,
        show_processes: true,
        show_cores: false,
        sort_key: SortKey::Cpu,
        interval_secs: 1,
        process_count: 10,
    }
}

fn key(c: char) -> KeyPress {
    KeyPress::Char { c, control: false }
}

fn same(a: &AppState, b: &AppState) -> bool {
    a.show_disk == b.show_disk
        && a.show_network == b.show_network
        && a.show_processes == b.show_processes
        && a.show_cores == b.show_cores
        && a.sort_key == b.sort_key
        && a.interval_secs == b.interval_secs
        && a.process_count == b.process_count
}

#[test]
fn quit_keys() {
    let mut s = state();
    assert_eq!(handle_key(&mut s, key('q')), KeyOutcome::Quit);
    assert_eq!(handle_key(&mut s, KeyPress::Char { c: 'c', control: true }), KeyOutcome::Quit);
    assert_eq!(handle_key(&mut s, KeyPress::Char { c: 'q', control: true }), KeyOutcome::Quit);
    assert!(same(&s, &state()));
}

#[test]
fn section_keys_toggle_and_refresh() {
    let mut s = state();
    assert_eq!(handle_key(&mut s, key('d')), KeyOutcome::Refresh);
    assert!(s.show_disk);
    assert_eq!(handle_key(&mut s, key('n')), KeyOutcome::Refresh);
    assert!(s.show_network);
    assert_eq!(handle_key(&mut s, key('p')), KeyOutcome::Refresh);
    assert!(!s.show_processes);
    assert_eq!(handle_key(&mut s, key('c')), KeyOutcome::Continue);
    assert!(s.show_cores);
    for c in ['d', 'n', 'p', 'c'] {
        handle_key(&mut s, key(c));
    }
    assert!(same(&s, &state()));
}

#[test]
fn sort_key_flips_and_refreshes_only_with_processes() {
    let mut s = state();
    assert_eq!(handle_key(&mut s, key('s')), KeyOutcome::Refresh);
    assert_eq!(s.sort_key, SortKey::Mem);
    s.show_processes = false;
    assert_eq!(handle_key(&mut s, key('s')), KeyOutcome::Continue);
    assert_eq!(s.sort_key, SortKey::Cpu);
}

#[test]
fn interval_keys_stay_between_one_and_sixty() {
    let mut s = state();
    assert_eq!(handle_key(&mut s, key('-')), KeyOutcome::Continue);
    assert_eq!(s.interval_secs, 1);
    for _ in 0..100 {
        handle_key(&mut s, key('+'));
    }
    assert_eq!(s.interval_secs, 60);
    handle_key(&mut s, key('='));
    assert_eq!(s.interval_secs, 60);
    handle_key(&mut s, key('-'));
    assert_eq!(s.interval_secs, 59);
    s.interval_secs = 0;
    handle_key(&mut s, key('-'));
    assert_eq!(s.interval_secs, 1);
    s.interval_secs = 500;
    handle_key(&mut s, key('+'));
    assert_eq!(s.interval_secs, 60);
    s.interval_secs = 500;
    handle_key(&mut s, key('-'));
    assert_eq!(s.interval_secs, 499);
}

#[test]
fn other_keys_do_nothing() {
    let mut s = state();
    assert_eq!(handle_key(&mut s, KeyPress::Other), KeyOutcome::Continue);
    assert_eq!(handle_key(&mut s, key('x')), KeyOutcome::Continue);
    assert!(same(&s, &state()));
}

#[test]
fn refresh_is_due_after_a_whole_interval() {
    assert!(!refresh_due(0, 1));
    assert!(refresh_due(1, 1));
    assert!(refresh_due(5, 2));
    assert!(refresh_due(0, 0));
}

#[test]
fn dashboard_collects_what_it_shows() {
    let s = state();
    let c = dashboard_collect_args(&s);
    assert!(!c.disk && !c.network && c.processes && !c.include_timestamp);
    assert_eq!(c.process_count, 10);
    assert_eq!(*c.sort_key, SortKey::Cpu);
}

#[test]
fn interval_round_trip() {
    for x in 1..60u64 {
        let mut s = state();
        s.interval_secs = x;
        handle_key(&mut s, key('+'));
        handle_key(&mut s, key('-'));
        assert_eq!(s.interval_secs, x);
    }
    for x in 2..=60u64 {
        let mut s = state();
        s.interval_secs = x;
        handle_key(&mut s, key('-'));
        handle_key(&mut s, key('+'));
        assert_eq!(s.interval_secs, x);
    }
}
