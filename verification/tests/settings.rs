use lightsysmon::settings::{snapshot_output, top_output, watch_output, OutputMode};
use lightsysmon::cli::{SnapshotArgs, SortKey, TopArgs, WatchArgs};
use lightsysmon::config::{config_path, Config};
use lightsysmon::metrics::used_space;
use lightsysmon::settings::{
    csv_needs_header, dashboard_state, default_dashboard_state, resolve_watch, snapshot_collect_args,
    top_collect_args, watch_collect_args,
};

fn watch_args() -> WatchArgs<f64> {
    WatchArgs {
        interval: 1,
        cores: false,
        disk: false,
        network: false,
        processes: false,
        process_count: 5,
        sort: SortKey::Cpu,
        timestamp: false,
        json: false,
        log: None,
        tui: false,
        alert_cpu: None,
        alert_mem: None,
    }
}

fn config() -> Config<f64> {
    Config {
        interval: Some(3),
        show_disk: Some(true),
        show_network: Some(false),
        show_processes: None,
        process_count: Some(7),
        alert_cpu: Some(90.0),
        alert_mem: None,
    }
}

#[test]
fn config_fills_in_defaults() {
    let s = resolve_watch(&watch_args(), &config());
    assert_eq!(s.interval, 3);
    assert!(s.show_disk);
    assert!(!s.show_network);
    assert!(!s.show_processes);
    assert_eq!(s.process_count, 7);
    assert_eq!(s.alert_cpu, Some(90.0));
    assert_eq!(s.alert_mem, None);
}

#[test]
fn explicit_options_take_precedence() {
    let mut a = watch_args();
    a.interval = 10;
    a.process_count = 2;
    a.network = true;
    a.alert_cpu = Some(50.0);
    let s = resolve_watch(&a, &config());
    assert_eq!(s.interval, 10);
    assert_eq!(s.process_count, 2);
    assert!(s.show_network);
    assert_eq!(s.alert_cpu, Some(50.0));
}

#[test]
fn empty_config_keeps_options() {
    let s = resolve_watch(&watch_args(), &Config::<f64>::default());
    assert_eq!(s.interval, 1);
    assert_eq!(s.process_count, 5);
    assert!(!s.show_disk && !s.show_network && !s.show_processes);
}

#[test]
fn watch_collects_its_settings() {
    let mut a = watch_args();
    a.timestamp = true;
    a.sort = SortKey::Mem;
    let s = resolve_watch(&a, &config());
    let c = watch_collect_args(&s, &a);
    assert!(c.disk && !c.network && !c.processes && c.include_timestamp);
    assert_eq!(c.process_count, 7);
    assert_eq!(*c.sort_key, SortKey::Mem);
}

#[test]
fn dashboard_defaults() {
    let d = default_dashboard_state(&Config::<f64>::default());
    assert!(!d.show_disk && !d.show_network && d.show_processes && !d.show_cores);
    assert_eq!(d.interval_secs, 1);
    assert_eq!(d.process_count, 10);
    assert_eq!(d.sort_key, SortKey::Cpu);
    let t = dashboard_state(&watch_args(), &Config::<f64>::default());
    assert_eq!(t.process_count, 5);
    let s = resolve_watch(&watch_args(), &Config::<f64>::default());
    assert_eq!(t.process_count, s.process_count);
    assert!(t.show_processes);
    let t = dashboard_state(&watch_args(), &config());
    assert_eq!(t.interval_secs, 3);
    assert_eq!(t.process_count, 7);
    assert!(t.show_disk);
}

#[test]
fn top_and_snapshot_collections() {
    let top = TopArgs { sort: SortKey::Mem, count: 10, json: false };
    let c = top_collect_args(&top, &config());
    assert!(c.processes && !c.disk && !c.network && !c.include_timestamp);
    assert_eq!(c.process_count, 7);
    let top = TopArgs { sort: SortKey::Mem, count: 3, json: true };
    assert_eq!(top_collect_args(&top, &config()).process_count, 3);
    let snap = SnapshotArgs { json: false, csv: false, disk: false, network: true };
    let key = SortKey::default();
    let c = snapshot_collect_args(&snap, &config(), &key);
    assert!(c.disk && c.network && !c.processes && c.include_timestamp);
    assert_eq!(c.process_count, 0);
}

#[test]
fn csv_header_only_for_new_files() {
    assert!(csv_needs_header(false, None));
    assert!(csv_needs_header(true, None));
    assert!(csv_needs_header(true, Some(0)));
    assert!(!csv_needs_header(true, Some(120)));
}

#[test]
fn config_file_location() {
    assert_eq!(config_path(Some("/etc/x.toml"), Some("/home/a")), Some("/etc/x.toml".to_string()));
    assert_eq!(
        config_path(None, Some("/home/a")),
        Some("/home/a/.config/lightsysmon/config.toml".to_string())
    );
    assert_eq!(config_path(None, None), None);
}

#[test]
fn disk_used_space_saturates() {
    assert_eq!(used_space(100, 30), 70);
    assert_eq!(used_space(100, 130), 0);
    assert_eq!(used_space(0, 0), 0);
}

#[test]
fn flags_stay_on_whatever_the_config_says() {
    let mut a = watch_args();
    a.disk = true;
    a.network = true;
    a.processes = true;
    let off: Config<f64> = Config {
        interval: None,
        show_disk: Some(false),
        show_network: Some(false),
        show_processes: Some(false),
        process_count: None,
        alert_cpu: Some(10.0),
        alert_mem: Some(20.0),
    };
    a.alert_mem = Some(70.0);
    let s = resolve_watch(&a, &off);
    assert!(s.show_disk && s.show_network && s.show_processes);
    assert_eq!(s.alert_mem, Some(70.0));
    assert_eq!(s.alert_cpu, Some(10.0));
    let d = dashboard_state(&a, &off);
    assert!(d.show_disk && d.show_network && d.show_processes);
}

#[test]
fn plain_and_dashboard_watch_agree() {
    for interval in [1u64, 2, 30] {
        for cfg in [config(), Config::<f64>::default()] {
            let mut a = watch_args();
            a.interval = interval;
            let s = resolve_watch(&a, &cfg);
            let d = dashboard_state(&a, &cfg);
            assert_eq!(s.interval, d.interval_secs);
            assert_eq!(s.show_disk, d.show_disk);
            assert_eq!(s.show_network, d.show_network);
        }
    }
}

#[test]
fn watch_tui_without_options_is_the_default_dashboard() {
    for cfg in [config(), Config::<f64>::default()] {
        let t = dashboard_state(&watch_args(), &cfg);
        let d = default_dashboard_state(&cfg);
        assert_eq!(t.show_disk, d.show_disk);
        assert_eq!(t.show_network, d.show_network);
        assert_eq!(t.show_processes, d.show_processes);
        assert_eq!(t.show_cores, d.show_cores);
        assert_eq!(t.sort_key, d.sort_key);
        assert_eq!(t.interval_secs, d.interval_secs);
        if cfg.process_count.is_some() {
            assert_eq!(t.process_count, d.process_count);
        } else {
            assert_eq!(t.process_count, 5);
            assert_eq!(d.process_count, 10);
        }
    }
}

#[test]
fn output_modes() {
    let snap = |json, csv| SnapshotArgs { json, csv, disk: false, network: false };
    assert_eq!(snapshot_output(&snap(true, true)), OutputMode::Json);
    assert_eq!(snapshot_output(&snap(false, true)), OutputMode::Csv);
    assert_eq!(snapshot_output(&snap(false, false)), OutputMode::Plain);
    assert_eq!(top_output(&TopArgs { sort: SortKey::Cpu, count: 1, json: true }), OutputMode::Json);
    let mut a = watch_args();
    assert_eq!(watch_output(&a), OutputMode::Plain);
    a.json = true;
    assert_eq!(watch_output(&a), OutputMode::Json);
}
