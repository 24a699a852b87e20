use lightsysmon::dashboard::{footer_spans, memory_rows, FooterStyle};
use lightsysmon::tui::AppState;
use lightsysmon::cli::SortKey;
use lightsysmon::dashboard::{
    body_layout, core_columns, cpu_summary, interval_label, memory_gauge_label, network_cells, processes_title,
    sort_label, title_parts, BodyCounts, CoreGauge, Extent, Panel,
};
use lightsysmon::interactive::{
    menu_action, menu_items, shell_choice, snapshot_args_from_answers, sort_key_choice, top_prompt_default,
    watch_args_from_answers, watch_prompt_defaults, MenuAction, ShellChoice, WatchAnswers,
};
use lightsysmon::config::Config;
use lightsysmon::metrics::NetworkMetrics;

fn counts() -> BodyCounts {
    BodyCounts {
        show_cores: true,
        cores: 5,
        show_disk: true,
        disks: 2,
        show_network: false,
        interfaces: 3,
        show_processes: true,
        processes: 0,
    }
}

#[test]
fn body_panels() {
    assert_eq!(
        body_layout(&counts()),
        vec![
            (Panel::CpuMemory, Extent::Length(5)),
            (Panel::Cores, Extent::Length(5)),
            (Panel::Disk, Extent::Length(5)),
            (Panel::Filler, Extent::Min(0)),
        ]
    );
    let mut c = counts();
    c.show_network = true;
    c.processes = 4;
    c.show_cores = false;
    assert_eq!(
        body_layout(&c),
        vec![
            (Panel::CpuMemory, Extent::Length(5)),
            (Panel::Disk, Extent::Length(5)),
            (Panel::Network, Extent::Length(6)),
            (Panel::Processes, Extent::Min(6)),
            (Panel::Filler, Extent::Min(0)),
        ]
    );
    c.disks = 70000;
    assert_eq!(body_layout(&c)[1], (Panel::Disk, Extent::Length(((70000usize as u16).saturating_add(3)))));
}

#[test]
fn core_gauges_in_two_columns() {
    let gauges: Vec<CoreGauge> =
        (0..5).map(|i| CoreGauge { filled: i * 3, text: format!("{:.1}", i as f64 * 25.0) }).collect();
    let (left, right) = core_columns(&gauges);
    assert_eq!(left.len(), 3);
    assert_eq!(right.len(), 2);
    assert_eq!(left[0].label, "Core  0  ");
    assert_eq!(right[1].label, "Core  4  ");
    assert_eq!(left[1].bar, format!("{}{}", "\u{2588}".repeat(3), "\u{2591}".repeat(9)));
    assert_eq!(right[1].bar, "\u{2588}".repeat(12));
    assert_eq!(left[2].value, "   50.0%");
    assert_eq!(right[1].value, "  100.0%");
    let many: Vec<CoreGauge> = (0..12).map(|_| CoreGauge { filled: 0, text: "0.0".to_string() }).collect();
    let (l, r) = core_columns(&many);
    assert_eq!(r[5].label, "Core 11  ");
    assert_eq!(l.len(), 6);
}

#[test]
fn title_bar() {
    let (left, pad, right) = title_parts(60, "0.1.0", "2024-01-01  10:00:00");
    assert_eq!(left, "  lightsysmon v0.1.0");
    assert_eq!(right, "2024-01-01  10:00:00  ");
    assert_eq!(pad.len(), 60 - left.len() - right.len());
    let (_, pad, _) = title_parts(10, "0.1.0", "x");
    assert_eq!(pad, "");
}

#[test]
fn labels() {
    assert_eq!(sort_label(SortKey::Cpu), "CPU");
    assert_eq!(sort_label(SortKey::Mem), "Mem");
    assert_eq!(processes_title(SortKey::Mem), " Processes  by Mem ");
    assert_eq!(interval_label(5), "5s");
    assert_eq!(cpu_summary(8, 3200), "  8 cores @ 3200 MHz  ");
    assert_eq!(memory_gauge_label("RAM  ", "50.0", 1024, 2048), "RAM  50.0%   1.00 KiB / 2.00 KiB");
    let n = NetworkMetrics { interface: "lo".to_string(), rx_bytes: 1, tx_bytes: 2048, total_rx: 3, total_tx: 4 };
    assert_eq!(network_cells(&n), vec!["lo", "1 B", "2.00 KiB", "3 B", "4 B"]);
}

#[test]
fn menu() {
    assert_eq!(menu_items().len(), 7);
    assert_eq!(menu_action(0), Some(MenuAction::WatchPlain));
    assert_eq!(menu_action(1), Some(MenuAction::WatchDashboard));
    assert_eq!(menu_action(4), Some(MenuAction::Info));
    assert_eq!(menu_action(5), Some(MenuAction::Completions));
    assert_eq!(menu_action(6), None);
    assert_eq!(sort_key_choice(1), SortKey::Mem);
    assert_eq!(sort_key_choice(0), SortKey::Cpu);
    assert_eq!(shell_choice(3), ShellChoice::PowerShell);
    assert_eq!(shell_choice(9), ShellChoice::Elvish);
}

#[test]
fn prompt_answers() {
    let cfg: Config<f64> = Config {
        interval: None,
        show_disk: Some(true),
        show_network: None,
        show_processes: None,
        process_count: Some(8),
        alert_cpu: None,
        alert_mem: None,
    };
    let d = watch_prompt_defaults(&cfg);
    assert_eq!(d.interval, 1);
    assert_eq!(d.process_count, 8);
    assert!(d.disk && !d.network && !d.processes);
    let a = WatchAnswers {
        interval: 4,
        cores: true,
        disk: false,
        network: true,
        processes: false,
        process_count: None,
        sort: SortKey::Mem,
        timestamp: true,
        json: false,
    };
    let w = watch_args_from_answers::<f64>(&a, &d, true);
    assert_eq!(w.interval, 4);
    assert_eq!(w.process_count, 8);
    assert!(w.tui && w.cores && w.network && w.log.is_none() && w.alert_cpu.is_none());
    let mut b = a;
    b.process_count = Some(3);
    assert_eq!(watch_args_from_answers::<f64>(&b, &d, false).process_count, 8);
    b.processes = true;
    assert_eq!(watch_args_from_answers::<f64>(&b, &d, false).process_count, 3);
    b.process_count = None;
    assert_eq!(watch_args_from_answers::<f64>(&b, &d, false).process_count, 8);
    assert_eq!(top_prompt_default(&cfg), 8);
    assert_eq!(top_prompt_default(&Config::<f64>::default()), 10);
    let s = snapshot_args_from_answers(true, false, 2);
    assert!(s.csv && !s.json && s.disk && !s.network);
}

#[test]
fn memory_panel_rows() {
    assert_eq!(memory_rows(0), vec![Extent::Length(1), Extent::Min(0)]);
    assert_eq!(memory_rows(5), vec![Extent::Length(1), Extent::Length(1), Extent::Min(0)]);
}

#[test]
fn footer() {
    let s = AppState {
        show_disk: true,
        show_network: false,
        show_processes: true,
        show_cores: false,
        sort_key: SortKey::Mem,
        interval_secs: 7,
        process_count: 10,
    };
    let spans = footer_spans(&s);
    let text: String = spans.iter().map(|f| f.text.as_str()).collect();
    assert_eq!(text, " [q]Quit   [d]Disk   [n]Net   [p]Procs   [c]Cores   [s]Sort:Mem   [-/+]7s");
    assert_eq!(spans[5].style, FooterStyle::On);
    assert_eq!(spans[8].style, FooterStyle::Off);
    assert_eq!(spans[11].style, FooterStyle::On);
    assert_eq!(spans[14].style, FooterStyle::Off);
    assert_eq!(spans[18].style, FooterStyle::ValueBold);
    assert_eq!(spans[21].style, FooterStyle::Value);
}
