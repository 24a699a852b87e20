use lightsysmon::metrics::NetworkMetrics;
use lightsysmon::render::{
    alert_line, colorize, csv_header, csv_row, info_block, snapshot_block, top_block, uptime_text, usage_summary,
    watch_block, CpuReport, DiskReport, MemoryReport, Percent, ProcessReport, Report, SystemInfo, UsageLevel,
};

fn pct(text: &str, level: UsageLevel) -> Percent {
    Percent { text: text.to_string(), level }
}

fn report() -> Report {
    Report {
        timestamp: Some("2024-01-01T00:00:00+00:00".to_string()),
        cpu: CpuReport {
            usage: pct("12.5", UsageLevel::Low),
            per_core: vec![pct("10.0", UsageLevel::Low), pct("85.0", UsageLevel::High)],
            cpu_count: 2,
            brand: "Test CPU".to_string(),
            frequency_mhz: 2400,
        },
        memory: MemoryReport {
            usage: pct("62.0", UsageLevel::Medium),
            used: 1073741824,
            total: 2147483648,
            swap: pct("0.0", UsageLevel::Low),
            swap_used: 0,
            swap_total: 0,
        },
        disk: vec![DiskReport {
            name: "sda1".to_string(),
            mount_point: "/".to_string(),
            fs_type: "ext4".to_string(),
            total: 1048576,
            used: 524288,
            used_pct: pct("50.0", UsageLevel::Low),
        }],
        network: vec![NetworkMetrics {
            interface: "eth0".to_string(),
            rx_bytes: 2048,
            tx_bytes: 10,
            total_rx: 1,
            total_tx: 2,
        }],
        processes: vec![ProcessReport {
            pid: 42,
            name: "init".to_string(),
            cpu: pct("3.0", UsageLevel::Low),
            memory_bytes: 4096,
            memory_pct: pct("0.2", UsageLevel::Low),
        }],
    }
}

#[test]
fn watch_block_lines() {
    let mut r = report();
    r.timestamp = None;
    let lines = watch_block(&r, true, false);
    let expected = vec![
        "CPU:    12.5% (2 cores, 2400 MHz, Test CPU)".to_string(),
        "  Core 0: 10.0%".to_string(),
        "  Core 1: 85.0%".to_string(),
        "Memory: 62.0% (1.00 GiB / 2.00 GiB)".to_string(),
        "Disks:".to_string(),
        "  / (ext4): 50.0% used of 1.00 MiB  [sda1]".to_string(),
        "Network:".to_string(),
        "  eth0: \u{2193} 2.00 KiB \u{2191} 10 B".to_string(),
        "Top Processes:".to_string(),
        format!("  {:>7}  {:<25} {:>8}  {:>10}  {:>7}", "PID", "Name", "CPU%", "Memory", "Mem%"),
        format!("  {:>7}  {:<25} {:>7.1}%  {:>10}  {:>6.1}%", 42, "init", 3.0, "4.00 KiB", 0.2),
        "---".to_string(),
    ];
    assert_eq!(lines, expected);
}

#[test]
fn watch_timestamp_on_each_line() {
    let stamped = watch_block(&report(), true, false);
    let mut r = report();
    r.timestamp = None;
    let plain = watch_block(&r, true, false);
    assert_eq!(stamped.len(), plain.len());
    for (s, p) in stamped.iter().zip(plain.iter()) {
        assert_eq!(*s, format!("[2024-01-01T00:00:00+00:00] {}", p));
    }
    assert_eq!(stamped[0], "[2024-01-01T00:00:00+00:00] CPU:    12.5% (2 cores, 2400 MHz, Test CPU)");
    assert_eq!(stamped[stamped.len() - 1], "[2024-01-01T00:00:00+00:00] ---");
}

#[test]
fn watch_block_without_optional_sections() {
    let mut r = report();
    r.timestamp = None;
    r.disk.clear();
    r.network.clear();
    r.processes.clear();
    r.memory.swap_total = 1024;
    r.memory.swap_used = 512;
    r.memory.swap = pct("50.0", UsageLevel::Low);
    let lines = watch_block(&r, false, false);
    assert_eq!(
        lines,
        vec![
            "CPU:    12.5% (2 cores, 2400 MHz, Test CPU)".to_string(),
            "Memory: 62.0% (1.00 GiB / 2.00 GiB)".to_string(),
            "Swap:   50.0% (512 B / 1.00 KiB)".to_string(),
            "---".to_string(),
        ]
    );
}

#[test]
fn colours() {
    assert_eq!(colorize(UsageLevel::Low, "5.0%", true), "\x1b[32m5.0%\x1b[0m");
    assert_eq!(colorize(UsageLevel::Medium, "65.0%", true), "\x1b[33m65.0%\x1b[0m");
    assert_eq!(colorize(UsageLevel::High, "95.0%", true), "\x1b[31m95.0%\x1b[0m");
    assert_eq!(colorize(UsageLevel::High, "95.0%", false), "95.0%");
    let mut r = report();
    r.timestamp = None;
    let lines = watch_block(&r, false, true);
    assert_eq!(lines[0], "CPU:    \x1b[32m12.5%\x1b[0m (2 cores, 2400 MHz, Test CPU)");
    assert_eq!(lines[1], "Memory: \x1b[33m62.0%\x1b[0m (1.00 GiB / 2.00 GiB)");
}

#[test]
fn snapshot_lines() {
    let lines = snapshot_block(&report(), false);
    assert_eq!(
        lines,
        vec![
            "Snapshot at 2024-01-01T00:00:00+00:00".to_string(),
            "CPU:    12.5%".to_string(),
            "Memory: 62.0% (1.00 GiB / 2.00 GiB)".to_string(),
            "Disks:".to_string(),
            "  /: 50.0% used of 1.00 MiB".to_string(),
            "Network:".to_string(),
            "  eth0: \u{2193} 2.00 KiB \u{2191} 10 B".to_string(),
        ]
    );
}

#[test]
fn top_lines() {
    let mut procs = report().processes;
    procs.push(ProcessReport {
        pid: 1234567,
        name: "a-process-with-a-rather-long-name".to_string(),
        cpu: pct("100.0", UsageLevel::High),
        memory_bytes: 3 * 1073741824,
        memory_pct: pct("75.0", UsageLevel::Medium),
    });
    let lines = top_block(&procs);
    assert_eq!(lines[0], format!("{:>7}  {:<25} {:>8}  {:>10}  {:>7}", "PID", "Name", "CPU%", "Memory", "Mem%"));
    assert_eq!(lines[1], format!("{:>7}  {:<25} {:>7.1}%  {:>10}  {:>6.1}%", 42, "init", 3.0, "4.00 KiB", 0.2));
    assert_eq!(
        lines[2],
        format!(
            "{:>7}  {:<25} {:>7.1}%  {:>10}  {:>6.1}%",
            1234567, "a-process-with-a-rather-long-name", 100.0, "3.00 GiB", 75.0
        )
    );
    assert_eq!(lines.len(), 3);
}

#[test]
fn info_lines() {
    let info = SystemInfo {
        hostname: Some("box".to_string()),
        os_version: None,
        kernel_version: Some("6.1".to_string()),
        uptime: 3 * 3600 + 25 * 60 + 7,
        cpu_count: 8,
        brand: None,
        total_memory: 8 * 1073741824,
    };
    assert_eq!(
        info_block(&info),
        vec![
            "System Information".to_string(),
            "==================".to_string(),
            "Hostname:    box".to_string(),
            "OS:          unknown".to_string(),
            "Kernel:      6.1".to_string(),
            "Uptime:      3h 25m 7s".to_string(),
            "CPU:         unknown (8 cores)".to_string(),
            "Total RAM:   8.00 GiB".to_string(),
        ]
    );
}

#[test]
fn uptime_split() {
    assert_eq!(uptime_text(0), "0h 0m 0s");
    assert_eq!(uptime_text(59), "0h 0m 59s");
    assert_eq!(uptime_text(3600), "1h 0m 0s");
    assert_eq!(uptime_text(90061), "25h 1m 1s");
}

#[test]
fn csv_and_alerts() {
    assert_eq!(csv_header(), "timestamp,cpu_pct,mem_pct,mem_used_bytes,mem_total_bytes");
    assert_eq!(csv_row("T", "1.5", "20.0", 10, 20), "T,1.5,20.0,10,20");
    assert_eq!(alert_line("CPU", "95.0", "90.0"), "ALERT: CPU usage 95.0% exceeds threshold 90.0%");
    assert_eq!(
        usage_summary("12.5", "40.0"),
        vec!["CPU Usage: 12.5%".to_string(), "Memory Usage: 40.0%".to_string()]
    );
}
