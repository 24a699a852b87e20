//! The plain-text output of `watch`, `snapshot`, `top` and `info`.
//!
//! Percentages reach this module already written with one decimal (the
//! text of `{:.1}`) together with their usage level; everything else —
//! integers, byte counts, alignment, colours and the order of the lines —
//! is produced here.
use vstd::prelude::*;
use crate::metrics::NetworkMetrics;
use crate::text::{decimal, pad_left, pad_right, push_decimal, decimal_string, push_padded_left, push_padded_right};
use crate::units::{format_bytes, format_bytes_spec};

verus! {

/// How high a usage percentage is: below 60, below 80, or higher.
#[derive(Clone, Copy, PartialEq, Eq, Structural, Debug)]
pub enum UsageLevel {
    Low,
    Medium,
    High,
}

/// A percentage as printed: its one-decimal text (without `%`) and its
/// usage level.
#[derive(Clone, Debug)]
pub struct Percent {
    pub text: String,
    pub level: UsageLevel,
}

/// CPU figures of one collection.
#[derive(Clone, Debug)]
pub struct CpuReport {
    pub usage: Percent,
    pub per_core: Vec<Percent>,
    pub cpu_count: usize,
    pub brand: String,
    pub frequency_mhz: u64,
}

/// Memory figures of one collection.
#[derive(Clone, Debug)]
pub struct MemoryReport {
    pub usage: Percent,
    pub used: u64,
    pub total: u64,
    pub swap: Percent,
    pub swap_used: u64,
    pub swap_total: u64,
}

/// One disk of one collection.
#[derive(Clone, Debug)]
pub struct DiskReport {
    pub name: String,
    pub mount_point: String,
    pub fs_type: String,
    pub total: u64,
    pub used: u64,
    pub used_pct: Percent,
}

/// One process of one collection.
#[derive(Clone, Debug)]
pub struct ProcessReport {
    pub pid: u32,
    pub name: String,
    pub cpu: Percent,
    pub memory_bytes: u64,
    pub memory_pct: Percent,
}

/// Everything one collection shows.
#[derive(Clone, Debug)]
pub struct Report {
    pub timestamp: Option<String>,
    pub cpu: CpuReport,
    pub memory: MemoryReport,
    pub disk: Vec<DiskReport>,
    pub network: Vec<NetworkMetrics>,
    pub processes: Vec<ProcessReport>,
}

/// The facts `info` prints.
#[derive(Clone, Debug)]
pub struct SystemInfo {
    pub hostname: Option<String>,
    pub os_version: Option<String>,
    pub kernel_version: Option<String>,
    pub uptime: u64,
    pub cpu_count: usize,
    pub brand: Option<String>,
    pub total_memory: u64,
}

/// The character sequences of a list of lines.
pub open spec fn view_lines(v: Seq<String>) -> Seq<Seq<char>> {
    v.map_values(|s: String| s@)
}

/// The terminal colour that introduces a percentage of the given level.
pub open spec fn color_code(level: UsageLevel) -> Seq<char> {
    match level {
        UsageLevel::Low => "\x1b[32m"@,
        UsageLevel::Medium => "\x1b[33m"@,
        UsageLevel::High => "\x1b[31m"@,
    }
}

/// `text`, coloured by `level` when colours are on.
pub open spec fn colorize_spec(level: UsageLevel, text: Seq<char>, use_color: bool) -> Seq<char> {
    if use_color {
        color_code(level) + text + "\x1b[0m"@
    } else {
        text
    }
}

/// A percentage with its sign, coloured by its level when colours are on.
pub open spec fn percent_spec(p: Percent, use_color: bool) -> Seq<char> {
    colorize_spec(p.level, p.text@ + "%"@, use_color)
}

/// A line of a `watch` block carrying the timestamp: `[timestamp] line`.
pub open spec fn stamped_spec(ts: Seq<char>, line: Seq<char>) -> Seq<char> {
    "["@ + ts + "] "@ + line
}

/// Every line of `lines`, carrying the timestamp `ts`.
pub open spec fn stamp_all(ts: Seq<char>, lines: Seq<Seq<char>>) -> Seq<Seq<char>> {
    Seq::new(lines.len(), |i: int| stamped_spec(ts, lines[i]))
}

pub open spec fn cpu_line_spec(cpu: CpuReport, use_color: bool) -> Seq<char> {
    "CPU:    "@ + percent_spec(cpu.usage, use_color) + " ("@ + decimal(cpu.cpu_count as nat) + " cores, "@
        + decimal(cpu.frequency_mhz as nat) + " MHz, "@ + cpu.brand@ + ")"@
}

pub open spec fn core_line_spec(i: nat, p: Percent, use_color: bool) -> Seq<char> {
    "  Core "@ + decimal(i) + ": "@ + percent_spec(p, use_color)
}

pub open spec fn core_lines_spec(cores: Seq<Percent>, use_color: bool) -> Seq<Seq<char>> {
    Seq::new(cores.len(), |i: int| core_line_spec(i as nat, cores[i], use_color))
}

pub open spec fn memory_line_spec(m: MemoryReport, use_color: bool) -> Seq<char> {
    "Memory: "@ + percent_spec(m.usage, use_color) + " ("@ + format_bytes_spec(m.used as nat) + " / "@
        + format_bytes_spec(m.total as nat) + ")"@
}

pub open spec fn swap_line_spec(m: MemoryReport, use_color: bool) -> Seq<char> {
    "Swap:   "@ + percent_spec(m.swap, use_color) + " ("@ + format_bytes_spec(m.swap_used as nat) + " / "@
        + format_bytes_spec(m.swap_total as nat) + ")"@
}

pub open spec fn disk_line_spec(d: DiskReport, use_color: bool) -> Seq<char> {
    "  "@ + d.mount_point@ + " ("@ + d.fs_type@ + "): "@ + percent_spec(d.used_pct, use_color) + " used of "@
        + format_bytes_spec(d.total as nat) + "  ["@ + d.name@ + "]"@
}

pub open spec fn network_line_spec(n: NetworkMetrics) -> Seq<char> {
    "  "@ + n.interface@ + ": \u{2193} "@ + format_bytes_spec(n.rx_bytes as nat) + " \u{2191} "@
        + format_bytes_spec(n.tx_bytes as nat)
}

/// The column titles of the process table, after `indent`.
pub open spec fn process_header_spec(indent: Seq<char>) -> Seq<char> {
    indent + pad_left("PID"@, 7) + "  "@ + pad_right("Name"@, 25) + " "@ + pad_left("CPU%"@, 8) + "  "@
        + pad_left("Memory"@, 10) + "  "@ + pad_left("Mem%"@, 7)
}

/// One row of the process table, after `indent`.
pub open spec fn process_row_spec(indent: Seq<char>, p: ProcessReport) -> Seq<char> {
    indent + pad_left(decimal(p.pid as nat), 7) + "  "@ + pad_right(p.name@, 25) + " "@ + pad_left(p.cpu.text@, 7)
        + "%"@ + "  "@ + pad_left(format_bytes_spec(p.memory_bytes as nat), 10) + "  "@ + pad_left(
        p.memory_pct.text@,
        6,
    ) + "%"@
}

/// A section: its title and its lines, or nothing when it has no lines.
pub open spec fn section<A>(title: Seq<char>, items: Seq<A>, line: spec_fn(A) -> Seq<char>) -> Seq<Seq<char>> {
    if items.len() == 0 {
        Seq::empty()
    } else {
        seq![title] + items.map_values(line)
    }
}

/// The per-core lines of a `watch` block, when asked for.
pub open spec fn cores_part(r: Report, show_cores: bool, use_color: bool) -> Seq<Seq<char>> {
    if show_cores {
        core_lines_spec(r.cpu.per_core@, use_color)
    } else {
        Seq::empty()
    }
}

/// The swap line of a `watch` block, when the machine has swap.
pub open spec fn swap_part(r: Report, use_color: bool) -> Seq<Seq<char>> {
    if r.memory.swap_total > 0 {
        seq![swap_line_spec(r.memory, use_color)]
    } else {
        Seq::empty()
    }
}

/// The process table of a `watch` block, when there are processes.
pub open spec fn processes_part(r: Report) -> Seq<Seq<char>> {
    if r.processes@.len() == 0 {
        Seq::empty()
    } else {
        seq!["Top Processes:"@, process_header_spec("  "@)] + r.processes@.map_values(
            |p: ProcessReport| process_row_spec("  "@, p),
        )
    }
}

/// The lines of one `watch` tick in plain-text mode, before timestamps.
pub open spec fn watch_lines_spec(r: Report, show_cores: bool, use_color: bool) -> Seq<Seq<char>> {
    seq![cpu_line_spec(r.cpu, use_color)] + cores_part(r, show_cores, use_color) + seq![
        memory_line_spec(r.memory, use_color),
    ] + swap_part(r, use_color) + section("Disks:"@, r.disk@, |d: DiskReport| disk_line_spec(d, use_color))
        + section("Network:"@, r.network@, |n: NetworkMetrics| network_line_spec(n)) + processes_part(r)
        + seq!["---"@]
}

/// The lines of one `watch` tick in plain-text mode: when the collection
/// has a timestamp, each line carries it.
pub open spec fn watch_block_spec(r: Report, show_cores: bool, use_color: bool) -> Seq<Seq<char>> {
    match r.timestamp {
        Some(ts) => stamp_all(ts@, watch_lines_spec(r, show_cores, use_color)),
        None => watch_lines_spec(r, show_cores, use_color),
    }
}

pub open spec fn snapshot_disk_line_spec(d: DiskReport) -> Seq<char> {
    "  "@ + d.mount_point@ + ": "@ + d.used_pct.text@ + "% used of "@ + format_bytes_spec(d.total as nat)
}

/// The lines of `snapshot` in plain-text mode.
pub open spec fn snapshot_block_spec(r: Report, use_color: bool) -> Seq<Seq<char>> {
    (match r.timestamp {
        Some(ts) => seq!["Snapshot at "@ + ts@],
        None => Seq::empty(),
    }) + seq!["CPU:    "@ + percent_spec(r.cpu.usage, use_color), memory_line_spec(r.memory, use_color)]
        + section("Disks:"@, r.disk@, |d: DiskReport| snapshot_disk_line_spec(d)) + section(
        "Network:"@,
        r.network@,
        |n: NetworkMetrics| network_line_spec(n),
    )
}

/// The lines of `top` in plain-text mode.
pub open spec fn top_block_spec(processes: Seq<ProcessReport>) -> Seq<Seq<char>> {
    seq![process_header_spec(Seq::empty())] + processes.map_values(|p: ProcessReport| process_row_spec(Seq::empty(), p))
}

/// A name, or `unknown` when it could not be read.
pub open spec fn or_unknown(s: Option<String>) -> Seq<char> {
    match s {
        Some(v) => v@,
        None => "unknown"@,
    }
}

/// An uptime split into hours, minutes and seconds.
pub open spec fn uptime_spec(uptime: nat) -> Seq<char> {
    decimal(uptime / 3600) + "h "@ + decimal((uptime % 3600) / 60) + "m "@ + decimal(uptime % 60) + "s"@
}

/// The lines of `info`.
pub open spec fn info_block_spec(i: SystemInfo) -> Seq<Seq<char>> {
    seq![
        "System Information"@,
        "=================="@,
        "Hostname:    "@ + or_unknown(i.hostname),
        "OS:          "@ + or_unknown(i.os_version),
        "Kernel:      "@ + or_unknown(i.kernel_version),
        "Uptime:      "@ + uptime_spec(i.uptime as nat),
        "CPU:         "@ + or_unknown(i.brand) + " ("@ + decimal(i.cpu_count as nat) + " cores)"@,
        "Total RAM:   "@ + format_bytes_spec(i.total_memory as nat),
    ]
}

/// The first line of the CSV log.
pub open spec fn csv_header_spec() -> Seq<char> {
    "timestamp,cpu_pct,mem_pct,mem_used_bytes,mem_total_bytes"@
}

/// One line of the CSV log.
pub open spec fn csv_row_spec(ts: Seq<char>, cpu: Seq<char>, mem: Seq<char>, used: nat, total: nat) -> Seq<char> {
    ts + ","@ + cpu + ","@ + mem + ","@ + decimal(used) + ","@ + decimal(total)
}

fn push_line(lines: &mut Vec<String>, s: String)
    ensures
        view_lines(final(lines)@) == view_lines(old(lines)@).push(s@),
{
    lines.push(s);
    assert(view_lines(final(lines)@) =~= view_lines(old(lines)@).push(s@));
}

/// `text` coloured by `level` when colours are on.
pub fn colorize(level: UsageLevel, text: &str, use_color: bool) -> (s: String)
    ensures
        s@ == colorize_spec(level, text@, use_color),
{
    if !use_color {
        return text.to_owned();
    }
    let mut s = String::new();
    match level {
        UsageLevel::Low => s.append("\x1b[32m"),
        UsageLevel::Medium => s.append("\x1b[33m"),
        UsageLevel::High => s.append("\x1b[31m"),
    }
    s.append(text);
    s.append("\x1b[0m");
    assert(s@ =~= colorize_spec(level, text@, use_color));
    s
}

fn push_percent(out: &mut String, p: &Percent, use_color: bool)
    ensures
        final(out)@ == old(out)@ + percent_spec(*p, use_color),
{
    let mut t = p.text.clone();
    t.append("%");
    let c = colorize(p.level, t.as_str(), use_color);
    out.append(c.as_str());
}

fn push_bytes(out: &mut String, n: u64)
    ensures
        final(out)@ == old(out)@ + format_bytes_spec(n as nat),
{
    let b = format_bytes(n);
    out.append(b.as_str());
}

/// `line` carrying the timestamp `ts`.
pub fn stamped(ts: &str, line: &str) -> (s: String)
    ensures
        s@ == stamped_spec(ts@, line@),
{
    let mut s = String::new();
    s.append("[");
    s.append(ts);
    s.append("] ");
    s.append(line);
    assert(s@ =~= stamped_spec(ts@, line@));
    s
}

/// Every line of `lines`, carrying the timestamp `ts`.
pub fn stamp_lines(ts: &str, lines: &Vec<String>) -> (out: Vec<String>)
    ensures
        view_lines(out@) == stamp_all(ts@, view_lines(lines@)),
{
    let mut out: Vec<String> = Vec::new();
    for i in 0..lines.len()
        invariant
            view_lines(out@) == stamp_all(ts@, view_lines(lines@).take(i as int)),
    {
        let l = stamped(ts, lines[i].as_str());
        push_line(&mut out, l);
        assert(stamp_all(ts@, view_lines(lines@).take(i + 1)) =~= stamp_all(ts@, view_lines(lines@).take(i as int)).push(
            stamped_spec(ts@, lines@[i as int]@),
        ));
    }
    assert(view_lines(lines@).take(lines@.len() as int) =~= view_lines(lines@));
    out
}

/// The CPU line of `watch`.
pub fn cpu_line(cpu: &CpuReport, use_color: bool) -> (s: String)
    ensures
        s@ == cpu_line_spec(*cpu, use_color),
{
    let mut s = String::new();
    s.append("CPU:    ");
    push_percent(&mut s, &cpu.usage, use_color);
    s.append(" (");
    push_decimal(&mut s, cpu.cpu_count as u64);
    s.append(" cores, ");
    push_decimal(&mut s, cpu.frequency_mhz);
    s.append(" MHz, ");
    s.append(cpu.brand.as_str());
    s.append(")");
    assert(s@ =~= cpu_line_spec(*cpu, use_color));
    s
}

/// The line of core `i` in `watch --cores`.
pub fn core_line(i: usize, p: &Percent, use_color: bool) -> (s: String)
    ensures
        s@ == core_line_spec(i as nat, *p, use_color),
{
    let mut s = String::new();
    s.append("  Core ");
    push_decimal(&mut s, i as u64);
    s.append(": ");
    push_percent(&mut s, p, use_color);
    assert(s@ =~= core_line_spec(i as nat, *p, use_color));
    s
}

/// The memory line of `watch` and `snapshot`.
pub fn memory_line(m: &MemoryReport, use_color: bool) -> (s: String)
    ensures
        s@ == memory_line_spec(*m, use_color),
{
    let mut s = String::new();
    s.append("Memory: ");
    push_percent(&mut s, &m.usage, use_color);
    s.append(" (");
    push_bytes(&mut s, m.used);
    s.append(" / ");
    push_bytes(&mut s, m.total);
    s.append(")");
    assert(s@ =~= memory_line_spec(*m, use_color));
    s
}

/// The swap line of `watch`.
pub fn swap_line(m: &MemoryReport, use_color: bool) -> (s: String)
    ensures
        s@ == swap_line_spec(*m, use_color),
{
    let mut s = String::new();
    s.append("Swap:   ");
    push_percent(&mut s, &m.swap, use_color);
    s.append(" (");
    push_bytes(&mut s, m.swap_used);
    s.append(" / ");
    push_bytes(&mut s, m.swap_total);
    s.append(")");
    assert(s@ =~= swap_line_spec(*m, use_color));
    s
}

/// A disk line of `watch`.
pub fn disk_line(d: &DiskReport, use_color: bool) -> (s: String)
    ensures
        s@ == disk_line_spec(*d, use_color),
{
    let mut s = String::new();
    s.append("  ");
    s.append(d.mount_point.as_str());
    s.append(" (");
    s.append(d.fs_type.as_str());
    s.append("): ");
    push_percent(&mut s, &d.used_pct, use_color);
    s.append(" used of ");
    push_bytes(&mut s, d.total);
    s.append("  [");
    s.append(d.name.as_str());
    s.append("]");
    assert(s@ =~= disk_line_spec(*d, use_color));
    s
}

/// A disk line of `snapshot`.
pub fn snapshot_disk_line(d: &DiskReport) -> (s: String)
    ensures
        s@ == snapshot_disk_line_spec(*d),
{
    let mut s = String::new();
    s.append("  ");
    s.append(d.mount_point.as_str());
    s.append(": ");
    s.append(d.used_pct.text.as_str());
    s.append("% used of ");
    push_bytes(&mut s, d.total);
    assert(s@ =~= snapshot_disk_line_spec(*d));
    s
}

/// A network line of `watch` and `snapshot`.
pub fn network_line(n: &NetworkMetrics) -> (s: String)
    ensures
        s@ == network_line_spec(*n),
{
    let mut s = String::new();
    s.append("  ");
    s.append(n.interface.as_str());
    s.append(": \u{2193} ");
    push_bytes(&mut s, n.rx_bytes);
    s.append(" \u{2191} ");
    push_bytes(&mut s, n.tx_bytes);
    assert(s@ =~= network_line_spec(*n));
    s
}

/// The column titles of the process table.
pub fn process_header(indent: &str) -> (s: String)
    ensures
        s@ == process_header_spec(indent@),
{
    let mut s = String::new();
    s.append(indent);
    push_padded_left(&mut s, "PID", 7);
    s.append("  ");
    push_padded_right(&mut s, "Name", 25);
    s.append(" ");
    push_padded_left(&mut s, "CPU%", 8);
    s.append("  ");
    push_padded_left(&mut s, "Memory", 10);
    s.append("  ");
    push_padded_left(&mut s, "Mem%", 7);
    assert(s@ =~= process_header_spec(indent@));
    s
}

/// One row of the process table.
pub fn process_row(indent: &str, p: &ProcessReport) -> (s: String)
    ensures
        s@ == process_row_spec(indent@, *p),
{
    let mut s = String::new();
    s.append(indent);
    let pid = decimal_string(p.pid as u64);
    push_padded_left(&mut s, pid.as_str(), 7);
    s.append("  ");
    push_padded_right(&mut s, p.name.as_str(), 25);
    s.append(" ");
    push_padded_left(&mut s, p.cpu.text.as_str(), 7);
    s.append("%");
    s.append("  ");
    let mem = format_bytes(p.memory_bytes);
    push_padded_left(&mut s, mem.as_str(), 10);
    s.append("  ");
    push_padded_left(&mut s, p.memory_pct.text.as_str(), 6);
    s.append("%");
    assert(s@ =~= process_row_spec(indent@, *p));
    s
}

fn push_disk_section(lines: &mut Vec<String>, disks: &Vec<DiskReport>, use_color: bool)
    ensures
        view_lines(final(lines)@) == view_lines(old(lines)@) + section(
            "Disks:"@,
            disks@,
            |d: DiskReport| disk_line_spec(d, use_color),
        ),
{
    let ghost start = view_lines(lines@);
    let ghost f = |d: DiskReport| disk_line_spec(d, use_color);
    if disks.len() == 0 {
        assert(view_lines(lines@) =~= start + section("Disks:"@, disks@, f));
        return;
    }
    push_line(lines, "Disks:".to_owned());
    for i in 0..disks.len()
        invariant
            view_lines(lines@) == start + seq!["Disks:"@] + disks@.take(i as int).map_values(f),
            f == (|d: DiskReport| disk_line_spec(d, use_color)),
    {
        let l = disk_line(&disks[i], use_color);
        push_line(lines, l);
        assert(disks@.take(i + 1).map_values(f) =~= disks@.take(i as int).map_values(f).push(f(disks@[i as int])));
    }
    assert(disks@.take(disks@.len() as int) =~= disks@);
}

fn push_snapshot_disk_section(lines: &mut Vec<String>, disks: &Vec<DiskReport>)
    ensures
        view_lines(final(lines)@) == view_lines(old(lines)@) + section(
            "Disks:"@,
            disks@,
            |d: DiskReport| snapshot_disk_line_spec(d),
        ),
{
    let ghost start = view_lines(lines@);
    let ghost f = |d: DiskReport| snapshot_disk_line_spec(d);
    if disks.len() == 0 {
        assert(view_lines(lines@) =~= start + section("Disks:"@, disks@, f));
        return;
    }
    push_line(lines, "Disks:".to_owned());
    for i in 0..disks.len()
        invariant
            view_lines(lines@) == start + seq!["Disks:"@] + disks@.take(i as int).map_values(f),
            f == (|d: DiskReport| snapshot_disk_line_spec(d)),
    {
        let l = snapshot_disk_line(&disks[i]);
        push_line(lines, l);
        assert(disks@.take(i + 1).map_values(f) =~= disks@.take(i as int).map_values(f).push(f(disks@[i as int])));
    }
    assert(disks@.take(disks@.len() as int) =~= disks@);
}

fn push_network_section(lines: &mut Vec<String>, nets: &Vec<NetworkMetrics>)
    ensures
        view_lines(final(lines)@) == view_lines(old(lines)@) + section(
            "Network:"@,
            nets@,
            |n: NetworkMetrics| network_line_spec(n),
        ),
{
    let ghost start = view_lines(lines@);
    let ghost f = |n: NetworkMetrics| network_line_spec(n);
    if nets.len() == 0 {
        assert(view_lines(lines@) =~= start + section("Network:"@, nets@, f));
        return;
    }
    push_line(lines, "Network:".to_owned());
    for i in 0..nets.len()
        invariant
            view_lines(lines@) == start + seq!["Network:"@] + nets@.take(i as int).map_values(f),
            f == (|n: NetworkMetrics| network_line_spec(n)),
    {
        let l = network_line(&nets[i]);
        push_line(lines, l);
        assert(nets@.take(i + 1).map_values(f) =~= nets@.take(i as int).map_values(f).push(f(nets@[i as int])));
    }
    assert(nets@.take(nets@.len() as int) =~= nets@);
}

fn push_process_rows(lines: &mut Vec<String>, indent: &str, procs: &Vec<ProcessReport>)
    ensures
        view_lines(final(lines)@) == view_lines(old(lines)@) + procs@.map_values(
            |p: ProcessReport| process_row_spec(indent@, p),
        ),
{
    let ghost start = view_lines(lines@);
    let ghost f = |p: ProcessReport| process_row_spec(indent@, p);
    for i in 0..procs.len()
        invariant
            view_lines(lines@) == start + procs@.take(i as int).map_values(f),
            f == (|p: ProcessReport| process_row_spec(indent@, p)),
    {
        let l = process_row(indent, &procs[i]);
        push_line(lines, l);
        assert(procs@.take(i + 1).map_values(f) =~= procs@.take(i as int).map_values(f).push(f(procs@[i as int])));
    }
    assert(procs@.take(procs@.len() as int) =~= procs@);
}

fn push_core_lines(lines: &mut Vec<String>, cores: &Vec<Percent>, use_color: bool)
    ensures
        view_lines(final(lines)@) == view_lines(old(lines)@) + core_lines_spec(cores@, use_color),
{
    let ghost start = view_lines(lines@);
    for i in 0..cores.len()
        invariant
            view_lines(lines@) == start + core_lines_spec(cores@.take(i as int), use_color),
    {
        let l = core_line(i, &cores[i], use_color);
        push_line(lines, l);
        assert(core_lines_spec(cores@.take(i + 1), use_color) =~= core_lines_spec(cores@.take(i as int), use_color).push(
            core_line_spec(i as nat, cores@[i as int], use_color),
        ));
    }
    assert(cores@.take(cores@.len() as int) =~= cores@);
}

/// The lines of one `watch` tick in plain-text mode; with a timestamp,
/// each line carries it.
pub fn watch_block(r: &Report, show_cores: bool, use_color: bool) -> (lines: Vec<String>)
    ensures
        view_lines(lines@) == watch_block_spec(*r, show_cores, use_color),
{
    let mut lines: Vec<String> = Vec::new();
    let ghost l1 = view_lines(lines@);
    push_line(&mut lines, cpu_line(&r.cpu, use_color));
    let ghost l2 = view_lines(lines@);
    assert(l2 =~= l1 + seq![cpu_line_spec(r.cpu, use_color)]);
    if show_cores {
        push_core_lines(&mut lines, &r.cpu.per_core, use_color);
    }
    let ghost l3 = view_lines(lines@);
    assert(l3 =~= l2 + cores_part(*r, show_cores, use_color));
    push_line(&mut lines, memory_line(&r.memory, use_color));
    let ghost l4 = view_lines(lines@);
    assert(l4 =~= l3 + seq![memory_line_spec(r.memory, use_color)]);
    if r.memory.swap_total > 0 {
        push_line(&mut lines, swap_line(&r.memory, use_color));
    }
    let ghost l5 = view_lines(lines@);
    assert(l5 =~= l4 + swap_part(*r, use_color));
    push_disk_section(&mut lines, &r.disk, use_color);
    push_network_section(&mut lines, &r.network);
    let ghost l6 = view_lines(lines@);
    if r.processes.len() > 0 {
        push_line(&mut lines, "Top Processes:".to_owned());
        push_line(&mut lines, process_header("  "));
        push_process_rows(&mut lines, "  ", &r.processes);
    }
    let ghost l7 = view_lines(lines@);
    assert(l7 =~= l6 + processes_part(*r));
    push_line(&mut lines, "---".to_owned());
    assert(view_lines(lines@) =~= watch_lines_spec(*r, show_cores, use_color));
    match &r.timestamp {
        Some(ts) => stamp_lines(ts.as_str(), &lines),
        None => lines,
    }
}

/// The lines of `snapshot` in plain-text mode.
pub fn snapshot_block(r: &Report, use_color: bool) -> (lines: Vec<String>)
    ensures
        view_lines(lines@) == snapshot_block_spec(*r, use_color),
{
    let mut lines: Vec<String> = Vec::new();
    match &r.timestamp {
        Some(ts) => {
            let mut s = String::new();
            s.append("Snapshot at ");
            s.append(ts.as_str());
            push_line(&mut lines, s);
        },
        None => {},
    }
    let mut c = String::new();
    c.append("CPU:    ");
    push_percent(&mut c, &r.cpu.usage, use_color);
    push_line(&mut lines, c);
    push_line(&mut lines, memory_line(&r.memory, use_color));
    push_snapshot_disk_section(&mut lines, &r.disk);
    push_network_section(&mut lines, &r.network);
    assert(view_lines(lines@) =~= snapshot_block_spec(*r, use_color));
    lines
}

/// The lines of `top` in plain-text mode.
pub fn top_block(processes: &Vec<ProcessReport>) -> (lines: Vec<String>)
    ensures
        view_lines(lines@) == top_block_spec(processes@),
{
    proof {
        reveal_strlit("");
    }
    let mut lines: Vec<String> = Vec::new();
    push_line(&mut lines, process_header(""));
    push_process_rows(&mut lines, "", processes);
    assert(view_lines(lines@) =~= top_block_spec(processes@));
    lines
}

fn push_or_unknown(out: &mut String, s: &Option<String>)
    ensures
        final(out)@ == old(out)@ + or_unknown(*s),
{
    match s {
        Some(v) => out.append(v.as_str()),
        None => out.append("unknown"),
    }
}

/// An uptime in seconds as hours, minutes and seconds.
pub fn uptime_text(uptime: u64) -> (s: String)
    ensures
        s@ == uptime_spec(uptime as nat),
{
    let mut s = String::new();
    push_decimal(&mut s, uptime / 3600);
    s.append("h ");
    push_decimal(&mut s, (uptime % 3600) / 60);
    s.append("m ");
    push_decimal(&mut s, uptime % 60);
    s.append("s");
    assert(s@ =~= uptime_spec(uptime as nat));
    s
}

/// The lines of `info`.
pub fn info_block(i: &SystemInfo) -> (lines: Vec<String>)
    ensures
        view_lines(lines@) == info_block_spec(*i),
{
    let mut lines: Vec<String> = Vec::new();
    push_line(&mut lines, "System Information".to_owned());
    push_line(&mut lines, "==================".to_owned());
    let mut h = String::new();
    h.append("Hostname:    ");
    push_or_unknown(&mut h, &i.hostname);
    push_line(&mut lines, h);
    let mut o = String::new();
    o.append("OS:          ");
    push_or_unknown(&mut o, &i.os_version);
    push_line(&mut lines, o);
    let mut k = String::new();
    k.append("Kernel:      ");
    push_or_unknown(&mut k, &i.kernel_version);
    push_line(&mut lines, k);
    let mut u = String::new();
    u.append("Uptime:      ");
    let ut = uptime_text(i.uptime);
    u.append(ut.as_str());
    push_line(&mut lines, u);
    let mut c = String::new();
    c.append("CPU:         ");
    push_or_unknown(&mut c, &i.brand);
    c.append(" (");
    push_decimal(&mut c, i.cpu_count as u64);
    c.append(" cores)");
    push_line(&mut lines, c);
    let mut t = String::new();
    t.append("Total RAM:   ");
    push_bytes(&mut t, i.total_memory);
    push_line(&mut lines, t);
    assert(view_lines(lines@) =~= info_block_spec(*i));
    lines
}

/// The first line of the CSV log.
pub fn csv_header() -> (s: String)
    ensures
        s@ == csv_header_spec(),
{
    "timestamp,cpu_pct,mem_pct,mem_used_bytes,mem_total_bytes".to_owned()
}

/// One line of the CSV log: the time, the CPU and memory percentages (as
/// one-decimal texts) and the used and total memory in bytes.
pub fn csv_row(ts: &str, cpu: &str, mem: &str, used: u64, total: u64) -> (s: String)
    ensures
        s@ == csv_row_spec(ts@, cpu@, mem@, used as nat, total as nat),
{
    let mut s = String::new();
    s.append(ts);
    s.append(",");
    s.append(cpu);
    s.append(",");
    s.append(mem);
    s.append(",");
    push_decimal(&mut s, used);
    s.append(",");
    push_decimal(&mut s, total);
    assert(s@ =~= csv_row_spec(ts@, cpu@, mem@, used as nat, total as nat));
    s
}

/// The two lines of the minimal watch loop: CPU and memory usage, given
/// as one-decimal texts.
pub fn usage_summary(cpu: &str, mem: &str) -> (lines: Vec<String>)
    ensures
        view_lines(lines@) == seq!["CPU Usage: "@ + cpu@ + "%"@, "Memory Usage: "@ + mem@ + "%"@],
{
    let mut c = String::new();
    c.append("CPU Usage: ");
    c.append(cpu);
    c.append("%");
    let mut m = String::new();
    m.append("Memory Usage: ");
    m.append(mem);
    m.append("%");
    let mut lines: Vec<String> = Vec::new();
    push_line(&mut lines, c);
    push_line(&mut lines, m);
    assert(view_lines(lines@) =~= seq!["CPU Usage: "@ + cpu@ + "%"@, "Memory Usage: "@ + mem@ + "%"@]);
    lines
}

/// The warning printed when a usage exceeds its threshold: `what` is
/// `CPU` or `Memory`, the value and the threshold are one-decimal texts.
pub fn alert_line(what: &str, value: &str, threshold: &str) -> (s: String)
    ensures
        s@ == "ALERT: "@ + what@ + " usage "@ + value@ + "% exceeds threshold "@ + threshold@ + "%"@,
{
    let mut s = String::new();
    s.append("ALERT: ");
    s.append(what);
    s.append(" usage ");
    s.append(value);
    s.append("% exceeds threshold ");
    s.append(threshold);
    s.append("%");
    assert(s@ =~= "ALERT: "@ + what@ + " usage "@ + value@ + "% exceeds threshold "@ + threshold@ + "%"@);
    s
}

/// With a timestamp, every line of a `watch` tick carries it: line `i`
/// is `[timestamp] ` followed by the same line without the timestamp, and
/// no line is added or dropped.
pub proof fn lemma_every_line_timestamped(r: Report, show_cores: bool, use_color: bool)
    requires
        r.timestamp is Some,
    ensures
        watch_block_spec(r, show_cores, use_color).len() == watch_lines_spec(r, show_cores, use_color).len(),
        forall|i: int|
            0 <= i < watch_block_spec(r, show_cores, use_color).len() ==> #[trigger] watch_block_spec(
                r,
                show_cores,
                use_color,
            )[i] == "["@ + r.timestamp->0@ + "] "@ + watch_lines_spec(r, show_cores, use_color)[i],
        forall|i: int|
            0 <= i < watch_block_spec(r, show_cores, use_color).len() ==> (#[trigger] watch_block_spec(
                r,
                show_cores,
                use_color,
            )[i]).subrange(0, r.timestamp->0@.len() + 3int) == "["@ + r.timestamp->0@ + "] "@,
{
    reveal_strlit("[");
    reveal_strlit("] ");
    let ts = r.timestamp->0@;
    let block = watch_block_spec(r, show_cores, use_color);
    assert forall|i: int| 0 <= i < block.len() implies (#[trigger] block[i]).subrange(0, ts.len() + 3int) == "["@ + ts
        + "] "@ by {
        let lines = watch_lines_spec(r, show_cores, use_color);
        assert(block[i] == "["@ + ts + "] "@ + lines[i]);
        assert(("["@ + ts + "] "@ + lines[i]).subrange(0, ts.len() + 3int) =~= "["@ + ts + "] "@);
    }
}

/// The uptime line splits the seconds exactly: hours, minutes below sixty
/// and seconds below sixty that add up to the uptime.
pub proof fn lemma_uptime_split(uptime: nat)
    ensures
        (uptime / 3600) * 3600 + ((uptime % 3600) / 60) * 60 + uptime % 60 == uptime,
        (uptime % 3600) / 60 < 60,
        uptime % 60 < 60,
{
    vstd::arithmetic::div_mod::lemma_fundamental_div_mod(uptime as int, 3600);
    vstd::arithmetic::div_mod::lemma_fundamental_div_mod((uptime % 3600) as int, 60);
    vstd::arithmetic::div_mod::lemma_mod_mod(uptime as int, 60, 60);
    assert((uptime % 3600) % 60 == uptime % 60) by {
        vstd::arithmetic::div_mod::lemma_mod_mod(uptime as int, 60, 60);
    }
}

/// The lines of a `watch` tick, in order: the CPU line; one line per core
/// when cores are asked for; the memory line; the swap line when the
/// machine has swap; `Disks:` and one line per disk, when there are disks;
/// `Network:` and one line per interface, when there are interfaces;
/// `Top Processes:`, the column titles and one row per process in the
/// order given, when there are processes; and `---` last. Nothing else is
/// printed.
pub proof fn lemma_watch_lines_layout(r: Report, show_cores: bool, use_color: bool)
    ensures
        ({
            let l = watch_lines_spec(r, show_cores, use_color);
            let nc: int = if show_cores { r.cpu.per_core@.len() as int } else { 0 };
            let ns: int = if r.memory.swap_total > 0 { 1 } else { 0 };
            let nd: int = if r.disk@.len() > 0 { r.disk@.len() + 1int } else { 0 };
            let nn: int = if r.network@.len() > 0 { r.network@.len() + 1int } else { 0 };
            let np: int = if r.processes@.len() > 0 { r.processes@.len() + 2int } else { 0 };
            let d0: int = 2 + nc + ns;
            let n0: int = d0 + nd;
            let p0: int = n0 + nn;
            &&& l.len() == p0 + np + 1
            &&& l[0] == cpu_line_spec(r.cpu, use_color)
            &&& show_cores ==> forall|i: int|
                0 <= i < r.cpu.per_core@.len() ==> l[1 + i] == core_line_spec(
                    i as nat,
                    #[trigger] r.cpu.per_core@[i],
                    use_color,
                )
            &&& l[1 + nc] == memory_line_spec(r.memory, use_color)
            &&& ns == 1 ==> l[2 + nc] == swap_line_spec(r.memory, use_color)
            &&& nd > 0 ==> l[d0] == "Disks:"@
            &&& forall|i: int|
                0 <= i < r.disk@.len() ==> l[d0 + 1 + i] == disk_line_spec(#[trigger] r.disk@[i], use_color)
            &&& nn > 0 ==> l[n0] == "Network:"@
            &&& forall|i: int|
                0 <= i < r.network@.len() ==> l[n0 + 1 + i] == network_line_spec(#[trigger] r.network@[i])
            &&& np > 0 ==> l[p0] == "Top Processes:"@ && l[p0 + 1] == process_header_spec("  "@)
            &&& forall|i: int|
                0 <= i < r.processes@.len() ==> l[p0 + 2 + i] == process_row_spec(
                    "  "@,
                    #[trigger] r.processes@[i],
                )
            &&& l[p0 + np] == "---"@
        }),
{
    let a = seq![cpu_line_spec(r.cpu, use_color)];
    let b = cores_part(r, show_cores, use_color);
    let c = seq![memory_line_spec(r.memory, use_color)];
    let d = swap_part(r, use_color);
    let e = section("Disks:"@, r.disk@, |d: DiskReport| disk_line_spec(d, use_color));
    let f = section("Network:"@, r.network@, |n: NetworkMetrics| network_line_spec(n));
    let g = processes_part(r);
    let h = seq!["---"@];
    let l = watch_lines_spec(r, show_cores, use_color);
    let ab = a + b;
    let ac = ab + c;
    let ad = ac + d;
    let ae = ad + e;
    let af = ae + f;
    let ag = af + g;
    assert(l == ag + h);
    let nc: int = if show_cores { r.cpu.per_core@.len() as int } else { 0 };
    let ns: int = if r.memory.swap_total > 0 { 1 } else { 0 };
    let d0: int = 2 + nc + ns;
    assert(b.len() == nc);
    assert(ad.len() == d0);
    assert(l[0] == ab[0]);
    assert(l[1 + nc] == ac[1 + nc]);
    if ns == 1 {
        assert(l[2 + nc] == ad[2 + nc]);
    }
    if show_cores {
        assert forall|i: int| 0 <= i < r.cpu.per_core@.len() implies l[1 + i] == core_line_spec(
            i as nat,
            #[trigger] r.cpu.per_core@[i],
            use_color,
        ) by {
            assert(l[1 + i] == ab[1 + i]);
            assert(ab[1 + i] == b[i]);
        }
    }
    assert forall|i: int| 0 <= i < r.disk@.len() implies l[d0 + 1 + i] == disk_line_spec(
        #[trigger] r.disk@[i],
        use_color,
    ) by {
        assert(e[1 + i] == disk_line_spec(r.disk@[i], use_color));
        assert(ae[d0 + 1 + i] == e[1 + i]);
        assert(l[d0 + 1 + i] == ae[d0 + 1 + i]);
    }
    if r.disk@.len() > 0 {
        assert(l[d0] == ae[d0]);
    }
    let n0: int = d0 + e.len();
    assert forall|i: int| 0 <= i < r.network@.len() implies l[n0 + 1 + i] == network_line_spec(
        #[trigger] r.network@[i],
    ) by {
        assert(f[1 + i] == network_line_spec(r.network@[i]));
        assert(af[n0 + 1 + i] == f[1 + i]);
        assert(l[n0 + 1 + i] == af[n0 + 1 + i]);
    }
    if r.network@.len() > 0 {
        assert(l[n0] == af[n0]);
    }
    let p0: int = n0 + f.len();
    assert forall|i: int| 0 <= i < r.processes@.len() implies l[p0 + 2 + i] == process_row_spec(
        "  "@,
        #[trigger] r.processes@[i],
    ) by {
        assert(g[2 + i] == process_row_spec("  "@, r.processes@[i]));
        assert(ag[p0 + 2 + i] == g[2 + i]);
        assert(l[p0 + 2 + i] == ag[p0 + 2 + i]);
    }
    if r.processes@.len() > 0 {
        assert(l[p0] == ag[p0]);
        assert(l[p0 + 1] == ag[p0 + 1]);
    }
    assert(l[p0 + g.len()] == h[0]);
}

/// `top` prints the column titles and then one row per process, in the
/// order given, and nothing else.
pub proof fn lemma_top_block_layout(processes: Seq<ProcessReport>)
    ensures
        top_block_spec(processes).len() == processes.len() + 1,
        top_block_spec(processes)[0] == process_header_spec(Seq::empty()),
        forall|i: int|
            0 <= i < processes.len() ==> top_block_spec(processes)[i + 1] == process_row_spec(
                Seq::empty(),
                #[trigger] processes[i],
            ),
{
    let l = top_block_spec(processes);
    assert(l[0] == process_header_spec(Seq::empty()));
    assert forall|i: int| 0 <= i < processes.len() implies l[i + 1] == process_row_spec(
        Seq::empty(),
        #[trigger] processes[i],
    ) by {
        let rows = processes.map_values(|p: ProcessReport| process_row_spec(Seq::empty(), p));
        assert(l[i + 1] == rows[i]);
    }
}

/// `snapshot` prints, in order: `Snapshot at` with the timestamp when
/// there is one; the CPU usage; the memory line; `Disks:` and one line
/// per disk, when there are disks; `Network:` and one line per interface,
/// when there are interfaces. Nothing else is printed.
pub proof fn lemma_snapshot_block_layout(r: Report, use_color: bool)
    ensures
        ({
            let l = snapshot_block_spec(r, use_color);
            let nt: int = if r.timestamp is Some { 1 } else { 0 };
            let nd: int = if r.disk@.len() > 0 { r.disk@.len() + 1int } else { 0 };
            let nn: int = if r.network@.len() > 0 { r.network@.len() + 1int } else { 0 };
            let d0: int = nt + 2;
            let n0: int = d0 + nd;
            &&& l.len() == n0 + nn
            &&& r.timestamp is Some ==> l[0] == "Snapshot at "@ + r.timestamp->0@
            &&& l[nt] == "CPU:    "@ + percent_spec(r.cpu.usage, use_color)
            &&& l[nt + 1] == memory_line_spec(r.memory, use_color)
            &&& nd > 0 ==> l[d0] == "Disks:"@
            &&& forall|i: int|
                0 <= i < r.disk@.len() ==> l[d0 + 1 + i] == snapshot_disk_line_spec(#[trigger] r.disk@[i])
            &&& nn > 0 ==> l[n0] == "Network:"@
            &&& forall|i: int|
                0 <= i < r.network@.len() ==> l[n0 + 1 + i] == network_line_spec(#[trigger] r.network@[i])
        }),
{
    let a: Seq<Seq<char>> = match r.timestamp {
        Some(ts) => seq!["Snapshot at "@ + ts@],
        None => Seq::empty(),
    };
    let b = seq!["CPU:    "@ + percent_spec(r.cpu.usage, use_color), memory_line_spec(r.memory, use_color)];
    let e = section("Disks:"@, r.disk@, |d: DiskReport| snapshot_disk_line_spec(d));
    let f = section("Network:"@, r.network@, |n: NetworkMetrics| network_line_spec(n));
    let ab = a + b;
    let ae = ab + e;
    let l = snapshot_block_spec(r, use_color);
    assert(l == ae + f);
    let nt: int = if r.timestamp is Some { 1 } else { 0 };
    assert(a.len() == nt);
    let d0: int = nt + 2;
    if nt == 1 {
        assert(l[0] == ab[0]);
    }
    assert(l[nt] == ab[nt]);
    assert(l[nt + 1] == ab[nt + 1]);
    assert forall|i: int| 0 <= i < r.disk@.len() implies l[d0 + 1 + i] == snapshot_disk_line_spec(
        #[trigger] r.disk@[i],
    ) by {
        assert(e[1 + i] == snapshot_disk_line_spec(r.disk@[i]));
        assert(ae[d0 + 1 + i] == e[1 + i]);
        assert(l[d0 + 1 + i] == ae[d0 + 1 + i]);
    }
    if r.disk@.len() > 0 {
        assert(l[d0] == ae[d0]);
    }
    let n0: int = d0 + e.len();
    assert forall|i: int| 0 <= i < r.network@.len() implies l[n0 + 1 + i] == network_line_spec(
        #[trigger] r.network@[i],
    ) by {
        assert(f[1 + i] == network_line_spec(r.network@[i]));
        assert(l[n0 + 1 + i] == f[1 + i]);
    }
    if r.network@.len() > 0 {
        assert(l[n0] == f[0]);
    }
}

/// Without colours a text is printed as it is. With colours it is wrapped
/// in the terminal codes: green (`ESC[32m`) for a low level, yellow
/// (`ESC[33m`) for a medium one, red (`ESC[31m`) for a high one, and the
/// reset code (`ESC[0m`) after it.
pub proof fn lemma_colorize_wraps(level: UsageLevel, text: Seq<char>, use_color: bool)
    ensures
        !use_color ==> colorize_spec(level, text, use_color) == text,
        use_color ==> ({
            let s = colorize_spec(level, text, use_color);
            let d = match level {
                UsageLevel::Low => '2',
                UsageLevel::Medium => '3',
                UsageLevel::High => '1',
            };
            &&& s.len() == text.len() + 9
            &&& s.subrange(0, 5) == seq!['\x1b', '[', '3', d, 'm']
            &&& s.subrange(5, 5int + text.len()) == text
            &&& s.subrange(5int + text.len(), s.len() as int) == seq!['\x1b', '[', '0', 'm']
        }),
{
    reveal_strlit("\x1b[32m");
    reveal_strlit("\x1b[33m");
    reveal_strlit("\x1b[31m");
    reveal_strlit("\x1b[0m");
    if use_color {
        let s = colorize_spec(level, text, use_color);
        let code = color_code(level);
        assert("\x1b[32m"@ =~= seq!['\x1b', '[', '3', '2', 'm']);
        assert("\x1b[33m"@ =~= seq!['\x1b', '[', '3', '3', 'm']);
        assert("\x1b[31m"@ =~= seq!['\x1b', '[', '3', '1', 'm']);
        assert("\x1b[0m"@ =~= seq!['\x1b', '[', '0', 'm']);
        assert(s == code + text + "\x1b[0m"@);
        assert(s.subrange(0, 5) =~= code);
        assert(s.subrange(5, 5int + text.len()) =~= text);
        assert(s.subrange(5int + text.len(), s.len() as int) =~= "\x1b[0m"@);
    }
}

} // verus!
