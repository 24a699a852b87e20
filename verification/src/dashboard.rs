//! What the dashboard draws, as plain values: the panels and their
//! heights, the per-core gauges, and the texts of titles, labels and
//! table cells.  Drawing them on the terminal is left to the caller.
use vstd::prelude::*;
use crate::cli::SortKey;
use crate::tui::{AppState, KeyPress};
use crate::metrics::NetworkMetrics;
use crate::render::{DiskReport, ProcessReport};
use crate::text::{decimal, pad_left, spaces, push_decimal, push_padded_left, push_spaces, decimal_string};
use crate::units::{format_bytes, format_bytes_spec};

verus! {

/// A panel of the dashboard's body.
#[derive(Clone, Copy, PartialEq, Eq, Structural, Debug)]
pub enum Panel {
    CpuMemory,
    Cores,
    Disk,
    Network,
    Processes,
    /// The empty space below the last panel.
    Filler,
}

/// The height a panel asks for: exactly `n` rows, or at least `n` rows.
#[derive(Clone, Copy, PartialEq, Eq, Structural, Debug)]
pub enum Extent {
    Length(u16),
    Min(u16),
}

/// How many of each thing the body has to show.
#[derive(Clone, Copy, Debug)]
pub struct BodyCounts {
    pub show_cores: bool,
    pub cores: usize,
    pub show_disk: bool,
    pub disks: usize,
    pub show_network: bool,
    pub interfaces: usize,
    pub show_processes: bool,
    pub processes: usize,
}

/// `a + b`, or `u16::MAX` when that does not fit.
pub open spec fn sat_add16(a: u16, b: u16) -> u16 {
    if a + b <= u16::MAX {
        (a + b) as u16
    } else {
        u16::MAX
    }
}

/// The rows of the per-core panel: two columns of gauges, a border above
/// and below.
pub open spec fn cores_height(cores: nat) -> u16 {
    sat_add16(((cores + 1) / 2) as u16, 2)
}

/// A table panel: one row per entry, a header and two borders.
pub open spec fn table_height(entries: nat) -> u16 {
    sat_add16(entries as u16, 3)
}

/// The panels of the body, top to bottom, with their heights: CPU and
/// memory always; per-core gauges, disks, network and processes when they
/// are switched on and have something to show; then the filler.
pub open spec fn body_layout_spec(c: BodyCounts) -> Seq<(Panel, Extent)> {
    seq![(Panel::CpuMemory, Extent::Length(5))] + (if c.show_cores && c.cores > 0 {
        seq![(Panel::Cores, Extent::Length(cores_height(c.cores as nat)))]
    } else {
        Seq::empty()
    }) + (if c.show_disk && c.disks > 0 {
        seq![(Panel::Disk, Extent::Length(table_height(c.disks as nat)))]
    } else {
        Seq::empty()
    }) + (if c.show_network && c.interfaces > 0 {
        seq![(Panel::Network, Extent::Length(table_height(c.interfaces as nat)))]
    } else {
        Seq::empty()
    }) + (if c.show_processes && c.processes > 0 {
        seq![(Panel::Processes, Extent::Min(6))]
    } else {
        Seq::empty()
    }) + seq![(Panel::Filler, Extent::Min(0))]
}

/// The panels of the dashboard's body, top to bottom, with their heights.
pub fn body_layout(c: &BodyCounts) -> (panels: Vec<(Panel, Extent)>)
    requires
        c.cores < usize::MAX,
    ensures
        panels@ == body_layout_spec(*c),
{
    let mut panels: Vec<(Panel, Extent)> = Vec::new();
    panels.push((Panel::CpuMemory, Extent::Length(5)));
    let ghost p1 = panels@;
    if c.show_cores && c.cores > 0 {
        let rows = (c.cores + 1) / 2;
        let h: u16 = (rows as u16).saturating_add(2);
        panels.push((Panel::Cores, Extent::Length(h)));
    }
    let ghost p2 = panels@;
    if c.show_disk && c.disks > 0 {
        panels.push((Panel::Disk, Extent::Length((c.disks as u16).saturating_add(3))));
    }
    let ghost p3 = panels@;
    if c.show_network && c.interfaces > 0 {
        panels.push((Panel::Network, Extent::Length((c.interfaces as u16).saturating_add(3))));
    }
    let ghost p4 = panels@;
    if c.show_processes && c.processes > 0 {
        panels.push((Panel::Processes, Extent::Min(6)));
    }
    panels.push((Panel::Filler, Extent::Min(0)));
    assert(panels@ =~= body_layout_spec(*c));
    panels
}

/// The first and last panels of the body are always the CPU and memory
/// panel and the filler, and each optional panel appears at most once.
pub proof fn lemma_body_layout_shape(c: BodyCounts)
    ensures
        body_layout_spec(c)[0] == (Panel::CpuMemory, Extent::Length(5)),
        body_layout_spec(c).last() == (Panel::Filler, Extent::Min(0)),
        2 <= body_layout_spec(c).len() <= 6,
        body_layout_spec(c).len() == 2 + (if c.show_cores && c.cores > 0 { 1int } else { 0 }) + (if c.show_disk
            && c.disks > 0 { 1int } else { 0 }) + (if c.show_network && c.interfaces > 0 { 1int } else { 0 }) + (
        if c.show_processes && c.processes > 0 { 1int } else { 0 }),
{
}

/// The width of a core gauge, in cells.
pub const GAUGE_CELLS: usize = 12;

/// One core of the per-core panel: how many of the gauge's cells are
/// filled, and its percentage as a one-decimal text.
#[derive(Clone, Debug)]
pub struct CoreGauge {
    pub filled: usize,
    pub text: String,
}

/// The three texts of one core gauge: label, bar and value.
#[derive(Clone, Debug)]
pub struct CoreCell {
    pub label: String,
    pub bar: String,
    pub value: String,
}

/// `count` copies of `c`.
pub open spec fn repeat_char(c: char, count: nat) -> Seq<char> {
    Seq::new(count, |i: int| c)
}

pub open spec fn core_label_spec(i: nat) -> Seq<char> {
    "Core "@ + pad_left(decimal(i), 2) + "  "@
}

pub open spec fn core_bar_spec(filled: nat) -> Seq<char> {
    repeat_char('\u{2588}', filled) + repeat_char('\u{2591}', (GAUGE_CELLS - filled) as nat)
}

pub open spec fn core_value_spec(text: Seq<char>) -> Seq<char> {
    "  "@ + pad_left(text, 5) + "%"@
}

/// The texts of core number `i`.
pub open spec fn core_cell_matches(cell: CoreCell, i: nat, g: CoreGauge) -> bool {
    &&& cell.label@ == core_label_spec(i)
    &&& cell.bar@ == core_bar_spec(g.filled as nat)
    &&& cell.value@ == core_value_spec(g.text@)
}

/// Every gauge fills at most the whole bar.
pub open spec fn gauges_fit(gauges: Seq<CoreGauge>) -> bool {
    forall|i: int| 0 <= i < gauges.len() ==> #[trigger] gauges[i].filled <= GAUGE_CELLS
}

fn push_repeat(out: &mut String, c: char, count: usize)
    ensures
        final(out)@ == old(out)@ + repeat_char(c, count as nat),
{
    let mut i: usize = 0;
    while i < count
        invariant
            i <= count,
            out@ == old(out)@ + repeat_char(c, i as nat),
        decreases count - i,
    {
        out.push(c);
        i = i + 1;
        assert(out@ =~= old(out)@ + repeat_char(c, i as nat));
    }
}

/// The texts of core number `i`.
pub fn core_cell(i: usize, g: &CoreGauge) -> (cell: CoreCell)
    requires
        g.filled <= GAUGE_CELLS,
    ensures
        core_cell_matches(cell, i as nat, *g),
{
    let mut label = String::new();
    label.append("Core ");
    let d = decimal_string(i as u64);
    push_padded_left(&mut label, d.as_str(), 2);
    label.append("  ");
    assert(label@ =~= core_label_spec(i as nat));
    let mut bar = String::new();
    push_repeat(&mut bar, '\u{2588}', g.filled);
    push_repeat(&mut bar, '\u{2591}', GAUGE_CELLS - g.filled);
    assert(bar@ =~= core_bar_spec(g.filled as nat));
    let mut value = String::new();
    value.append("  ");
    push_padded_left(&mut value, g.text.as_str(), 5);
    value.append("%");
    assert(value@ =~= core_value_spec(g.text@));
    CoreCell { label, bar, value }
}

/// The per-core panel: the first half of the cores (rounded up) in the
/// left column, the rest in the right one, each core labelled with its
/// number.
pub fn core_columns(gauges: &Vec<CoreGauge>) -> (cols: (Vec<CoreCell>, Vec<CoreCell>))
    requires
        gauges@.len() < usize::MAX,
        gauges_fit(gauges@),
    ensures
        cols.0@.len() == (gauges@.len() + 1) / 2,
        cols.1@.len() == gauges@.len() - (gauges@.len() + 1) / 2,
        forall|i: int| 0 <= i < cols.0@.len() ==> core_cell_matches(#[trigger] cols.0@[i], i as nat, gauges@[i]),
        forall|i: int|
            0 <= i < cols.1@.len() ==> core_cell_matches(
                #[trigger] cols.1@[i],
                (i + (gauges@.len() + 1) / 2) as nat,
                gauges@[i + (gauges@.len() + 1) / 2],
            ),
{
    let n = gauges.len();
    let half = (n + 1) / 2;
    let mut left: Vec<CoreCell> = Vec::new();
    for i in 0..half
        invariant
            n == gauges@.len(),
            half == (n + 1) / 2,
            half <= n,
            gauges_fit(gauges@),
            left@.len() == i,
            forall|k: int| 0 <= k < i ==> core_cell_matches(#[trigger] left@[k], k as nat, gauges@[k]),
    {
        assert(gauges@[i as int].filled <= GAUGE_CELLS);
        left.push(core_cell(i, &gauges[i]));
    }
    let mut right: Vec<CoreCell> = Vec::new();
    for i in half..n
        invariant
            n == gauges@.len(),
            half == (n + 1) / 2,
            gauges_fit(gauges@),
            right@.len() == i - half,
            forall|k: int|
                0 <= k < right@.len() ==> core_cell_matches(
                    #[trigger] right@[k],
                    (k + half) as nat,
                    gauges@[k + half],
                ),
    {
        assert(gauges@[i as int].filled <= GAUGE_CELLS);
        right.push(core_cell(i, &gauges[i]));
    }
    (left, right)
}

/// The byte length of the UTF-8 text of `s`.
pub open spec fn byte_len(s: Seq<char>) -> nat {
    vstd::utf8::encode_utf8(s).len()
}

/// The padding between the left and right parts of the title bar: the
/// width left over, counted as `u16` like the terminal's width.
pub open spec fn title_padding_spec(width: u16, left: Seq<char>, right: Seq<char>) -> nat {
    let used = ((byte_len(left) + byte_len(right)) as u16);
    if width >= used {
        (width - used) as nat
    } else {
        0
    }
}

/// The left part of the title bar.
pub open spec fn title_left_spec(version: Seq<char>) -> Seq<char> {
    "  lightsysmon v"@ + version
}

/// The right part of the title bar.
pub open spec fn title_right_spec(now: Seq<char>) -> Seq<char> {
    now + "  "@
}

/// The title bar: the program's name and version on the left, the time on
/// the right, and spaces in between to fill `width`.
pub fn title_parts(width: u16, version: &str, now: &str) -> (parts: (String, String, String))
    requires
        byte_len(title_left_spec(version@)) + byte_len(title_right_spec(now@)) <= usize::MAX,
    ensures
        parts.0@ == title_left_spec(version@),
        parts.1@ == spaces(title_padding_spec(width, parts.0@, parts.2@)),
        parts.2@ == title_right_spec(now@),
{
    let mut left = String::new();
    left.append("  lightsysmon v");
    left.append(version);
    let mut right = String::new();
    right.append(now);
    right.append("  ");
    assert(left@ =~= title_left_spec(version@));
    assert(right@ =~= title_right_spec(now@));
    let used = left.as_str().len() + right.as_str().len();
    let pad_len = width.saturating_sub(used as u16) as usize;
    let mut pad = String::new();
    push_spaces(&mut pad, pad_len);
    assert(pad@ =~= spaces(title_padding_spec(width, left@, right@)));
    (left, pad, right)
}

/// The name of a sort order as the dashboard shows it.
pub open spec fn sort_label_spec(k: SortKey) -> Seq<char> {
    match k {
        SortKey::Cpu => "CPU"@,
        SortKey::Mem => "Mem"@,
    }
}

/// The name of a sort order as the dashboard shows it.
pub fn sort_label(k: SortKey) -> (s: &'static str)
    ensures
        s@ == sort_label_spec(k),
{
    match k {
        SortKey::Cpu => "CPU",
        SortKey::Mem => "Mem",
    }
}

/// The title of the process panel.
pub fn processes_title(k: SortKey) -> (s: String)
    ensures
        s@ == " Processes  by "@ + sort_label_spec(k) + " "@,
{
    let mut s = String::new();
    s.append(" Processes  by ");
    s.append(sort_label(k));
    s.append(" ");
    s
}

/// The refresh interval as the footer shows it.
pub fn interval_label(secs: u64) -> (s: String)
    ensures
        s@ == decimal(secs as nat) + "s"@,
{
    let mut s = String::new();
    push_decimal(&mut s, secs);
    s.append("s");
    s
}

/// The first line of the CPU panel.
pub fn cpu_summary(cpu_count: usize, frequency_mhz: u64) -> (s: String)
    ensures
        s@ == "  "@ + decimal(cpu_count as nat) + " cores @ "@ + decimal(frequency_mhz as nat) + " MHz  "@,
{
    let mut s = String::new();
    s.append("  ");
    push_decimal(&mut s, cpu_count as u64);
    s.append(" cores @ ");
    push_decimal(&mut s, frequency_mhz);
    s.append(" MHz  ");
    s
}

/// The label of a memory gauge: `kind`, the percentage (a one-decimal
/// text), used and total.
pub fn memory_gauge_label(kind: &str, pct: &str, used: u64, total: u64) -> (s: String)
    ensures
        s@ == kind@ + pct@ + "%   "@ + format_bytes_spec(used as nat) + " / "@ + format_bytes_spec(total as nat),
{
    let mut s = String::new();
    s.append(kind);
    s.append(pct);
    s.append("%   ");
    let u = format_bytes(used);
    s.append(u.as_str());
    s.append(" / ");
    let t = format_bytes(total);
    s.append(t.as_str());
    s
}

/// The cells of a row of the disk table: mount point, file system, used
/// percentage, used and total space.
pub fn disk_cells(d: &DiskReport) -> (cells: Vec<String>)
    ensures
        cells@.len() == 5,
        cells@[0]@ == d.mount_point@,
        cells@[1]@ == d.fs_type@,
        cells@[2]@ == d.used_pct.text@ + "%"@,
        cells@[3]@ == format_bytes_spec(d.used as nat),
        cells@[4]@ == format_bytes_spec(d.total as nat),
{
    let mut pct = d.used_pct.text.clone();
    pct.append("%");
    let mut cells: Vec<String> = Vec::new();
    cells.push(d.mount_point.clone());
    cells.push(d.fs_type.clone());
    cells.push(pct);
    cells.push(format_bytes(d.used));
    cells.push(format_bytes(d.total));
    cells
}

/// The cells of a row of the network table: interface, received and
/// transmitted since the last refresh, received and transmitted in total.
pub fn network_cells(n: &NetworkMetrics) -> (cells: Vec<String>)
    ensures
        cells@.len() == 5,
        cells@[0]@ == n.interface@,
        cells@[1]@ == format_bytes_spec(n.rx_bytes as nat),
        cells@[2]@ == format_bytes_spec(n.tx_bytes as nat),
        cells@[3]@ == format_bytes_spec(n.total_rx as nat),
        cells@[4]@ == format_bytes_spec(n.total_tx as nat),
{
    let mut cells: Vec<String> = Vec::new();
    cells.push(n.interface.clone());
    cells.push(format_bytes(n.rx_bytes));
    cells.push(format_bytes(n.tx_bytes));
    cells.push(format_bytes(n.total_rx));
    cells.push(format_bytes(n.total_tx));
    cells
}

/// The cells of a row of the process table: PID, name, CPU percentage,
/// memory and memory percentage.
pub fn process_cells(p: &ProcessReport) -> (cells: Vec<String>)
    ensures
        cells@.len() == 5,
        cells@[0]@ == decimal(p.pid as nat),
        cells@[1]@ == p.name@,
        cells@[2]@ == p.cpu.text@ + "%"@,
        cells@[3]@ == format_bytes_spec(p.memory_bytes as nat),
        cells@[4]@ == p.memory_pct.text@ + "%"@,
{
    let mut cpu = p.cpu.text.clone();
    cpu.append("%");
    let mut mem = p.memory_pct.text.clone();
    mem.append("%");
    let mut cells: Vec<String> = Vec::new();
    cells.push(decimal_string(p.pid as u64));
    cells.push(p.name.clone());
    cells.push(cpu);
    cells.push(format_bytes(p.memory_bytes));
    cells.push(mem);
    cells
}

/// The rows of the memory panel: the RAM gauge, the swap gauge when the
/// machine has swap, then the empty rest.
pub open spec fn memory_rows_spec(swap_total: u64) -> Seq<Extent> {
    if swap_total > 0 {
        seq![Extent::Length(1), Extent::Length(1), Extent::Min(0)]
    } else {
        seq![Extent::Length(1), Extent::Min(0)]
    }
}

/// The rows of the memory panel.
pub fn memory_rows(swap_total: u64) -> (rows: Vec<Extent>)
    ensures
        rows@ == memory_rows_spec(swap_total),
{
    let mut rows: Vec<Extent> = Vec::new();
    rows.push(Extent::Length(1));
    if swap_total > 0 {
        rows.push(Extent::Length(1));
    }
    rows.push(Extent::Min(0));
    assert(rows@ =~= memory_rows_spec(swap_total));
    rows
}

/// How a piece of the footer is drawn.
#[derive(Clone, Copy, PartialEq, Eq, Structural, Debug)]
pub enum FooterStyle {
    /// Unstyled.
    Plain,
    /// A key.
    Key,
    /// The quit label.
    Quit,
    /// A section that is switched on.
    On,
    /// A section that is switched off.
    Off,
    /// A setting's value.
    Value,
    /// A setting's value, emphasised.
    ValueBold,
}

/// One piece of the footer.
#[derive(Clone, Debug)]
pub struct FooterSpan {
    pub text: String,
    pub style: FooterStyle,
}

/// The style of a section's label: on or off.
pub open spec fn toggle_style(on: bool) -> FooterStyle {
    if on {
        FooterStyle::On
    } else {
        FooterStyle::Off
    }
}

/// The footer: each key with what it does, the sections shown as on or
/// off, the sort order and the refresh interval.
pub open spec fn footer_spec(s: AppState) -> Seq<(Seq<char>, FooterStyle)> {
    seq![
        (" "@, FooterStyle::Plain),
        ("[q]"@, FooterStyle::Key),
        ("Quit"@, FooterStyle::Quit),
        ("   "@, FooterStyle::Plain),
        ("[d]"@, FooterStyle::Key),
        ("Disk"@, toggle_style(s.show_disk)),
        ("   "@, FooterStyle::Plain),
        ("[n]"@, FooterStyle::Key),
        ("Net"@, toggle_style(s.show_network)),
        ("   "@, FooterStyle::Plain),
        ("[p]"@, FooterStyle::Key),
        ("Procs"@, toggle_style(s.show_processes)),
        ("   "@, FooterStyle::Plain),
        ("[c]"@, FooterStyle::Key),
        ("Cores"@, toggle_style(s.show_cores)),
        ("   "@, FooterStyle::Plain),
        ("[s]"@, FooterStyle::Key),
        ("Sort:"@, FooterStyle::Value),
        (sort_label_spec(s.sort_key), FooterStyle::ValueBold),
        ("   "@, FooterStyle::Plain),
        ("[-/+]"@, FooterStyle::Key),
        (decimal(s.interval_secs as nat) + "s"@, FooterStyle::Value),
    ]
}

/// The texts and styles of a list of footer pieces.
pub open spec fn footer_view(v: Seq<FooterSpan>) -> Seq<(Seq<char>, FooterStyle)> {
    v.map_values(|f: FooterSpan| (f.text@, f.style))
}

fn push_span(spans: &mut Vec<FooterSpan>, text: String, style: FooterStyle)
    ensures
        footer_view(final(spans)@) == footer_view(old(spans)@).push((text@, style)),
{
    spans.push(FooterSpan { text, style });
    assert(footer_view(final(spans)@) =~= footer_view(old(spans)@).push((text@, style)));
}

fn toggle(on: bool) -> (st: FooterStyle)
    ensures
        st == toggle_style(on),
{
    if on {
        FooterStyle::On
    } else {
        FooterStyle::Off
    }
}

/// The footer of the dashboard.
pub fn footer_spans(s: &AppState) -> (spans: Vec<FooterSpan>)
    ensures
        footer_view(spans@) == footer_spec(*s),
{
    let mut v: Vec<FooterSpan> = Vec::new();
    push_span(&mut v, " ".to_owned(), FooterStyle::Plain);
    push_span(&mut v, "[q]".to_owned(), FooterStyle::Key);
    push_span(&mut v, "Quit".to_owned(), FooterStyle::Quit);
    push_span(&mut v, "   ".to_owned(), FooterStyle::Plain);
    push_span(&mut v, "[d]".to_owned(), FooterStyle::Key);
    push_span(&mut v, "Disk".to_owned(), toggle(s.show_disk));
    push_span(&mut v, "   ".to_owned(), FooterStyle::Plain);
    push_span(&mut v, "[n]".to_owned(), FooterStyle::Key);
    push_span(&mut v, "Net".to_owned(), toggle(s.show_network));
    push_span(&mut v, "   ".to_owned(), FooterStyle::Plain);
    push_span(&mut v, "[p]".to_owned(), FooterStyle::Key);
    push_span(&mut v, "Procs".to_owned(), toggle(s.show_processes));
    push_span(&mut v, "   ".to_owned(), FooterStyle::Plain);
    push_span(&mut v, "[c]".to_owned(), FooterStyle::Key);
    push_span(&mut v, "Cores".to_owned(), toggle(s.show_cores));
    push_span(&mut v, "   ".to_owned(), FooterStyle::Plain);
    push_span(&mut v, "[s]".to_owned(), FooterStyle::Key);
    push_span(&mut v, "Sort:".to_owned(), FooterStyle::Value);
    push_span(&mut v, sort_label(s.sort_key).to_owned(), FooterStyle::ValueBold);
    push_span(&mut v, "   ".to_owned(), FooterStyle::Plain);
    push_span(&mut v, "[-/+]".to_owned(), FooterStyle::Key);
    push_span(&mut v, interval_label(s.interval_secs), FooterStyle::Value);
    assert(footer_view(v@) =~= footer_spec(*s));
    v
}

/// The body lists, top to bottom: the CPU and memory panel, five rows
/// high; the per-core panel, two borders and a row per two cores, when
/// cores are shown and there are some; the disk and network tables, a row
/// per entry plus a header and two borders, when shown and not empty; the
/// process table, at least six rows, when shown and not empty; and the
/// filler.
pub proof fn lemma_body_layout_panels(c: BodyCounts)
    ensures
        ({
            let l = body_layout_spec(c);
            let has_cores = c.show_cores && c.cores > 0;
            let has_disk = c.show_disk && c.disks > 0;
            let has_net = c.show_network && c.interfaces > 0;
            let has_procs = c.show_processes && c.processes > 0;
            let k1: int = 1;
            let k2: int = k1 + if has_cores { 1int } else { 0 };
            let k3: int = k2 + if has_disk { 1int } else { 0 };
            let k4: int = k3 + if has_net { 1int } else { 0 };
            let k5: int = k4 + if has_procs { 1int } else { 0 };
            &&& l.len() == k5 + 1
            &&& l[0] == (Panel::CpuMemory, Extent::Length(5))
            &&& has_cores ==> l[k1].0 == Panel::Cores
            &&& has_cores && c.cores <= 131066 ==> l[k1].1 == Extent::Length(((c.cores + 1) / 2 + 2) as u16)
            &&& has_disk ==> l[k2].0 == Panel::Disk
            &&& has_disk && c.disks <= 65532 ==> l[k2].1 == Extent::Length((c.disks + 3) as u16)
            &&& has_net ==> l[k3].0 == Panel::Network
            &&& has_net && c.interfaces <= 65532 ==> l[k3].1 == Extent::Length((c.interfaces + 3) as u16)
            &&& has_procs ==> l[k4] == (Panel::Processes, Extent::Min(6))
            &&& l[k5] == (Panel::Filler, Extent::Min(0))
        }),
{
    let has_cores = c.show_cores && c.cores > 0;
    if has_cores && c.cores <= 131066 {
        assert((c.cores + 1) / 2 <= 65533);
    }
}

/// The memory panel has a row for the RAM gauge, a row for the swap gauge
/// exactly when the machine has swap, and the rest below them.
pub proof fn lemma_memory_rows(swap_total: u64)
    ensures
        memory_rows_spec(swap_total).len() == if swap_total > 0 { 3int } else { 2int },
        memory_rows_spec(swap_total)[0] == Extent::Length(1),
        swap_total > 0 ==> memory_rows_spec(swap_total)[1] == Extent::Length(1),
        memory_rows_spec(swap_total).last() == Extent::Min(0),
{
}

/// The footer shows each key beside the setting it changes: pressing `d`,
/// `n`, `p`, `c` (without Control) or `s` changes the piece right after that
/// key's label, and no other piece of the footer.
pub proof fn lemma_footer_follows_keys(s: AppState, c: char, i: int)
    requires
        (c == 'd' && i == 5) || (c == 'n' && i == 8) || (c == 'p' && i == 11) || (c == 'c' && i == 14) || (
        c == 's' && i == 18),
    ensures
        ({
            let f = footer_spec(s);
            let g = footer_spec(crate::tui::key_next(s, KeyPress::Char { c, control: false }));
            &&& f.len() == g.len()
            &&& f[i - 1 - if c == 's' { 1int } else { 0 }].0 == seq!['[', c, ']']
            &&& g[i] != f[i]
            &&& forall|j: int| 0 <= j < f.len() && j != i ==> #[trigger] g[j] == f[j]
        }),
{
    reveal_strlit("[d]");
    reveal_strlit("[n]");
    reveal_strlit("[p]");
    reveal_strlit("[c]");
    reveal_strlit("[s]");
    reveal_strlit("CPU");
    reveal_strlit("Mem");
    assert("[d]"@ =~= seq!['[', 'd', ']']);
    assert("[n]"@ =~= seq!['[', 'n', ']']);
    assert("[p]"@ =~= seq!['[', 'p', ']']);
    assert("[c]"@ =~= seq!['[', 'c', ']']);
    assert("[s]"@ =~= seq!['[', 's', ']']);
    assert("CPU"@[1] != "Mem"@[1]);
}

/// When the name and the time fit in the width, the title bar fills the
/// width exactly: its left part, the padding and its right part take
/// `width` bytes together; when they do not fit there is no padding.
pub proof fn lemma_title_fills_width(width: u16, left: Seq<char>, right: Seq<char>)
    ensures
        byte_len(left) + byte_len(right) <= width ==> byte_len(left) + title_padding_spec(width, left, right)
            + byte_len(right) == width,
        width < byte_len(left) + byte_len(right) <= u16::MAX ==> title_padding_spec(width, left, right) == 0,
{
}

} // verus!
