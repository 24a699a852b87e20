//! The decisions of the interactive menu: which action an entry stands
//! for, the defaults offered by the prompts, and the options built from
//! the answers.
use vstd::prelude::*;
use crate::cli::{SnapshotArgs, SortKey, WatchArgs, DEFAULT_INTERVAL, DEFAULT_WATCH_PROCESS_COUNT, DEFAULT_TOP_COUNT};
use crate::config::Config;
use crate::settings::or_default;

verus! {

/// An action of the menu.
#[derive(Clone, Copy, PartialEq, Eq, Structural, Debug)]
pub enum MenuAction {
    WatchPlain,
    WatchDashboard,
    Top,
    Snapshot,
    Info,
    Completions,
}

/// A shell for which completions can be generated.
#[derive(Clone, Copy, PartialEq, Eq, Structural, Debug)]
pub enum ShellChoice {
    Bash,
    Zsh,
    Fish,
    PowerShell,
    Elvish,
}

/// The entries of the menu, in order; the last one quits.
pub fn menu_items() -> (items: Vec<&'static str>)
    ensures
        items@.map_values(|s: &'static str| s@) == menu_labels(),
{
    let mut items: Vec<&'static str> = Vec::new();
    items.push("Watch metrics (plain)");
    items.push("Watch metrics (TUI dashboard)");
    items.push("Top processes");
    items.push("Snapshot");
    items.push("System info");
    items.push("Generate shell completions");
    items.push("Quit");
    assert(items@.map_values(|s: &'static str| s@) =~= menu_labels());
    items
}

/// The action of menu entry `index`; the quit entry, and any index past
/// the listed actions, stands for none.
pub open spec fn menu_action_spec(index: usize) -> Option<MenuAction> {
    if index == 0 {
        Some(MenuAction::WatchPlain)
    } else if index == 1 {
        Some(MenuAction::WatchDashboard)
    } else if index == 2 {
        Some(MenuAction::Top)
    } else if index == 3 {
        Some(MenuAction::Snapshot)
    } else if index == 4 {
        Some(MenuAction::Info)
    } else if index == 5 {
        Some(MenuAction::Completions)
    } else {
        None
    }
}

/// The action of menu entry `index`.
pub fn menu_action(index: usize) -> (a: Option<MenuAction>)
    ensures
        a == menu_action_spec(index),
{
    match index {
        0 => Some(MenuAction::WatchPlain),
        1 => Some(MenuAction::WatchDashboard),
        2 => Some(MenuAction::Top),
        3 => Some(MenuAction::Snapshot),
        4 => Some(MenuAction::Info),
        5 => Some(MenuAction::Completions),
        _ => None,
    }
}

/// The order chosen in the sort prompt: the second entry is memory,
/// anything else CPU.
pub fn sort_key_choice(index: usize) -> (k: SortKey)
    ensures
        k == sort_choice_spec(index),
{
    if index == 1 {
        SortKey::Mem
    } else {
        SortKey::Cpu
    }
}

/// The order chosen in the sort prompt: the second entry is memory,
/// anything else CPU.
pub open spec fn sort_choice_spec(index: usize) -> SortKey {
    if index == 1 {
        SortKey::Mem
    } else {
        SortKey::Cpu
    }
}

/// The shell chosen in the completions prompt; entries past the fourth
/// choose Elvish.
pub open spec fn shell_choice_spec(index: usize) -> ShellChoice {
    if index == 0 {
        ShellChoice::Bash
    } else if index == 1 {
        ShellChoice::Zsh
    } else if index == 2 {
        ShellChoice::Fish
    } else if index == 3 {
        ShellChoice::PowerShell
    } else {
        ShellChoice::Elvish
    }
}

/// The shell chosen in the completions prompt.
pub fn shell_choice(index: usize) -> (s: ShellChoice)
    ensures
        s == shell_choice_spec(index),
{
    match index {
        0 => ShellChoice::Bash,
        1 => ShellChoice::Zsh,
        2 => ShellChoice::Fish,
        3 => ShellChoice::PowerShell,
        _ => ShellChoice::Elvish,
    }
}

/// The defaults the `watch` prompts offer, from the configuration.
#[derive(Clone, Copy, Debug)]
pub struct WatchPromptDefaults {
    pub interval: u64,
    pub process_count: usize,
    pub disk: bool,
    pub network: bool,
    pub processes: bool,
}

/// The defaults the `watch` prompts offer, from the configuration.
pub fn watch_prompt_defaults<T>(config: &Config<T>) -> (d: WatchPromptDefaults)
    ensures
        d.interval == or_default(config.interval, DEFAULT_INTERVAL),
        d.process_count == or_default(config.process_count, DEFAULT_WATCH_PROCESS_COUNT),
        d.disk == or_default(config.show_disk, false),
        d.network == or_default(config.show_network, false),
        d.processes == or_default(config.show_processes, false),
        config.interval is None ==> d.interval == 1,
        config.process_count is None ==> d.process_count == 5,
        d.disk == (config.show_disk == Some(true)),
        d.network == (config.show_network == Some(true)),
        d.processes == (config.show_processes == Some(true)),
{
    WatchPromptDefaults {
        interval: match config.interval {
            Some(v) => v,
            None => DEFAULT_INTERVAL,
        },
        process_count: match config.process_count {
            Some(v) => v,
            None => DEFAULT_WATCH_PROCESS_COUNT,
        },
        disk: match config.show_disk {
            Some(v) => v,
            None => false,
        },
        network: match config.show_network {
            Some(v) => v,
            None => false,
        },
        processes: match config.show_processes {
            Some(v) => v,
            None => false,
        },
    }
}

/// The answers to the `watch` prompts.  The number of processes is only
/// asked when processes are shown, so it may be absent.
#[derive(Clone, Copy, Debug)]
pub struct WatchAnswers {
    pub interval: u64,
    pub cores: bool,
    pub disk: bool,
    pub network: bool,
    pub processes: bool,
    pub process_count: Option<usize>,
    pub sort: SortKey,
    pub timestamp: bool,
    pub json: bool,
}

/// The options of `watch` built from the answers: no log file and no
/// alert thresholds.  The number of processes is the answer only when
/// processes are shown (falling back on the offered default when there is
/// no answer); otherwise it is the offered default.
pub fn watch_args_from_answers<T>(a: &WatchAnswers, defaults: &WatchPromptDefaults, tui: bool) -> (w: WatchArgs<T>)
    ensures
        w.interval == a.interval,
        w.cores == a.cores,
        w.disk == a.disk,
        w.network == a.network,
        w.processes == a.processes,
        a.processes ==> w.process_count == or_default(a.process_count, defaults.process_count),
        !a.processes ==> w.process_count == defaults.process_count,
        w.sort == a.sort,
        w.timestamp == a.timestamp,
        w.json == a.json,
        w.log is None,
        w.tui == tui,
        w.alert_cpu is None,
        w.alert_mem is None,
{
    WatchArgs {
        interval: a.interval,
        cores: a.cores,
        disk: a.disk,
        network: a.network,
        processes: a.processes,
        process_count: if a.processes {
            match a.process_count {
                Some(n) => n,
                None => defaults.process_count,
            }
        } else {
            defaults.process_count
        },
        sort: a.sort,
        timestamp: a.timestamp,
        json: a.json,
        log: None,
        tui,
        alert_cpu: None,
        alert_mem: None,
    }
}

/// The number of processes the `top` prompt offers.
pub fn top_prompt_default<T>(config: &Config<T>) -> (n: usize)
    ensures
        n == or_default(config.process_count, DEFAULT_TOP_COUNT),
        config.process_count is None ==> n == 10,
{
    match config.process_count {
        Some(v) => v,
        None => DEFAULT_TOP_COUNT,
    }
}

/// The options of `snapshot` built from the answers; `mode` is the
/// chosen output format: pretty (0), JSON (1) or CSV (2).
pub fn snapshot_args_from_answers(disk: bool, network: bool, mode: usize) -> (s: SnapshotArgs)
    ensures
        s.json == (mode == 1),
        s.csv == (mode == 2),
        s.disk == disk,
        s.network == network,
{
    SnapshotArgs { json: mode == 1, csv: mode == 2, disk, network }
}

/// Every menu index either names one of the six actions or quits, and the
/// six first entries name six different actions.
pub proof fn lemma_menu_actions(i: usize, j: usize)
    ensures
        i < 6 <==> menu_action_spec(i) is Some,
        i < 6 && j < 6 && i != j ==> menu_action_spec(i) != menu_action_spec(j),
{
}

/// The entries of the menu, as `menu_items` lists them.
pub open spec fn menu_labels() -> Seq<Seq<char>> {
    seq![
        "Watch metrics (plain)"@,
        "Watch metrics (TUI dashboard)"@,
        "Top processes"@,
        "Snapshot"@,
        "System info"@,
        "Generate shell completions"@,
        "Quit"@,
    ]
}

/// The action a menu entry's text announces; `Quit` announces none.
pub open spec fn action_announced(label: Seq<char>) -> Option<MenuAction> {
    if label == "Watch metrics (plain)"@ {
        Some(MenuAction::WatchPlain)
    } else if label == "Watch metrics (TUI dashboard)"@ {
        Some(MenuAction::WatchDashboard)
    } else if label == "Top processes"@ {
        Some(MenuAction::Top)
    } else if label == "Snapshot"@ {
        Some(MenuAction::Snapshot)
    } else if label == "System info"@ {
        Some(MenuAction::Info)
    } else if label == "Generate shell completions"@ {
        Some(MenuAction::Completions)
    } else {
        None
    }
}

/// Choosing an entry of the menu runs the action its text announces:
/// the action of entry `i` is the one named by the `i`-th listed item.
pub proof fn lemma_menu_entry_does_what_it_says(i: usize)
    requires
        i < menu_labels().len(),
    ensures
        menu_action_spec(i) == action_announced(menu_labels()[i as int]),
{
    reveal_strlit("Watch metrics (plain)");
    reveal_strlit("Watch metrics (TUI dashboard)");
    reveal_strlit("Top processes");
    reveal_strlit("Snapshot");
    reveal_strlit("System info");
    reveal_strlit("Generate shell completions");
    reveal_strlit("Quit");
    assert("Watch metrics (plain)"@.len() == 21 && "Watch metrics (plain)"@[0] == 'W');
    assert("Watch metrics (TUI dashboard)"@.len() == 29 && "Watch metrics (TUI dashboard)"@[0] == 'W');
    assert("Top processes"@.len() == 13 && "Top processes"@[0] == 'T');
    assert("Snapshot"@.len() == 8 && "Snapshot"@[0] == 'S');
    assert("System info"@.len() == 11 && "System info"@[0] == 'S');
    assert("Generate shell completions"@.len() == 26 && "Generate shell completions"@[0] == 'G');
    assert("Quit"@.len() == 4 && "Quit"@[0] == 'Q');
    assert("Watch metrics (plain)"@ != "Watch metrics (TUI dashboard)"@);
    assert("Top processes"@ != "Watch metrics (plain)"@);
    assert("Snapshot"@ != "Watch metrics (plain)"@);
    assert("System info"@ != "Watch metrics (plain)"@);
    assert("Generate shell completions"@ != "Watch metrics (plain)"@);
    assert("Quit"@ != "Watch metrics (plain)"@);
    assert("Top processes"@ != "Watch metrics (TUI dashboard)"@);
    assert("Snapshot"@ != "Watch metrics (TUI dashboard)"@);
    assert("System info"@ != "Watch metrics (TUI dashboard)"@);
    assert("Generate shell completions"@ != "Watch metrics (TUI dashboard)"@);
    assert("Quit"@ != "Watch metrics (TUI dashboard)"@);
    assert("Snapshot"@ != "Top processes"@);
    assert("System info"@ != "Top processes"@);
    assert("Generate shell completions"@ != "Top processes"@);
    assert("Quit"@ != "Top processes"@);
    assert("System info"@ != "Snapshot"@);
    assert("Generate shell completions"@ != "Snapshot"@);
    assert("Quit"@ != "Snapshot"@);
    assert("Generate shell completions"@ != "System info"@);
    assert("Quit"@ != "System info"@);
    assert("Quit"@ != "Generate shell completions"@);
}

/// The shells offered by the completions prompt, in order.
pub open spec fn shell_labels() -> Seq<Seq<char>> {
    seq!["bash"@, "zsh"@, "fish"@, "powershell"@, "elvish"@]
}

/// The shell a prompt entry names.
pub open spec fn shell_named(label: Seq<char>) -> Option<ShellChoice> {
    if label == "bash"@ {
        Some(ShellChoice::Bash)
    } else if label == "zsh"@ {
        Some(ShellChoice::Zsh)
    } else if label == "fish"@ {
        Some(ShellChoice::Fish)
    } else if label == "powershell"@ {
        Some(ShellChoice::PowerShell)
    } else if label == "elvish"@ {
        Some(ShellChoice::Elvish)
    } else {
        None
    }
}

/// The shells offered by the completions prompt, in order.
pub fn shell_items() -> (items: Vec<&'static str>)
    ensures
        items@.map_values(|s: &'static str| s@) == shell_labels(),
{
    let mut items: Vec<&'static str> = Vec::new();
    items.push("bash");
    items.push("zsh");
    items.push("fish");
    items.push("powershell");
    items.push("elvish");
    assert(items@.map_values(|s: &'static str| s@) =~= shell_labels());
    items
}

/// Choosing an entry of the completions prompt chooses the shell it
/// names.
pub proof fn lemma_shell_entry_does_what_it_says(i: usize)
    requires
        i < shell_labels().len(),
    ensures
        Some(shell_choice_spec(i)) == shell_named(shell_labels()[i as int]),
{
    reveal_strlit("bash");
    reveal_strlit("zsh");
    reveal_strlit("fish");
    reveal_strlit("powershell");
    reveal_strlit("elvish");
    assert("bash"@.len() == 4 && "bash"@[0] == 'b');
    assert("zsh"@.len() == 3 && "zsh"@[0] == 'z');
    assert("fish"@.len() == 4 && "fish"@[0] == 'f');
    assert("powershell"@.len() == 10 && "powershell"@[0] == 'p');
    assert("elvish"@.len() == 6 && "elvish"@[0] == 'e');
    assert("zsh"@ != "bash"@);
    assert("fish"@ != "bash"@);
    assert("fish"@ != "zsh"@);
    assert("powershell"@ != "bash"@);
    assert("powershell"@ != "zsh"@);
    assert("powershell"@ != "fish"@);
    assert("elvish"@ != "bash"@);
    assert("elvish"@ != "zsh"@);
    assert("elvish"@ != "fish"@);
    assert("elvish"@ != "powershell"@);
}

/// The orders offered by the sort prompt, in order.
pub open spec fn sort_labels() -> Seq<Seq<char>> {
    seq!["cpu"@, "mem"@]
}

/// The orders offered by the sort prompt, in order.
pub fn sort_items() -> (items: Vec<&'static str>)
    ensures
        items@.map_values(|s: &'static str| s@) == sort_labels(),
{
    let mut items: Vec<&'static str> = Vec::new();
    items.push("cpu");
    items.push("mem");
    assert(items@.map_values(|s: &'static str| s@) =~= sort_labels());
    items
}

/// The order a sort prompt entry names.
pub open spec fn sort_named(label: Seq<char>) -> Option<SortKey> {
    if label == "cpu"@ {
        Some(SortKey::Cpu)
    } else if label == "mem"@ {
        Some(SortKey::Mem)
    } else {
        None
    }
}

/// Choosing an entry of the sort prompt chooses the order it names, and
/// an answer that is no entry keeps the CPU order.
pub proof fn lemma_sort_entry_does_what_it_says(i: usize)
    ensures
        i < sort_labels().len() ==> Some(sort_choice_spec(i)) == sort_named(sort_labels()[i as int]),
        i >= sort_labels().len() ==> sort_choice_spec(i) == SortKey::Cpu,
{
    reveal_strlit("cpu");
    reveal_strlit("mem");
    assert("cpu"@.len() == 3 && "cpu"@[0] == 'c');
    assert("mem"@.len() == 3 && "mem"@[0] == 'm');
}

} // verus!
