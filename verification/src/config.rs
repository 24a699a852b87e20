//! The configuration file: its location and its contents.
use vstd::prelude::*;

verus! {

/// Defaults read from the configuration file; every entry is optional.
/// `T` is the type of the alert thresholds (a percentage), which this
/// crate only carries through.
#[derive(Clone, Copy, Debug)]
pub struct Config<T> {
    pub interval: Option<u64>,
    pub show_disk: Option<bool>,
    pub show_network: Option<bool>,
    pub show_processes: Option<bool>,
    pub process_count: Option<usize>,
    pub alert_cpu: Option<T>,
    pub alert_mem: Option<T>,
}

impl<T> Default for Config<T> {
    /// The configuration with no entry set.
    fn default() -> (c: Config<T>)
        ensures
            c.interval is None,
            c.show_disk is None,
            c.show_network is None,
            c.show_processes is None,
            c.process_count is None,
            c.alert_cpu is None,
            c.alert_mem is None,
    {
        Config {
            interval: None,
            show_disk: None,
            show_network: None,
            show_processes: None,
            process_count: None,
            alert_cpu: None,
            alert_mem: None,
        }
    }
}

/// Where the configuration file is looked for under the home directory.
pub open spec fn config_suffix() -> Seq<char> {
    "/.config/lightsysmon/config.toml"@
}

/// The configuration file to read: the path given on the command line, or
/// else the file under the home directory, or none when neither is known.
pub open spec fn config_path_spec(path: Option<Seq<char>>, home: Option<Seq<char>>) -> Option<Seq<char>> {
    match path {
        Some(p) => Some(p),
        None => match home {
            Some(h) => Some(h + config_suffix()),
            None => None,
        },
    }
}

/// The configuration file to read (see `config_path_spec`).
pub fn config_path(path: Option<&str>, home: Option<&str>) -> (p: Option<String>)
    ensures
        p matches Some(s) ==> config_path_spec(
            match path { Some(x) => Some(x@), None => None },
            match home { Some(x) => Some(x@), None => None },
        ) == Some(s@),
        p is None <==> config_path_spec(
            match path { Some(x) => Some(x@), None => None },
            match home { Some(x) => Some(x@), None => None },
        ) is None,
{
    match path {
        Some(p) => Some(p.to_owned()),
        None => match home {
            Some(h) => {
                let mut s = h.to_owned();
                s.append("/.config/lightsysmon/config.toml");
                Some(s)
            },
            None => None,
        },
    }
}

} // verus!
