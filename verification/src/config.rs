//! Static settings: the configuration record, its defaults, and the pure
//! parts of loading it — merging command-line overrides into a base
//! configuration and choosing which file to read.
//!
//! Reading the command line, the environment and the file itself happens at
//! the edge of the program; this module only decides.

use vstd::prelude::*;
use crate::theme::{Theme, lower_of};

verus! {

/// Command-line overrides: a theme name, a configuration file path, and a
/// refresh interval in milliseconds.
pub struct CliArgs {
    pub theme: Option<String>,
    pub config: Option<String>,
    pub refresh_rate: Option<u64>,
}

/// The static settings object, produced once at startup and only read
/// afterwards.
#[derive(Clone, Debug)]
pub struct Config {
    pub theme: Theme,
    pub refresh_rate: u64,
    pub show_cpu: bool,
    pub show_memory: bool,
    pub show_disk: bool,
    pub show_network: bool,
    pub rounded_borders: bool,
    pub temp_unit: String,
}

impl Default for Config {
    /// Startup defaults: the default theme, one refresh per second, every
    /// panel shown, rounded borders, Celsius.
    fn default() -> (config: Self)
        ensures
            config.theme == Theme::spec_default(),
            config.refresh_rate == 1000,
            config.show_cpu,
            config.show_memory,
            config.show_disk,
            config.show_network,
            config.rounded_borders,
            config.temp_unit@ == "celsius"@,
    {
        Config {
            theme: Theme::default(),
            refresh_rate: 1000,
            show_cpu: true,
            show_memory: true,
            show_disk: true,
            show_network: true,
            rounded_borders: true,
            temp_unit: String::from_str("celsius"),
        }
    }
}

impl Config {
    /// Merges command-line overrides into a base configuration: a given
    /// theme name replaces the theme (looked up case-insensitively), a
    /// given rate replaces the refresh interval, everything else stays.
    pub fn load(base: Config, args: CliArgs) -> (config: Config)
        ensures
            config.theme == (match args.theme {
                Some(name) => Theme::spec_from_name(lower_of(name@)),
                None => base.theme,
            }),
            config.refresh_rate == (match args.refresh_rate {
                Some(rate) => rate,
                None => base.refresh_rate,
            }),
            config.show_cpu == base.show_cpu,
            config.show_memory == base.show_memory,
            config.show_disk == base.show_disk,
            config.show_network == base.show_network,
            config.rounded_borders == base.rounded_borders,
            config.temp_unit == base.temp_unit,
    {
        let mut config = base;
        match args.theme {
            Some(name) => {
                config.theme = Theme::from_name(name.as_str());
            },
            None => {},
        }
        match args.refresh_rate {
            Some(rate) => {
                config.refresh_rate = rate;
            },
            None => {},
        }
        config
    }
}

/// Which platform's directory convention to follow.
#[derive(Clone, Copy, Debug, PartialEq, Eq, Structural)]
pub enum OsFamily {
    Windows,
    MacOs,
    Unix,
}

/// The per-user configuration directory, given the platform family and the
/// relevant environment value (the application-data directory on Windows,
/// the home directory elsewhere); nothing when that value is absent.
pub fn config_dir(os: OsFamily, env_base: Option<String>) -> (dir: Option<String>)
    ensures
        dir is Some <==> env_base is Some,
        env_base is Some ==> dir->Some_0@ == (match os {
            OsFamily::Windows => env_base->Some_0@,
            OsFamily::MacOs => env_base->Some_0@ + "/Library/Application Support"@,
            OsFamily::Unix => env_base->Some_0@ + "/.config"@,
        }),
{
    match env_base {
        Some(base) => Some(
            match os {
                OsFamily::Windows => base,
                OsFamily::MacOs => base.concat("/Library/Application Support"),
                OsFamily::Unix => base.concat("/.config"),
            },
        ),
        None => None,
    }
}

/// The configuration file to read: an explicitly given path wins; otherwise
/// the file under the per-user configuration directory; failing both, a
/// file in the working directory.
pub fn config_path(cli_path: Option<String>, config_base: Option<String>) -> (path: String)
    ensures
        cli_path is Some ==> path@ == cli_path->Some_0@,
        cli_path is None && config_base is Some ==> path@ == config_base->Some_0@
            + "/rust-tui-monitor/config.toml"@,
        cli_path is None && config_base is None ==> path@ == "config.toml"@,
{
    match cli_path {
        Some(given) => given,
        None => match config_base {
            Some(base) => base.concat("/rust-tui-monitor/config.toml"),
            None => String::from_str("config.toml"),
        },
    }
}

} // verus!
