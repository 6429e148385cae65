//! Where a server has its configuration from.
use vstd::prelude::*;

use crate::config::{ReloaderConfig, WatchStrategy};

verus! {

/// Seconds between two reloads of the configuration.
pub const RELOAD_PERIOD_SEC: u32 = 10;

/// Intermediate struct to deserialize the TOML configuration.
#[derive(Debug, PartialEq, Eq)]
pub struct ConfigToml {
    pub id: u32,
    pub name: String,
}

impl Clone for ConfigToml {
    fn clone(&self) -> (copy: Self)
        ensures
            copy == *self,
    {
        ConfigToml { id: self.id, name: self.name.clone() }
    }
}

impl Default for ConfigToml {
    fn default() -> (config: Self)
        ensures
            config.id == 0,
            config.name@ == ""@,
    {
        ConfigToml { id: 0, name: "".to_owned() }
    }
}

/// How loading a configuration went.
#[derive(Debug)]
pub enum ConfigLoad {
    /// The file could not be read; with the error's text.
    Unreadable(String),
    /// The text could not be parsed; with the error's text.
    Unparsable(String),
    /// The text was parsed.
    Parsed(ConfigToml),
}

impl ConfigToml {
    /// The configuration, or what to say instead of it.
    pub fn load_from(load: ConfigLoad) -> (config: Result<ConfigToml, String>)
        ensures
            match load {
                ConfigLoad::Unreadable(error) => config matches Err(message) && message@
                    == "Failed to read config file: "@ + error@,
                ConfigLoad::Unparsable(error) => config matches Err(message) && message@
                    == "Failed to parse toml config: "@ + error@,
                ConfigLoad::Parsed(parsed) => config == Ok::<ConfigToml, String>(parsed),
            },
    {
        match load {
            ConfigLoad::Unreadable(error) => Err(
                "Failed to read config file: ".to_owned().concat(error.as_str()),
            ),
            ConfigLoad::Unparsable(error) => Err(
                "Failed to parse toml config: ".to_owned().concat(error.as_str()),
            ),
            ConfigLoad::Parsed(parsed) => Ok(parsed),
        }
    }
}

/// Whether `mode` names a watch strategy.
pub open spec fn is_watch_mode(mode: Seq<char>) -> bool {
    mode == "polling"@ || mode == "realtime"@ || mode == "hybrid"@
}

/// The strategy that `mode` names. Whatever names none means the hybrid one.
pub open spec fn strategy_named(mode: Seq<char>) -> WatchStrategy {
    if mode == "polling"@ {
        WatchStrategy::Polling
    } else if mode == "realtime"@ {
        WatchStrategy::Realtime
    } else {
        WatchStrategy::Hybrid
    }
}

/// How to watch the configuration, for the watch mode that was asked for.
pub fn watch_config(mode: &String) -> (config: ReloaderConfig)
    ensures
        config == (ReloaderConfig {
            watch_delay_sec: 10,
            force_reload: false,
            strategy: strategy_named(mode@),
        }),
{
    if mode.eq(&"polling".to_owned()) {
        ReloaderConfig::polling(RELOAD_PERIOD_SEC)
    } else if mode.eq(&"realtime".to_owned()) {
        ReloaderConfig::realtime()
    } else {
        ReloaderConfig::hybrid(RELOAD_PERIOD_SEC)
    }
}

/// Whether a watch mode that was asked for is known.
pub fn is_known_mode(mode: &String) -> (known: bool)
    ensures
        known == is_watch_mode(mode@),
{
    mode.eq(&"polling".to_owned()) || mode.eq(&"realtime".to_owned()) || mode.eq(
        &"hybrid".to_owned(),
    )
}

/// Each of the three watch modes names its own strategy, and any other text
/// means the hybrid one.
pub proof fn what_watch_modes_name(mode: Seq<char>)
    ensures
        strategy_named("polling"@) == WatchStrategy::Polling,
        strategy_named("realtime"@) == WatchStrategy::Realtime,
        strategy_named("hybrid"@) == WatchStrategy::Hybrid,
        strategy_named(mode) == WatchStrategy::Polling ==> mode == "polling"@,
        strategy_named(mode) == WatchStrategy::Realtime ==> mode == "realtime"@,
        mode != "polling"@ && mode != "realtime"@ ==> strategy_named(mode)
            == WatchStrategy::Hybrid,
        is_watch_mode("polling"@) && is_watch_mode("realtime"@) && is_watch_mode("hybrid"@),
        is_watch_mode(mode) && strategy_named(mode) == WatchStrategy::Hybrid ==> mode == "hybrid"@,
{
    reveal_strlit("polling");
    reveal_strlit("realtime");
    reveal_strlit("hybrid");
    assert("polling"@.len() == 7);
    assert("realtime"@.len() == 8);
    assert("hybrid"@.len() == 6);
}

} // verus!
