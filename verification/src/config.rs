//! Configuration of a reloader service.
use vstd::prelude::*;

verus! {

/// Strategy for watching and reloading target values
#[derive(Debug, Clone, Copy, PartialEq, Eq, Structural)]
pub enum WatchStrategy {
    /// Use polling-based monitoring (default, works for all data sources)
    Polling,
    /// Use realtime event-based monitoring (requires change notifications)
    Realtime,
    /// Try realtime monitoring first, fall back to polling if it fails and
    /// periodically retry realtime
    Hybrid,
}

impl Default for WatchStrategy {
    fn default() -> (strategy: Self)
        ensures
            strategy == WatchStrategy::Polling,
    {
        WatchStrategy::Polling
    }
}

/// Seconds between two reloads where no period is asked for.
pub const DEFAULT_WATCH_DELAY_SEC: u32 = 10;

/// Configuration for the reloader service
#[derive(Debug, Clone, Copy, PartialEq, Eq, Structural)]
pub struct ReloaderConfig {
    /// Period between reload attempts in seconds (used in Polling mode)
    pub watch_delay_sec: u32,
    /// If true, broadcast updates even when values haven't changed
    pub force_reload: bool,
    /// Strategy for watching the target value
    pub strategy: WatchStrategy,
}

impl Default for ReloaderConfig {
    fn default() -> (config: Self)
        ensures
            config == (ReloaderConfig {
                watch_delay_sec: 10,
                force_reload: false,
                strategy: WatchStrategy::Polling,
            }),
    {
        ReloaderConfig {
            watch_delay_sec: DEFAULT_WATCH_DELAY_SEC,
            force_reload: false,
            strategy: WatchStrategy::Polling,
        }
    }
}

impl ReloaderConfig {
    /// Create a config with polling strategy
    pub fn polling(watch_delay_sec: u32) -> (config: Self)
        ensures
            config == (ReloaderConfig {
                watch_delay_sec,
                force_reload: false,
                strategy: WatchStrategy::Polling,
            }),
    {
        ReloaderConfig { watch_delay_sec, force_reload: false, strategy: WatchStrategy::Polling }
    }

    /// Create a config with realtime strategy
    pub fn realtime() -> (config: Self)
        ensures
            config == (ReloaderConfig {
                watch_delay_sec: 10,
                force_reload: false,
                strategy: WatchStrategy::Realtime,
            }),
    {
        ReloaderConfig {
            watch_delay_sec: DEFAULT_WATCH_DELAY_SEC,
            force_reload: false,
            strategy: WatchStrategy::Realtime,
        }
    }

    /// Create a config with hybrid strategy (realtime + polling fallback)
    pub fn hybrid(watch_delay_sec: u32) -> (config: Self)
        ensures
            config == (ReloaderConfig {
                watch_delay_sec,
                force_reload: false,
                strategy: WatchStrategy::Hybrid,
            }),
    {
        ReloaderConfig { watch_delay_sec, force_reload: false, strategy: WatchStrategy::Hybrid }
    }
}

} // verus!
