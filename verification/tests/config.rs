use hot_reload::config::DEFAULT_WATCH_DELAY_SEC;
use hot_reload::{ReloaderConfig, WatchStrategy};

#[test]
fn the_default_delay_is_ten_seconds() {
    assert_eq!(DEFAULT_WATCH_DELAY_SEC, 10);
    assert_eq!(
        ReloaderConfig::default(),
        ReloaderConfig {
            watch_delay_sec: 10,
            force_reload: false,
            strategy: WatchStrategy::Polling,
        }
    );
    assert_eq!(WatchStrategy::default(), WatchStrategy::Polling);
}

#[test]
fn every_strategy_has_its_config() {
    let polling = ReloaderConfig::polling(3);
    assert_eq!(polling.strategy, WatchStrategy::Polling);
    assert_eq!(polling.watch_delay_sec, 3);
    assert!(!polling.force_reload);

    let realtime = ReloaderConfig::realtime();
    assert_eq!(realtime.strategy, WatchStrategy::Realtime);
    assert_eq!(realtime.watch_delay_sec, 10);
    assert!(!realtime.force_reload);

    let hybrid = ReloaderConfig::hybrid(0);
    assert_eq!(hybrid.strategy, WatchStrategy::Hybrid);
    assert_eq!(hybrid.watch_delay_sec, 0);
    assert!(!hybrid.force_reload);
}
