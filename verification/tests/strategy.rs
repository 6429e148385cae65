use hot_reload::strategy::{
    advance, initial_backoff, next_backoff, starting_phase, ServiceAction, ServicePhase,
    StepOutcome, HYBRID_MAX_BACKOFF_MULTIPLIER,
};
use hot_reload::{ReloaderConfig, ReloaderError, WatchStrategy};

type Outcome = StepOutcome<u8, String>;
type Action = ServiceAction<u8, String>;

fn broken() -> ReloaderError<u8, String> {
    ReloaderError::Other("broken".to_string())
}

#[test]
fn strategies_start_with_a_load() {
    assert_eq!(starting_phase(WatchStrategy::Polling), ServicePhase::PollingLoad);
    assert_eq!(starting_phase(WatchStrategy::Realtime), ServicePhase::RealtimeLoad);
    assert_eq!(starting_phase(WatchStrategy::Hybrid), ServicePhase::HybridLoad);
}

#[test]
fn backoff_doubles_up_to_eight_times_the_base() {
    assert_eq!(HYBRID_MAX_BACKOFF_MULTIPLIER, 8);
    let config = ReloaderConfig::hybrid(10);
    let mut delay = initial_backoff(&config);
    let mut delays = vec![delay];
    for _ in 0..5 {
        delay = next_backoff(&config, delay);
        delays.push(delay);
    }
    assert_eq!(delays, vec![10, 20, 40, 80, 80, 80]);
}

#[test]
fn backoff_never_pauses_for_nothing() {
    let config = ReloaderConfig::hybrid(0);
    assert_eq!(initial_backoff(&config), 1);
    assert_eq!(next_backoff(&config, 1), 2);
    assert_eq!(next_backoff(&config, 8), 8);
    assert_eq!(next_backoff(&config, u64::MAX), 8);
}

#[test]
fn backoff_of_the_longest_delay_does_not_overflow() {
    let config = ReloaderConfig::hybrid(u32::MAX);
    assert_eq!(initial_backoff(&config), 4294967295);
    assert_eq!(next_backoff(&config, 17179869180), 34359738360);
    assert_eq!(next_backoff(&config, 34359738360), 34359738360);
}

#[test]
fn polling_alternates_between_loads_and_delays() {
    let config = ReloaderConfig::polling(7);
    let (phase, action) =
        advance(&config, ServicePhase::PollingLoad, Outcome::Cycle(Ok(true)));
    assert_eq!(phase, ServicePhase::PollingDelay);
    assert!(matches!(action, Action::Sleep(7)));
    let (phase, action) = advance(&config, phase, Outcome::Woke);
    assert_eq!(phase, ServicePhase::PollingLoad);
    assert!(matches!(action, Action::Reload));
    let (phase, action) = advance(&config, phase, Outcome::Cycle(Ok(false)));
    assert_eq!(phase, ServicePhase::Finished);
    assert!(matches!(action, Action::Finish(Ok(()))));
}

#[test]
fn a_failed_cycle_ends_every_strategy() {
    let config = ReloaderConfig::hybrid(1);
    let phases = vec![
        ServicePhase::PollingLoad,
        ServicePhase::RealtimeLoad,
        ServicePhase::HybridLoad,
        ServicePhase::FallbackLoad { delay: 4 },
    ];
    for phase in phases {
        let (next, action) = advance(&config, phase, Outcome::Cycle(Err(broken())));
        assert_eq!(next, ServicePhase::Finished);
        assert!(
            matches!(action, Action::Finish(Err(ReloaderError::Other(text))) if text == "broken")
        );
    }
}

#[test]
fn realtime_watches_after_its_first_load() {
    let config = ReloaderConfig::realtime();
    let (phase, action) =
        advance(&config, ServicePhase::RealtimeLoad, Outcome::Cycle(Ok(true)));
    assert_eq!(phase, ServicePhase::RealtimeSetup);
    assert!(matches!(action, Action::Watch));
    let (phase, action) = advance(&config, phase, Outcome::Watched(Ok(())));
    assert_eq!(phase, ServicePhase::RealtimeEvents);
    assert!(matches!(action, Action::Receive));
    let (phase, action) = advance(&config, phase, Outcome::Handled(Ok(())));
    assert_eq!(phase, ServicePhase::RealtimeEvents);
    assert!(matches!(action, Action::Receive));
    let (phase, action) = advance(&config, phase, Outcome::Handled(Err(broken())));
    assert_eq!(phase, ServicePhase::Finished);
    assert!(matches!(action, Action::Finish(Err(_))));
}

#[test]
fn realtime_ends_where_it_cannot_watch() {
    let config = ReloaderConfig::realtime();
    let (phase, action) =
        advance(&config, ServicePhase::RealtimeSetup, Outcome::Watched(Err(broken())));
    assert_eq!(phase, ServicePhase::Finished);
    assert!(matches!(action, Action::Finish(Err(_))));
}

#[test]
fn hybrid_falls_back_and_comes_back() {
    let config = ReloaderConfig::hybrid(5);
    let (phase, action) = advance(&config, ServicePhase::HybridLoad, Outcome::Cycle(Ok(true)));
    assert_eq!(phase, ServicePhase::HybridSetup);
    assert!(matches!(action, Action::Watch));
    let (phase, action) = advance(&config, phase, Outcome::Watched(Err(broken())));
    assert_eq!(phase, ServicePhase::FallbackLoad { delay: 5 });
    assert!(matches!(action, Action::Reload));
    let (phase, action) = advance(&config, phase, Outcome::Cycle(Ok(true)));
    assert_eq!(phase, ServicePhase::FallbackSetup { delay: 5 });
    assert!(matches!(action, Action::Watch));
    let (phase, action) = advance(&config, phase, Outcome::Watched(Err(broken())));
    assert_eq!(phase, ServicePhase::FallbackDelay { delay: 5 });
    assert!(matches!(action, Action::Sleep(5)));
    let (phase, action) = advance(&config, phase, Outcome::Woke);
    assert_eq!(phase, ServicePhase::FallbackLoad { delay: 10 });
    assert!(matches!(action, Action::Reload));
    let (phase, _) = advance(&config, phase, Outcome::Cycle(Ok(true)));
    let (phase, action) = advance(&config, phase, Outcome::Watched(Ok(())));
    assert_eq!(phase, ServicePhase::HybridEvents);
    assert!(matches!(action, Action::Receive));
    let (phase, action) = advance(&config, phase, Outcome::Handled(Err(broken())));
    assert_eq!(phase, ServicePhase::FallbackLoad { delay: 5 });
    assert!(matches!(action, Action::Reload));
}
