//! The three watch strategies as one state machine.
//!
//! A strategy never touches a source itself. It says what has to be done next
//! (a [`ServiceAction`]) and is told how that went (a [`StepOutcome`]).
use vstd::prelude::*;

use crate::config::{ReloaderConfig, WatchStrategy};
use crate::error::{ReloadResult, ReloaderError};

verus! {

/// Maximum backoff multiplier for hybrid mode polling fallback.
/// The delay doubles after each failed retry attempt until it reaches
/// the base delay times this number.
pub const HYBRID_MAX_BACKOFF_MULTIPLIER: u64 = 8;

/// What a running service is waiting for.
#[derive(Debug, Clone, Copy, PartialEq, Eq, Structural)]
pub enum ServicePhase {
    /// Polling: a reload cycle.
    PollingLoad,
    /// Polling: the end of the delay between two cycles.
    PollingDelay,
    /// Realtime: the cycle that loads the initial value.
    RealtimeLoad,
    /// Realtime: the watch on the source.
    RealtimeSetup,
    /// Realtime: the next watch event.
    RealtimeEvents,
    /// Hybrid: the cycle before the first attempt to watch.
    HybridLoad,
    /// Hybrid: the first attempt to watch.
    HybridSetup,
    /// Hybrid: the next watch event.
    HybridEvents,
    /// Hybrid, polling fallback: a reload cycle. `delay` is the number of
    /// seconds that a failed retry is followed by.
    FallbackLoad { delay: u64 },
    /// Hybrid, polling fallback: an attempt to watch again.
    FallbackSetup { delay: u64 },
    /// Hybrid, polling fallback: the end of the delay.
    FallbackDelay { delay: u64 },
    /// The service has ended.
    Finished,
}

/// What has to be done next.
pub enum ServiceAction<V, S> {
    /// Reload the value from the source.
    Reload,
    /// Set up realtime watching; an earlier watch is given up.
    Watch,
    /// Wait for the next event of the watch.
    Receive,
    /// Sleep for this number of seconds.
    Sleep(u64),
    /// Stop, with the result of the service.
    Finish(ReloadResult<(), V, S>),
}

/// How the last action went, as far as a strategy looks at it.
pub enum StepOutcome<V, S> {
    /// A reload cycle ended; `Ok(false)` asks the service to end.
    Cycle(ReloadResult<bool, V, S>),
    /// Realtime watching was set up, or could not be.
    Watched(ReloadResult<(), V, S>),
    /// A watch event was handled, or realtime monitoring broke.
    Handled(ReloadResult<(), V, S>),
    /// A delay is over.
    Woke,
}

/// The delay that a polling fallback begins with: the configured one, but at
/// least a second, so that retries never follow each other without a pause.
pub open spec fn base_delay(config: ReloaderConfig) -> nat {
    if config.watch_delay_sec == 0 {
        1
    } else {
        config.watch_delay_sec as nat
    }
}

/// The delay that follows `delay` in a polling fallback: twice as long, up to
/// eight times the base delay.
pub open spec fn longer_delay(config: ReloaderConfig, delay: nat) -> nat {
    if 2 * delay <= 8 * base_delay(config) {
        2 * delay
    } else {
        8 * base_delay(config)
    }
}

/// Whether `outcome` is the answer to what `phase` waits for.
pub open spec fn awaits<V, S>(phase: ServicePhase, outcome: StepOutcome<V, S>) -> bool {
    match phase {
        ServicePhase::Finished => false,
        ServicePhase::PollingLoad
        | ServicePhase::RealtimeLoad
        | ServicePhase::HybridLoad
        | ServicePhase::FallbackLoad { .. } => outcome is Cycle,
        ServicePhase::RealtimeSetup
        | ServicePhase::HybridSetup
        | ServicePhase::FallbackSetup { .. } => outcome is Watched,
        ServicePhase::RealtimeEvents | ServicePhase::HybridEvents => outcome is Handled,
        ServicePhase::PollingDelay | ServicePhase::FallbackDelay { .. } => outcome is Woke,
    }
}

/// The step after a reload cycle that `proceed` follows if it went well.
pub open spec fn after_cycle<V, S>(
    cycle: ReloadResult<bool, V, S>,
    proceed: (ServicePhase, ServiceAction<V, S>),
) -> (ServicePhase, ServiceAction<V, S>) {
    match cycle {
        Ok(true) => proceed,
        Ok(false) => (ServicePhase::Finished, ServiceAction::Finish(Ok(()))),
        Err(error) => (ServicePhase::Finished, ServiceAction::Finish(Err(error))),
    }
}

/// The first step of a polling fallback.
pub open spec fn enter_fallback<V, S>(config: ReloaderConfig) -> (
    ServicePhase,
    ServiceAction<V, S>,
) {
    (ServicePhase::FallbackLoad { delay: base_delay(config) as u64 }, ServiceAction::Reload)
}

/// What a service waits for next, and what has to be done for that, after
/// `outcome` in `phase`.
pub open spec fn next_step<V, S>(
    config: ReloaderConfig,
    phase: ServicePhase,
    outcome: StepOutcome<V, S>,
) -> (ServicePhase, ServiceAction<V, S>) {
    match (phase, outcome) {
        (ServicePhase::PollingLoad, StepOutcome::Cycle(cycle)) => after_cycle(
            cycle,
            (ServicePhase::PollingDelay, ServiceAction::Sleep(config.watch_delay_sec as u64)),
        ),
        (ServicePhase::PollingDelay, StepOutcome::Woke) => (
            ServicePhase::PollingLoad,
            ServiceAction::Reload,
        ),
        (ServicePhase::RealtimeLoad, StepOutcome::Cycle(cycle)) => after_cycle(
            cycle,
            (ServicePhase::RealtimeSetup, ServiceAction::Watch),
        ),
        (ServicePhase::RealtimeSetup, StepOutcome::Watched(watched)) => match watched {
            Ok(()) => (ServicePhase::RealtimeEvents, ServiceAction::Receive),
            Err(error) => (ServicePhase::Finished, ServiceAction::Finish(Err(error))),
        },
        (ServicePhase::RealtimeEvents, StepOutcome::Handled(handled)) => match handled {
            Ok(()) => (ServicePhase::RealtimeEvents, ServiceAction::Receive),
            Err(error) => (ServicePhase::Finished, ServiceAction::Finish(Err(error))),
        },
        (ServicePhase::HybridLoad, StepOutcome::Cycle(cycle)) => after_cycle(
            cycle,
            (ServicePhase::HybridSetup, ServiceAction::Watch),
        ),
        (ServicePhase::HybridSetup, StepOutcome::Watched(watched)) => match watched {
            Ok(()) => (ServicePhase::HybridEvents, ServiceAction::Receive),
            Err(_) => enter_fallback(config),
        },
        (ServicePhase::HybridEvents, StepOutcome::Handled(handled)) => match handled {
            Ok(()) => (ServicePhase::HybridEvents, ServiceAction::Receive),
            Err(_) => enter_fallback(config),
        },
        (ServicePhase::FallbackLoad { delay }, StepOutcome::Cycle(cycle)) => after_cycle(
            cycle,
            (ServicePhase::FallbackSetup { delay }, ServiceAction::Watch),
        ),
        (ServicePhase::FallbackSetup { delay }, StepOutcome::Watched(watched)) => match watched {
            Ok(()) => (ServicePhase::HybridEvents, ServiceAction::Receive),
            Err(_) => (ServicePhase::FallbackDelay { delay }, ServiceAction::Sleep(delay)),
        },
        (ServicePhase::FallbackDelay { delay }, StepOutcome::Woke) => (
            ServicePhase::FallbackLoad { delay: longer_delay(config, delay as nat) as u64 },
            ServiceAction::Reload,
        ),
        _ => (ServicePhase::Finished, ServiceAction::Finish(Ok(()))),
    }
}

/// The phase that a service of this strategy starts in, where the source can
/// notify of changes.
pub open spec fn first_phase(strategy: WatchStrategy) -> ServicePhase {
    match strategy {
        WatchStrategy::Polling => ServicePhase::PollingLoad,
        WatchStrategy::Realtime => ServicePhase::RealtimeLoad,
        WatchStrategy::Hybrid => ServicePhase::HybridLoad,
    }
}

/// The phase in which a service of this strategy starts.
pub fn starting_phase(strategy: WatchStrategy) -> (phase: ServicePhase)
    ensures
        phase == first_phase(strategy),
{
    match strategy {
        WatchStrategy::Polling => ServicePhase::PollingLoad,
        WatchStrategy::Realtime => ServicePhase::RealtimeLoad,
        WatchStrategy::Hybrid => ServicePhase::HybridLoad,
    }
}

/// Seconds that a polling fallback waits after its first failed retry.
pub fn initial_backoff(config: &ReloaderConfig) -> (delay: u64)
    ensures
        delay == base_delay(*config),
{
    if config.watch_delay_sec == 0 {
        1
    } else {
        config.watch_delay_sec as u64
    }
}

/// Seconds that a polling fallback waits after the retry that follows a delay
/// of `delay` seconds.
pub fn next_backoff(config: &ReloaderConfig, delay: u64) -> (longer: u64)
    ensures
        longer == longer_delay(*config, delay as nat),
{
    let longest: u64 = initial_backoff(config) * HYBRID_MAX_BACKOFF_MULTIPLIER;
    if delay <= longest / 2 {
        delay * 2
    } else {
        longest
    }
}

fn conclude_cycle<V, S>(
    cycle: ReloadResult<bool, V, S>,
    phase: ServicePhase,
    action: ServiceAction<V, S>,
) -> (step: (ServicePhase, ServiceAction<V, S>))
    ensures
        step == after_cycle(cycle, (phase, action)),
{
    match cycle {
        Ok(true) => (phase, action),
        Ok(false) => (ServicePhase::Finished, ServiceAction::Finish(Ok(()))),
        Err(error) => (ServicePhase::Finished, ServiceAction::Finish(Err(error))),
    }
}

fn fall_back<V, S>(config: &ReloaderConfig) -> (step: (ServicePhase, ServiceAction<V, S>))
    ensures
        step == enter_fallback::<V, S>(*config),
{
    (ServicePhase::FallbackLoad { delay: initial_backoff(config) }, ServiceAction::Reload)
}

/// One step of a service: what it waits for next and what has to be done for
/// that, after `outcome` in `phase`.
pub fn advance<V, S>(
    config: &ReloaderConfig,
    phase: ServicePhase,
    outcome: StepOutcome<V, S>,
) -> (step: (ServicePhase, ServiceAction<V, S>))
    requires
        awaits(phase, outcome),
    ensures
        step == next_step(*config, phase, outcome),
{
    match outcome {
        StepOutcome::Cycle(cycle) => match phase {
            ServicePhase::PollingLoad => conclude_cycle(
                cycle,
                ServicePhase::PollingDelay,
                ServiceAction::Sleep(config.watch_delay_sec as u64),
            ),
            ServicePhase::RealtimeLoad => conclude_cycle(
                cycle,
                ServicePhase::RealtimeSetup,
                ServiceAction::Watch,
            ),
            ServicePhase::FallbackLoad { delay } => conclude_cycle(
                cycle,
                ServicePhase::FallbackSetup { delay },
                ServiceAction::Watch,
            ),
            _ => conclude_cycle(cycle, ServicePhase::HybridSetup, ServiceAction::Watch),
        },
        StepOutcome::Watched(Ok(())) => match phase {
            ServicePhase::RealtimeSetup => (ServicePhase::RealtimeEvents, ServiceAction::Receive),
            _ => (ServicePhase::HybridEvents, ServiceAction::Receive),
        },
        StepOutcome::Watched(Err(error)) => match phase {
            ServicePhase::RealtimeSetup => (
                ServicePhase::Finished,
                ServiceAction::Finish(Err(error)),
            ),
            ServicePhase::FallbackSetup { delay } => (
                ServicePhase::FallbackDelay { delay },
                ServiceAction::Sleep(delay),
            ),
            _ => fall_back(config),
        },
        StepOutcome::Handled(Ok(())) => (phase, ServiceAction::Receive),
        StepOutcome::Handled(Err(error)) => match phase {
            ServicePhase::RealtimeEvents => (
                ServicePhase::Finished,
                ServiceAction::Finish(Err(error)),
            ),
            _ => fall_back(config),
        },
        StepOutcome::Woke => match phase {
            ServicePhase::FallbackDelay { delay } => (
                ServicePhase::FallbackLoad { delay: next_backoff(config, delay) },
                ServiceAction::Reload,
            ),
            _ => (ServicePhase::PollingLoad, ServiceAction::Reload),
        },
    }
}

} // verus!
