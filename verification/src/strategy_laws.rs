//! What holds of every run of a watch strategy.
use vstd::prelude::*;

use crate::config::{ReloaderConfig, WatchStrategy};
use crate::error::{ReloadResult, ReloaderError};
use crate::strategy::{
    awaits, base_delay, enter_fallback, first_phase, longer_delay, next_step, ServiceAction,
    ServicePhase, StepOutcome,
};

verus! {

/// Whether `outcome` reports on `action`.
pub open spec fn reports_on<V, S>(action: ServiceAction<V, S>, outcome: StepOutcome<V, S>) -> bool {
    match action {
        ServiceAction::Reload => outcome is Cycle,
        ServiceAction::Watch => outcome is Watched,
        ServiceAction::Receive => outcome is Handled,
        ServiceAction::Sleep(_) => outcome is Woke,
        ServiceAction::Finish(_) => false,
    }
}

/// The strategy that a phase belongs to.
pub open spec fn strategy_of(phase: ServicePhase) -> Option<WatchStrategy> {
    match phase {
        ServicePhase::Finished => None,
        ServicePhase::PollingLoad | ServicePhase::PollingDelay => Some(WatchStrategy::Polling),
        ServicePhase::RealtimeLoad
        | ServicePhase::RealtimeSetup
        | ServicePhase::RealtimeEvents => Some(WatchStrategy::Realtime),
        _ => Some(WatchStrategy::Hybrid),
    }
}

/// Whoever carries out each action and reports on it never gets stuck: after a
/// step the service waits for exactly the reports on the action it asked for,
/// and it waits for nothing any more exactly when it asked to stop.
pub proof fn a_step_awaits_its_report<V, S>(
    config: ReloaderConfig,
    phase: ServicePhase,
    outcome: StepOutcome<V, S>,
    report: StepOutcome<V, S>,
)
    requires
        awaits(phase, outcome),
    ensures
        ({
            let (next, action) = next_step(config, phase, outcome);
            &&& awaits(next, report) <==> reports_on(action, report)
            &&& next == ServicePhase::Finished <==> action is Finish
        }),
{
}

/// Every strategy begins with a reload, so that a first value is broadcast
/// before anything is watched or waited for.
pub proof fn every_strategy_begins_with_a_reload<V, S>(
    strategy: WatchStrategy,
    report: StepOutcome<V, S>,
)
    ensures
        strategy_of(first_phase(strategy)) == Some(strategy),
        awaits(first_phase(strategy), report) <==> report is Cycle,
{
}

/// A service keeps its strategy until it ends.
pub proof fn the_strategy_is_kept<V, S>(
    config: ReloaderConfig,
    phase: ServicePhase,
    outcome: StepOutcome<V, S>,
)
    requires
        awaits(phase, outcome),
    ensures
        ({
            let next = next_step(config, phase, outcome).0;
            next == ServicePhase::Finished || strategy_of(next) == strategy_of(phase)
        }),
{
}

/// Polling works for all data sources: it never asks for change notifications.
/// It sleeps for the configured period between two reloads.
pub proof fn polling_only_reloads_and_sleeps<V, S>(
    config: ReloaderConfig,
    phase: ServicePhase,
    outcome: StepOutcome<V, S>,
)
    requires
        awaits(phase, outcome),
        strategy_of(phase) == Some(WatchStrategy::Polling),
    ensures
        match next_step(config, phase, outcome).1 {
            ServiceAction::Reload => outcome is Woke,
            ServiceAction::Sleep(seconds) => {
                &&& seconds == config.watch_delay_sec
                &&& outcome == StepOutcome::<V, S>::Cycle(Ok(true))
            },
            ServiceAction::Finish(_) => outcome is Cycle,
            ServiceAction::Watch | ServiceAction::Receive => false,
        },
{
}

/// A source is watched only right after a reload cycle that went well.
pub proof fn a_watch_follows_a_reload<V, S>(
    config: ReloaderConfig,
    phase: ServicePhase,
    outcome: StepOutcome<V, S>,
)
    requires
        awaits(phase, outcome),
        next_step(config, phase, outcome).1 is Watch,
    ensures
        outcome == StepOutcome::<V, S>::Cycle(Ok(true)),
{
}

/// Events are received only while a watch is up: right after it was set up, or
/// after an event that was handled without an error.
pub proof fn events_come_from_a_live_watch<V, S>(
    config: ReloaderConfig,
    phase: ServicePhase,
    outcome: StepOutcome<V, S>,
)
    requires
        awaits(phase, outcome),
        next_step(config, phase, outcome).1 is Receive,
    ensures
        match outcome {
            StepOutcome::Watched(watched) => watched is Ok,
            StepOutcome::Handled(handled) => handled is Ok,
            _ => false,
        },
{
}

/// A service ends for one of these reasons only, and hands the error through
/// that ended it: a reload cycle asked for the end or failed, or, under the
/// realtime strategy, watching could not be set up or broke.
pub proof fn why_a_service_ends<V, S>(
    config: ReloaderConfig,
    phase: ServicePhase,
    outcome: StepOutcome<V, S>,
    result: ReloadResult<(), V, S>,
)
    requires
        awaits(phase, outcome),
        next_step(config, phase, outcome).1 == ServiceAction::<V, S>::Finish(result),
    ensures
        match outcome {
            StepOutcome::Cycle(Ok(proceed)) => !proceed && result == Ok::<
                (),
                ReloaderError<V, S>,
            >(()),
            StepOutcome::Cycle(Err(error)) => result == Err::<(), ReloaderError<V, S>>(error),
            StepOutcome::Watched(watched) => {
                &&& strategy_of(phase) == Some(WatchStrategy::Realtime)
                &&& watched is Err
                &&& result == watched
            },
            StepOutcome::Handled(handled) => {
                &&& strategy_of(phase) == Some(WatchStrategy::Realtime)
                &&& handled is Err
                &&& result == handled
            },
            StepOutcome::Woke => false,
        },
{
}

/// A hybrid service outlives every failure of realtime monitoring: it goes
/// over to polling, or sleeps before it polls and tries again.
pub proof fn hybrid_survives_realtime_failures<V, S>(
    config: ReloaderConfig,
    phase: ServicePhase,
    outcome: StepOutcome<V, S>,
)
    requires
        awaits(phase, outcome),
        strategy_of(phase) == Some(WatchStrategy::Hybrid),
        outcome matches StepOutcome::Watched(watched) ==> watched is Err,
        outcome matches StepOutcome::Handled(handled) ==> handled is Err,
        outcome is Watched || outcome is Handled,
    ensures
        match next_step(config, phase, outcome) {
            (ServicePhase::FallbackLoad { delay }, ServiceAction::Reload) => delay == base_delay(
                config,
            ),
            (ServicePhase::FallbackDelay { delay }, ServiceAction::Sleep(seconds)) => {
                &&& phase == ServicePhase::FallbackSetup { delay }
                &&& seconds == delay
            },
            _ => false,
        },
{
}

/// The delay after the failed retry number `retries` (counted from 0) of one
/// polling fallback.
pub open spec fn retry_delay(config: ReloaderConfig, retries: nat) -> nat
    decreases retries,
{
    if retries == 0 {
        base_delay(config)
    } else {
        longer_delay(config, retry_delay(config, (retries - 1) as nat))
    }
}

/// The phase of a polling fallback in which one retry after the other failed,
/// with these errors.
pub open spec fn fallback_after<V, S>(
    config: ReloaderConfig,
    errors: Seq<ReloaderError<V, S>>,
) -> ServicePhase
    decreases errors.len(),
{
    if errors.len() == 0 {
        enter_fallback::<V, S>(config).0
    } else {
        let loading = fallback_after(config, errors.drop_last());
        let watching = next_step(config, loading, StepOutcome::<V, S>::Cycle(Ok(true))).0;
        let sleeping = next_step(config, watching, StepOutcome::Watched(Err(errors.last()))).0;
        next_step(config, sleeping, StepOutcome::<V, S>::Woke).0
    }
}

proof fn retry_delay_bounds(config: ReloaderConfig, retries: nat)
    ensures
        base_delay(config) <= retry_delay(config, retries) <= 8 * base_delay(config),
    decreases retries,
{
    if retries > 0 {
        retry_delay_bounds(config, (retries - 1) as nat);
    }
}

/// The delays of a polling fallback double with every failed retry, from the
/// base delay up to eight times as long, and are never shorter than a second.
pub proof fn retry_delays_double_up_to_a_cap(config: ReloaderConfig, retries: nat)
    ensures
        retries == 0 ==> retry_delay(config, retries) == base_delay(config),
        retries == 1 ==> retry_delay(config, retries) == 2 * base_delay(config),
        retries == 2 ==> retry_delay(config, retries) == 4 * base_delay(config),
        retries >= 3 ==> retry_delay(config, retries) == 8 * base_delay(config),
        retry_delay(config, retries) >= 1,
    decreases retries,
{
    if retries > 0 {
        retry_delays_double_up_to_a_cap(config, (retries - 1) as nat);
    }
}

/// A retry that fails after `errors.len()` others is followed by the delay
/// with that number.
pub proof fn failed_retries_back_off<V, S>(
    config: ReloaderConfig,
    errors: Seq<ReloaderError<V, S>>,
    error: ReloaderError<V, S>,
)
    ensures
        fallback_after(config, errors) == (ServicePhase::FallbackLoad {
            delay: retry_delay(config, errors.len()) as u64,
        }),
        ({
            let watching = next_step(
                config,
                fallback_after(config, errors),
                StepOutcome::<V, S>::Cycle(Ok(true)),
            ).0;
            next_step(config, watching, StepOutcome::Watched(Err(error))).1
                == ServiceAction::<V, S>::Sleep(retry_delay(config, errors.len()) as u64)
        }),
    decreases errors.len(),
{
    retry_delay_bounds(config, errors.len());
    if errors.len() > 0 {
        failed_retries_back_off(config, errors.drop_last(), errors.last());
        retry_delay_bounds(config, (errors.len() - 1) as nat);
    }
}

/// A watch that could be set up is listened to, whatever the configuration: the
/// run receives its events, and goes on to after each that was handled. This
/// holds of a first attempt as of a retry of a polling fallback.
pub proof fn a_watch_that_is_up_is_listened_to<V, S>(config: ReloaderConfig, delay: u64)
    ensures
        next_step(config, ServicePhase::RealtimeSetup, StepOutcome::<V, S>::Watched(Ok(()))) == (
            ServicePhase::RealtimeEvents,
            ServiceAction::<V, S>::Receive,
        ),
        next_step(config, ServicePhase::HybridSetup, StepOutcome::<V, S>::Watched(Ok(()))) == (
            ServicePhase::HybridEvents,
            ServiceAction::<V, S>::Receive,
        ),
        next_step(
            config,
            ServicePhase::FallbackSetup { delay },
            StepOutcome::<V, S>::Watched(Ok(())),
        ) == (ServicePhase::HybridEvents, ServiceAction::<V, S>::Receive),
        next_step(config, ServicePhase::RealtimeEvents, StepOutcome::<V, S>::Handled(Ok(()))) == (
            ServicePhase::RealtimeEvents,
            ServiceAction::<V, S>::Receive,
        ),
        next_step(config, ServicePhase::HybridEvents, StepOutcome::<V, S>::Handled(Ok(()))) == (
            ServicePhase::HybridEvents,
            ServiceAction::<V, S>::Receive,
        ),
{
}

/// A cycle that went well is followed by the delay of a polling run, of the
/// configured length, and by a watch of any other run. A fallback remembers its
/// delay.
pub proof fn a_good_cycle_leads_on<V, S>(config: ReloaderConfig, delay: u64)
    ensures
        next_step(config, ServicePhase::PollingLoad, StepOutcome::<V, S>::Cycle(Ok(true))) == (
            ServicePhase::PollingDelay,
            ServiceAction::<V, S>::Sleep(config.watch_delay_sec as u64),
        ),
        next_step(config, ServicePhase::RealtimeLoad, StepOutcome::<V, S>::Cycle(Ok(true))) == (
            ServicePhase::RealtimeSetup,
            ServiceAction::<V, S>::Watch,
        ),
        next_step(config, ServicePhase::HybridLoad, StepOutcome::<V, S>::Cycle(Ok(true))) == (
            ServicePhase::HybridSetup,
            ServiceAction::<V, S>::Watch,
        ),
        next_step(
            config,
            ServicePhase::FallbackLoad { delay },
            StepOutcome::<V, S>::Cycle(Ok(true)),
        ) == (ServicePhase::FallbackSetup { delay }, ServiceAction::<V, S>::Watch),
{
}

/// A cycle that asks for the end ends a run of any strategy without an error, a
/// cycle that failed with its own.
pub proof fn a_cycle_can_end_a_run<V, S>(
    config: ReloaderConfig,
    phase: ServicePhase,
    error: ReloaderError<V, S>,
)
    requires
        phase == ServicePhase::PollingLoad || phase == ServicePhase::RealtimeLoad || phase
            == ServicePhase::HybridLoad || phase is FallbackLoad,
    ensures
        next_step(config, phase, StepOutcome::<V, S>::Cycle(Ok(false))) == (
            ServicePhase::Finished,
            ServiceAction::<V, S>::Finish(Ok(())),
        ),
        next_step(config, phase, StepOutcome::Cycle(Err(error))) == (
            ServicePhase::Finished,
            ServiceAction::Finish(Err(error)),
        ),
{
}

/// A watch that cannot be set up, or breaks, ends a realtime run with its
/// error. A hybrid run goes over to polling at once, with the configured delay
/// (a second at least) for its first retry; a retry that fails is followed by
/// the delay that its fallback has reached.
pub proof fn a_watch_that_fails<V, S>(
    config: ReloaderConfig,
    error: ReloaderError<V, S>,
    delay: u64,
)
    ensures
        next_step(config, ServicePhase::RealtimeSetup, StepOutcome::Watched(Err(error))) == (
            ServicePhase::Finished,
            ServiceAction::Finish(Err(error)),
        ),
        next_step(config, ServicePhase::RealtimeEvents, StepOutcome::Handled(Err(error))) == (
            ServicePhase::Finished,
            ServiceAction::Finish(Err(error)),
        ),
        next_step(config, ServicePhase::HybridSetup, StepOutcome::Watched(Err(error))) == (
            ServicePhase::FallbackLoad {
                delay: if config.watch_delay_sec == 0 {
                    1
                } else {
                    config.watch_delay_sec as u64
                },
            },
            ServiceAction::<V, S>::Reload,
        ),
        next_step(config, ServicePhase::HybridEvents, StepOutcome::Handled(Err(error))) == (
            ServicePhase::FallbackLoad {
                delay: if config.watch_delay_sec == 0 {
                    1
                } else {
                    config.watch_delay_sec as u64
                },
            },
            ServiceAction::<V, S>::Reload,
        ),
        next_step(
            config,
            ServicePhase::FallbackSetup { delay },
            StepOutcome::Watched(Err(error)),
        ) == (ServicePhase::FallbackDelay { delay }, ServiceAction::<V, S>::Sleep(delay)),
{
}

/// The end of a delay is followed by a reload. The next delay of a fallback is
/// twice as long, but never longer than eight times the configured one.
pub proof fn a_delay_is_followed_by_a_reload<V, S>(config: ReloaderConfig, delay: u64)
    ensures
        next_step(config, ServicePhase::PollingDelay, StepOutcome::<V, S>::Woke) == (
            ServicePhase::PollingLoad,
            ServiceAction::<V, S>::Reload,
        ),
        next_step(
            config,
            ServicePhase::FallbackDelay { delay },
            StepOutcome::<V, S>::Woke,
        ).1 is Reload,
        next_step(config, ServicePhase::FallbackDelay { delay }, StepOutcome::<V, S>::Woke).0
            matches ServicePhase::FallbackLoad { delay: longer } && {
            let cap: int = if config.watch_delay_sec == 0 {
                8
            } else {
                8 * config.watch_delay_sec
            };
            &&& longer <= 2 * delay
            &&& longer <= cap
            &&& longer == 2 * delay || longer == cap
        },
{
}

/// What a run waits for in each of its phases.
pub proof fn every_phase_waits_for_its_report<V, S>(
    outcome: StepOutcome<V, S>,
    delay: u64,
)
    ensures
        awaits(ServicePhase::PollingLoad, outcome) == (outcome is Cycle),
        awaits(ServicePhase::RealtimeLoad, outcome) == (outcome is Cycle),
        awaits(ServicePhase::HybridLoad, outcome) == (outcome is Cycle),
        awaits(ServicePhase::FallbackLoad { delay }, outcome) == (outcome is Cycle),
        awaits(ServicePhase::RealtimeSetup, outcome) == (outcome is Watched),
        awaits(ServicePhase::HybridSetup, outcome) == (outcome is Watched),
        awaits(ServicePhase::FallbackSetup { delay }, outcome) == (outcome is Watched),
        awaits(ServicePhase::RealtimeEvents, outcome) == (outcome is Handled),
        awaits(ServicePhase::HybridEvents, outcome) == (outcome is Handled),
        awaits(ServicePhase::PollingDelay, outcome) == (outcome is Woke),
        awaits(ServicePhase::FallbackDelay { delay }, outcome) == (outcome is Woke),
        !awaits(ServicePhase::Finished, outcome),
{
}

/// A run of each strategy starts with its own first load; a hybrid one tries to
/// watch before it falls back to anything.
pub proof fn where_runs_start()
    ensures
        first_phase(WatchStrategy::Polling) == ServicePhase::PollingLoad,
        first_phase(WatchStrategy::Realtime) == ServicePhase::RealtimeLoad,
        first_phase(WatchStrategy::Hybrid) == ServicePhase::HybridLoad,
{
}

/// The delays of a fallback: it begins with the configured one, or with a
/// second where that is none, and goes on to twice the one before, up to eight
/// times that with which it began.
pub proof fn how_delays_grow(config: ReloaderConfig, delay: nat)
    ensures
        base_delay(config) == config.watch_delay_sec || (config.watch_delay_sec == 0 && base_delay(
            config,
        ) == 1),
        base_delay(config) > 0,
        longer_delay(config, delay) <= 2 * delay,
        longer_delay(config, delay) <= 8 * base_delay(config),
        longer_delay(config, delay) == 2 * delay || longer_delay(config, delay) == 8 * base_delay(
            config,
        ),
{
}

} // verus!
