//! What holds of every run of a reloader service.
use vstd::prelude::*;
use vstd::std_specs::cmp::PartialEqSpec;

use crate::channel::{all_taken, cloned_option, Attempt};
use crate::config::WatchStrategy;
use crate::error::{ReloadResult, ReloaderError};
use crate::service::{
    expects, lost_receivers, update_due, was_absorbed, was_handled, was_offered, was_sent,
    was_stepped, was_weighed, RunState, ServiceEvent, ServiceState, WatchEvent,
};
use crate::strategy::{awaits, base_delay, ServiceAction, ServicePhase, StepOutcome};
use crate::strategy_laws::strategy_of;

verus! {

/// Cloning a value of this type gives the value itself.
pub open spec fn clones_exactly<V: Clone>() -> bool {
    forall|a: V, b: V| #[trigger] cloned(a, b) ==> a == b
}

/// Cloning a value of this type gives one that equals it.
pub open spec fn clones_alike<V: Clone + PartialEq>() -> bool {
    forall|a: V, b: V| #[trigger] cloned(a, b) ==> a.eq_spec(&b)
}

/// The type's own `eq` is an equivalence relation, as `Eq` promises.
pub open spec fn eq_is_equivalence<V: PartialEq>() -> bool {
    &&& V::obeys_eq_spec()
    &&& forall|a: V| #[trigger] a.eq_spec(&a)
    &&& forall|a: V, b: V| #[trigger] a.eq_spec(&b) ==> b.eq_spec(&a)
    &&& forall|a: V, b: V, c: V| #[trigger]
        a.eq_spec(&b) && #[trigger] b.eq_spec(&c) ==> a.eq_spec(&c)
}

/// Whether two values are the same by their own `eq`, or both missing.
pub open spec fn alike<V: PartialEq>(a: Option<V>, b: Option<V>) -> bool {
    match (a, b) {
        (Some(x), Some(y)) => x.eq_spec(&y),
        (None, None) => true,
        _ => false,
    }
}

/// The value that the service compares with is the one that receivers get.
pub open spec fn in_step<V>(state: ServiceState<V>) -> bool {
    &&& state.sent.len() > 0
    &&& state.sent.last() == state.current
}

/// The value that the service compares with equals the one that receivers get.
pub open spec fn matched<V: PartialEq>(state: ServiceState<V>) -> bool {
    &&& state.sent.len() > 0
    &&& alike(state.current, state.sent.last())
}

/// Whether `event` reports on `action`.
pub open spec fn answers<V, S>(action: ServiceAction<V, S>, event: ServiceEvent<V, S>) -> bool {
    match action {
        ServiceAction::Reload => event is Reloaded,
        ServiceAction::Watch => event is Watched,
        ServiceAction::Receive => event is Received,
        ServiceAction::Sleep(_) => event is Woke,
        ServiceAction::Finish(_) => false,
    }
}

/// What an event says that the source holds now: a value, or nothing any more.
pub open spec fn news<V, S>(event: ServiceEvent<V, S>) -> Option<Option<V>> {
    match event {
        ServiceEvent::Reloaded(Ok(Some(value))) => Some(Some(value)),
        ServiceEvent::Received(Some(WatchEvent::Changed(value))) => Some(Some(value)),
        ServiceEvent::Received(Some(WatchEvent::Removed)) => Some(None),
        _ => None,
    }
}

/// `value` was broadcast from `before`, which gave `after`.
pub open spec fn was_broadcast<V: Clone>(
    before: ServiceState<V>,
    value: Option<V>,
    after: ServiceState<V>,
) -> bool {
    &&& cloned_option(value, after.current)
    &&& after == (ServiceState {
        current: after.current,
        sent: before.sent.push(value),
        attempts: before.attempts.push(Attempt { value, taken: true }),
        ..before
    })
}

/// An event without news changes nothing. A removal is broadcast; a value is
/// if that is due. A value that could not be sent leaves receivers with what
/// they have.
pub proof fn news_are_broadcast<V: PartialEq + Clone, S>(
    before: ServiceState<V>,
    event: ServiceEvent<V, S>,
    after: ServiceState<V>,
    outcome: StepOutcome<V, S>,
)
    requires
        was_absorbed(before, event, after, outcome),
    ensures
        after.config == before.config,
        lost_receivers(outcome) ==> {
            &&& news(event) matches Some(value)
            &&& after.sent == before.sent
            &&& after.attempts == before.attempts.push(Attempt { value, taken: false })
        },
        !lost_receivers(outcome) ==> match news(event) {
            None => after == before,
            Some(None) => was_broadcast(before, None, after),
            Some(Some(value)) => {
                let force = before.config.force_reload;
                ||| update_due(force, before.current, value, true) && was_broadcast(
                    before,
                    Some(value),
                    after,
                )
                ||| update_due(force, before.current, value, false) && after == before
            },
        },
{
    match event {
        ServiceEvent::Reloaded(Ok(Some(target))) => {
            match outcome->Cycle_0 {
                Ok(_) => {
                    assert(was_offered::<V, S>(before, target, after, Ok(())));
                },
                Err(error) => {
                    assert(was_offered(before, target, after, Err(error)));
                },
            }
        },
        ServiceEvent::Received(Some(WatchEvent::Changed(value))) => {
            assert(was_offered(before, value, after, outcome->Handled_0));
        },
        _ => {},
    }
}

/// Whoever carries out each action of a run and reports on it never gets
/// stuck: after a step, the run takes exactly the reports on its action.
pub proof fn a_service_takes_every_answer<V: PartialEq + Clone, S>(
    before: RunState<V>,
    event: ServiceEvent<V, S>,
    after: RunState<V>,
    action: ServiceAction<V, S>,
    outcome: StepOutcome<V, S>,
    answer: ServiceEvent<V, S>,
)
    requires
        expects(before.phase, event),
        was_stepped(before, event, after, action, outcome),
    ensures
        awaits(before.phase, outcome),
        expects(after.phase, answer) <==> answers(action, answer),
{
}

/// A service that has just been made is in step with its receivers.
pub proof fn a_new_service_is_in_step<V>(state: ServiceState<V>)
    requires
        state.current is None,
        state.sent == seq![None::<V>],
    ensures
        in_step(state),
{
}

/// A service stays in step with its receivers as long as it has any. An event
/// makes it broadcast one value at most, and never take one back.
pub proof fn a_service_stays_in_step<V: PartialEq + Clone, S>(
    before: ServiceState<V>,
    event: ServiceEvent<V, S>,
    after: ServiceState<V>,
    outcome: StepOutcome<V, S>,
)
    requires
        clones_exactly::<V>(),
        in_step(before),
        was_absorbed(before, event, after, outcome),
    ensures
        lost_receivers(outcome) || in_step(after),
        after.sent == before.sent || after.sent == before.sent.push(after.sent.last()),
        after.config == before.config,
{
    news_are_broadcast(before, event, after, outcome);
}

/// A value that equals the known one is not broadcast again, unless the
/// service is told to reload by force.
pub proof fn an_unchanged_value_is_not_broadcast<V: PartialEq + Clone, S>(
    before: ServiceState<V>,
    known: V,
    target: V,
    after: ServiceState<V>,
    result: ReloadResult<(), V, S>,
)
    requires
        V::obeys_eq_spec(),
        !before.config.force_reload,
        before.current == Some(known),
        known.eq_spec(&target),
        was_offered(before, target, after, result),
    ensures
        after == before,
        result is Ok,
{
}

/// A first value, a value that differs from the known one, and under a forced
/// reload every value is remembered and broadcast.
pub proof fn a_new_value_is_broadcast<V: PartialEq + Clone, S>(
    before: ServiceState<V>,
    target: V,
    after: ServiceState<V>,
    result: ReloadResult<(), V, S>,
)
    requires
        V::obeys_eq_spec(),
        before.config.force_reload || (before.current matches Some(known) ==> !known.eq_spec(
            &target,
        )),
        was_offered(before, target, after, result),
    ensures
        was_sent(before.sent, Some(target), after.sent, result),
        after.current matches Some(known) && cloned(target, known),
{
}

/// A value that comes back after a removal counts as a change, even if it is
/// the one that was there before: it is broadcast again.
pub proof fn a_value_after_a_removal_is_broadcast<V: PartialEq + Clone, S>(
    before: ServiceState<V>,
    removed: ServiceState<V>,
    value: V,
    after: ServiceState<V>,
    result: ReloadResult<(), V, S>,
)
    requires
        was_handled::<V, S>(before, WatchEvent::Removed, removed, Ok(())),
        was_handled(removed, WatchEvent::Changed(value), after, result),
    ensures
        removed.sent == before.sent.push(None),
        was_sent(removed.sent, Some(value), after.sent, result),
        result is Ok ==> after.sent == before.sent.push(None).push(Some(value)),
{
}

/// An update is due if it is forced, if it is the first one, or if the target
/// differs from the known value. Nothing is sent by asking.
pub proof fn an_update_is_due_for_a_change<V: PartialEq + Clone>(
    before: ServiceState<V>,
    target: V,
    due: bool,
    after: ServiceState<V>,
)
    requires
        V::obeys_eq_spec(),
        was_weighed(before, target, due, after),
    ensures
        due == (before.config.force_reload || !alike(before.current, Some(target))),
        after.sent == before.sent,
        after.config == before.config,
{
}

/// After it was asked whether an update is due, the known value equals the
/// target, whatever the answer was: it is the target itself where equal values
/// are the same one. An update to an equal target is then due only by force.
pub proof fn a_weighed_target_is_known<V: PartialEq + Clone>(
    before: ServiceState<V>,
    target: V,
    due: bool,
    after: ServiceState<V>,
    again: V,
    due_again: bool,
    last: ServiceState<V>,
)
    requires
        eq_is_equivalence::<V>(),
        clones_alike::<V>(),
        was_weighed(before, target, due, after),
        target.eq_spec(&again),
        was_weighed(after, again, due_again, last),
    ensures
        alike(after.current, Some(target)),
        (forall|a: V, b: V| #[trigger] a.eq_spec(&b) ==> a == b) ==> after.current == Some(target),
        due_again == before.config.force_reload,
{
    if due {
        assert(cloned(target, after.current->0));
    }
    let known = after.current->0;
    assert(known.eq_spec(&target));
    assert(known.eq_spec(&again));
}

/// Without forced reloads, a value that is broadcast right after another one
/// differs from it: receivers are not told of changes that are none. The known
/// value goes on to equal the one that receivers get.
pub proof fn broadcasts_tell_of_changes<V: PartialEq + Clone, S>(
    before: ServiceState<V>,
    event: ServiceEvent<V, S>,
    after: ServiceState<V>,
    outcome: StepOutcome<V, S>,
)
    requires
        eq_is_equivalence::<V>(),
        clones_alike::<V>(),
        matched(before),
        !before.config.force_reload,
        was_absorbed(before, event, after, outcome),
        !lost_receivers(outcome),
    ensures
        matched(after),
        after.sent == before.sent || {
            &&& after.sent == before.sent.push(after.sent.last())
            &&& differ(before.sent.last(), after.sent.last())
        },
        after.config == before.config,
{
    news_are_broadcast(before, event, after, outcome);
    if let Some(Some(value)) = news(event) {
        if let (Some(held), Some(heard)) = (before.current, before.sent.last()) {
            assert(held.eq_spec(&heard));
            assert(heard.eq_spec(&value) ==> held.eq_spec(&value));
        }
        if let Some(held) = after.current {
            assert(cloned(value, held) ==> held.eq_spec(&value));
        }
    }
}

/// A reload that fails or finds no value broadcasts nothing and never ends the
/// run: a polling one sleeps and reloads again, the others go on to watch.
pub proof fn a_failed_reload_is_retried<V: PartialEq + Clone, S>(
    before: RunState<V>,
    reloaded: ReloadResult<Option<V>, V, S>,
    after: RunState<V>,
    action: ServiceAction<V, S>,
    outcome: StepOutcome<V, S>,
)
    requires
        expects(before.phase, ServiceEvent::Reloaded(reloaded)),
        was_stepped(before, ServiceEvent::Reloaded(reloaded), after, action, outcome),
        reloaded matches Ok(value) ==> value is None,
    ensures
        after.service == before.service,
        before.phase == ServicePhase::PollingLoad ==> action == ServiceAction::<V, S>::Sleep(
            before.service.config.watch_delay_sec as u64,
        ),
        before.phase != ServicePhase::PollingLoad ==> action is Watch,
{
}

/// A polling or hybrid run ends only when no receiver is left, with the value
/// that nobody took; a realtime run ends also when its watch cannot be set up
/// or breaks. None ends without an error.
pub proof fn a_service_ends_with_an_error<V: PartialEq + Clone, S>(
    before: RunState<V>,
    event: ServiceEvent<V, S>,
    after: RunState<V>,
    result: ReloadResult<(), V, S>,
    outcome: StepOutcome<V, S>,
)
    requires
        expects(before.phase, event),
        was_stepped(before, event, after, ServiceAction::Finish(result), outcome),
    ensures
        result is Err,
        strategy_of(before.phase) != Some(WatchStrategy::Realtime) ==> {
            &&& event matches ServiceEvent::Reloaded(Ok(Some(target)))
            &&& result == Err::<(), ReloaderError<V, S>>(
                ReloaderError::WatchSendError(Some(target)),
            )
        },
{
    if let ServiceEvent::Reloaded(Ok(Some(target))) = event {
        if let Err(error) = outcome->Cycle_0 {
            assert(was_offered(before.service, target, after.service, Err(error)));
        }
    }
}

/// A watch that reports an error or closes ends a realtime run, with that
/// error, and sends a hybrid one into its polling fallback; neither broadcasts.
pub proof fn a_broken_watch<V: PartialEq + Clone, S>(
    before: RunState<V>,
    received: Option<WatchEvent<V>>,
    after: RunState<V>,
    action: ServiceAction<V, S>,
    outcome: StepOutcome<V, S>,
)
    requires
        expects(before.phase, ServiceEvent::<V, S>::Received(received)),
        was_stepped(before, ServiceEvent::Received(received), after, action, outcome),
        received matches Some(event) ==> event is Error,
    ensures
        after.service == before.service,
        before.phase == ServicePhase::RealtimeEvents ==> {
            &&& action matches ServiceAction::Finish(Err(ReloaderError::Other(text)))
            &&& text@ == match received {
                Some(WatchEvent::Error(message)) => message@,
                _ => "Realtime watch channel closed"@,
            }
        },
        before.phase == ServicePhase::HybridEvents ==> {
            &&& action is Reload
            &&& after.phase == (ServicePhase::FallbackLoad {
                delay: base_delay(before.service.config) as u64,
            })
        },
{
}

/// `states` are those that a service goes through on `events`, in one run or in
/// several at a time, with receivers that take whatever it broadcasts.
pub open spec fn is_run<V: PartialEq + Clone, S>(
    states: Seq<ServiceState<V>>,
    events: Seq<ServiceEvent<V, S>>,
    outcomes: Seq<StepOutcome<V, S>>,
) -> bool {
    &&& states.len() == events.len() + 1
    &&& outcomes.len() == events.len()
    &&& forall|i: int, j: int|
        #![trigger states[i], states[j]]
        0 <= i < events.len() && j == i + 1 ==> {
            &&& was_absorbed(states[i], events[i], states[j], outcomes[i])
            &&& !lost_receivers(outcomes[i])
        }
}

/// Whether two values, of which one may have been broadcast after the other,
/// are not the same by their own `eq`. A missing value is no reason to say
/// nothing.
pub open spec fn differ<V: PartialEq>(earlier: Option<V>, later: Option<V>) -> bool {
    match (earlier, later) {
        (Some(a), Some(b)) => !a.eq_spec(&b),
        _ => true,
    }
}

/// No value was broadcast twice in a row.
pub open spec fn without_repeats<V: PartialEq>(sent: Seq<Option<V>>) -> bool {
    forall|i: int, j: int|
        #![trigger sent[i], sent[j]]
        0 <= i && j == i + 1 && j < sent.len() ==> differ(sent[i], sent[j])
}

/// All news in a sequence of events, in order.
pub open spec fn told<V, S>(events: Seq<ServiceEvent<V, S>>) -> Seq<Option<V>>
    decreases events.len(),
{
    if events.len() == 0 {
        Seq::empty()
    } else {
        match news(events.last()) {
            Some(value) => told(events.drop_last()).push(value),
            None => told(events.drop_last()),
        }
    }
}

/// The values that reloads found, in order.
pub open spec fn loads<V, S>(events: Seq<ServiceEvent<V, S>>) -> Seq<V>
    decreases events.len(),
{
    if events.len() == 0 {
        Seq::empty()
    } else {
        match events.last() {
            ServiceEvent::Reloaded(Ok(Some(value))) => loads(events.drop_last()).push(value),
            _ => loads(events.drop_last()),
        }
    }
}

/// The last of these values, or `known` if there is none.
pub open spec fn last_of<V>(known: Option<V>, values: Seq<Option<V>>) -> Option<V> {
    if values.len() == 0 {
        known
    } else {
        values.last()
    }
}

/// The values with each run of equal neighbours cut to its first element. What
/// stands before them is `known`.
pub open spec fn changes_in<V: PartialEq>(known: Option<V>, values: Seq<Option<V>>) -> Seq<
    Option<V>,
>
    decreases values.len(),
{
    if values.len() == 0 {
        Seq::empty()
    } else {
        let kept = changes_in(known, values.drop_last());
        if differ(last_of(known, values.drop_last()), values.last()) {
            kept.push(values.last())
        } else {
            kept
        }
    }
}

/// Values that are all there.
pub open spec fn present<V>(values: Seq<V>) -> Seq<Option<V>> {
    values.map_values(|value: V| Some(value))
}

/// A service that begins in step with its receivers is in step with them
/// throughout, and keeps its configuration.
pub proof fn a_run_stays_in_step<V: PartialEq + Clone, S>(
    states: Seq<ServiceState<V>>,
    events: Seq<ServiceEvent<V, S>>,
    outcomes: Seq<StepOutcome<V, S>>,
    n: int,
)
    requires
        clones_exactly::<V>(),
        is_run(states, events, outcomes),
        in_step(states[0]),
        0 <= n < states.len(),
    ensures
        in_step(states[n]),
        states[n].config == states[0].config,
    decreases n,
{
    if n > 0 {
        let i = n - 1;
        a_run_stays_in_step(states, events, outcomes, i);
        a_service_stays_in_step(states[i], events[i], states[n], outcomes[i]);
    }
}

/// Without forced reloads, a service never broadcasts a value twice in a row,
/// however often it is reloaded or told of a change.
pub proof fn a_run_repeats_no_broadcast<V: PartialEq + Clone, S>(
    states: Seq<ServiceState<V>>,
    events: Seq<ServiceEvent<V, S>>,
    outcomes: Seq<StepOutcome<V, S>>,
    n: int,
)
    requires
        eq_is_equivalence::<V>(),
        clones_alike::<V>(),
        is_run(states, events, outcomes),
        matched(states[0]),
        !states[0].config.force_reload,
        without_repeats(states[0].sent),
        0 <= n < states.len(),
    ensures
        without_repeats(states[n].sent),
        matched(states[n]),
        states[n].config == states[0].config,
    decreases n,
{
    if n > 0 {
        let i = n - 1;
        a_run_repeats_no_broadcast(states, events, outcomes, i);
        broadcasts_tell_of_changes(states[i], events[i], states[n], outcomes[i]);
    }
}

/// With forced reloads, a service broadcasts all that it is told, in order.
pub proof fn a_forced_run_broadcasts_everything<V: PartialEq + Clone, S>(
    states: Seq<ServiceState<V>>,
    events: Seq<ServiceEvent<V, S>>,
    outcomes: Seq<StepOutcome<V, S>>,
    n: int,
)
    requires
        is_run(states, events, outcomes),
        states[0].config.force_reload,
        0 <= n < states.len(),
    ensures
        states[n].sent == states[0].sent + told(events.take(n)),
        states[n].config == states[0].config,
    decreases n,
{
    if n > 0 {
        let i = n - 1;
        a_forced_run_broadcasts_everything(states, events, outcomes, i);
        news_are_broadcast(states[i], events[i], states[n], outcomes[i]);
        assert(events.take(n).drop_last() == events.take(i));
    } else {
        assert(told(events.take(0)) == Seq::<Option<V>>::empty());
    }
}

/// Without forced reloads, a service broadcasts what it is told with each run
/// of equal neighbours cut to its first element, in order; a first value is
/// always broadcast. It knows a value that equals the last one.
pub proof fn a_run_broadcasts_changes<V: PartialEq + Clone, S>(
    states: Seq<ServiceState<V>>,
    events: Seq<ServiceEvent<V, S>>,
    outcomes: Seq<StepOutcome<V, S>>,
    n: int,
)
    requires
        eq_is_equivalence::<V>(),
        clones_alike::<V>(),
        is_run(states, events, outcomes),
        !states[0].config.force_reload,
        0 <= n < states.len(),
    ensures
        states[n].sent == states[0].sent + changes_in(states[0].current, told(events.take(n))),
        alike(states[n].current, last_of(states[0].current, told(events.take(n)))),
        states[n].config == states[0].config,
    decreases n,
{
    let known = states[0].current;
    let values = told(events.take(n));
    if n > 0 {
        let i = n - 1;
        a_run_broadcasts_changes(states, events, outcomes, i);
        news_are_broadcast(states[i], events[i], states[n], outcomes[i]);
        assert(events.take(n).drop_last() == events.take(i));
        let before = told(events.take(i));
        if let Some(value) = news(events[i]) {
            assert(values.drop_last() == before);
            let current = states[i].current;
            let previous = last_of(known, before);
            if let (Some(target), Some(held), Some(said)) = (value, current, previous) {
                assert(held.eq_spec(&said));
                assert(said.eq_spec(&held));
                assert(held.eq_spec(&target) == said.eq_spec(&target));
            }
            if let Some(target) = value {
                if let Some(held) = states[n].current {
                    assert(cloned(target, held) ==> held.eq_spec(&target));
                }
            }
        }
    } else {
        assert(values == Seq::<Option<V>>::empty());
    }
}

/// Polling runs are told of what their reloads find, and of nothing else.
pub proof fn polling_hears_of_loads_only<V, S>(
    phases: Seq<ServicePhase>,
    events: Seq<ServiceEvent<V, S>>,
)
    requires
        phases.len() == events.len(),
        forall|i: int|
            0 <= i < events.len() ==> strategy_of(#[trigger] phases[i]) == Some(
                WatchStrategy::Polling,
            ) && expects(phases[i], events[i]),
    ensures
        told(events) == present(loads(events)),
    decreases events.len(),
{
    if events.len() > 0 {
        let fewer = events.drop_last();
        assert forall|i: int| 0 <= i < fewer.len() implies strategy_of(
            #[trigger] phases.drop_last()[i],
        ) == Some(WatchStrategy::Polling) && expects(phases.drop_last()[i], fewer[i]) by {
            assert(phases.drop_last()[i] == phases[i]);
        }
        polling_hears_of_loads_only(phases.drop_last(), fewer);
        let last = events.len() - 1;
        assert(strategy_of(phases[last]) == Some(WatchStrategy::Polling));
        assert(told(events) == present(loads(events)));
    } else {
        assert(present(loads(events)) == Seq::<Option<V>>::empty());
    }
}

/// A polling service broadcasts the values that its reloads find, with each run
/// of equal neighbours cut to its first element, or all of them if reloads are
/// forced. It never broadcasts that there is no value.
pub proof fn a_polling_run_broadcasts_its_loads<V: PartialEq + Clone, S>(
    states: Seq<ServiceState<V>>,
    phases: Seq<ServicePhase>,
    events: Seq<ServiceEvent<V, S>>,
    outcomes: Seq<StepOutcome<V, S>>,
)
    requires
        eq_is_equivalence::<V>(),
        clones_alike::<V>(),
        is_run(states, events, outcomes),
        states[0].current is None,
        phases.len() == events.len(),
        forall|i: int|
            0 <= i < events.len() ==> strategy_of(#[trigger] phases[i]) == Some(
                WatchStrategy::Polling,
            ) && expects(phases[i], events[i]),
    ensures
        states.last().sent == states[0].sent + (if states[0].config.force_reload {
            present(loads(events))
        } else {
            changes_in(None, present(loads(events)))
        }),
        forall|i: int|
            states[0].sent.len() <= i < states.last().sent.len() ==> (
            #[trigger] states.last().sent[i]) is Some,
{
    let n = events.len() as int;
    assert(events.take(n) == events);
    polling_hears_of_loads_only(phases, events);
    if states[0].config.force_reload {
        a_forced_run_broadcasts_everything(states, events, outcomes, n);
    } else {
        a_run_broadcasts_changes(states, events, outcomes, n);
        changes_are_present(None, loads(events));
    }
}

proof fn changes_are_present<V: PartialEq>(known: Option<V>, values: Seq<V>)
    ensures
        forall|i: int|
            0 <= i < changes_in(known, present(values)).len() ==> (#[trigger] changes_in(
                known,
                present(values),
            )[i]) is Some,
    decreases values.len(),
{
    if values.len() > 0 {
        changes_are_present(known, values.drop_last());
        assert(present(values).drop_last() == present(values.drop_last()));
    }
}

/// The values that a channel took, in order.
pub open spec fn taken<V>(attempts: Seq<Attempt<V>>) -> Seq<Option<V>>
    decreases attempts.len(),
{
    if attempts.len() == 0 {
        Seq::empty()
    } else if attempts.last().taken {
        taken(attempts.drop_last()).push(attempts.last().value)
    } else {
        taken(attempts.drop_last())
    }
}

/// An event tells of a send error exactly if a value was handed to the channel
/// and the channel refused it: the service never gives up a value by itself.
/// What it hands over is what the event said, once at most, and receivers can
/// get it exactly if the channel took it.
pub proof fn a_send_error_is_a_refusal<V: PartialEq + Clone, S>(
    before: ServiceState<V>,
    event: ServiceEvent<V, S>,
    after: ServiceState<V>,
    outcome: StepOutcome<V, S>,
)
    requires
        was_absorbed(before, event, after, outcome),
    ensures
        after.attempts == before.attempts || {
            &&& after.attempts.len() == before.attempts.len() + 1
            &&& after.attempts.drop_last() == before.attempts
            &&& match event {
                ServiceEvent::Reloaded(Ok(Some(value))) => after.attempts.last().value == Some(
                    value,
                ),
                ServiceEvent::Received(Some(WatchEvent::Changed(value))) => {
                    after.attempts.last().value == Some(value)
                },
                ServiceEvent::Received(Some(WatchEvent::Removed)) => {
                    after.attempts.last().value is None
                },
                _ => false,
            }
        },
        match outcome {
            StepOutcome::Cycle(Err(error)) => {
                &&& after.attempts.len() > before.attempts.len()
                &&& !after.attempts.last().taken
                &&& error == ReloaderError::<V, S>::WatchSendError(after.attempts.last().value)
            },
            StepOutcome::Handled(Err(ReloaderError::WatchSendError(value))) => {
                &&& after.attempts.len() > before.attempts.len()
                &&& !after.attempts.last().taken
                &&& value == after.attempts.last().value
            },
            _ => after.attempts.len() > before.attempts.len() ==> after.attempts.last().taken,
        },
        after.sent == (if after.attempts.len() > before.attempts.len()
            && after.attempts.last().taken {
            before.sent.push(after.attempts.last().value)
        } else {
            before.sent
        }),
{
    news_are_broadcast(before, event, after, outcome);
    match event {
        ServiceEvent::Reloaded(Ok(Some(target))) => {
            match outcome->Cycle_0 {
                Ok(_) => {
                    assert(was_offered::<V, S>(before, target, after, Ok(())));
                },
                Err(error) => {
                    assert(was_offered(before, target, after, Err(error)));
                },
            }
        },
        ServiceEvent::Received(Some(WatchEvent::Changed(value))) => {
            assert(was_offered(before, value, after, outcome->Handled_0));
        },
        _ => {},
    }
    if after.attempts != before.attempts {
        assert(after.attempts.drop_last() == before.attempts);
    }
}

/// A value that is due is handed to the channel, whatever the configuration:
/// one that is first, differs from the known one, or is loaded by force. As long
/// as a receiver is left the channel takes it, and receivers can get it.
pub proof fn a_due_value_reaches_receivers<V: PartialEq + Clone, S>(
    before: ServiceState<V>,
    event: ServiceEvent<V, S>,
    after: ServiceState<V>,
    outcome: StepOutcome<V, S>,
    value: V,
)
    requires
        V::obeys_eq_spec(),
        was_absorbed(before, event, after, outcome),
        event == ServiceEvent::<V, S>::Reloaded(Ok(Some(value))) || event == ServiceEvent::<
            V,
            S,
        >::Received(Some(WatchEvent::Changed(value))),
        before.config.force_reload || before.current is None || !before.current->0.eq_spec(&value),
    ensures
        after.attempts.len() == before.attempts.len() + 1,
        after.attempts.last().value == Some(value),
        after.current matches Some(known) && cloned(value, known),
        all_taken(after.attempts) ==> {
            &&& after.sent == before.sent.push(Some(value))
            &&& outcome matches StepOutcome::Cycle(cycle) ==> cycle == Ok::<
                bool,
                ReloaderError<V, S>,
            >(true)
            &&& outcome matches StepOutcome::Handled(handled) ==> handled is Ok
        },
{
    match event {
        ServiceEvent::Reloaded(Ok(Some(target))) => {
            match outcome->Cycle_0 {
                Ok(_) => {
                    assert(was_offered::<V, S>(before, target, after, Ok(())));
                },
                Err(error) => {
                    assert(was_offered(before, target, after, Err(error)));
                },
            }
        },
        ServiceEvent::Received(Some(WatchEvent::Changed(target))) => {
            assert(was_offered(before, target, after, outcome->Handled_0));
        },
        _ => {},
    }
    assert(after.attempts[before.attempts.len() as int] == after.attempts.last());
}

/// A removal is always handed to the channel, and forgets the known value.
pub proof fn a_removal_reaches_receivers<V: PartialEq + Clone, S>(
    before: ServiceState<V>,
    after: ServiceState<V>,
    result: ReloadResult<(), V, S>,
)
    requires
        was_handled(before, WatchEvent::Removed, after, result),
    ensures
        after.current is None,
        after.attempts.len() == before.attempts.len() + 1,
        after.attempts.last().value is None,
        after.attempts.last().taken == (result is Ok),
        after.sent == (if result is Ok {
            before.sent.push(None)
        } else {
            before.sent
        }),
        after.config == before.config,
{
}

/// Receivers can get what the service began with and then exactly what the
/// channel took, in order: this is kept by every event.
pub proof fn receivers_get_what_was_taken<V: PartialEq + Clone, S>(
    first: Seq<Option<V>>,
    before: ServiceState<V>,
    event: ServiceEvent<V, S>,
    after: ServiceState<V>,
    outcome: StepOutcome<V, S>,
)
    requires
        was_absorbed(before, event, after, outcome),
        before.sent == first + taken(before.attempts),
    ensures
        after.sent == first + taken(after.attempts),
{
    a_send_error_is_a_refusal(before, event, after, outcome);
}

/// A run takes the report on what it waits for: a reload where it loads, a
/// watch where it sets one up, an event where it listens, the end of a delay
/// where it sleeps.
pub proof fn every_phase_takes_its_answer<V, S>(event: ServiceEvent<V, S>, delay: u64)
    ensures
        expects(ServicePhase::PollingLoad, event) == (event is Reloaded),
        expects(ServicePhase::RealtimeLoad, event) == (event is Reloaded),
        expects(ServicePhase::HybridLoad, event) == (event is Reloaded),
        expects(ServicePhase::FallbackLoad { delay }, event) == (event is Reloaded),
        expects(ServicePhase::RealtimeSetup, event) == (event is Watched),
        expects(ServicePhase::HybridSetup, event) == (event is Watched),
        expects(ServicePhase::FallbackSetup { delay }, event) == (event is Watched),
        expects(ServicePhase::RealtimeEvents, event) == (event is Received),
        expects(ServicePhase::HybridEvents, event) == (event is Received),
        expects(ServicePhase::PollingDelay, event) == (event is Woke),
        expects(ServicePhase::FallbackDelay { delay }, event) == (event is Woke),
        !expects(ServicePhase::Finished, event),
{
}

/// A hybrid run whose watch could be set up listens to it, on every
/// configuration, and broadcasts what it tells without a delay.
pub proof fn hybrid_listens_to_its_watch<V: PartialEq + Clone, S>(
    before: RunState<V>,
    event: ServiceEvent<V, S>,
    after: RunState<V>,
    action: ServiceAction<V, S>,
    outcome: StepOutcome<V, S>,
)
    requires
        before.phase == ServicePhase::HybridSetup || before.phase is FallbackSetup || before.phase
            == ServicePhase::HybridEvents,
        expects(before.phase, event),
        was_stepped(before, event, after, action, outcome),
        event matches ServiceEvent::Watched(watched) ==> watched is Ok,
        event matches ServiceEvent::Received(received) ==> received matches Some(told)
            && !(told is Error),
        !lost_receivers(outcome),
    ensures
        after.phase == ServicePhase::HybridEvents,
        action is Receive,
{
    if let ServiceEvent::Received(Some(WatchEvent::Changed(value))) = event {
        assert(was_offered(before.service, value, after.service, outcome->Handled_0));
    }
}

/// A reload never asks a run to end, whatever it finds: a run ends over one only
/// if the value that it found was refused by the channel, and then with that
/// value. Else a polling run sleeps for its period, and any other goes on to
/// watch.
pub proof fn how_reloads_lead_on<V: PartialEq + Clone, S>(
    before: RunState<V>,
    reloaded: ReloadResult<Option<V>, V, S>,
    after: RunState<V>,
    action: ServiceAction<V, S>,
    outcome: StepOutcome<V, S>,
)
    requires
        before.phase == ServicePhase::PollingLoad || before.phase == ServicePhase::RealtimeLoad
            || before.phase == ServicePhase::HybridLoad || before.phase is FallbackLoad,
        was_stepped(before, ServiceEvent::Reloaded(reloaded), after, action, outcome),
    ensures
        action matches ServiceAction::Finish(result) ==> {
            &&& reloaded matches Ok(Some(value))
            &&& result matches Err(ReloaderError::WatchSendError(refused))
            &&& refused == Some(value)
            &&& after.service.attempts == before.service.attempts.push(
                Attempt { value: Some(value), taken: false },
            )
            &&& after.phase == ServicePhase::Finished
        },
        !(action is Finish) ==> match before.phase {
            ServicePhase::PollingLoad => {
                &&& action == ServiceAction::<V, S>::Sleep(
                    before.service.config.watch_delay_sec as u64,
                )
                &&& after.phase == ServicePhase::PollingDelay
            },
            ServicePhase::RealtimeLoad => action is Watch && after.phase
                == ServicePhase::RealtimeSetup,
            ServicePhase::HybridLoad => action is Watch && after.phase == ServicePhase::HybridSetup,
            ServicePhase::FallbackLoad { delay } => action is Watch && after.phase
                == ServicePhase::FallbackSetup { delay },
            _ => false,
        },
        action is Finish <==> after.service.attempts.len() > before.service.attempts.len()
            && !after.service.attempts.last().taken,
        after.service.config == before.service.config,
{
    let event = ServiceEvent::Reloaded(reloaded);
    news_are_broadcast(before.service, event, after.service, outcome);
    a_send_error_is_a_refusal(before.service, event, after.service, outcome);
    if let Ok(Some(target)) = reloaded {
        match outcome->Cycle_0 {
            Ok(_) => {
                assert(was_offered::<V, S>(before.service, target, after.service, Ok(())));
            },
            Err(error) => {
                assert(was_offered(before.service, target, after.service, Err(error)));
            },
        }
    }
}

/// How a watch went is taken as it was reported, and touches no value: a run
/// listens to a watch that is up. A realtime run ends with the error of one that
/// is not, a hybrid one polls at once, or sleeps if it has polled already.
pub proof fn how_watches_lead_on<V: PartialEq + Clone, S>(
    before: RunState<V>,
    watched: ReloadResult<(), V, S>,
    after: RunState<V>,
    action: ServiceAction<V, S>,
    outcome: StepOutcome<V, S>,
)
    requires
        before.phase == ServicePhase::RealtimeSetup || before.phase == ServicePhase::HybridSetup
            || before.phase is FallbackSetup,
        was_stepped(before, ServiceEvent::Watched(watched), after, action, outcome),
    ensures
        after.service == before.service,
        watched is Ok ==> action is Receive && after.phase == (if before.phase
            == ServicePhase::RealtimeSetup {
            ServicePhase::RealtimeEvents
        } else {
            ServicePhase::HybridEvents
        }),
        watched matches Err(error) ==> match before.phase {
            ServicePhase::RealtimeSetup => {
                &&& action matches ServiceAction::Finish(Err(given))
                &&& given == error
                &&& after.phase == ServicePhase::Finished
            },
            ServicePhase::HybridSetup => action is Reload && after.phase is FallbackLoad,
            ServicePhase::FallbackSetup { delay } => {
                &&& action == ServiceAction::<V, S>::Sleep(delay)
                &&& after.phase == ServicePhase::FallbackDelay { delay }
            },
            _ => false,
        },
{
}

/// The end of a delay touches no value and is followed by a reload.
pub proof fn how_delays_lead_on<V: PartialEq + Clone, S>(
    before: RunState<V>,
    after: RunState<V>,
    action: ServiceAction<V, S>,
    outcome: StepOutcome<V, S>,
)
    requires
        before.phase == ServicePhase::PollingDelay || before.phase is FallbackDelay,
        was_stepped(before, ServiceEvent::Woke, after, action, outcome),
    ensures
        after.service == before.service,
        action is Reload,
        before.phase == ServicePhase::PollingDelay ==> after.phase == ServicePhase::PollingLoad,
        before.phase is FallbackDelay ==> after.phase is FallbackLoad,
{
}

/// A run goes on to listen after every event that tells of a value or of its
/// removal, as long as the channel takes what it hands over. If the channel
/// refuses it, a realtime run ends with that, and a hybrid one polls.
pub proof fn how_events_lead_on<V: PartialEq + Clone, S>(
    before: RunState<V>,
    told: WatchEvent<V>,
    after: RunState<V>,
    action: ServiceAction<V, S>,
    outcome: StepOutcome<V, S>,
)
    requires
        before.phase == ServicePhase::RealtimeEvents || before.phase == ServicePhase::HybridEvents,
        was_stepped(before, ServiceEvent::Received(Some(told)), after, action, outcome),
        !(told is Error),
    ensures
        all_taken(after.service.attempts) ==> action is Receive && after.phase == before.phase,
        !(action is Receive) ==> {
            &&& after.service.attempts.len() == before.service.attempts.len() + 1
            &&& !after.service.attempts.last().taken
        },
        before.phase == ServicePhase::RealtimeEvents && !(action is Receive) ==> {
            &&& action matches ServiceAction::Finish(Err(ReloaderError::WatchSendError(refused)))
            &&& refused == after.service.attempts.last().value
        },
        before.phase == ServicePhase::HybridEvents && !(action is Receive) ==> action is Reload
            && after.phase is FallbackLoad,
{
    let event = ServiceEvent::<V, S>::Received(Some(told));
    a_send_error_is_a_refusal(before.service, event, after.service, outcome);
    if let WatchEvent::Changed(value) = told {
        assert(was_offered(before.service, value, after.service, outcome->Handled_0));
    }
    if !(action is Receive) {
        let n = after.service.attempts.len() - 1;
        assert(after.service.attempts[n] == after.service.attempts.last());
    }
}

} // verus!
