//! The reloader service: which values it broadcasts, and how it goes on.
use vstd::prelude::*;

use crate::channel::{
    all_taken, cloned_option, newly_held, open, was_held, Attempt, ChannelModel, Publisher,
    Subscriber,
};
use crate::config::{ReloaderConfig, WatchStrategy};
use crate::error::{ReloadResult, ReloaderError};
use crate::strategy::{
    advance, awaits, first_phase, next_step, starting_phase, ServiceAction, ServicePhase,
    StepOutcome,
};

verus! {

/// Event emitted by realtime watchers
#[derive(Debug)]
pub enum WatchEvent<V> {
    /// Value changed with new content
    Changed(V),
    /// Source was removed or became unavailable
    Removed,
    /// Error occurred during watching
    Error(String),
}

impl<V: Clone> Clone for WatchEvent<V> {
    fn clone(&self) -> (other: Self)
        ensures
            match *self {
                WatchEvent::Changed(value) => {
                    other matches WatchEvent::Changed(copy) && cloned(value, copy)
                },
                _ => other == *self,
            },
    {
        match self {
            WatchEvent::Changed(value) => WatchEvent::Changed(value.clone()),
            WatchEvent::Removed => WatchEvent::Removed,
            WatchEvent::Error(message) => WatchEvent::Error(message.clone()),
        }
    }
}

/// Sender wrapper for broadcasting reloaded values to receivers
#[verifier::reject_recursive_types(V)]
pub struct ReloaderSender<V> {
    inner: Publisher<V>,
}

impl<V> View for ReloaderSender<V> {
    type V = Seq<Option<V>>;

    /// The values that receivers could get, oldest first.
    closed spec fn view(&self) -> Seq<Option<V>> {
        self.inner@
    }
}

impl<V> ReloaderSender<V> {
    /// The channel that values are sent over.
    pub closed spec fn channel(&self) -> ChannelModel<V> {
        self.inner.channel()
    }

    /// The values that were handed to the channel, oldest first.
    pub closed spec fn attempts(&self) -> Seq<Attempt<V>> {
        self.inner.attempts()
    }

    /// Open a channel that holds `initial`, with a first receiver.
    pub fn open(initial: Option<V>) -> (halves: (Self, ReloaderReceiver<V>))
        ensures
            halves.0@ == seq![initial],
            halves.0.attempts() == Seq::<Attempt<V>>::empty(),
            halves.0.channel().lifetime.contains(initial),
            halves.1.channel() == halves.0.channel(),
    {
        let (publisher, subscriber) = open(initial);
        (ReloaderSender { inner: publisher }, ReloaderReceiver { inner: subscriber })
    }

    /// Send a new value to all receivers; it comes back if there are none.
    pub fn send(&mut self, value: Option<V>) -> (sent: Result<(), Option<V>>)
        ensures
            sent is Ok ==> final(self)@ == old(self)@.push(value),
            sent is Ok ==> old(self).channel().lifetime.contains(value),
            sent is Err ==> final(self)@ == old(self)@ && sent->Err_0 == value,
            final(self).attempts() == old(self).attempts().push(
                Attempt { value, taken: sent is Ok },
            ),
            final(self).channel() == old(self).channel(),
    {
        self.inner.publish(value)
    }

    /// Send a new value to all receivers while one of them is at hand: if that
    /// is one of this channel, the value is sent.
    pub fn send_to(&mut self, value: Option<V>, receiver: &ReloaderReceiver<V>) -> (sent: Result<
        (),
        Option<V>,
    >)
        ensures
            receiver.channel() == old(self).channel() ==> sent is Ok && all_taken(
                old(self).attempts(),
            ),
            sent is Ok ==> final(self)@ == old(self)@.push(value),
            sent is Ok ==> old(self).channel().lifetime.contains(value),
            sent is Err ==> final(self)@ == old(self)@ && sent->Err_0 == value,
            final(self).attempts() == old(self).attempts().push(
                Attempt { value, taken: sent is Ok },
            ),
            final(self).channel() == old(self).channel(),
    {
        self.inner.publish_to(value, &receiver.inner)
    }
}

/// Receiver wrapper for listening to reloaded values
#[verifier::reject_recursive_types(V)]
pub struct ReloaderReceiver<V> {
    inner: Subscriber<V>,
}

impl<V> ReloaderReceiver<V> {
    /// The channel that values are received over.
    pub closed spec fn channel(&self) -> ChannelModel<V> {
        self.inner.channel()
    }

    /// The receiver of the channel: which channel it is, and how far its
    /// values were seen.
    pub closed spec fn receiver(&self) -> tokio::sync::watch::Receiver<Option<V>> {
        self.inner.receiver()
    }

    /// One more receiver of the channel, to wait on for changes. It has seen
    /// the values that this one has.
    pub fn changes(&self) -> (changes: tokio::sync::watch::Receiver<Option<V>>)
        ensures
            changes == self.receiver(),
    {
        self.inner.changes()
    }

    /// What waiting for the value to change came to.
    pub fn changed<S>(waited: Result<(), tokio::sync::watch::error::RecvError>) -> (outcome:
        ReloadResult<(), V, S>)
        ensures
            outcome == (match waited {
                Ok(()) => Ok::<(), ReloaderError<V, S>>(()),
                Err(_) => Err(ReloaderError::WatchRecvError),
            }),
    {
        match waited {
            Ok(()) => Ok(()),
            Err(_) => Err(ReloaderError::WatchRecvError),
        }
    }
}

impl<V> Clone for ReloaderReceiver<V> {
    fn clone(&self) -> (other: Self)
        ensures
            other == *self,
    {
        ReloaderReceiver { inner: self.inner.clone() }
    }
}

impl<V: Clone> ReloaderReceiver<V> {
    /// Get a clone of the current value if it exists. Which one that is depends
    /// on when this is called: the service may broadcast another one at any time.
    pub fn get(&self) -> (value: Option<V>)
        ensures
            was_held(self.channel().lifetime, value),
    {
        self.inner.latest()
    }

    /// Get a clone of the current value while the sender is at rest: it is the
    /// one that was sent last.
    pub fn get_from(&self, sender: &ReloaderSender<V>) -> (value: Option<V>)
        ensures
            was_held(self.channel().lifetime, value),
            sender.channel() == self.channel() ==> cloned_option(sender@.last(), value),
    {
        self.inner.latest_from(&sender.inner)
    }

    /// Get a clone of the current value while the service is at rest: it is
    /// the one that the service broadcast last.
    pub fn get_at_rest(&self, service: &ReloaderService<V>) -> (value: Option<V>)
        ensures
            was_held(self.channel().lifetime, value),
            service.channel() == self.channel() ==> cloned_option(service@.sent.last(), value),
    {
        self.get_from(&service.tx)
    }
}

/// What a service remembers, and what it has broadcast.
#[verifier::ext_equal]
pub struct ServiceState<V> {
    pub config: ReloaderConfig,
    /// The value that a reloaded one is compared with.
    pub current: Option<V>,
    /// The values that receivers could get, oldest first.
    pub sent: Seq<Option<V>>,
    /// The values that were handed to the channel, oldest first.
    pub attempts: Seq<Attempt<V>>,
}

/// A run of a service: the service, and what the run waits for.
#[verifier::ext_equal]
pub struct RunState<V> {
    pub service: ServiceState<V>,
    pub phase: ServicePhase,
}

/// How an action of a run went.
pub enum ServiceEvent<V, S> {
    /// The source was reloaded; `None` if it has no value.
    Reloaded(ReloadResult<Option<V>, V, S>),
    /// Realtime watching was set up, or could not be.
    Watched(ReloadResult<(), V, S>),
    /// A watch event came in; `None` if the watch is closed.
    Received(Option<WatchEvent<V>>),
    /// A delay is over.
    Woke,
}

/// Main service for watching and reloading target values from a source.
#[verifier::reject_recursive_types(V)]
pub struct ReloaderService<V> {
    current_value: Option<V>,
    tx: ReloaderSender<V>,
    config: ReloaderConfig,
}

/// One run of a service, from its start on. A service may have several.
#[derive(Debug)]
pub struct ServiceRun {
    phase: ServicePhase,
}

impl View for ServiceRun {
    type V = ServicePhase;

    /// What the run waits for.
    closed spec fn view(&self) -> ServicePhase {
        self.phase
    }
}

impl<V> View for ReloaderService<V> {
    type V = ServiceState<V>;

    closed spec fn view(&self) -> ServiceState<V> {
        ServiceState {
            config: self.config,
            current: self.current_value,
            sent: self.tx@,
            attempts: self.tx.attempts(),
        }
    }
}

/// Whether an update to `target` is due, as `due` says: a forced one and a
/// first one always are, another one if the values differ by `V`'s own `eq`.
pub open spec fn update_due<V: PartialEq>(
    force: bool,
    current: Option<V>,
    target: V,
    due: bool,
) -> bool {
    match current {
        Some(known) if !force => call_ensures(V::eq, (&known, &target), !due),
        _ => due,
    }
}

/// Whether an update to `target` is due was asked of a service in `before`: a
/// due one is remembered, which gives `after`, and nothing is sent.
pub open spec fn was_weighed<V: PartialEq + Clone>(
    before: ServiceState<V>,
    target: V,
    due: bool,
    after: ServiceState<V>,
) -> bool {
    &&& update_due(before.config.force_reload, before.current, target, due)
    &&& due ==> {
        &&& after.current matches Some(known) && cloned(target, known)
        &&& after == (ServiceState { current: after.current, ..before })
    }
    &&& !due ==> after == before
}

/// `value` was sent from `before`, which gave `after` and `sent`: receivers can
/// get it, or there are none and it comes back in the error.
pub open spec fn was_sent<V, S>(
    before: Seq<Option<V>>,
    value: Option<V>,
    after: Seq<Option<V>>,
    sent: ReloadResult<(), V, S>,
) -> bool {
    match sent {
        Ok(()) => after == before.push(value),
        Err(error) => after == before && error == ReloaderError::<V, S>::WatchSendError(value),
    }
}

/// `value` was handed to the channel, which took it if `sent` is `Ok` and else
/// refused it.
pub open spec fn was_tried<V, S>(
    before: Seq<Attempt<V>>,
    value: Option<V>,
    after: Seq<Attempt<V>>,
    sent: ReloadResult<(), V, S>,
) -> bool {
    after == before.push(Attempt { value, taken: sent is Ok })
}

/// `target` was offered to the service, which took it from `before` to `after`
/// and gave `result`: a due update is remembered and sent, no other one is.
pub open spec fn was_offered<V: PartialEq + Clone, S>(
    before: ServiceState<V>,
    target: V,
    after: ServiceState<V>,
    result: ReloadResult<(), V, S>,
) -> bool {
    ||| {
        &&& update_due(before.config.force_reload, before.current, target, true)
        &&& after.current matches Some(known) && cloned(target, known)
        &&& after == (ServiceState {
            current: after.current,
            sent: after.sent,
            attempts: after.attempts,
            ..before
        })
        &&& was_sent(before.sent, Some(target), after.sent, result)
        &&& was_tried(before.attempts, Some(target), after.attempts, result)
    }
    ||| {
        &&& update_due(before.config.force_reload, before.current, target, false)
        &&& after == before
        &&& result is Ok
    }
}

/// A reload that gave `reloaded` took the service from `before` to `after`
/// with the result `cycle`.
pub open spec fn was_cycled<V: PartialEq + Clone, S>(
    before: ServiceState<V>,
    reloaded: ReloadResult<Option<V>, V, S>,
    after: ServiceState<V>,
    cycle: ReloadResult<bool, V, S>,
) -> bool {
    match reloaded {
        Ok(Some(target)) => match cycle {
            Ok(proceed) => proceed && was_offered::<V, S>(before, target, after, Ok(())),
            Err(error) => was_offered(before, target, after, Err(error)),
        },
        _ => after == before && cycle == Ok::<bool, ReloaderError<V, S>>(true),
    }
}

/// A watch event took the service from `before` to `after` with `result`.
pub open spec fn was_handled<V: PartialEq + Clone, S>(
    before: ServiceState<V>,
    event: WatchEvent<V>,
    after: ServiceState<V>,
    result: ReloadResult<(), V, S>,
) -> bool {
    match event {
        WatchEvent::Changed(value) => was_offered(before, value, after, result),
        WatchEvent::Removed => {
            &&& after == (ServiceState {
                current: None,
                sent: after.sent,
                attempts: after.attempts,
                ..before
            })
            &&& was_sent(before.sent, None, after.sent, result)
            &&& was_tried(before.attempts, None, after.attempts, result)
        },
        WatchEvent::Error(message) => {
            &&& after == before
            &&& result == Err::<(), ReloaderError<V, S>>(ReloaderError::Other(message))
        },
    }
}

/// Whether `event` is the answer to what `phase` waits for.
pub open spec fn expects<V, S>(phase: ServicePhase, event: ServiceEvent<V, S>) -> bool {
    match event {
        ServiceEvent::Reloaded(_) => awaits(phase, StepOutcome::<V, S>::Cycle(Ok(true))),
        ServiceEvent::Watched(_) => awaits(phase, StepOutcome::<V, S>::Watched(Ok(()))),
        ServiceEvent::Received(_) => awaits(phase, StepOutcome::<V, S>::Handled(Ok(()))),
        ServiceEvent::Woke => awaits(phase, StepOutcome::<V, S>::Woke),
    }
}

/// Whether `outcome` tells that a value could not be sent.
pub open spec fn lost_receivers<V, S>(outcome: StepOutcome<V, S>) -> bool {
    match outcome {
        StepOutcome::Cycle(Err(error)) => error is WatchSendError,
        StepOutcome::Handled(Err(error)) => error is WatchSendError,
        _ => false,
    }
}

/// Whether a receiver of this channel is at hand.
pub open spec fn is_heard<V>(
    receiver: Option<&ReloaderReceiver<V>>,
    channel: ChannelModel<V>,
) -> bool {
    receiver matches Some(rx) && rx.channel() == channel
}

/// `event` took the service from `before` to `after`, with `outcome` for its
/// strategy.
pub open spec fn was_absorbed<V: PartialEq + Clone, S>(
    before: ServiceState<V>,
    event: ServiceEvent<V, S>,
    after: ServiceState<V>,
    outcome: StepOutcome<V, S>,
) -> bool {
    match event {
        ServiceEvent::Reloaded(reloaded) => {
            outcome matches StepOutcome::Cycle(cycle) && was_cycled(before, reloaded, after, cycle)
        },
        ServiceEvent::Watched(watched) => {
            outcome == StepOutcome::Watched(watched) && after == before
        },
        ServiceEvent::Received(Some(event)) => {
            outcome matches StepOutcome::Handled(result) && was_handled(
                before,
                event,
                after,
                result,
            )
        },
        ServiceEvent::Received(None) => {
            &&& outcome matches StepOutcome::Handled(Err(ReloaderError::Other(message)))
            &&& message@ == "Realtime watch channel closed"@
            &&& after == before
        },
        ServiceEvent::Woke => outcome is Woke && after == before,
    }
}

/// A step on `event` took a run from `before` to `after` and asked for
/// `action`: the service absorbed the event with `outcome`, on which the
/// strategy decided.
pub open spec fn was_stepped<V: PartialEq + Clone, S>(
    before: RunState<V>,
    event: ServiceEvent<V, S>,
    after: RunState<V>,
    action: ServiceAction<V, S>,
    outcome: StepOutcome<V, S>,
) -> bool {
    &&& was_absorbed(before.service, event, after.service, outcome)
    &&& (after.phase, action) == next_step(before.service.config, before.phase, outcome)
}

impl<V> ReloaderService<V> {
    /// The channel that values are broadcast over.
    pub closed spec fn channel(&self) -> ChannelModel<V> {
        self.tx.channel()
    }

    /// Create a new reloader service with the given configuration
    pub fn new(config: ReloaderConfig) -> (made: (Self, ReloaderReceiver<V>))
        ensures
            made.0@ == (ServiceState {
                config,
                current: None::<V>,
                sent: seq![None],
                attempts: Seq::empty(),
            }),
            made.0.channel().lifetime.contains(None),
            made.1.channel() == made.0.channel(),
    {
        let (tx, rx) = ReloaderSender::open(None);
        (ReloaderService { current_value: None, tx, config }, rx)
    }

    /// Create a new reloader service with default configuration
    pub fn with_defaults() -> (made: (Self, ReloaderReceiver<V>))
        ensures
            made.0@ == (ServiceState {
                config: ReloaderConfig {
                    watch_delay_sec: 10,
                    force_reload: false,
                    strategy: WatchStrategy::Polling,
                },
                current: None::<V>,
                sent: seq![None],
                attempts: Seq::empty(),
            }),
            made.0.channel().lifetime.contains(None),
            made.1.channel() == made.0.channel(),
    {
        ReloaderService::new(ReloaderConfig::default())
    }

    /// Create a new reloader service with custom delay
    pub fn with_delay(watch_delay_sec: u32) -> (made: (Self, ReloaderReceiver<V>))
        ensures
            made.0@ == (ServiceState {
                config: ReloaderConfig {
                    watch_delay_sec,
                    force_reload: false,
                    strategy: WatchStrategy::Polling,
                },
                current: None::<V>,
                sent: seq![None],
                attempts: Seq::empty(),
            }),
            made.0.channel().lifetime.contains(None),
            made.1.channel() == made.0.channel(),
    {
        ReloaderService::new(ReloaderConfig::polling(watch_delay_sec))
    }

    /// Send a value to all receivers, of which one may be at hand.
    fn broadcast<S>(&mut self, value: Option<V>, receiver: Option<&ReloaderReceiver<V>>) -> (sent:
        ReloadResult<(), V, S>)
        ensures
            was_sent(old(self)@.sent, value, final(self)@.sent, sent),
            was_tried(old(self)@.attempts, value, final(self)@.attempts, sent),
            final(self)@ == (ServiceState {
                sent: final(self)@.sent,
                attempts: final(self)@.attempts,
                ..old(self)@
            }),
            is_heard(receiver, old(self).channel()) ==> sent is Ok && all_taken(
                old(self)@.attempts,
            ),
            newly_held(old(self)@.sent, final(self)@.sent, old(self).channel().lifetime),
            final(self).channel() == old(self).channel(),
    {
        let sent = match receiver {
            Some(rx) => self.tx.send_to(value, rx),
            None => self.tx.send(value),
        };
        match sent {
            Ok(()) => Ok(()),
            Err(value) => Err(ReloaderError::WatchSendError(value)),
        }
    }

    /// Broadcast a value, or that there is none, while a receiver is at hand:
    /// if that is one of this service, it is sent.
    pub fn broadcast_to<S>(&mut self, value: Option<V>, receiver: &ReloaderReceiver<V>) -> (sent:
        ReloadResult<(), V, S>)
        ensures
            was_sent(old(self)@.sent, value, final(self)@.sent, sent),
            was_tried(old(self)@.attempts, value, final(self)@.attempts, sent),
            final(self)@ == (ServiceState {
                sent: final(self)@.sent,
                attempts: final(self)@.attempts,
                ..old(self)@
            }),
            receiver.channel() == old(self).channel() ==> sent is Ok && all_taken(
                old(self)@.attempts,
            ),
            newly_held(old(self)@.sent, final(self)@.sent, old(self).channel().lifetime),
            final(self).channel() == old(self).channel(),
    {
        self.broadcast(value, Some(receiver))
    }

    /// Broadcast the updated value to all receivers
    pub fn broadcast_update<S>(&mut self, target: V) -> (sent: ReloadResult<(), V, S>)
        ensures
            was_sent(old(self)@.sent, Some(target), final(self)@.sent, sent),
            was_tried(old(self)@.attempts, Some(target), final(self)@.attempts, sent),
            final(self)@ == (ServiceState {
                sent: final(self)@.sent,
                attempts: final(self)@.attempts,
                ..old(self)@
            }),
            newly_held(old(self)@.sent, final(self)@.sent, old(self).channel().lifetime),
            final(self).channel() == old(self).channel(),
    {
        self.broadcast(Some(target), None)
    }

    /// Broadcast a removal event to all receivers
    pub fn broadcast_removal<S>(&mut self) -> (sent: ReloadResult<(), V, S>)
        ensures
            was_sent(old(self)@.sent, None, final(self)@.sent, sent),
            was_tried(old(self)@.attempts, None, final(self)@.attempts, sent),
            final(self)@ == (ServiceState {
                current: None,
                sent: final(self)@.sent,
                attempts: final(self)@.attempts,
                ..old(self)@
            }),
            newly_held(old(self)@.sent, final(self)@.sent, old(self).channel().lifetime),
            final(self).channel() == old(self).channel(),
    {
        self.current_value = None;
        self.broadcast(None, None)
    }

    /// Start the reloader service watching the target value (polling mode only)
    pub fn start<S>(&self) -> (started: (ServiceRun, ServiceAction<V, S>))
        ensures
            self@.config.strategy == WatchStrategy::Polling ==> {
                &&& started.0@ == ServicePhase::PollingLoad
                &&& started.1 is Reload
            },
            self@.config.strategy != WatchStrategy::Polling ==> {
                &&& started.0@ == ServicePhase::Finished
                &&& started.1 matches ServiceAction::Finish(Err(ReloaderError::Other(message)))
                &&& message@
                    == "Realtime strategies require RealtimeWatch implementation. Use start_with_realtime() for types implementing RealtimeWatch."@
            },
    {
        match self.config.strategy {
            WatchStrategy::Polling => (
                ServiceRun { phase: ServicePhase::PollingLoad },
                ServiceAction::Reload,
            ),
            WatchStrategy::Realtime | WatchStrategy::Hybrid => (
                ServiceRun { phase: ServicePhase::Finished },
                ServiceAction::Finish(
                    Err(
                        ReloaderError::Other(
                            "Realtime strategies require RealtimeWatch implementation. Use start_with_realtime() for types implementing RealtimeWatch.".to_owned(),
                        ),
                    ),
                ),
            ),
        }
    }

    /// Start monitoring according to the configured strategy when realtime
    /// support is available.
    pub fn start_with_realtime<S>(&self) -> (started: (ServiceRun, ServiceAction<V, S>))
        ensures
            started.0@ == first_phase(self@.config.strategy),
            started.1 is Reload,
    {
        (ServiceRun { phase: starting_phase(self.config.strategy) }, ServiceAction::Reload)
    }
}

impl ServiceRun {
    /// Whether `event` is the answer to what the run waits for.
    pub fn is_awaiting<V, S>(&self, event: &ServiceEvent<V, S>) -> (awaiting: bool)
        ensures
            awaiting == expects(self@, *event),
    {
        match event {
            ServiceEvent::Reloaded(_) => matches!(
                self.phase,
                ServicePhase::PollingLoad
                    | ServicePhase::RealtimeLoad
                    | ServicePhase::HybridLoad
                    | ServicePhase::FallbackLoad { .. }
            ),
            ServiceEvent::Watched(_) => matches!(
                self.phase,
                ServicePhase::RealtimeSetup
                    | ServicePhase::HybridSetup
                    | ServicePhase::FallbackSetup { .. }
            ),
            ServiceEvent::Received(_) => matches!(
                self.phase,
                ServicePhase::RealtimeEvents | ServicePhase::HybridEvents
            ),
            ServiceEvent::Woke => matches!(
                self.phase,
                ServicePhase::PollingDelay | ServicePhase::FallbackDelay { .. }
            ),
        }
    }
}

impl<V: PartialEq + Clone> ReloaderService<V> {
    /// Check if we should broadcast an update for the given target, and
    /// remember the target if so
    pub fn should_broadcast_update(&mut self, target: &V) -> (due: bool)
        ensures
            was_weighed(old(self)@, *target, due, final(self)@),
            final(self).channel() == old(self).channel(),
    {
        let due = if self.config.force_reload {
            true
        } else {
            match &self.current_value {
                Some(known) => !known.eq(target),
                None => true,
            }
        };
        if due {
            self.current_value = Some(target.clone());
        }
        due
    }

    /// Offer a value to the receivers: remember it and broadcast it if that is due.
    fn offer<S>(&mut self, target: V, receiver: Option<&ReloaderReceiver<V>>) -> (result:
        ReloadResult<(), V, S>)
        ensures
            was_offered(old(self)@, target, final(self)@, result),
            is_heard(receiver, old(self).channel()) ==> result is Ok,
            newly_held(old(self)@.sent, final(self)@.sent, old(self).channel().lifetime),
            final(self).channel() == old(self).channel(),
    {
        if self.should_broadcast_update(&target) {
            self.broadcast(Some(target), receiver)
        } else {
            Ok(())
        }
    }

    fn cycle<S>(
        &mut self,
        reloaded: ReloadResult<Option<V>, V, S>,
        receiver: Option<&ReloaderReceiver<V>>,
    ) -> (cycle: ReloadResult<bool, V, S>)
        ensures
            was_cycled(old(self)@, reloaded, final(self)@, cycle),
            is_heard(receiver, old(self).channel()) ==> cycle is Ok,
            newly_held(old(self)@.sent, final(self)@.sent, old(self).channel().lifetime),
            final(self).channel() == old(self).channel(),
    {
        match reloaded {
            Ok(Some(target)) => match self.offer(target, receiver) {
                Ok(()) => Ok(true),
                Err(error) => Err(error),
            },
            _ => Ok(true),
        }
    }

    /// Execute one reload cycle, for what the source gave when it was reloaded.
    ///
    /// A source without a value and a failed reload change nothing: the next
    /// cycle tries again.
    pub fn reload_cycle<S>(&mut self, reloaded: ReloadResult<Option<V>, V, S>) -> (cycle:
        ReloadResult<bool, V, S>)
        ensures
            was_cycled(old(self)@, reloaded, final(self)@, cycle),
            newly_held(old(self)@.sent, final(self)@.sent, old(self).channel().lifetime),
            final(self).channel() == old(self).channel(),
    {
        self.cycle(reloaded, None)
    }

    /// Execute one reload cycle while a receiver is at hand: if that is one of
    /// this service, the cycle goes well.
    pub fn reload_cycle_to<S>(
        &mut self,
        reloaded: ReloadResult<Option<V>, V, S>,
        receiver: &ReloaderReceiver<V>,
    ) -> (cycle: ReloadResult<bool, V, S>)
        ensures
            was_cycled(old(self)@, reloaded, final(self)@, cycle),
            receiver.channel() == old(self).channel() ==> cycle == Ok::<bool, ReloaderError<V, S>>(
                true,
            ),
            newly_held(old(self)@.sent, final(self)@.sent, old(self).channel().lifetime),
            final(self).channel() == old(self).channel(),
    {
        self.cycle(reloaded, Some(receiver))
    }

    fn handle<S>(&mut self, event: WatchEvent<V>, receiver: Option<&ReloaderReceiver<V>>) -> (result:
        ReloadResult<(), V, S>)
        ensures
            was_handled(old(self)@, event, final(self)@, result),
            is_heard(receiver, old(self).channel()) ==> (result is Err <==> event is Error),
            newly_held(old(self)@.sent, final(self)@.sent, old(self).channel().lifetime),
            final(self).channel() == old(self).channel(),
    {
        match event {
            WatchEvent::Changed(value) => self.offer(value, receiver),
            WatchEvent::Removed => {
                self.current_value = None;
                self.broadcast(None, receiver)
            },
            WatchEvent::Error(message) => Err(ReloaderError::Other(message)),
        }
    }

    /// Dispatch a realtime watch event to the appropriate handler.
    pub fn handle_watch_event<S>(&mut self, event: WatchEvent<V>) -> (result: ReloadResult<(), V, S>)
        ensures
            was_handled(old(self)@, event, final(self)@, result),
            newly_held(old(self)@.sent, final(self)@.sent, old(self).channel().lifetime),
            final(self).channel() == old(self).channel(),
    {
        self.handle(event, None)
    }

    /// Dispatch a realtime watch event while a receiver is at hand: if that is
    /// one of this service, only an error event gives an error.
    pub fn handle_watch_event_to<S>(
        &mut self,
        event: WatchEvent<V>,
        receiver: &ReloaderReceiver<V>,
    ) -> (result: ReloadResult<(), V, S>)
        ensures
            was_handled(old(self)@, event, final(self)@, result),
            receiver.channel() == old(self).channel() ==> (result is Err <==> event is Error),
            newly_held(old(self)@.sent, final(self)@.sent, old(self).channel().lifetime),
            final(self).channel() == old(self).channel(),
    {
        self.handle(event, Some(receiver))
    }

    /// Take note of how the last action went, and broadcast what has to be.
    fn absorb<S>(&mut self, event: ServiceEvent<V, S>, receiver: Option<&ReloaderReceiver<V>>) -> (
    outcome: StepOutcome<V, S>)
        ensures
            was_absorbed(old(self)@, event, final(self)@, outcome),
            is_heard(receiver, old(self).channel()) ==> !lost_receivers(outcome),
            newly_held(old(self)@.sent, final(self)@.sent, old(self).channel().lifetime),
            final(self).channel() == old(self).channel(),
    {
        match event {
            ServiceEvent::Reloaded(reloaded) => StepOutcome::Cycle(self.cycle(reloaded, receiver)),
            ServiceEvent::Watched(watched) => StepOutcome::Watched(watched),
            ServiceEvent::Received(Some(event)) => StepOutcome::Handled(
                self.handle(event, receiver),
            ),
            ServiceEvent::Received(None) => StepOutcome::Handled(
                Err(ReloaderError::Other("Realtime watch channel closed".to_owned())),
            ),
            ServiceEvent::Woke => StepOutcome::Woke,
        }
    }

    fn take_step<S>(
        &mut self,
        run: &mut ServiceRun,
        event: ServiceEvent<V, S>,
        receiver: Option<&ReloaderReceiver<V>>,
    ) -> (action: ServiceAction<V, S>)
        requires
            expects(old(run)@, event),
        ensures
            exists|outcome: StepOutcome<V, S>|
                #[trigger] was_stepped(
                    RunState { service: old(self)@, phase: old(run)@ },
                    event,
                    RunState { service: final(self)@, phase: final(run)@ },
                    action,
                    outcome,
                ) && (is_heard(receiver, old(self).channel()) ==> !lost_receivers(outcome)),
            newly_held(old(self)@.sent, final(self)@.sent, old(self).channel().lifetime),
            final(self).channel() == old(self).channel(),
    {
        let outcome = self.absorb(event, receiver);
        let ghost taken = outcome;
        let (phase, action) = advance(&self.config, run.phase, outcome);
        run.phase = phase;
        assert(was_stepped(
            RunState { service: old(self)@, phase: old(run)@ },
            event,
            RunState { service: self@, phase: run@ },
            action,
            taken,
        ));
        action
    }

    /// One step of a run: takes note of how the last action went, and says
    /// what has to be done next.
    pub fn step<S>(&mut self, run: &mut ServiceRun, event: ServiceEvent<V, S>) -> (action:
        ServiceAction<V, S>)
        requires
            expects(old(run)@, event),
        ensures
            exists|outcome: StepOutcome<V, S>|
                was_stepped(
                    RunState { service: old(self)@, phase: old(run)@ },
                    event,
                    RunState { service: final(self)@, phase: final(run)@ },
                    action,
                    outcome,
                ),
            newly_held(old(self)@.sent, final(self)@.sent, old(self).channel().lifetime),
            final(self).channel() == old(self).channel(),
    {
        self.take_step(run, event, None)
    }

    /// One step of a run while a receiver is at hand: if that is one of this
    /// service, whatever has to be broadcast is sent.
    pub fn step_to<S>(
        &mut self,
        run: &mut ServiceRun,
        event: ServiceEvent<V, S>,
        receiver: &ReloaderReceiver<V>,
    ) -> (action: ServiceAction<V, S>)
        requires
            expects(old(run)@, event),
        ensures
            exists|outcome: StepOutcome<V, S>|
                #[trigger] was_stepped(
                    RunState { service: old(self)@, phase: old(run)@ },
                    event,
                    RunState { service: final(self)@, phase: final(run)@ },
                    action,
                    outcome,
                ) && (receiver.channel() == old(self).channel() ==> !lost_receivers(outcome)),
            newly_held(old(self)@.sent, final(self)@.sent, old(self).channel().lifetime),
            final(self).channel() == old(self).channel(),
    {
        self.take_step(run, event, Some(receiver))
    }
}

} // verus!
