//! Reloading at a fixed period, where every value that is found is broadcast.
use vstd::prelude::*;

use crate::channel::{newly_held, Attempt, Publisher, Subscriber};

verus! {

/// What a periodic service does after a reload.
#[derive(Debug, Clone, Copy, PartialEq, Eq, Structural)]
pub enum PeriodicStep {
    /// Sleep for this number of seconds, then reload again.
    Sleep(u64),
    /// Stop: nobody listens any more.
    Stop,
}

/// A reload that gave `reloaded` took the values that receivers could get from
/// `before` to `after`, and was followed by `step`: a value is broadcast, and
/// only the lack of receivers stops the service.
pub open spec fn was_disseminated<T, E>(
    before: Seq<Option<T>>,
    watch_delay_sec: u32,
    reloaded: Result<Option<T>, E>,
    after: Seq<Option<T>>,
    step: PeriodicStep,
) -> bool {
    match reloaded {
        Ok(Some(target)) => {
            ||| after == before.push(Some(target)) && step == PeriodicStep::Sleep(
                watch_delay_sec as u64,
            )
            ||| after == before && step == PeriodicStep::Stop
        },
        _ => after == before && step == PeriodicStep::Sleep(watch_delay_sec as u64),
    }
}

/// What was handed to the channel for `reloaded` took the log of attempts from
/// `before` to `after`: a value that was found is tried, and stops the service
/// exactly if the channel refuses it.
pub open spec fn was_tried<T, E>(
    before: Seq<Attempt<T>>,
    reloaded: Result<Option<T>, E>,
    after: Seq<Attempt<T>>,
    step: PeriodicStep,
) -> bool {
    match reloaded {
        Ok(Some(target)) => after == before.push(
            Attempt { value: Some(target), taken: !(step is Stop) },
        ),
        _ => after == before,
    }
}

/// Whether a receiver of this channel is at hand.
pub open spec fn is_heard<T>(receiver: Option<&Subscriber<T>>, publisher: Publisher<T>) -> bool {
    receiver matches Some(rx) && rx.channel() == publisher.channel()
}

fn publish_found<T, E>(
    publisher: &mut Publisher<T>,
    watch_delay_sec: u32,
    reloaded: Result<Option<T>, E>,
    receiver: Option<&Subscriber<T>>,
) -> (step: PeriodicStep)
    ensures
        was_disseminated(
            old(publisher)@,
            watch_delay_sec,
            reloaded,
            final(publisher)@,
            step,
        ),
        is_heard(receiver, *old(publisher)) ==> step is Sleep,
        was_tried(old(publisher).attempts(), reloaded, final(publisher).attempts(), step),
        newly_held(old(publisher)@, final(publisher)@, old(publisher).channel().lifetime),
        final(publisher).channel() == old(publisher).channel(),
{
    if let Ok(Some(target)) = reloaded {
        let sent = match receiver {
            Some(rx) => publisher.publish_to(Some(target), rx),
            None => publisher.publish(Some(target)),
        };
        if sent.is_err() {
            return PeriodicStep::Stop;
        }
    }
    PeriodicStep::Sleep(watch_delay_sec as u64)
}

/// Broadcasts what a reload gave, if it gave a value, and says how to go on.
pub fn disseminate<T, E>(
    publisher: &mut Publisher<T>,
    watch_delay_sec: u32,
    reloaded: Result<Option<T>, E>,
) -> (step: PeriodicStep)
    ensures
        was_disseminated(
            old(publisher)@,
            watch_delay_sec,
            reloaded,
            final(publisher)@,
            step,
        ),
        was_tried(old(publisher).attempts(), reloaded, final(publisher).attempts(), step),
        newly_held(old(publisher)@, final(publisher)@, old(publisher).channel().lifetime),
        final(publisher).channel() == old(publisher).channel(),
{
    publish_found(publisher, watch_delay_sec, reloaded, None)
}

/// Broadcasts what a reload gave while a receiver is at hand: if that is one of
/// this channel, a value that was found is sent and the service goes on.
pub fn disseminate_to<T, E>(
    publisher: &mut Publisher<T>,
    watch_delay_sec: u32,
    reloaded: Result<Option<T>, E>,
    receiver: &Subscriber<T>,
) -> (step: PeriodicStep)
    ensures
        was_disseminated(
            old(publisher)@,
            watch_delay_sec,
            reloaded,
            final(publisher)@,
            step,
        ),
        receiver.channel() == old(publisher).channel() ==> step == PeriodicStep::Sleep(
            watch_delay_sec as u64,
        ),
        was_tried(old(publisher).attempts(), reloaded, final(publisher).attempts(), step),
        newly_held(old(publisher)@, final(publisher)@, old(publisher).channel().lifetime),
        final(publisher).channel() == old(publisher).channel(),
{
    publish_found(publisher, watch_delay_sec, reloaded, Some(receiver))
}

/// A periodic service goes on after every reload that fails or finds nothing
/// new: it waits for its period and tries again.
pub proof fn a_failed_reload_is_retried<T, E>(
    before: Seq<Option<T>>,
    watch_delay_sec: u32,
    reloaded: Result<Option<T>, E>,
    after: Seq<Option<T>>,
    step: PeriodicStep,
)
    requires
        reloaded matches Ok(value) ==> value is None,
        was_disseminated(before, watch_delay_sec, reloaded, after, step),
    ensures
        after == before,
        step == PeriodicStep::Sleep(watch_delay_sec as u64),
{
}

/// The values that reloads found, in order.
pub open spec fn found<T, E>(reloads: Seq<Result<Option<T>, E>>) -> Seq<Option<T>>
    decreases reloads.len(),
{
    if reloads.len() == 0 {
        Seq::empty()
    } else {
        match reloads.last() {
            Ok(Some(target)) => found(reloads.drop_last()).push(Some(target)),
            _ => found(reloads.drop_last()),
        }
    }
}

/// A periodic service that goes on broadcasts every value that its reloads
/// find, in order, and nothing else.
pub proof fn every_find_is_broadcast<T, E>(
    held: Seq<Seq<Option<T>>>,
    watch_delay_sec: u32,
    reloads: Seq<Result<Option<T>, E>>,
    n: int,
)
    requires
        held.len() == reloads.len() + 1,
        forall|i: int, j: int|
            #![trigger held[i], held[j]]
            0 <= i < reloads.len() && j == i + 1 ==> was_disseminated(
                held[i],
                watch_delay_sec,
                reloads[i],
                held[j],
                PeriodicStep::Sleep(watch_delay_sec as u64),
            ),
        0 <= n < held.len(),
    ensures
        held[n] == held[0] + found(reloads.take(n)),
    decreases n,
{
    if n > 0 {
        let i = n - 1;
        every_find_is_broadcast(held, watch_delay_sec, reloads, i);
        let (before, after) = (held[i], held[n]);
        assert(reloads.take(n).drop_last() == reloads.take(i));
    } else {
        assert(found(reloads.take(0)) == Seq::<Option<T>>::empty());
    }
}

/// A value that was found is handed to the channel, whatever the period. If the
/// channel takes it, receivers can get it and the service sleeps for its period;
/// the service stops exactly if the channel refuses it.
pub proof fn a_found_value_is_handed_over<T, E>(
    before: Seq<Option<T>>,
    tried_before: Seq<Attempt<T>>,
    watch_delay_sec: u32,
    target: T,
    after: Seq<Option<T>>,
    tried_after: Seq<Attempt<T>>,
    step: PeriodicStep,
)
    requires
        was_disseminated::<T, E>(before, watch_delay_sec, Ok(Some(target)), after, step),
        was_tried::<T, E>(tried_before, Ok(Some(target)), tried_after, step),
    ensures
        tried_after.len() == tried_before.len() + 1,
        tried_after.drop_last() == tried_before,
        tried_after.last().value == Some(target),
        tried_after.last().taken ==> after == before.push(Some(target)) && step
            == PeriodicStep::Sleep(watch_delay_sec as u64),
        !tried_after.last().taken ==> after == before && step == PeriodicStep::Stop,
{
    assert(tried_after.drop_last() == tried_before);
}

/// Without a value there is nothing to hand over, and no reason to stop.
pub proof fn nothing_found_is_nothing_handed_over<T, E>(
    tried_before: Seq<Attempt<T>>,
    reloaded: Result<Option<T>, E>,
    tried_after: Seq<Attempt<T>>,
    step: PeriodicStep,
)
    requires
        reloaded matches Ok(value) ==> value is None,
        was_tried(tried_before, reloaded, tried_after, step),
    ensures
        tried_after == tried_before,
{
}

} // verus!
