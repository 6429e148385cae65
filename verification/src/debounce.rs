//! Debouncing of file events.
use vstd::prelude::*;

verus! {

/// Milliseconds to wait before a file event is processed. File system events
/// can fire multiple times for a single logical change; only the last one
/// within this window leads to a reload.
pub const FILE_EVENT_DEBOUNCE_MILLIS: u64 = 200;

/// A file event that waits to be processed.
#[derive(Debug)]
pub enum DebouncedEvent {
    /// The file has to be loaded again.
    Reload,
    /// File was removed but needs verification after debounce.
    /// Used for Docker volumes where modifications appear as removals.
    RemovedPendingVerification,
    /// Watching failed.
    Error(String),
}

/// What a debouncer remembers.
pub struct DebouncerState {
    /// How many events it was given; also the number of the last one.
    pub counter: nat,
    /// The event that waits, with its number.
    pub latest: Option<(nat, DebouncedEvent)>,
}

/// Lets only the last event of a rapid succession through.
///
/// Every event gets a number and takes the place of the one before. Its number
/// is to be handed in when the debounce window is over.
pub struct Debouncer {
    counter: u64,
    latest: Option<(u64, DebouncedEvent)>,
}

impl View for Debouncer {
    type V = DebouncerState;

    closed spec fn view(&self) -> DebouncerState {
        DebouncerState {
            counter: self.counter as nat,
            latest: match self.latest {
                Some((id, event)) => Some((id as nat, event)),
                None => None,
            },
        }
    }
}

impl DebouncerState {
    /// The state after one more event.
    pub open spec fn queued(self, event: DebouncedEvent) -> DebouncerState {
        DebouncerState { counter: self.counter + 1, latest: Some((self.counter + 1, event)) }
    }

    /// The state after a succession of events.
    pub open spec fn queued_all(self, events: Seq<DebouncedEvent>) -> DebouncerState
        decreases events.len(),
    {
        if events.len() == 0 {
            self
        } else {
            self.queued_all(events.drop_last()).queued(events.last())
        }
    }

    /// The event that is processed when the window of event number `id` is
    /// over: the one with this number, if it is the last and still waits.
    pub open spec fn due(self, id: nat) -> Option<DebouncedEvent> {
        match self.latest {
            Some((latest, event)) if self.counter == id && latest == id => Some(event),
            _ => None,
        }
    }

    /// The state after the window of event number `id` is over.
    pub open spec fn released(self, id: nat) -> DebouncerState {
        match self.due(id) {
            Some(_) => DebouncerState { latest: None, ..self },
            None => self,
        }
    }
}

impl Debouncer {
    /// A debouncer that was given no event yet.
    pub fn new() -> (debouncer: Debouncer)
        ensures
            debouncer@ == (DebouncerState { counter: 0, latest: None }),
    {
        Debouncer { counter: 0, latest: None }
    }

    /// Whether there is a number left for one more event.
    pub fn has_room(&self) -> (room: bool)
        ensures
            room == (self@.counter < u64::MAX),
    {
        self.counter < u64::MAX
    }

    /// Takes an event in and gives it a number.
    pub fn queue(&mut self, event: DebouncedEvent) -> (id: u64)
        requires
            old(self)@.counter < u64::MAX,
        ensures
            id == old(self)@.counter + 1,
            final(self)@ == old(self)@.queued(event),
    {
        self.counter = self.counter + 1;
        self.latest = Some((self.counter, event));
        self.counter
    }

    /// Hands out event number `id` for processing, if it is the last one and
    /// was not handed out before.
    pub fn release(&mut self, id: u64) -> (event: Option<DebouncedEvent>)
        ensures
            event == old(self)@.due(id as nat),
            final(self)@ == old(self)@.released(id as nat),
    {
        if self.counter != id {
            return None;
        }
        match self.latest.take() {
            Some((latest, event)) => {
                if latest == id {
                    Some(event)
                } else {
                    self.latest = Some((latest, event));
                    None
                }
            },
            None => None,
        }
    }
}

/// Of events in rapid succession only the last one is processed: once they are
/// all in, its number is the only one that gives an event.
pub proof fn only_the_last_event_is_processed(
    before: DebouncerState,
    events: Seq<DebouncedEvent>,
    id: nat,
)
    requires
        events.len() > 0,
    ensures
        before.queued_all(events).counter == before.counter + events.len(),
        before.queued_all(events).due(id) == (if id == before.counter + events.len() {
            Some(events.last())
        } else {
            None
        }),
    decreases events.len(),
{
    if events.len() > 1 {
        only_the_last_event_is_processed(before, events.drop_last(), id);
    } else {
        assert(before.queued_all(events.drop_last()) == before);
    }
}

/// An event is processed once: after it was, neither its number nor another
/// one gives an event until a new one comes in.
pub proof fn an_event_is_processed_once(before: DebouncerState, id: nat, other: nat)
    requires
        before.due(id) is Some,
    ensures
        before.released(id).due(other) is None,
{
}

/// A window that is over for an event that others followed changes nothing:
/// the last event is still processed in its turn.
pub proof fn a_discarded_event_changes_nothing(before: DebouncerState, id: nat)
    requires
        id != before.counter,
    ensures
        before.due(id) is None,
        before.released(id) == before,
{
}

/// Events have different numbers: each gets one above all before.
pub proof fn every_event_has_its_own_number(
    before: DebouncerState,
    events: Seq<DebouncedEvent>,
    event: DebouncedEvent,
)
    ensures
        before.queued_all(events).queued(event).counter == before.counter + events.len() + 1,
    decreases events.len(),
{
    if events.len() > 0 {
        every_event_has_its_own_number(before, events.drop_last(), events.last());
    }
}

/// Something that is done to a debouncer.
pub enum DebounceStep {
    /// An event comes in.
    Queue(DebouncedEvent),
    /// The window of the event with this number is over.
    Release(nat),
}

impl DebouncerState {
    /// The state after these steps.
    pub open spec fn after(self, steps: Seq<DebounceStep>) -> DebouncerState
        decreases steps.len(),
    {
        if steps.len() == 0 {
            self
        } else {
            let before = self.after(steps.drop_last());
            match steps.last() {
                DebounceStep::Queue(event) => before.queued(event),
                DebounceStep::Release(id) => before.released(id),
            }
        }
    }
}

/// How many events come in with these steps.
pub open spec fn arrivals(steps: Seq<DebounceStep>) -> nat
    decreases steps.len(),
{
    if steps.len() == 0 {
        0
    } else {
        arrivals(steps.drop_last()) + (if steps.last() is Queue {
            1nat
        } else {
            0
        })
    }
}

/// Releasing an event takes it out at most: the number of the last event stays,
/// so that those to come have numbers of their own.
pub proof fn releasing_keeps_the_count(before: DebouncerState, id: nat)
    ensures
        before.released(id).counter == before.counter,
        before.released(id).latest == before.latest || before.released(id).latest is None,
        before.due(id) is Some <==> before.released(id) != before,
{
}

/// The number of the last event is the number of events that came in, whatever
/// was released meanwhile: there is room for one more as long as fewer than
/// the largest number came in.
pub proof fn events_are_counted(before: DebouncerState, steps: Seq<DebounceStep>)
    ensures
        before.after(steps).counter == before.counter + arrivals(steps),
    decreases steps.len(),
{
    if steps.len() > 0 {
        events_are_counted(before, steps.drop_last());
    }
}

/// An event that no other one follows waits for its own window: it is processed
/// then, and nothing before takes it out.
pub proof fn the_last_event_waits_for_its_window(
    before: DebouncerState,
    event: DebouncedEvent,
    steps: Seq<DebounceStep>,
)
    requires
        forall|i: int|
            0 <= i < steps.len() ==> (#[trigger] steps[i] matches DebounceStep::Release(id) && id
                != before.counter + 1),
    ensures
        before.queued(event).after(steps).due(before.counter + 1) == Some(event),
        before.queued(event).after(steps).released(before.counter + 1) == (DebouncerState {
            counter: before.counter + 1,
            latest: None,
        }),
    decreases steps.len(),
{
    if steps.len() > 0 {
        let fewer = steps.drop_last();
        assert forall|i: int| 0 <= i < fewer.len() implies (
        #[trigger] fewer[i] matches DebounceStep::Release(id) && id != before.counter + 1) by {
            assert(fewer[i] == steps[i]);
        }
        the_last_event_waits_for_its_window(before, event, fewer);
        events_are_counted(before.queued(event), fewer);
        assert(steps.last() == steps[steps.len() - 1]);
        no_arrivals(fewer);
    }
}

proof fn no_arrivals(steps: Seq<DebounceStep>)
    requires
        forall|i: int| 0 <= i < steps.len() ==> #[trigger] steps[i] is Release,
    ensures
        arrivals(steps) == 0,
    decreases steps.len(),
{
    if steps.len() > 0 {
        let fewer = steps.drop_last();
        assert forall|i: int| 0 <= i < fewer.len() implies #[trigger] fewer[i] is Release by {
            assert(fewer[i] == steps[i]);
        }
        no_arrivals(fewer);
        assert(steps.last() == steps[steps.len() - 1]);
    }
}

} // verus!
