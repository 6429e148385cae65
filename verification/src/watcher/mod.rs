//! A demonstration that watches its own configuration.
use std::sync::Arc;

use vstd::prelude::*;

use crate::channel::{newly_held, open, Attempt, ChannelModel, Publisher, Subscriber};
use crate::periodic::{disseminate, disseminate_to, was_disseminated, was_tried, PeriodicStep};

pub mod config;
pub mod server;

verus! {

/// Sends watched values to all receivers.
#[verifier::reject_recursive_types(V)]
pub struct WatcherSender<V> {
    inner: Publisher<Arc<V>>,
}

/// Receives watched values.
#[verifier::reject_recursive_types(V)]
pub struct WatcherReceiver<V> {
    inner: Subscriber<Arc<V>>,
}

impl<V> WatcherReceiver<V> {
    /// The channel that values are received over.
    pub closed spec fn channel(&self) -> ChannelModel<Arc<V>> {
        self.inner.channel()
    }

    /// The receiver of the channel: which channel it is, and how far its
    /// values were seen.
    pub closed spec fn receiver(&self) -> tokio::sync::watch::Receiver<Option<Arc<V>>> {
        self.inner.receiver()
    }

    /// One more receiver of the channel, to wait on for changes. It has seen
    /// the values that this one has.
    pub fn changes(&self) -> (changes: tokio::sync::watch::Receiver<Option<Arc<V>>>)
        ensures
            changes == self.receiver(),
    {
        self.inner.changes()
    }

    /// The current value. Which one that is depends on when this is called: the
    /// service may broadcast another one at any time.
    pub fn borrow(&self) -> (value: Option<Arc<V>>)
        ensures
            self.channel().lifetime.contains(value),
    {
        self.inner.shared()
    }

    /// The current value while the service is at rest: the one that it
    /// broadcast last.
    pub fn borrow_at_rest(&self, service: &WatcherService<V>) -> (value: Option<Arc<V>>)
        ensures
            self.channel().lifetime.contains(value),
            service.channel() == self.channel() ==> value == service@.last(),
    {
        self.inner.shared_from(&service.tx.inner)
    }
}

impl<V> Clone for WatcherReceiver<V> {
    fn clone(&self) -> (other: Self)
        ensures
            other == *self,
    {
        WatcherReceiver { inner: self.inner.clone() }
    }
}

/// Watches a target at a fixed period.
#[verifier::reject_recursive_types(V)]
pub struct WatcherService<V> {
    tx: WatcherSender<V>,
    watch_delay_sec: u32,
}

impl<V> View for WatcherService<V> {
    type V = Seq<Option<Arc<V>>>;

    /// The values that receivers could get, oldest first.
    closed spec fn view(&self) -> Seq<Option<Arc<V>>> {
        self.tx.inner@
    }
}

impl<V> WatcherService<V> {
    /// The channel that values are broadcast over.
    pub closed spec fn channel(&self) -> ChannelModel<Arc<V>> {
        self.tx.inner.channel()
    }

    /// The values that were handed to the channel, oldest first.
    pub closed spec fn attempts(&self) -> Seq<Attempt<Arc<V>>> {
        self.tx.inner.attempts()
    }

    /// Seconds between two reloads.
    pub closed spec fn delay(&self) -> u32 {
        self.watch_delay_sec
    }

    /// Create a service for a target whose first reload gave `initial`, or
    /// failed with this message.
    pub fn new(initial: Result<Option<Arc<V>>, String>, watch_delay_sec: u32) -> (made: Result<
        (Self, WatcherReceiver<V>),
        String,
    >)
        ensures
            match initial {
                Ok(value) => {
                    &&& made matches Ok((service, receiver))
                    &&& service@ == seq![value]
                    &&& service.attempts() == Seq::<Attempt<Arc<V>>>::empty()
                    &&& service.channel().lifetime.contains(value)
                    &&& service.delay() == watch_delay_sec
                    &&& receiver.channel() == service.channel()
                },
                Err(error) => made == Err::<(Self, WatcherReceiver<V>), String>(error),
            },
    {
        match initial {
            Ok(value) => {
                let (publisher, subscriber) = open(value);
                Ok(
                    (
                        WatcherService { tx: WatcherSender { inner: publisher }, watch_delay_sec },
                        WatcherReceiver { inner: subscriber },
                    ),
                )
            },
            Err(error) => Err(error),
        }
    }

    /// One round of a started service, for what a reload of the target gave:
    /// an updated value is broadcast. `None` says that it was not updated.
    pub fn start(&mut self, reloaded: Result<Option<Arc<V>>, String>) -> (step: PeriodicStep)
        ensures
            was_disseminated(old(self)@, old(self).delay(), reloaded, final(self)@, step),
            final(self).delay() == old(self).delay(),
            was_tried(old(self).attempts(), reloaded, final(self).attempts(), step),
            newly_held(old(self)@, final(self)@, old(self).channel().lifetime),
            final(self).channel() == old(self).channel(),
    {
        disseminate(&mut self.tx.inner, self.watch_delay_sec, reloaded)
    }

    /// One round of a started service while a receiver is at hand: if that is
    /// one of this service, an updated value is broadcast and the service goes
    /// on.
    pub fn start_to(
        &mut self,
        reloaded: Result<Option<Arc<V>>, String>,
        receiver: &WatcherReceiver<V>,
    ) -> (step: PeriodicStep)
        ensures
            was_disseminated(old(self)@, old(self).delay(), reloaded, final(self)@, step),
            receiver.channel() == old(self).channel() ==> step == PeriodicStep::Sleep(
                old(self).delay() as u64,
            ),
            final(self).delay() == old(self).delay(),
            was_tried(old(self).attempts(), reloaded, final(self).attempts(), step),
            newly_held(old(self)@, final(self)@, old(self).channel().lifetime),
            final(self).channel() == old(self).channel(),
    {
        disseminate_to(&mut self.tx.inner, self.watch_delay_sec, reloaded, &receiver.inner)
    }
}

} // verus!
