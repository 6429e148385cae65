//! A periodic reloader whose targets say themselves whether they are updated.
use std::sync::Arc;

use vstd::prelude::*;

use crate::channel::{newly_held, open, Attempt, ChannelModel, Publisher, Subscriber};
use crate::periodic::{disseminate, disseminate_to, was_disseminated, was_tried, PeriodicStep};

verus! {

/// Errors that can occur during reloading operations
#[derive(Debug)]
pub enum ReloaderError {
    /// The sending half of the channel is gone.
    WatchRecvError,
    /// The target could not be reloaded.
    Reload(&'static str),
    /// Any other failure, with its message.
    Other(String),
}

impl ReloaderError {
    /// The text of the error.
    pub fn message(&self) -> (text: String)
        ensures
            text@ == (match *self {
                ReloaderError::WatchRecvError => "Error at watcher receiver"@,
                ReloaderError::Reload(reason) => "Failed to reload: "@ + reason@,
                ReloaderError::Other(message) => message@,
            }),
    {
        match self {
            ReloaderError::WatchRecvError => "Error at watcher receiver".to_owned(),
            ReloaderError::Reload(reason) => "Failed to reload: ".to_owned().concat(reason),
            ReloaderError::Other(message) => message.clone(),
        }
    }
}

/// Sends reloaded values to all receivers.
#[verifier::reject_recursive_types(V)]
pub struct ReloaderSender<V> {
    inner: Publisher<Arc<V>>,
}

/// Receives reloaded values.
#[verifier::reject_recursive_types(V)]
pub struct ReloaderReceiver<V> {
    inner: Subscriber<Arc<V>>,
}

impl<V> ReloaderReceiver<V> {
    /// The channel that values are received over.
    pub closed spec fn channel(&self) -> ChannelModel<Arc<V>> {
        self.inner.channel()
    }

    /// The receiver of the channel: which channel it is, and how far its
    /// values were seen.
    pub closed spec fn receiver(&self) -> tokio::sync::watch::Receiver<Option<Arc<V>>> {
        self.inner.receiver()
    }

    /// One more receiver of the channel, to wait on for changes. It has seen
    /// the values that this one has.
    pub fn changes(&self) -> (changes: tokio::sync::watch::Receiver<Option<Arc<V>>>)
        ensures
            changes == self.receiver(),
    {
        self.inner.changes()
    }

    /// What waiting for the value to change came to.
    pub fn changed(waited: Result<(), tokio::sync::watch::error::RecvError>) -> (outcome: Result<
        (),
        ReloaderError,
    >)
        ensures
            outcome == (match waited {
                Ok(()) => Ok::<(), ReloaderError>(()),
                Err(_) => Err(ReloaderError::WatchRecvError),
            }),
    {
        match waited {
            Ok(()) => Ok(()),
            Err(_) => Err(ReloaderError::WatchRecvError),
        }
    }

    /// The current value. Which one that is depends on when this is called: the
    /// service may broadcast another one at any time.
    pub fn borrow(&self) -> (value: Option<Arc<V>>)
        ensures
            self.channel().lifetime.contains(value),
    {
        self.inner.shared()
    }

    /// The current value while the service is at rest: the one that it
    /// broadcast last.
    pub fn borrow_at_rest(&self, service: &ReloaderService<V>) -> (value: Option<Arc<V>>)
        ensures
            self.channel().lifetime.contains(value),
            service.channel() == self.channel() ==> value == service@.last(),
    {
        self.inner.shared_from(&service.tx.inner)
    }
}

impl<V> Clone for ReloaderReceiver<V> {
    fn clone(&self) -> (other: Self)
        ensures
            other == *self,
    {
        ReloaderReceiver { inner: self.inner.clone() }
    }
}

/// Reloads a target at a fixed period.
#[verifier::reject_recursive_types(V)]
pub struct ReloaderService<V> {
    tx: ReloaderSender<V>,
    watch_delay_sec: u32,
}

impl<V> View for ReloaderService<V> {
    type V = Seq<Option<Arc<V>>>;

    /// The values that receivers could get, oldest first.
    closed spec fn view(&self) -> Seq<Option<Arc<V>>> {
        self.tx.inner@
    }
}

impl<V> ReloaderService<V> {
    /// The channel that values are broadcast over.
    pub closed spec fn channel(&self) -> ChannelModel<Arc<V>> {
        self.tx.inner.channel()
    }

    /// The values that were handed to the channel, oldest first.
    pub closed spec fn attempts(&self) -> Seq<Attempt<Arc<V>>> {
        self.tx.inner.attempts()
    }

    /// Seconds between two reloads.
    pub closed spec fn delay(&self) -> u32 {
        self.watch_delay_sec
    }

    /// Create a service for a target whose first reload gave `initial`.
    pub fn new(initial: Result<Option<Arc<V>>, ReloaderError>, watch_delay_sec: u32) -> (made: Result<
        (Self, ReloaderReceiver<V>),
        ReloaderError,
    >)
        ensures
            match initial {
                Ok(value) => {
                    &&& made matches Ok((service, receiver))
                    &&& service@ == seq![value]
                    &&& service.attempts() == Seq::<Attempt<Arc<V>>>::empty()
                    &&& service.channel().lifetime.contains(value)
                    &&& service.delay() == watch_delay_sec
                    &&& receiver.channel() == service.channel()
                },
                Err(error) => made == Err::<(Self, ReloaderReceiver<V>), ReloaderError>(error),
            },
    {
        match initial {
            Ok(value) => {
                let (publisher, subscriber) = open(value);
                Ok(
                    (
                        ReloaderService {
                            tx: ReloaderSender { inner: publisher },
                            watch_delay_sec,
                        },
                        ReloaderReceiver { inner: subscriber },
                    ),
                )
            },
            Err(error) => Err(error),
        }
    }

    /// One round of a started service, for what a reload of the target gave:
    /// an updated value is broadcast. `None` says that it was not updated.
    pub fn start(&mut self, reloaded: Result<Option<Arc<V>>, ReloaderError>) -> (step: PeriodicStep)
        ensures
            was_disseminated(old(self)@, old(self).delay(), reloaded, final(self)@, step),
            final(self).delay() == old(self).delay(),
            was_tried(old(self).attempts(), reloaded, final(self).attempts(), step),
            newly_held(old(self)@, final(self)@, old(self).channel().lifetime),
            final(self).channel() == old(self).channel(),
    {
        disseminate(&mut self.tx.inner, self.watch_delay_sec, reloaded)
    }

    /// One round of a started service while a receiver is at hand: if that is
    /// one of this service, an updated value is broadcast and the service goes
    /// on.
    pub fn start_to(
        &mut self,
        reloaded: Result<Option<Arc<V>>, ReloaderError>,
        receiver: &ReloaderReceiver<V>,
    ) -> (step: PeriodicStep)
        ensures
            was_disseminated(old(self)@, old(self).delay(), reloaded, final(self)@, step),
            receiver.channel() == old(self).channel() ==> step == PeriodicStep::Sleep(
                old(self).delay() as u64,
            ),
            final(self).delay() == old(self).delay(),
            was_tried(old(self).attempts(), reloaded, final(self).attempts(), step),
            newly_held(old(self)@, final(self)@, old(self).channel().lifetime),
            final(self).channel() == old(self).channel(),
    {
        disseminate_to(&mut self.tx.inner, self.watch_delay_sec, reloaded, &receiver.inner)
    }
}

} // verus!
