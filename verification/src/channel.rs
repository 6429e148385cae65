//! The channel over which values are broadcast.
//!
//! It is `tokio`'s watch channel: receivers see the value that was sent last.
use std::sync::Arc;

use vstd::prelude::*;

verus! {

/// The sending half of a watch channel.
#[verifier::external_type_specification]
#[verifier::external_body]
#[verifier::reject_recursive_types(T)]
pub struct ExWatchSender<T>(tokio::sync::watch::Sender<T>);

/// The receiving half of a watch channel.
#[verifier::external_type_specification]
#[verifier::external_body]
#[verifier::reject_recursive_types(T)]
pub struct ExWatchReceiver<T>(tokio::sync::watch::Receiver<T>);

/// Why waiting for a change ended without one: the sending half is gone.
#[verifier::external_type_specification]
#[verifier::external_body]
pub struct ExRecvError(tokio::sync::watch::error::RecvError);

/// What a channel is: two channels are told apart by their sending halves.
#[verifier::reject_recursive_types(T)]
pub struct ChannelModel<T> {
    /// The sending half.
    pub sender: tokio::sync::watch::Sender<Option<T>>,
    /// The values that the channel holds at any time, those to come included.
    pub lifetime: Set<Option<T>>,
}

/// A value that was handed to a channel, and whether the channel took it. It
/// refuses a value only if no receiver is left.
pub struct Attempt<T> {
    pub value: Option<T>,
    pub taken: bool,
}

/// Whether a channel took all that was handed to it.
pub open spec fn all_taken<T>(attempts: Seq<Attempt<T>>) -> bool {
    forall|i: int| 0 <= i < attempts.len() ==> (#[trigger] attempts[i]).taken
}

/// The sending half of a channel of optional values. A channel has one.
#[verifier::reject_recursive_types(T)]
pub struct Publisher<T> {
    tx: tokio::sync::watch::Sender<Option<T>>,
    held: Ghost<Seq<Option<T>>>,
    lifetime: Ghost<Set<Option<T>>>,
    tried: Ghost<Seq<Attempt<T>>>,
}

/// A receiving half of a channel of optional values.
#[verifier::reject_recursive_types(T)]
pub struct Subscriber<T> {
    rx: tokio::sync::watch::Receiver<Option<T>>,
    source: Ghost<ChannelModel<T>>,
}

impl<T> View for Publisher<T> {
    type V = Seq<Option<T>>;

    /// The values that the channel has held, oldest first: the one that it was
    /// opened with, then each one that was sent while a receiver was left.
    closed spec fn view(&self) -> Seq<Option<T>> {
        self.held@
    }
}

impl<T> Publisher<T> {
    /// The channel that values are sent over.
    pub closed spec fn channel(&self) -> ChannelModel<T> {
        ChannelModel { sender: self.tx, lifetime: self.lifetime@ }
    }

    /// The values that were handed to the channel, oldest first.
    pub closed spec fn attempts(&self) -> Seq<Attempt<T>> {
        self.tried@
    }
}

impl<T> Subscriber<T> {
    /// The channel that values are received over.
    pub closed spec fn channel(&self) -> ChannelModel<T> {
        self.source@
    }

    /// The receiver of the channel: which channel it is, and how far its
    /// values were seen.
    pub closed spec fn receiver(&self) -> tokio::sync::watch::Receiver<Option<T>> {
        self.rx
    }
}

/// `b` is what cloning `a` may give.
pub open spec fn cloned_option<T: Clone>(a: Option<T>, b: Option<T>) -> bool {
    match (a, b) {
        (Some(x), Some(y)) => cloned(x, y),
        (None, None) => true,
        _ => false,
    }
}

/// `value` is a copy of one of these values.
pub open spec fn was_held<T: Clone>(values: Set<Option<T>>, value: Option<T>) -> bool {
    exists|held: Option<T>| #[trigger] values.contains(held) && cloned_option(held, value)
}

/// If the values that a channel has held went from `before` to `after`, the
/// new one is among those that it holds at any time.
pub open spec fn newly_held<T>(
    before: Seq<Option<T>>,
    after: Seq<Option<T>>,
    lifetime: Set<Option<T>>,
) -> bool {
    after != before ==> lifetime.contains(after.last())
}

/// `tokio::sync::watch::channel`: opens a channel that holds `initial`.
#[verifier::external_body]
fn watch_channel<T>(initial: Option<T>) -> (halves: (Publisher<T>, Subscriber<T>))
    ensures
        halves.0@ == seq![initial],
        halves.0.attempts() == Seq::<Attempt<T>>::empty(),
        halves.0.channel().lifetime.contains(initial),
        halves.1.channel() == halves.0.channel(),
{
    let held = Ghost(seq![initial]);
    let lifetime: Ghost<Set<Option<T>>> = Ghost(arbitrary());
    let (tx, rx) = tokio::sync::watch::channel(initial);
    let source = Ghost(ChannelModel { sender: tx, lifetime: lifetime@ });
    let tried = Ghost(Seq::empty());
    (Publisher { tx, held, lifetime, tried }, Subscriber { rx, source })
}

/// `tokio::sync::watch::Sender::send`: the channel holds `value` from now on,
/// or, where no receiver is left, keeps what it held and hands `value` back.
/// Where a receiver of the same channel is at hand, one is left, and one was
/// left at all times before: receivers come from receivers only. Where none is
/// at hand, it is left open which of the two happens: receivers are dropped
/// elsewhere.
#[verifier::external_body]
fn watch_send<T>(
    publisher: &mut Publisher<T>,
    value: Option<T>,
    receiver: Option<&Subscriber<T>>,
) -> (sent: Result<(), Option<T>>)
    ensures
        sent is Ok ==> final(publisher)@ == old(publisher)@.push(value),
        sent is Ok ==> old(publisher).channel().lifetime.contains(value),
        sent is Err ==> final(publisher)@ == old(publisher)@ && sent->Err_0 == value,
        final(publisher).attempts() == old(publisher).attempts().push(
            Attempt { value, taken: sent is Ok },
        ),
        receiver matches Some(rx) ==> rx.channel() == old(publisher).channel() ==> sent is Ok
            && all_taken(old(publisher).attempts()),
        final(publisher).channel() == old(publisher).channel(),
{
    publisher.tx.send(value).map_err(|error| error.0)
}

/// `tokio::sync::watch::Receiver::borrow`: a copy of what the channel holds at
/// the moment of the call. Where the sending half of the same channel is at
/// hand, and so nobody sends meanwhile, that is the value that was sent last.
/// Where it is not, it may be any value that the channel holds at some time.
#[verifier::external_body]
fn watch_borrow<T: Clone>(
    subscriber: &Subscriber<T>,
    publisher: Option<&Publisher<T>>,
) -> (value: Option<T>)
    ensures
        was_held(subscriber.channel().lifetime, value),
        publisher matches Some(sender) ==> sender.channel() == subscriber.channel()
            ==> cloned_option(sender@.last(), value),
{
    subscriber.rx.borrow().clone()
}

/// `tokio::sync::watch::Receiver::borrow` on a channel of shared values: what
/// the channel holds at the moment of the call. `Arc::clone` makes one more
/// pointer to the same value, so that it is the value itself and no copy.
#[verifier::external_body]
fn watch_borrow_shared<V>(
    subscriber: &Subscriber<Arc<V>>,
    publisher: Option<&Publisher<Arc<V>>>,
) -> (value: Option<Arc<V>>)
    ensures
        subscriber.channel().lifetime.contains(value),
        publisher matches Some(sender) ==> sender.channel() == subscriber.channel() ==> value
            == sender@.last(),
{
    subscriber.rx.borrow().clone()
}

/// `tokio::sync::watch::Receiver::clone`: one more receiver of the channel. It
/// equals the one it is made from: it is of the same channel, and has seen the
/// same values of it.
#[verifier::external_body]
fn watch_subscribe<T>(rx: &tokio::sync::watch::Receiver<Option<T>>) -> (other:
    tokio::sync::watch::Receiver<Option<T>>)
    ensures
        other == *rx,
{
    rx.clone()
}

/// Opens a channel that holds `initial`.
pub fn open<T>(initial: Option<T>) -> (halves: (Publisher<T>, Subscriber<T>))
    ensures
        halves.0@ == seq![initial],
        halves.0.attempts() == Seq::<Attempt<T>>::empty(),
        halves.0.channel().lifetime.contains(initial),
        halves.1.channel() == halves.0.channel(),
{
    watch_channel(initial)
}

impl<T> Publisher<T> {
    /// Sends a value to all receivers; it comes back if there are none.
    pub fn publish(&mut self, value: Option<T>) -> (sent: Result<(), Option<T>>)
        ensures
            sent is Ok ==> final(self)@ == old(self)@.push(value),
            sent is Ok ==> old(self).channel().lifetime.contains(value),
            sent is Err ==> final(self)@ == old(self)@ && sent->Err_0 == value,
            final(self).attempts() == old(self).attempts().push(
                Attempt { value, taken: sent is Ok },
            ),
            final(self).channel() == old(self).channel(),
    {
        watch_send(self, value, None)
    }

    /// Sends a value to all receivers while one of them is at hand: if that is
    /// one of this channel, the value is sent.
    pub fn publish_to(&mut self, value: Option<T>, receiver: &Subscriber<T>) -> (sent: Result<
        (),
        Option<T>,
    >)
        ensures
            receiver.channel() == old(self).channel() ==> sent is Ok && all_taken(
                old(self).attempts(),
            ),
            sent is Ok ==> final(self)@ == old(self)@.push(value),
            sent is Ok ==> old(self).channel().lifetime.contains(value),
            sent is Err ==> final(self)@ == old(self)@ && sent->Err_0 == value,
            final(self).attempts() == old(self).attempts().push(
                Attempt { value, taken: sent is Ok },
            ),
            final(self).channel() == old(self).channel(),
    {
        watch_send(self, value, Some(receiver))
    }
}

impl<T> Subscriber<T> {
    /// One more receiver of the channel, to wait on for changes. It has seen
    /// the values that this one has.
    pub fn changes(&self) -> (changes: tokio::sync::watch::Receiver<Option<T>>)
        ensures
            changes == self.receiver(),
    {
        watch_subscribe(&self.rx)
    }
}

impl<T> Clone for Subscriber<T> {
    fn clone(&self) -> (other: Self)
        ensures
            other == *self,
    {
        Subscriber { rx: watch_subscribe(&self.rx), source: Ghost(self.source@) }
    }
}

impl<T: Clone> Subscriber<T> {
    /// A copy of the value that the channel holds. Which one that is depends on
    /// when this is called: the sending half may be used elsewhere at any time.
    pub fn latest(&self) -> (value: Option<T>)
        ensures
            was_held(self.channel().lifetime, value),
    {
        watch_borrow(self, None)
    }

    /// A copy of the value that the channel holds while its sending half is
    /// at rest: the one that was sent last.
    pub fn latest_from(&self, publisher: &Publisher<T>) -> (value: Option<T>)
        ensures
            was_held(self.channel().lifetime, value),
            publisher.channel() == self.channel() ==> cloned_option(publisher@.last(), value),
    {
        watch_borrow(self, Some(publisher))
    }
}

impl<V> Subscriber<Arc<V>> {
    /// The value that the channel holds. Which one that is depends on when this
    /// is called: the sending half may be used elsewhere at any time.
    pub fn shared(&self) -> (value: Option<Arc<V>>)
        ensures
            self.channel().lifetime.contains(value),
    {
        watch_borrow_shared(self, None)
    }

    /// The value that the channel holds while its sending half is at rest: the
    /// one that was sent last.
    pub fn shared_from(&self, publisher: &Publisher<Arc<V>>) -> (value: Option<Arc<V>>)
        ensures
            self.channel().lifetime.contains(value),
            publisher.channel() == self.channel() ==> value == publisher@.last(),
    {
        watch_borrow_shared(self, Some(publisher))
    }
}

/// What was held is a copy of one of the values: there is none if that one was
/// none, and else it is what cloning that one gives.
pub proof fn what_was_held_is_a_copy<T: Clone>(values: Set<Option<T>>, value: Option<T>)
    requires
        was_held(values, value),
    ensures
        exists|held: Option<T>| #[trigger]
            values.contains(held) && match value {
                Some(copy) => held is Some && cloned(held->0, copy),
                None => held is None,
            },
{
    let held = choose|held: Option<T>| #[trigger]
        values.contains(held) && cloned_option(held, value);
    assert(values.contains(held));
}

/// A value that is new to a channel is one that it holds, and a channel that
/// took all refused none.
pub proof fn what_new_values_are<T>(
    before: Seq<Option<T>>,
    value: Option<T>,
    lifetime: Set<Option<T>>,
    attempts: Seq<Attempt<T>>,
    i: int,
)
    ensures
        newly_held(before, before.push(value), lifetime) ==> lifetime.contains(value),
        all_taken(attempts) && 0 <= i < attempts.len() ==> attempts[i].taken,
{
    assert(before.push(value).len() != before.len());
    assert(before.push(value).last() == value);
}

} // verus!
