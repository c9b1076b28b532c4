//! A bounded queue of bridge messages, held by both of its ends.
//!
//! The queue itself lives in `crossbeam_channel`. This module holds one
//! sending and one receiving endpoint of it side by side and states, for each
//! operation, what the outside crate does to the queue. Those statements are
//! believed, not proved; everything built on them is proved.
//!
//! A queue that is reachable from elsewhere can change at any moment. What
//! this module says of the queue's contents is therefore said under the
//! condition `sole_owner`: that no endpoint exists but the ones held here.

use vstd::prelude::*;
use crate::events::BridgeMessage;

verus! {

/// The sending endpoint of a channel, as `crossbeam_channel` defines it.
#[verifier::external_type_specification]
#[verifier::external_body]
#[verifier::reject_recursive_types(T)]
pub struct ExSender<T>(crossbeam_channel::Sender<T>);

/// The receiving endpoint of a channel, as `crossbeam_channel` defines it.
#[verifier::external_type_specification]
#[verifier::external_body]
#[verifier::reject_recursive_types(T)]
pub struct ExReceiver<T>(crossbeam_channel::Receiver<T>);

/// The error kinds of the bridge. Both are recoverable.
#[derive(Debug, Clone, Copy, PartialEq, Eq, Structural)]
pub enum BridgeError {
    /// No receiving endpoint is left: the message cannot be delivered.
    ChannelDisconnected,
    /// The queue holds as many messages as it may: the message was refused.
    ChannelFull,
}

/// The largest capacity a channel is made with. It keeps the buffer that the
/// outside crate allocates within what an allocation may hold on every
/// platform.
pub const MAX_CAPACITY: usize = 0x10_0000;

/// The messages that wait in the channel between `tx` and `rx`, oldest first.
pub uninterp spec fn queued(
    tx: crossbeam_channel::Sender<BridgeMessage>,
    rx: Option<crossbeam_channel::Receiver<BridgeMessage>>,
) -> Seq<BridgeMessage>;

/// The capacity that the channel between `tx` and `rx` was made with.
pub uninterp spec fn capacity_of(
    tx: crossbeam_channel::Sender<BridgeMessage>,
    rx: Option<crossbeam_channel::Receiver<BridgeMessage>>,
) -> nat;

/// `tx` and `rx` belong to one channel of which no further endpoint was ever
/// made: nothing but a call through these two can touch its queue. With `rx`
/// absent, `tx` is the only endpoint that is left of such a channel.
pub uninterp spec fn sole_owner(
    tx: crossbeam_channel::Sender<BridgeMessage>,
    rx: Option<crossbeam_channel::Receiver<BridgeMessage>>,
) -> bool;

/// The endpoints that this library holds of one channel: the sending one
/// always, the receiving one until it is closed.
pub struct Endpoints {
    tx: crossbeam_channel::Sender<BridgeMessage>,
    rx: Option<crossbeam_channel::Receiver<BridgeMessage>>,
}

/// Makes a channel with `crossbeam_channel::bounded`. The outside function
/// returns the two endpoints of a new, empty channel of the given capacity;
/// it panics where the capacity is too large for its buffer, which the bound
/// excludes.
#[verifier::external_body]
fn channel_open(capacity: usize) -> (ch: Endpoints)
    requires
        capacity <= MAX_CAPACITY,
    ensures
        ch.rx is Some,
        sole_owner(ch.tx, ch.rx),
        queued(ch.tx, ch.rx) == Seq::<BridgeMessage>::empty(),
        capacity_of(ch.tx, ch.rx) == capacity,
{
    let (tx, rx) = crossbeam_channel::bounded(capacity);
    Endpoints { tx, rx: Some(rx) }
}

/// Calls `Sender::try_send`, which never blocks. With no other endpoint
/// around, the outside function refuses the message as disconnected where no
/// receiving endpoint exists, else as full where the queue holds as many
/// messages as its capacity, and else appends it. A refused message is
/// dropped here.
#[verifier::external_body]
fn channel_try_send(ch: &mut Endpoints, message: BridgeMessage) -> (sent: Result<(), BridgeError>)
    ensures
        final(ch).rx is Some <==> old(ch).rx is Some,
        sole_owner(final(ch).tx, final(ch).rx) == sole_owner(old(ch).tx, old(ch).rx),
        sole_owner(old(ch).tx, old(ch).rx) ==> {
            &&& capacity_of(final(ch).tx, final(ch).rx) == capacity_of(old(ch).tx, old(ch).rx)
            &&& sent is Ok <==> old(ch).rx is Some && queued(old(ch).tx, old(ch).rx).len()
                < capacity_of(old(ch).tx, old(ch).rx)
            &&& sent == Err::<(), BridgeError>(BridgeError::ChannelDisconnected) <==> old(ch).rx is None
            &&& queued(final(ch).tx, final(ch).rx) == if sent is Ok {
                queued(old(ch).tx, old(ch).rx).push(message)
            } else {
                queued(old(ch).tx, old(ch).rx)
            }
        },
    no_unwind
{
    match ch.tx.try_send(message) {
        Ok(()) => Ok(()),
        Err(crossbeam_channel::TrySendError::Full(_)) => Err(BridgeError::ChannelFull),
        Err(crossbeam_channel::TrySendError::Disconnected(_)) => Err(
            BridgeError::ChannelDisconnected,
        ),
    }
}

/// Calls `Receiver::try_recv`, which never blocks. With no other endpoint
/// around, the outside function hands out the oldest waiting message and
/// reports an empty queue otherwise; either report of nothing received is
/// handed on as `None`, as is the absence of a receiving endpoint.
#[verifier::external_body]
fn channel_try_recv(ch: &mut Endpoints) -> (received: Option<BridgeMessage>)
    ensures
        final(ch).rx is Some <==> old(ch).rx is Some,
        old(ch).rx is None ==> received is None,
        sole_owner(final(ch).tx, final(ch).rx) == sole_owner(old(ch).tx, old(ch).rx),
        sole_owner(old(ch).tx, old(ch).rx) ==> capacity_of(final(ch).tx, final(ch).rx)
            == capacity_of(old(ch).tx, old(ch).rx),
        sole_owner(old(ch).tx, old(ch).rx) && old(ch).rx is Some ==> {
            &&& received is Some <==> queued(old(ch).tx, old(ch).rx).len() > 0
            &&& received is Some ==> received == Some(queued(old(ch).tx, old(ch).rx)[0])
            &&& queued(final(ch).tx, final(ch).rx) == if received is Some {
                queued(old(ch).tx, old(ch).rx).drop_first()
            } else {
                queued(old(ch).tx, old(ch).rx)
            }
        },
    no_unwind
{
    ch.rx.as_ref()?.try_recv().ok()
}

/// Drops the receiving endpoint. Where it was the channel's last one, the
/// outside crate's `Drop` for `Receiver` disconnects the channel, and the
/// sending endpoint stays its only one.
#[verifier::external_body]
fn channel_close_receiver(ch: &mut Endpoints)
    ensures
        final(ch).rx is None,
        sole_owner(final(ch).tx, final(ch).rx) == sole_owner(old(ch).tx, old(ch).rx),
        sole_owner(old(ch).tx, old(ch).rx) ==> capacity_of(final(ch).tx, final(ch).rx)
            == capacity_of(old(ch).tx, old(ch).rx),
    no_unwind
{
    drop(ch.rx.take());
}

/// Hands out a second sending endpoint, made by `Sender::clone`. From then on
/// the channel has an endpoint that is not held here.
#[verifier::external_body]
fn channel_sender_handle(ch: &mut Endpoints) -> (handle: crossbeam_channel::Sender<BridgeMessage>)
    ensures
        final(ch).rx is Some <==> old(ch).rx is Some,
        !sole_owner(final(ch).tx, final(ch).rx),
    no_unwind
{
    ch.tx.clone()
}

/// Hands out a second receiving endpoint, made by `Receiver::clone`. From then
/// on the channel has an endpoint that is not held here.
#[verifier::external_body]
fn channel_receiver_handle(ch: &mut Endpoints) -> (handle: crossbeam_channel::Receiver<
    BridgeMessage,
>)
    requires
        old(ch).rx is Some,
    ensures
        final(ch).rx is Some,
        !sole_owner(final(ch).tx, final(ch).rx),
    no_unwind
{
    ch.rx.as_ref().unwrap().clone()
}

/// A bounded queue of messages that never blocks its caller.
pub struct Channel {
    ends: Endpoints,
    capacity: usize,
}

impl Channel {
    /// No endpoint of the queue exists outside this value: what is said of
    /// its contents is then exact.
    pub closed spec fn exclusive(self) -> bool {
        sole_owner(self.ends.tx, self.ends.rx)
    }

    /// Whether the receiving endpoint is still held.
    pub closed spec fn receiver_open(self) -> bool {
        self.ends.rx is Some
    }

    /// The messages that wait to be received, oldest first. A queue without
    /// a receiving endpoint holds nothing that anyone could receive.
    pub closed spec fn messages(self) -> Seq<BridgeMessage> {
        if self.ends.rx is Some {
            queued(self.ends.tx, self.ends.rx)
        } else {
            Seq::empty()
        }
    }

    /// The number of messages that the queue may hold.
    pub closed spec fn limit(self) -> nat {
        self.capacity as nat
    }

    #[verifier::type_invariant]
    spec fn inv(self) -> bool {
        &&& self.capacity <= MAX_CAPACITY
        &&& sole_owner(self.ends.tx, self.ends.rx) ==> {
            &&& capacity_of(self.ends.tx, self.ends.rx) == self.capacity
            &&& self.ends.rx is Some ==> queued(self.ends.tx, self.ends.rx).len() <= self.capacity
        }
    }

    /// An empty queue of the given capacity, with both endpoints held.
    pub fn new(capacity: usize) -> (ch: Self)
        requires
            capacity <= MAX_CAPACITY,
        ensures
            ch.exclusive(),
            ch.receiver_open(),
            ch.messages() == Seq::<BridgeMessage>::empty(),
            ch.limit() == capacity,
    {
        Channel { ends: channel_open(capacity), capacity }
    }

    /// The number of messages that the queue may hold. In a queue that
    /// nothing else can reach, no more messages wait than that.
    pub fn capacity(&self) -> (capacity: usize)
        ensures
            capacity == self.limit(),
            capacity <= MAX_CAPACITY,
            self.exclusive() ==> self.messages().len() <= self.limit(),
            !self.receiver_open() ==> self.messages() == Seq::<BridgeMessage>::empty(),
    {
        proof {
            use_type_invariant(self);
        }
        self.capacity
    }

    /// Appends a message unless the queue is disconnected or full. The caller
    /// never waits.
    pub fn try_send(&mut self, message: BridgeMessage) -> (sent: Result<(), BridgeError>)
        ensures
            final(self).limit() == old(self).limit(),
            final(self).receiver_open() == old(self).receiver_open(),
            final(self).exclusive() == old(self).exclusive(),
            old(self).exclusive() ==> {
                &&& sent == old(self).send_outcome()
                &&& final(self).messages() == if sent is Ok {
                    old(self).messages().push(message)
                } else {
                    old(self).messages()
                }
            },
        no_unwind
    {
        proof {
            use_type_invariant(&*self);
        }
        match channel_try_send(&mut self.ends, message) {
            Ok(_) => Ok(()),
            Err(refused) => Err(refused),
        }
    }

    /// What sending a message to a queue in this state gives, provided that
    /// nothing else can reach the queue.
    pub open spec fn send_outcome(self) -> Result<(), BridgeError> {
        if !self.receiver_open() {
            Err(BridgeError::ChannelDisconnected)
        } else if self.messages().len() < self.limit() {
            Ok(())
        } else {
            Err(BridgeError::ChannelFull)
        }
    }

    /// Takes the oldest waiting message, if there is one. The caller never
    /// waits.
    pub fn try_recv(&mut self) -> (received: Option<BridgeMessage>)
        ensures
            final(self).limit() == old(self).limit(),
            final(self).receiver_open() == old(self).receiver_open(),
            !old(self).receiver_open() ==> received is None,
            final(self).exclusive() == old(self).exclusive(),
            old(self).exclusive() ==> {
                &&& received is Some <==> old(self).messages().len() > 0
                &&& received is Some ==> received == Some(old(self).messages()[0])
                &&& final(self).messages() == if received is Some {
                    old(self).messages().drop_first()
                } else {
                    old(self).messages()
                }
            },
        no_unwind
    {
        proof {
            use_type_invariant(&*self);
        }
        channel_try_recv(&mut self.ends)
    }

    /// Gives up the receiving endpoint. Where nothing else can reach the
    /// queue, every later send is refused as disconnected.
    pub fn close_receiver(&mut self)
        ensures
            final(self).limit() == old(self).limit(),
            !final(self).receiver_open(),
            final(self).messages() == Seq::<BridgeMessage>::empty(),
            final(self).exclusive() == old(self).exclusive(),
        no_unwind
    {
        proof {
            use_type_invariant(&*self);
        }
        channel_close_receiver(&mut self.ends)
    }

    /// A further sending endpoint for another owner. The queue can be reached
    /// from elsewhere from now on.
    pub fn sender_handle(&mut self) -> (handle: crossbeam_channel::Sender<BridgeMessage>)
        ensures
            final(self).limit() == old(self).limit(),
            final(self).receiver_open() == old(self).receiver_open(),
            !final(self).exclusive(),
        no_unwind
    {
        proof {
            use_type_invariant(&*self);
        }
        channel_sender_handle(&mut self.ends)
    }

    /// A further receiving endpoint for another owner, where this queue still
    /// holds one. The queue can be reached from elsewhere from now on.
    pub fn receiver_handle(&mut self) -> (handle: Option<
        crossbeam_channel::Receiver<BridgeMessage>,
    >)
        ensures
            final(self).limit() == old(self).limit(),
            final(self).receiver_open() == old(self).receiver_open(),
            handle is Some <==> old(self).receiver_open(),
            handle is Some ==> !final(self).exclusive(),
            handle is None ==> *final(self) == *old(self),
        no_unwind
    {
        proof {
            use_type_invariant(&*self);
        }
        match &self.ends.rx {
            Some(_) => Some(channel_receiver_handle(&mut self.ends)),
            None => None,
        }
    }
}

} // verus!
