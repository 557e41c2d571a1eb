//! A room's broadcast topic: one publish point, many independent subscribers,
//! a bounded buffer per subscriber.
//!
//! The channel itself is tokio's broadcast channel. Its buffer is shared by
//! every handle of one channel and changes under all of them at once, so the
//! contracts below say what holds of every outcome of a call; what a relay
//! does with each outcome is decided, and verified, in the relay module.

use tokio::sync::broadcast::{error::TryRecvError, Receiver, Sender};
use vstd::prelude::*;

verus! {

#[verifier::external_type_specification]
#[verifier::external_body]
#[verifier::reject_recursive_types(T)]
pub struct ExSender<T>(Sender<T>);

#[verifier::external_type_specification]
#[verifier::external_body]
#[verifier::reject_recursive_types(T)]
pub struct ExReceiver<T>(Receiver<T>);

/// Number of messages a topic keeps for each subscriber before that
/// subscriber is considered lagging.
pub const TOPIC_CAPACITY: usize = 128;

/// What one attempt to read from a subscription produced.
pub enum Delivery {
    /// The next message published after the subscriber attached.
    Message(String),
    /// Nothing is waiting right now; the topic is still open.
    Empty,
    /// The subscriber fell behind and this many messages were skipped; it
    /// goes on with the oldest message the topic still holds.
    Lagged(u64),
    /// Every publishing handle is gone; nothing more will arrive.
    Closed,
}

/// Relies on tokio's `broadcast::Sender::new`: a channel with no receiver yet.
/// It panics on a capacity of zero or above `usize::MAX / 2`.
#[verifier::external_body]
fn sender_with_capacity(capacity: usize) -> Sender<String>
    requires
        0 < capacity <= usize::MAX / 2,
{
    Sender::new(capacity)
}

/// Relies on tokio's `Sender::clone`: another handle to the same channel
/// (it shares the channel's state and bumps its sender count).
pub assume_specification<T>[ <Sender<T> as Clone>::clone ](s: &Sender<T>) -> (r: Sender<T>)
    ensures
        r == *s,
;

/// Relies on tokio's `Sender::send`: `Ok` carries the number of receivers
/// attached at that moment (at least one); with none attached the message is
/// handed back and nothing is stored.
#[verifier::external_body]
fn sender_send(s: &Sender<String>, message: String) -> (r: Result<usize, String>)
    ensures
        match r {
            Ok(n) => n >= 1,
            Err(back) => back == message,
        },
{
    s.send(message).map_err(|e| e.0)
}

/// Relies on tokio's `Sender::subscribe`: a receiver of what is sent after
/// this call.
#[verifier::external_body]
fn sender_subscribe(s: &Sender<String>) -> Receiver<String> {
    s.subscribe()
}

/// Relies on tokio's `Receiver::try_recv`: a lag report counts at least one
/// skipped message.
#[verifier::external_body]
fn receiver_try_recv(r: &mut Receiver<String>) -> (d: Delivery)
    ensures
        d matches Delivery::Lagged(n) ==> n > 0,
{
    match r.try_recv() {
        Ok(m) => Delivery::Message(m),
        Err(TryRecvError::Empty) => Delivery::Empty,
        Err(TryRecvError::Lagged(n)) => Delivery::Lagged(n),
        Err(TryRecvError::Closed) => Delivery::Closed,
    }
}

/// The publish/subscribe endpoint of one room. A clone is another handle to
/// the same channel.
#[derive(Clone)]
pub struct Topic {
    sender: Sender<String>,
    capacity: usize,
}

/// One subscriber's receive endpoint.
pub struct Subscription {
    receiver: Receiver<String>,
}

impl Topic {
    /// A topic that keeps up to `capacity` messages per subscriber.
    pub fn new(capacity: usize) -> (t: Topic)
        requires
            0 < capacity <= usize::MAX / 2,
        ensures
            t.capacity() == capacity,
    {
        Topic { sender: sender_with_capacity(capacity), capacity }
    }

    /// A topic of the default capacity.
    pub fn with_default_capacity() -> (t: Topic)
        ensures
            t.capacity() == TOPIC_CAPACITY,
    {
        Topic::new(TOPIC_CAPACITY)
    }

    pub closed spec fn capacity(&self) -> nat {
        self.capacity as nat
    }

    /// The capacity this topic was made with.
    pub fn get_capacity(&self) -> (c: usize)
        ensures
            c == self.capacity(),
    {
        self.capacity
    }

    /// A second handle to the same topic: what is published through either
    /// reaches the subscribers of both.
    pub fn handle(&self) -> (t: Topic)
        ensures
            t == *self,
    {
        Topic { sender: self.sender.clone(), capacity: self.capacity }
    }

    /// Hands `message` to every subscriber attached now and returns how many
    /// there were. Publishing always succeeds and never waits: with no
    /// subscriber attached the count is 0 and the message is discarded, so a
    /// later subscriber never sees it.
    pub fn publish(&self, message: String) -> (n: usize) {
        match sender_send(&self.sender, message) {
            Ok(n) => n,
            Err(_discarded) => 0,
        }
    }

    /// A new subscriber that sees every message published from now on.
    pub fn subscribe(&self) -> Subscription {
        Subscription { receiver: sender_subscribe(&self.sender) }
    }
}

impl Subscription {
    /// Takes the next message for this subscriber without waiting.
    pub fn try_receive(&mut self) -> (d: Delivery)
        ensures
            d matches Delivery::Lagged(n) ==> n > 0,
    {
        receiver_try_recv(&mut self.receiver)
    }

    /// The underlying receiver, for a task that waits on it.
    pub fn into_receiver(self) -> Receiver<String> {
        self.receiver
    }
}

} // verus!
