//! The event bus: a multi-subscriber, drop-oldest broadcast channel owned
//! by each controller. It bridges the input loop to any number of
//! consumers.
//!
//! Every subscriber observes the events published after it subscribed, in
//! publication order. A subscriber that falls behind the channel's bounded
//! buffer loses only its own view of the oldest unconsumed events and is
//! handed a lag signal; it never blocks the publisher or other subscribers.
//! The channel itself is tokio's broadcast channel, reached through the
//! trusted declarations below.

use vstd::prelude::*;

use tokio::sync::broadcast::Receiver;
use tokio::sync::broadcast::Sender;

use crate::events::ControllerEvent;
use crate::lights::copy_updates;

verus! {

#[verifier::external_type_specification]
#[verifier::external_body]
#[verifier::reject_recursive_types(T)]
pub struct ExBroadcastSender<T>(Sender<T>);

#[verifier::external_type_specification]
#[verifier::external_body]
#[verifier::reject_recursive_types(T)]
pub struct ExBroadcastReceiver<T>(Receiver<T>);

/// One non-blocking attempt to receive the next event from a subscription:
/// either an event, or the reason none was handed over.
#[derive(Clone, Debug, PartialEq)]
pub enum BusPoll {
    /// The next pending event, in publication order.
    Event(ControllerEvent),
    /// Nothing pending right now; the publisher is still alive.
    Empty,
    /// The publisher is gone; no further event will ever arrive.
    Closed,
    /// The subscriber fell behind and the channel dropped its view of the
    /// oldest events; the count says how many were skipped.
    Lagged(u64),
}

/// Relies on tokio::sync::broadcast::channel: panics only when the capacity
/// is zero or exceeds half the usize range; otherwise returns the two
/// halves of a fresh channel.
#[verifier::external_body]
fn broadcast_channel(capacity: usize) -> (r: (Sender<ControllerEvent>, Receiver<ControllerEvent>))
    requires
        1 <= capacity <= usize::MAX / 2,
{
    tokio::sync::broadcast::channel(capacity)
}

/// Relies on tokio::sync::broadcast::Sender::send: on success the result is
/// the number of live receivers, at least one; when no receiver exists the
/// value comes back unchanged in the error and is dropped.
#[verifier::external_body]
fn broadcast_send(sender: &Sender<ControllerEvent>, event: ControllerEvent) -> (r: Result<
    usize,
    ControllerEvent,
>)
    ensures
        r matches Ok(n) ==> n >= 1,
        r matches Err(e) ==> e == event,
{
    match sender.send(event) {
        Ok(n) => Ok(n),
        Err(tokio::sync::broadcast::error::SendError(e)) => Err(e),
    }
}

/// Relies on tokio::sync::broadcast::Receiver::resubscribe: yields a fresh,
/// independent receiver on the same channel that observes the values sent
/// after this call.
#[verifier::external_body]
fn broadcast_resubscribe(receiver: &Receiver<ControllerEvent>) -> (r: Receiver<ControllerEvent>) {
    receiver.resubscribe()
}

/// Relies on tokio::sync::broadcast::Receiver::try_recv: without blocking,
/// yields the receiver's next pending value, or reports the channel empty,
/// closed, or — after the receiver fell behind — lagged by the number of
/// values it missed.
#[verifier::external_body]
fn broadcast_try_recv(receiver: &mut Receiver<ControllerEvent>) -> (r: BusPoll) {
    match receiver.try_recv() {
        Ok(event) => BusPoll::Event(event),
        Err(tokio::sync::broadcast::error::TryRecvError::Empty) => BusPoll::Empty,
        Err(tokio::sync::broadcast::error::TryRecvError::Closed) => BusPoll::Closed,
        Err(tokio::sync::broadcast::error::TryRecvError::Lagged(n)) => BusPoll::Lagged(n),
    }
}

/// The broadcast bus one controller publishes its events on. It keeps one
/// receiving half of its own so that the channel stays open for as long as
/// the controller lives.
pub struct EventBus {
    sender: Sender<ControllerEvent>,
    keeper: Receiver<ControllerEvent>,
}

/// An independent subscription to one controller's event bus.
pub struct EventReceiver {
    inner: Receiver<ControllerEvent>,
}

impl EventBus {
    /// A fresh bus whose channel retains up to `capacity` events per
    /// subscriber before the oldest are dropped.
    pub fn new(capacity: usize) -> (bus: EventBus)
        requires
            1 <= capacity <= usize::MAX / 2,
    {
        let (sender, keeper) = broadcast_channel(capacity);
        EventBus { sender, keeper }
    }

    /// Hands the event to every live subscriber, never blocking: on success
    /// the result counts the subscribers; with none listening, the event
    /// comes back unchanged — a non-fatal outcome, left to the caller to
    /// log or drop.
    pub fn publish(&self, event: ControllerEvent) -> (r: Result<usize, ControllerEvent>)
        ensures
            r matches Ok(n) ==> n >= 1,
            r matches Err(e) ==> e == event,
    {
        broadcast_send(&self.sender, event)
    }

    /// A fresh, independent subscription observing every event published
    /// after this call. Never fails.
    pub fn subscribe(&self) -> (r: EventReceiver) {
        EventReceiver { inner: broadcast_resubscribe(&self.keeper) }
    }
}

impl EventReceiver {
    /// One non-blocking attempt to receive the next event.
    pub fn poll(&mut self) -> (r: BusPoll) {
        broadcast_try_recv(&mut self.inner)
    }
}

/// Publishes the board-reset marker: the compute half of a controller's
/// `clear`, performed after the device output was reset.
pub fn publish_clear(bus: &EventBus) -> (r: Result<usize, ControllerEvent>)
    ensures
        r matches Ok(n) ==> n >= 1,
        r matches Err(e) ==> e == ControllerEvent::ClearBoard,
{
    bus.publish(ControllerEvent::ClearBoard)
}

/// Publishes exactly one `LightUpdate` event carrying the whole batch of
/// updates, unchanged and in the given order: the mirror a controller's
/// `set_button_color` and `set_button_color_multi` put on the bus before
/// touching the device.
pub fn publish_light_update(bus: &EventBus, updates: &Vec<(u8, u8, u8)>) -> (r: Result<
    usize,
    ControllerEvent,
>)
    ensures
        r matches Ok(n) ==> n >= 1,
        r matches Err(e) ==> e matches ControllerEvent::LightUpdate { updates: u } && u@
            == updates@,
{
    bus.publish(ControllerEvent::LightUpdate { updates: copy_updates(updates) })
}

} // verus!
