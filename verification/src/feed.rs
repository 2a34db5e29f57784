//! The broadcast feed of a room.
//!
//! A feed is a bounded channel with many producers and many consumers, from
//! tokio. A consumer that falls behind loses the oldest entries instead of
//! holding the producers up, and is told how many it lost.

use crate::event::Event;
use crate::housekeeping::{idle_after, report_of, Housekeeper, TickReport};
use tokio::sync::broadcast::error::{SendError, TryRecvError};
use tokio::sync::broadcast::{Receiver, Sender};
use vstd::prelude::*;

verus! {

/// `tokio::sync::broadcast::Sender`: a handle for sending on a feed.
#[verifier::external_type_specification]
#[verifier::external_body]
#[verifier::reject_recursive_types(T)]
pub struct ExSender<T>(Sender<T>);

/// `tokio::sync::broadcast::Receiver`: one subscription to a feed, with its
/// own read position.
#[verifier::external_type_specification]
#[verifier::external_body]
#[verifier::reject_recursive_types(T)]
pub struct ExReceiver<T>(Receiver<T>);

/// `tokio::sync::broadcast::error::SendError`: the value that found no
/// receiver.
#[verifier::external_type_specification]
#[verifier::external_body]
#[verifier::reject_recursive_types(T)]
pub struct ExSendError<T>(SendError<T>);

/// `tokio::sync::broadcast::error::TryRecvError`: why no event was ready.
#[verifier::external_type_specification]
#[verifier::external_body]
pub struct ExTryRecvError(TryRecvError);

/// How many events a feed holds for a consumer that is behind.
pub const ROOM_BACKLOG: usize = 32;

/// The sending handle of a room's feed.
pub type Feed = Sender<Event>;

/// One subscription to a room's feed.
pub type Subscription = Receiver<Event>;

/// What a send on a feed came to: the number of receivers, or the event that
/// found none.
pub type SendOutcome = Result<usize, SendError<Event>>;

/// What one attempt to receive without blocking came to: an event, or why
/// none was ready.
pub type Answer = Result<Event, TryRecvError>;

/// `Sender::clone` of tokio's broadcast channel: the copy is a handle on the
/// same channel.
pub assume_specification<T>[ <Sender<T> as Clone>::clone ](feed: &Sender<T>) -> (copy: Sender<T>)
    ensures
        copy == *feed,
;

/// The backlog that a feed was opened with: the number of events that
/// `broadcast::channel` of tokio was asked to hold for a consumer that is
/// behind. Every handle on the feed has it.
pub uninterp spec fn feed_backlog(feed: Feed) -> nat;

/// `broadcast::channel` of tokio, keeping the sending half only: a new feed
/// with the backlog asked for, which nobody is subscribed to. The capacity
/// must be positive and at most half of `usize::MAX`.
#[verifier::external_body]
pub(crate) fn open_feed(capacity: usize) -> (feed: Feed)
    requires
        0 < capacity <= usize::MAX / 2,
    ensures
        feed_backlog(feed) == capacity,
{
    tokio::sync::broadcast::channel(capacity).0
}

/// `Sender::send` of tokio's broadcast channel. It fails exactly when no
/// receiver is subscribed, so a success reports at least one receiver.
#[verifier::external_body]
pub(crate) fn feed_send(feed: &Feed, event: Event) -> (sent: SendOutcome)
    ensures
        sent matches Ok(receivers) ==> receivers >= 1,
{
    feed.send(event)
}

/// `Sender::subscribe` of tokio's broadcast channel: a new receiver, which
/// sees the events sent from now on.
#[verifier::external_body]
pub(crate) fn feed_subscribe(feed: &Feed) -> (subscription: Subscription) {
    feed.subscribe()
}

/// `Receiver::try_recv` of tokio's broadcast channel: the next event if one is
/// ready, without blocking.
#[verifier::external_body]
fn feed_try_recv(subscription: &mut Subscription) -> (next: Answer) {
    subscription.try_recv()
}

/// How many live receivers a send reached: the number it reports, and none
/// where it failed for want of a receiver.
pub open spec fn reached(sent: SendOutcome) -> usize {
    match sent {
        Ok(receivers) => receivers,
        Err(_) => 0,
    }
}

/// Reads the outcome of a send as a count of live receivers. A send that
/// failed reached nobody, which is no error of the room.
pub fn receivers_reached(sent: SendOutcome) -> (receivers: usize)
    ensures
        receivers == reached(sent),
{
    match sent {
        Ok(receivers) => receivers,
        Err(_) => 0,
    }
}

/// Collects the events that are ready on a subscription without blocking,
/// oldest first, and stops at the first answer that is not an event, or when
/// `limit` events are collected.
pub fn drain_ready(subscription: &mut Subscription, limit: usize) -> (ready: Vec<Event>)
    ensures
        ready@.len() <= limit,
{
    let mut ready: Vec<Event> = Vec::new();
    while ready.len() < limit
        invariant
            ready@.len() <= limit,
        decreases limit - ready@.len(),
    {
        let answer = feed_try_recv(subscription);
        if !collect_answer(&mut ready, answer) {
            return ready;
        }
    }
    ready
}

/// A batch after one more attempt to receive: an event joins it at the end,
/// and any other answer leaves it as it is.
pub open spec fn batch_after(batch: Seq<Event>, answer: Answer) -> Seq<Event> {
    match answer {
        Ok(event) => batch.push(event),
        Err(_) => batch,
    }
}

/// Takes what one attempt to receive came to while a batch is drained. An
/// event is added to the batch and the drain goes on. Any other answer
/// (nothing ready, a lag signal, a closed feed) ends the drain and leaves the
/// batch as it is.
///
/// Returns whether the drain goes on.
pub fn collect_answer(ready: &mut Vec<Event>, answer: Answer) -> (more: bool)
    ensures
        final(ready)@ == batch_after(old(ready)@, answer),
        more == answer is Ok,
{
    match answer {
        Ok(event) => {
            ready.push(event);
            true
        },
        Err(_) => false,
    }
}

/// Probes a feed with a heartbeat event and hands the outcome to the room's
/// housekeeper: the probe found a listener exactly if the send reached one.
pub fn probe(feed: &Feed, housekeeper: &mut Housekeeper) -> (report: TickReport)
    ensures
        exists|connections_alive: bool|
            final(housekeeper)@ == idle_after(old(housekeeper)@, connections_alive) && report
                == report_of(old(housekeeper)@, connections_alive),
{
    let connections_alive = receivers_reached(feed_send(feed, Event::heartbeat())) > 0;
    housekeeper.tick(connections_alive)
}

} // verus!
