//! The registry of live rooms.
//!
//! A room exists exactly while the registry holds an entry for it. The entry
//! owns the room's broadcast feed and the handle of its housekeeping task,
//! which is cancelled in the same operation that removes the entry.

use crate::event::Event;
use crate::feed::{
    feed_backlog, feed_send, feed_subscribe, open_feed, receivers_reached, Feed, Subscription,
    ROOM_BACKLOG,
};
use dashmap::DashMap;
use tokio::task::{JoinError, JoinHandle};
use vstd::prelude::*;

verus! {

/// `dashmap::DashMap`: a concurrent hash map.
#[verifier::external_type_specification]
#[verifier::external_body]
#[verifier::reject_recursive_types(K)]
#[verifier::reject_recursive_types(V)]
#[verifier::reject_recursive_types(S)]
pub struct ExDashMap<K, V, S>(DashMap<K, V, S>);

/// `tokio::task::JoinHandle`: the owner's handle on a spawned task.
#[verifier::external_type_specification]
#[verifier::external_body]
#[verifier::reject_recursive_types(T)]
pub struct ExJoinHandle<T>(JoinHandle<T>);

/// `tokio::task::JoinError`: why a task did not run to its end. Named only by
/// the handle's type.
#[verifier::external_type_specification]
#[verifier::external_body]
pub struct ExJoinError(JoinError);

/// The identifier of a room: 128 bits, supplied from outside.
pub type RoomId = u128;

/// The handle of a housekeeping task.
pub type TaskHandle = JoinHandle<()>;

/// A live room: when it was opened, its broadcast feed, and the handle of the
/// task that probes it.
pub struct RoomWrapper {
    pub started: i64,
    pub messenger: Feed,
    pub handle: TaskHandle,
}

/// The rooms that a table holds, by identifier.
pub uninterp spec fn room_table(rooms: DashMap<RoomId, RoomWrapper>) -> Map<RoomId, RoomWrapper>;

/// `DashMap::new` of dashmap: a table that holds no room.
#[verifier::external_body]
fn table_new() -> (rooms: DashMap<RoomId, RoomWrapper>)
    ensures
        room_table(rooms) == (Map::<RoomId, RoomWrapper>::empty()),
{
    DashMap::new()
}

/// `DashMap::contains_key` of dashmap.
#[verifier::external_body]
fn table_contains(rooms: &DashMap<RoomId, RoomWrapper>, room_id: RoomId) -> (found: bool)
    ensures
        found == room_table(*rooms).contains_key(room_id),
{
    rooms.contains_key(&room_id)
}

/// `DashMap::insert` of dashmap: the table then maps the identifier to the
/// room and is otherwise unchanged. The room it held before comes back.
#[verifier::external_body]
fn table_insert(
    rooms: &mut DashMap<RoomId, RoomWrapper>,
    room_id: RoomId,
    room: RoomWrapper,
) -> (previous: Option<RoomWrapper>)
    ensures
        room_table(*final(rooms)) == room_table(*old(rooms)).insert(room_id, room),
        previous == (if room_table(*old(rooms)).contains_key(room_id) {
            Some(room_table(*old(rooms))[room_id])
        } else {
            None
        }),
{
    rooms.insert(room_id, room)
}

/// `DashMap::remove` of dashmap: the table no longer holds the identifier and
/// is otherwise unchanged. The room it held comes back.
#[verifier::external_body]
fn table_remove(rooms: &mut DashMap<RoomId, RoomWrapper>, room_id: RoomId) -> (removed: Option<
    RoomWrapper,
>)
    ensures
        room_table(*final(rooms)) == room_table(*old(rooms)).remove(room_id),
        removed == (if room_table(*old(rooms)).contains_key(room_id) {
            Some(room_table(*old(rooms))[room_id])
        } else {
            None
        }),
{
    rooms.remove(&room_id).map(|entry| entry.1)
}

/// `DashMap::get` of dashmap, and a copy of the feed handle of the room it
/// finds.
#[verifier::external_body]
fn table_feed(rooms: &DashMap<RoomId, RoomWrapper>, room_id: RoomId) -> (feed: Option<Feed>)
    ensures
        feed == (if room_table(*rooms).contains_key(room_id) {
            Some(room_table(*rooms)[room_id].messenger)
        } else {
            None
        }),
{
    rooms.get(&room_id).map(|room| room.messenger.clone())
}

/// `DashMap::get` of dashmap, and the opening time of the room it finds.
#[verifier::external_body]
fn table_started(rooms: &DashMap<RoomId, RoomWrapper>, room_id: RoomId) -> (started: Option<i64>)
    ensures
        started == (if room_table(*rooms).contains_key(room_id) {
            Some(room_table(*rooms)[room_id].started)
        } else {
            None
        }),
{
    rooms.get(&room_id).map(|room| room.started)
}

/// `JoinHandle::abort` of tokio: cancels the task at its next suspension
/// point.
#[verifier::external_body]
fn abort_task(handle: &TaskHandle) {
    handle.abort()
}

/// Why the registry could not serve a room.
#[derive(Copy, Clone, Debug, PartialEq, Eq, Structural)]
pub enum EmitterError {
    /// No room is registered under the identifier.
    NotFound,
}

/// What a registration came to.
pub enum Registration<F> {
    /// The room was not there: it was created, and its housekeeping task was
    /// started.
    Created,
    /// The room was there already and stays as it was. The callback that
    /// would have started a task comes back, uncalled.
    Existing(F),
}

impl<F> Registration<F> {
    /// Whether the room was created by this registration.
    pub fn is_created(&self) -> (created: bool)
        ensures
            created == (self is Created),
    {
        match self {
            Registration::Created => true,
            Registration::Existing(_) => false,
        }
    }
}

/// What closing a room did.
#[derive(Copy, Clone, Debug, PartialEq, Eq)]
pub struct CloseReport {
    /// Whether a room was registered under the identifier, and so removed.
    pub removed: bool,
    /// The receivers that the session-ending sentinel reached, where one was
    /// sent.
    pub warned: Option<usize>,
}

/// The table after a registration: a room that is there stays as it is, and
/// one that is not is added.
pub open spec fn registered(
    rooms: Map<RoomId, RoomWrapper>,
    room_id: RoomId,
    room: RoomWrapper,
) -> Map<RoomId, RoomWrapper> {
    if rooms.contains_key(room_id) {
        rooms
    } else {
        rooms.insert(room_id, room)
    }
}

/// The table after the close requests of a queue were served, from the
/// first to the last.
pub open spec fn after_requests(rooms: Map<RoomId, RoomWrapper>, requests: Seq<RoomId>) -> Map<
    RoomId,
    RoomWrapper,
>
    decreases requests.len(),
{
    if requests.len() == 0 {
        rooms
    } else {
        after_requests(rooms, requests.drop_last()).remove(requests.last())
    }
}

/// The registry of live rooms.
pub struct EmitterManager {
    rooms: DashMap<RoomId, RoomWrapper>,
}

impl View for EmitterManager {
    type V = Map<RoomId, RoomWrapper>;

    closed spec fn view(&self) -> Map<RoomId, RoomWrapper> {
        room_table(self.rooms)
    }
}

impl EmitterManager {
    /// A registry without rooms.
    pub fn start() -> (manager: EmitterManager)
        ensures
            manager@ == Map::<RoomId, RoomWrapper>::empty(),
    {
        EmitterManager { rooms: table_new() }
    }

    /// Whether a room is registered under the identifier.
    pub fn is_registered(&self, room_id: RoomId) -> (found: bool)
        ensures
            found == self@.contains_key(room_id),
    {
        table_contains(&self.rooms, room_id)
    }

    /// When the room was opened, in seconds since the Unix epoch.
    pub fn started_at(&self, room_id: RoomId) -> (started: Option<i64>)
        ensures
            started == (if self@.contains_key(room_id) {
                Some(self@[room_id].started)
            } else {
                None
            }),
    {
        table_started(&self.rooms, room_id)
    }

    /// Registers a room. A room that is registered already is left as it is:
    /// its opening time, its feed and its housekeeping task stay, no second
    /// task is started, and `start_housekeeping` comes back uncalled.
    /// Otherwise the room is opened at `started`, the caller's reading of the
    /// clock in seconds since the Unix epoch, with a fresh feed that holds a
    /// backlog of [`ROOM_BACKLOG`] events, and `start_housekeeping` is
    /// called once, with the identifier and a handle on that feed, to start
    /// the task that probes it.
    pub fn register_room<F>(
        &mut self,
        room_id: RoomId,
        started: i64,
        start_housekeeping: F,
    ) -> (outcome: Registration<F>)
        where F: FnOnce(RoomId, Feed) -> TaskHandle
        requires
            forall|feed: Feed| start_housekeeping.requires((room_id, feed)),
        ensures
            outcome == (if old(self)@.contains_key(room_id) {
                Registration::Existing(start_housekeeping)
            } else {
                Registration::Created
            }),
            final(self)@.contains_key(room_id),
            final(self)@ == registered(old(self)@, room_id, final(self)@[room_id]),
            !old(self)@.contains_key(room_id) ==> {
                &&& final(self)@[room_id].started == started
                &&& feed_backlog(final(self)@[room_id].messenger) == ROOM_BACKLOG
                &&& start_housekeeping.ensures(
                    (room_id, final(self)@[room_id].messenger),
                    final(self)@[room_id].handle,
                )
            },
    {
        if table_contains(&self.rooms, room_id) {
            return Registration::Existing(start_housekeeping);
        }
        let sender = open_feed(ROOM_BACKLOG);
        let handle = start_housekeeping(room_id, sender.clone());
        let wrapped = RoomWrapper { started, messenger: sender, handle };
        let _ = table_insert(&mut self.rooms, room_id, wrapped);
        Registration::Created
    }

    /// A handle on the feed of a room, which is what every emit and every
    /// subscription to the room goes through.
    pub fn messenger(&self, room_id: RoomId) -> (feed: Result<Feed, EmitterError>)
        ensures
            match feed {
                Ok(feed) => self@.contains_key(room_id) && feed == self@[room_id].messenger,
                Err(error) => !self@.contains_key(room_id) && error == EmitterError::NotFound,
            },
    {
        match table_feed(&self.rooms, room_id) {
            Some(feed) => Ok(feed),
            None => Err(EmitterError::NotFound),
        }
    }

    /// A new subscription to the room's feed, which sees the events emitted
    /// from now on.
    pub fn get_subscriber(&self, room_id: RoomId) -> (subscription: Result<
        Subscription,
        EmitterError,
    >)
        ensures
            self@.contains_key(room_id) ==> subscription is Ok,
            !self@.contains_key(room_id) ==> subscription matches Err(EmitterError::NotFound),
    {
        match self.messenger(room_id) {
            Ok(feed) => Ok(feed_subscribe(&feed)),
            Err(error) => Err(error),
        }
    }

    /// Broadcasts an event to every current subscriber of the room and
    /// reports how many live receivers it reached. A room without
    /// subscribers is no error: the event reaches nobody.
    pub fn emit(&self, room_id: RoomId, event: Event) -> (sent: Result<usize, EmitterError>)
        ensures
            self@.contains_key(room_id) ==> sent is Ok,
            !self@.contains_key(room_id) ==> sent == Err::<usize, EmitterError>(
                EmitterError::NotFound,
            ),
    {
        match self.messenger(room_id) {
            Ok(feed) => Ok(receivers_reached(feed_send(&feed, event))),
            Err(error) => Err(error),
        }
    }

    /// Closes a room: removes its entry and cancels its housekeeping task.
    /// With `warn_clients`, the session-ending sentinel is emitted first, and
    /// whether it reached anyone does not matter.
    pub fn close_room(&mut self, room_id: RoomId, warn_clients: bool) -> (report: CloseReport)
        ensures
            final(self)@ == old(self)@.remove(room_id),
            report.removed == old(self)@.contains_key(room_id),
            report.warned is Some <==> warn_clients && old(self)@.contains_key(room_id),
    {
        let warned = if warn_clients {
            match self.emit(room_id, Event::close()) {
                Ok(receivers) => Some(receivers),
                Err(_) => None,
            }
        } else {
            None
        };
        let removed = match table_remove(&mut self.rooms, room_id) {
            Some(room) => {
                abort_task(&room.handle);
                true
            },
            None => false,
        };
        CloseReport { removed, warned }
    }

    /// Serves one request of a housekeeping task: closes the room without
    /// warning its clients.
    pub fn shutdown(&mut self, room_id: RoomId) -> (report: CloseReport)
        ensures
            final(self)@ == old(self)@.remove(room_id),
            report.removed == old(self)@.contains_key(room_id),
            report.warned is None,
    {
        self.close_room(room_id, false)
    }

    /// Serves the close requests of the housekeeping tasks, one at a time and
    /// in the order of the queue: each room is closed without a warning to its
    /// clients. A room that is gone by the time its request is served, or
    /// that was never there, is passed over.
    pub fn serve_requests(&mut self, requests: &Vec<RoomId>) -> (reports: Vec<CloseReport>)
        ensures
            final(self)@ == after_requests(old(self)@, requests@),
            reports@.len() == requests@.len(),
            forall|i: int|
                0 <= i < requests@.len() ==> (#[trigger] reports@[i]).warned is None
                    && reports@[i].removed == after_requests(
                    old(self)@,
                    requests@.take(i),
                ).contains_key(requests@[i]),
    {
        let mut reports: Vec<CloseReport> = Vec::new();
        let mut served: usize = 0;
        while served < requests.len()
            invariant
                served <= requests@.len(),
                reports@.len() == served,
                self@ == after_requests(old(self)@, requests@.take(served as int)),
                forall|i: int|
                    0 <= i < served ==> (#[trigger] reports@[i]).warned is None
                        && reports@[i].removed == after_requests(
                        old(self)@,
                        requests@.take(i),
                    ).contains_key(requests@[i]),
            decreases requests@.len() - served,
        {
            let report = self.shutdown(requests[served]);
            reports.push(report);
            proof {
                let next = requests@.take(served + 1);
                assert(next.drop_last() =~= requests@.take(served as int));
                assert(next.last() == requests@[served as int]);
            }
            served = served + 1;
        }
        proof {
            assert(requests@.take(served as int) =~= requests@);
        }
        reports
    }
}

/// Registering a room twice is registering it once: the second registration
/// leaves the table as the first one made it, and with it the room's opening
/// time, its feed and its one housekeeping task.
pub proof fn lemma_register_is_idempotent(
    rooms: Map<RoomId, RoomWrapper>,
    room_id: RoomId,
    first: RoomWrapper,
    second: RoomWrapper,
)
    ensures
        registered(registered(rooms, room_id, first), room_id, second) == registered(
            rooms,
            room_id,
            first,
        ),
        registered(rooms, room_id, first).contains_key(room_id),
        !rooms.contains_key(room_id) ==> registered(
            registered(rooms, room_id, first),
            room_id,
            second,
        )[room_id] == first,
{
}

/// Once a queue of close requests is served, every room that was asked to be
/// closed is gone, and every other room is as it was.
pub proof fn lemma_requested_rooms_are_closed(
    rooms: Map<RoomId, RoomWrapper>,
    requests: Seq<RoomId>,
    room_id: RoomId,
)
    ensures
        requests.contains(room_id) ==> !after_requests(rooms, requests).contains_key(room_id),
        !requests.contains(room_id) ==> after_requests(rooms, requests).contains_key(room_id)
            == rooms.contains_key(room_id),
        !requests.contains(room_id) && rooms.contains_key(room_id) ==> after_requests(
            rooms,
            requests,
        )[room_id] == rooms[room_id],
    decreases requests.len(),
{
    if requests.len() > 0 {
        let earlier = requests.drop_last();
        lemma_requested_rooms_are_closed(rooms, earlier, room_id);
        if requests.contains(room_id) && requests.last() != room_id {
            let at = choose|i: int| 0 <= i < requests.len() && requests[i] == room_id;
            assert(earlier[at] == room_id);
        }
        if !requests.contains(room_id) {
            assert(requests.last() == requests[requests.len() - 1]);
            assert forall|i: int| 0 <= i < earlier.len() implies earlier[i] != room_id by {
                assert(earlier[i] == requests[i]);
            }
        }
    }
}

} // verus!
