//! The gateway: who is admitted to a room, and what an admitted connection
//! is handed.

use crate::emitter::{registered, EmitterManager, RoomId, TaskHandle};
use crate::feed::{feed_backlog, Feed, Subscription, ROOM_BACKLOG};
use crate::models::rooms::Room;
use crate::models::users::{may_enter, User};
use vstd::prelude::*;
use vstd::string::StringExecFns;

verus! {

/// What a client asks the gateway for: a room, and the token that says who
/// is asking.
#[derive(Debug)]
pub struct QueryParams {
    pub room_id: RoomId,
    pub token: String,
}

/// Why a connection is turned away before it is upgraded.
#[derive(Copy, Clone, Debug, PartialEq, Eq, Structural)]
pub enum Rejection {
    /// The token resolves to no identity.
    Unauthorized,
    /// No room has the identifier.
    NoRoom,
    /// The room is not active.
    RoomClosed,
    /// The access rule does not admit the identity.
    Forbidden,
}

/// The status code that a rejection is answered with.
pub open spec fn status_of(rejection: Rejection) -> u16 {
    match rejection {
        Rejection::Unauthorized => 401,
        Rejection::NoRoom => 400,
        Rejection::RoomClosed => 400,
        Rejection::Forbidden => 403,
    }
}

/// The words that a rejection is answered with.
pub open spec fn reason_of(rejection: Rejection) -> Seq<char> {
    match rejection {
        Rejection::Unauthorized => "unauthorized user"@,
        Rejection::NoRoom => "no room exists"@,
        Rejection::RoomClosed => "room closed"@,
        Rejection::Forbidden => "no access"@,
    }
}

impl Rejection {
    /// The status code of the answer.
    pub fn status(&self) -> (code: u16)
        ensures
            code == status_of(*self),
    {
        match self {
            Rejection::Unauthorized => 401,
            Rejection::NoRoom => 400,
            Rejection::RoomClosed => 400,
            Rejection::Forbidden => 403,
        }
    }

    /// The body of the answer.
    pub fn reason(&self) -> (words: String)
        ensures
            words@ == reason_of(*self),
    {
        match self {
            Rejection::Unauthorized => String::from_str("unauthorized user"),
            Rejection::NoRoom => String::from_str("no room exists"),
            Rejection::RoomClosed => String::from_str("room closed"),
            Rejection::Forbidden => String::from_str("no access"),
        }
    }
}

/// The verdict on a connection, given what the token and the room
/// identifier resolved to. The checks are made in this order: the identity
/// is known, the room exists, the room is active, the access rule admits
/// the identity.
pub open spec fn admission(user: Option<&User>, room: Option<&Room>) -> Result<(), Rejection> {
    match user {
        None => Err(Rejection::Unauthorized),
        Some(user) => match room {
            None => Err(Rejection::NoRoom),
            Some(room) => if !room.active {
                Err(Rejection::RoomClosed)
            } else if !may_enter(user, room) {
                Err(Rejection::Forbidden)
            } else {
                Ok(())
            },
        },
    }
}

/// Decides whether a connection is admitted.
pub fn check_admission(user: Option<&User>, room: Option<&Room>) -> (verdict: Result<(), Rejection>)
    ensures
        verdict == admission(user, room),
{
    let user = match user {
        Some(user) => user,
        None => {
            return Err(Rejection::Unauthorized);
        },
    };
    let room = match room {
        Some(room) => room,
        None => {
            return Err(Rejection::NoRoom);
        },
    };
    if !room.active {
        return Err(Rejection::RoomClosed);
    }
    if !user.can_enter(room) {
        return Err(Rejection::Forbidden);
    }
    Ok(())
}

/// Serves a connection request up to the upgrade. A request that is not
/// admitted is turned away and leaves the registry as it is. An admitted one
/// has its room registered, if it is not yet, as opened at `started`, and is
/// handed a subscription to the room's feed, which its delivery loop then
/// reads.
pub fn gateway<F>(
    params: &QueryParams,
    user: Option<&User>,
    room: Option<&Room>,
    emitter: &mut EmitterManager,
    started: i64,
    start_housekeeping: F,
) -> (accepted: Result<Subscription, Rejection>)
    where F: FnOnce(RoomId, Feed) -> TaskHandle
    requires
        forall|feed: Feed| start_housekeeping.requires((params.room_id, feed)),
    ensures
        match admission(user, room) {
            Ok(_) => {
                &&& accepted is Ok
                &&& final(emitter)@.contains_key(params.room_id)
                &&& final(emitter)@ == registered(
                    old(emitter)@,
                    params.room_id,
                    final(emitter)@[params.room_id],
                )
                &&& !old(emitter)@.contains_key(params.room_id) ==> {
                    let room = final(emitter)@[params.room_id];
                    room.started == started && feed_backlog(room.messenger) == ROOM_BACKLOG
                }
            },
            Err(rejection) => {
                &&& accepted matches Err(reported)
                &&& reported == rejection
                &&& final(emitter)@ == old(emitter)@
            },
        },
{
    match check_admission(user, room) {
        Ok(_) => {},
        Err(rejection) => {
            return Err(rejection);
        },
    }
    let _ = emitter.register_room(params.room_id, started, start_housekeeping);
    match emitter.get_subscriber(params.room_id) {
        Ok(subscription) => Ok(subscription),
        Err(_) => {
            assert(false);
            Err(Rejection::NoRoom)
        },
    }
}

} // verus!
