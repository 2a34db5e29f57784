//! The publish endpoint: a privileged producer emits an event into a room.

use crate::emitter::{EmitterError, EmitterManager, RoomId};
use crate::event::{Event, EventView};
use crate::utils::{JsonResponse, SuperUserBearer};
use serde_json::Value;
use vstd::prelude::*;

verus! {

/// What a producer publishes: the room, and the event's type and payload.
#[derive(Debug)]
pub struct EventPayload {
    pub room_id: RoomId,
    pub type_: String,
    pub data: Value,
}

impl EventPayload {
    /// The event that the payload describes.
    pub open spec fn event(self) -> EventView {
        EventView { type_: self.type_@, data: self.data }
    }

    /// Takes the payload apart into the room and the event to emit there.
    pub fn into_event(self) -> (parts: (RoomId, Event))
        ensures
            parts.0 == self.room_id,
            parts.1@ == self.event(),
    {
        (self.room_id, Event { type_: self.type_, data: self.data })
    }
}

/// The programming interface for producers.
#[derive(Debug)]
pub struct RestApi;

impl RestApi {
    /// Emits an event to the clients of a room. The bearer is the proof that
    /// the caller presented the superuser credential. The answer is a
    /// success where the room is registered, whoever listens, and the error
    /// of the registry where it is not.
    pub fn emit_event(
        &self,
        event: EventPayload,
        emitter: &EmitterManager,
        _token: SuperUserBearer,
    ) -> (response: Result<JsonResponse<()>, EmitterError>)
        ensures
            emitter@.contains_key(event.room_id) ==> response == Ok::<
                JsonResponse<()>,
                EmitterError,
            >(JsonResponse::Success(())),
            !emitter@.contains_key(event.room_id) ==> response == Err::<
                JsonResponse<()>,
                EmitterError,
            >(EmitterError::NotFound),
    {
        let (room_id, event) = event.into_event();
        match emitter.emit(room_id, event) {
            Ok(_) => Ok(JsonResponse::ok(())),
            Err(error) => Err(error),
        }
    }
}

} // verus!
