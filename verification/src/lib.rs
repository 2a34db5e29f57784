//! A real-time event distribution core: producers publish typed events into
//! rooms, and every connection subscribed to a room receives them in order.
//!
//! The crate holds the decisions of the service, each with a contract proved
//! by Verus: the room registry, the idle housekeeping of a room, the delivery
//! loop of a connection, the admission rule of the gateway and the
//! prepared-statement cache. Timers, sockets and the backing store stay with
//! the caller, which performs the actions these functions decide on.

pub mod db;
pub mod delivery;
pub mod emitter;
pub mod event;
pub mod feed;
pub mod housekeeping;
pub mod models;
pub mod rest;
pub mod schema;
pub mod utils;
pub mod ws;
