//! Room metadata, as the backing store holds it.

use crate::utils::JsSafeBigInt;
use vstd::prelude::*;

verus! {

/// The metadata of a room. The registry of live rooms knows a room by `id`
/// alone; the other fields decide who may enter.
#[derive(Debug)]
pub struct Room {
    pub id: u128,
    pub owner_id: JsSafeBigInt,
    pub active: bool,
    pub active_playlist: Option<u128>,
    pub banner: Option<String>,
    pub guild_id: Option<JsSafeBigInt>,
    pub invite_only: bool,
    pub is_public: bool,
    pub playing_now: Option<u128>,
    pub title: String,
    pub topic: Option<String>,
}

} // verus!
