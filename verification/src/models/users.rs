//! Identities and the access rule that admits them to a room.

use crate::models::rooms::Room;
use crate::utils::JsSafeBigInt;
use std::collections::HashMap;
use vstd::prelude::*;

verus! {

/// A resolved identity. `access_servers` maps each guild the user is known
/// in to a flag, which says whether the user has access through that guild.
#[derive(Debug)]
pub struct User {
    pub id: JsSafeBigInt,
    pub access_servers: HashMap<i64, bool>,
    pub avatar: Option<String>,
    pub updated_on: i64,
    pub username: String,
}

/// Whether the user has access through the guild that the room is
/// associated with: the user's map holds that guild, and its flag is set.
pub open spec fn guild_access(user: &User, room: &Room) -> bool {
    match room.guild_id {
        Some(guild) => user.access_servers@.contains_key(guild.0)
            && user.access_servers@[guild.0],
        None => false,
    }
}

/// The access rule: a user may enter a room that is public, an invite-only
/// room that they own, or a room of a guild they have access through.
pub open spec fn may_enter(user: &User, room: &Room) -> bool {
    ||| room.is_public
    ||| (room.invite_only && room.owner_id == user.id)
    ||| guild_access(user, room)
}

impl User {
    /// Whether this user has access through the guild that `room` is
    /// associated with. A guild that the user's map does not hold, or holds
    /// with the flag unset, gives none, and a room without a guild gives
    /// nobody access this way.
    pub fn has_guild_access(&self, room: &Room) -> (access: bool)
        ensures
            access == guild_access(self, room),
    {
        match room.guild_id {
            Some(guild) => match self.access_servers.get(&guild.0) {
                Some(flag) => *flag,
                None => false,
            },
            None => false,
        }
    }

    /// Decides the access rule for this user and `room`.
    pub fn can_enter(&self, room: &Room) -> (allowed: bool)
        ensures
            allowed == may_enter(self, room),
    {
        room.is_public || (room.invite_only && room.owner_id == self.id)
            || self.has_guild_access(room)
    }
}

} // verus!
