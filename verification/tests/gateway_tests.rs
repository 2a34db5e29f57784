use serde_json::Value;
use socketeer::emitter::EmitterManager;
use socketeer::event::Event;
use socketeer::models::{Room, User};
use socketeer::utils::JsSafeBigInt;
use socketeer::ws::{check_admission, gateway, QueryParams, Rejection};
use std::cell::Cell;
use std::collections::HashMap;
use tokio::runtime::{Builder, Runtime};

const ROOM: u128 = 77;

fn runtime() -> Runtime {
    Builder::new_current_thread().build().unwrap()
}

fn user(id: i64, guilds: &[(i64, bool)]) -> User {
    let mut access_servers = HashMap::new();
    for (guild, flag) in guilds {
        access_servers.insert(*guild, *flag);
    }
    User {
        id: JsSafeBigInt(id),
        access_servers,
        avatar: None,
        updated_on: 0,
        username: "someone".to_string(),
    }
}

fn room(owner: i64, is_public: bool, invite_only: bool, guild: Option<i64>) -> Room {
    Room {
        id: ROOM,
        owner_id: JsSafeBigInt(owner),
        active: true,
        active_playlist: None,
        banner: None,
        guild_id: guild.map(JsSafeBigInt),
        invite_only,
        is_public,
        playing_now: None,
        title: "a room".to_string(),
        topic: None,
    }
}

fn params() -> QueryParams {
    QueryParams { room_id: ROOM, token: "token".to_string() }
}

#[test]
fn rejections_carry_their_status_and_reason() {
    assert_eq!(Rejection::Unauthorized.status(), 401);
    assert_eq!(Rejection::Unauthorized.reason(), "unauthorized user");
    assert_eq!(Rejection::NoRoom.status(), 400);
    assert_eq!(Rejection::NoRoom.reason(), "no room exists");
    assert_eq!(Rejection::RoomClosed.status(), 400);
    assert_eq!(Rejection::RoomClosed.reason(), "room closed");
    assert_eq!(Rejection::Forbidden.status(), 403);
    assert_eq!(Rejection::Forbidden.reason(), "no access");
}

#[test]
fn unknown_identity_is_unauthorized_whatever_the_room() {
    let open = room(1, true, false, None);
    assert_eq!(check_admission(None, Some(&open)), Err(Rejection::Unauthorized));
    assert_eq!(check_admission(None, None), Err(Rejection::Unauthorized));
}

#[test]
fn unknown_room_is_rejected() {
    let someone = user(5, &[]);
    assert_eq!(check_admission(Some(&someone), None), Err(Rejection::NoRoom));
}

#[test]
fn inactive_room_is_closed_even_to_its_owner() {
    let owner = user(1, &[]);
    let mut closed = room(1, true, true, None);
    closed.active = false;
    assert_eq!(check_admission(Some(&owner), Some(&closed)), Err(Rejection::RoomClosed));
}

#[test]
fn public_room_admits_anyone_known() {
    let stranger = user(5, &[]);
    assert_eq!(check_admission(Some(&stranger), Some(&room(1, true, false, None))), Ok(()));
    assert_eq!(check_admission(Some(&stranger), Some(&room(1, true, true, None))), Ok(()));
}

#[test]
fn invite_only_room_admits_its_owner_only() {
    let owner = user(1, &[]);
    let stranger = user(5, &[]);
    let private = room(1, false, true, None);
    assert_eq!(check_admission(Some(&owner), Some(&private)), Ok(()));
    assert_eq!(check_admission(Some(&stranger), Some(&private)), Err(Rejection::Forbidden));
}

#[test]
fn owning_a_room_that_is_not_invite_only_gives_no_access_by_itself() {
    let owner = user(1, &[]);
    let plain = room(1, false, false, None);
    assert_eq!(check_admission(Some(&owner), Some(&plain)), Err(Rejection::Forbidden));
}

#[test]
fn guild_access_admits() {
    let member = user(5, &[(900, true)]);
    let other_guild = user(7, &[(901, true)]);
    let guild_room = room(1, false, false, Some(900));
    assert_eq!(check_admission(Some(&member), Some(&guild_room)), Ok(()));
    assert_eq!(check_admission(Some(&other_guild), Some(&guild_room)), Err(Rejection::Forbidden));
    let no_guild = room(1, false, false, None);
    assert_eq!(check_admission(Some(&member), Some(&no_guild)), Err(Rejection::Forbidden));
}

#[test]
fn guild_with_the_flag_unset_gives_no_access() {
    let listed_without_flag = user(6, &[(900, false)]);
    let guild_room = room(1, false, false, Some(900));
    assert!(!listed_without_flag.has_guild_access(&guild_room));
    assert!(!listed_without_flag.can_enter(&guild_room));
    assert_eq!(
        check_admission(Some(&listed_without_flag), Some(&guild_room)),
        Err(Rejection::Forbidden)
    );
    assert_eq!(Rejection::Forbidden.status(), 403);
    // The flag of another guild does not help, and a public room needs none.
    let mixed = user(6, &[(900, false), (901, true)]);
    assert_eq!(check_admission(Some(&mixed), Some(&guild_room)), Err(Rejection::Forbidden));
    assert_eq!(check_admission(Some(&mixed), Some(&room(1, true, false, Some(900)))), Ok(()));
}

#[test]
fn rejected_guild_member_without_the_flag_never_reaches_the_registry() {
    let rt = runtime();
    let mut emitter = EmitterManager::start();
    let listed_without_flag = user(6, &[(900, false)]);
    let guild_room = room(1, false, false, Some(900));
    let answer =
        gateway(&params(), Some(&listed_without_flag), Some(&guild_room), &mut emitter, 1_700_000_000, |_, _| {
            rt.spawn(async {})
        });
    assert!(matches!(answer, Err(Rejection::Forbidden)));
    assert!(!emitter.is_registered(ROOM));
}

#[test]
fn access_rule_of_the_models() {
    let member = user(5, &[(900, true)]);
    let guild_room = room(1, false, false, Some(900));
    assert!(member.has_guild_access(&guild_room));
    assert!(member.can_enter(&guild_room));
    assert!(!member.has_guild_access(&room(1, false, false, Some(901))));
    assert!(!member.has_guild_access(&room(1, true, false, None)));
    assert!(member.can_enter(&room(1, true, false, None)));
    assert!(!member.can_enter(&room(1, false, true, None)));
    assert!(user(1, &[]).can_enter(&room(1, false, true, None)));
}

#[test]
fn rejected_request_leaves_the_registry_alone() {
    let rt = runtime();
    let started = Cell::new(false);
    let mut emitter = EmitterManager::start();
    let stranger = user(5, &[]);
    let private = room(1, false, true, None);
    let answer = gateway(&params(), Some(&stranger), Some(&private), &mut emitter, 1_700_000_000, |_, _| {
        started.set(true);
        rt.spawn(async {})
    });
    assert!(matches!(answer, Err(Rejection::Forbidden)));
    assert!(!emitter.is_registered(ROOM));
    assert!(!started.get());

    let answer = gateway(&params(), None, None, &mut emitter, 1_700_000_000, |_, _| rt.spawn(async {}));
    assert!(matches!(answer, Err(Rejection::Unauthorized)));
    let answer = gateway(&params(), Some(&stranger), None, &mut emitter, 1_700_000_000, |_, _| rt.spawn(async {}));
    assert!(matches!(answer, Err(Rejection::NoRoom)));
    assert!(!emitter.is_registered(ROOM));
}

#[test]
fn admitted_request_registers_the_room_and_subscribes() {
    let rt = runtime();
    let mut emitter = EmitterManager::start();
    let someone = user(5, &[]);
    let open = room(1, true, false, None);
    let mut subscription =
        gateway(&params(), Some(&someone), Some(&open), &mut emitter, 1_700_000_000, |_, _| rt.spawn(async {}))
            .unwrap();
    assert!(emitter.is_registered(ROOM));
    let event = Event { type_: "chat".to_string(), data: Value::String("hi".to_string()) };
    assert_eq!(emitter.emit(ROOM, event), Ok(1));
    assert_eq!(subscription.try_recv().unwrap().data, Value::String("hi".to_string()));
}

#[test]
fn second_admitted_request_joins_the_same_room() {
    let rt = runtime();
    let started = Cell::new(0u32);
    let mut emitter = EmitterManager::start();
    let someone = user(5, &[]);
    let open = room(1, true, false, None);
    let mut first = gateway(&params(), Some(&someone), Some(&open), &mut emitter, 1_700_000_000, |_, _| {
        started.set(started.get() + 1);
        rt.spawn(async {})
    })
    .unwrap();
    let opened = emitter.started_at(ROOM);
    let mut second = gateway(&params(), Some(&someone), Some(&open), &mut emitter, 1_700_000_000, |_, _| {
        started.set(started.get() + 1);
        rt.spawn(async {})
    })
    .unwrap();
    assert_eq!(started.get(), 1);
    assert_eq!(emitter.started_at(ROOM), opened);
    assert_eq!(emitter.emit(ROOM, Event::heartbeat()), Ok(2));
    assert!(first.try_recv().unwrap().is_heartbeat());
    assert!(second.try_recv().unwrap().is_heartbeat());
}
