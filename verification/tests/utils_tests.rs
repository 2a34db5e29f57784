use serde_json::Value;
use socketeer::emitter::{EmitterError, EmitterManager};
use socketeer::rest::{EventPayload, RestApi};
use socketeer::utils::{Detail, JsSafeBigInt, JsonResponse, SuperUserBearer};
use tokio::runtime::Builder;

#[test]
fn big_int_is_written_in_decimal() {
    assert_eq!(JsSafeBigInt(0).to_string(), "0");
    assert_eq!(JsSafeBigInt(290885694209261568).to_string(), "290885694209261568");
    assert_eq!(JsSafeBigInt(-5).to_string(), "-5");
    assert_eq!(JsSafeBigInt(i64::MAX).to_string(), "9223372036854775807");
    assert_eq!(JsSafeBigInt(i64::MIN).to_string(), "-9223372036854775808");
    assert_eq!(JsSafeBigInt(12).value(), 12);
}

#[test]
fn big_int_is_read_from_decimal() {
    assert_eq!(JsSafeBigInt::from_str("0").unwrap(), JsSafeBigInt(0));
    assert_eq!(
        JsSafeBigInt::from_str("290885694209261568").unwrap(),
        JsSafeBigInt(290885694209261568)
    );
    assert_eq!(JsSafeBigInt::from_str("-17").unwrap(), JsSafeBigInt(-17));
    assert_eq!(JsSafeBigInt::from_str("+7").unwrap(), JsSafeBigInt(7));
    assert_eq!(JsSafeBigInt::from_str("9223372036854775807").unwrap(), JsSafeBigInt(i64::MAX));
}

#[test]
fn big_int_rejects_what_is_no_integer() {
    assert!(JsSafeBigInt::from_str("").is_err());
    assert!(JsSafeBigInt::from_str("12a").is_err());
    assert!(JsSafeBigInt::from_str(" 12").is_err());
    assert!(JsSafeBigInt::from_str("1.5").is_err());
    assert!(JsSafeBigInt::from_str("9223372036854775808").is_err());
}

#[test]
fn big_int_round_trips_through_its_text() {
    for value in [0i64, 1, -1, 42, i64::MAX, i64::MIN] {
        let text = JsSafeBigInt(value).to_string();
        assert_eq!(JsSafeBigInt::from_str(&text).unwrap(), JsSafeBigInt(value));
    }
}

#[test]
fn superuser_needs_a_configured_key_and_the_same_token() {
    let key = Some("s3cret".to_string());
    assert!(SuperUserBearer::check(&key, &"s3cret".to_string()).is_some());
    assert!(SuperUserBearer::check(&key, &"S3cret".to_string()).is_none());
    assert!(SuperUserBearer::check(&key, &"".to_string()).is_none());
    assert!(SuperUserBearer::check(&key, &"s3cret ".to_string()).is_none());
    assert!(SuperUserBearer::check(&None, &"s3cret".to_string()).is_none());
    assert!(SuperUserBearer::check(&None, &"".to_string()).is_none());
}

#[test]
fn empty_key_is_matched_by_the_empty_token_only() {
    let key = Some(String::new());
    assert!(SuperUserBearer::check(&key, &String::new()).is_some());
    assert!(SuperUserBearer::check(&key, &"x".to_string()).is_none());
}

#[test]
fn detail_keeps_the_message() {
    let detail = Detail::from("no room exists".to_string());
    assert_eq!(detail.detail, "no room exists");
}

#[test]
fn responses_carry_their_status() {
    assert_eq!(JsonResponse::ok(5u8).status(), 200);
    assert_eq!(JsonResponse::<u8>::bad_request("bad".to_string()).status(), 400);
    assert_eq!(JsonResponse::<u8>::unauthorized().status(), 401);
    assert_eq!(JsonResponse::<u8>::forbidden().status(), 403);
}

#[test]
fn responses_are_built_as_named() {
    assert!(matches!(JsonResponse::ok(5u8), JsonResponse::Success(5)));
    assert!(matches!(
        JsonResponse::<u8>::bad_request("missing field".to_string()),
        JsonResponse::BadRequest(detail) if detail.detail == "missing field"
    ));
    assert!(matches!(JsonResponse::<u8>::unauthorized(), JsonResponse::Unauthorized));
    assert!(matches!(JsonResponse::<u8>::forbidden(), JsonResponse::Forbidden));
}

#[test]
fn payload_is_taken_apart_into_room_and_event() {
    let payload =
        EventPayload { room_id: 9, type_: "chat".to_string(), data: Value::Bool(true) };
    let (room_id, event) = payload.into_event();
    assert_eq!(room_id, 9);
    assert_eq!(event.type_, "chat");
    assert_eq!(event.data, Value::Bool(true));
}

#[test]
fn publishing_to_a_registered_room_succeeds_and_reaches_its_clients() {
    let rt = Builder::new_current_thread().build().unwrap();
    let mut emitter = EmitterManager::start();
    emitter.register_room(9, 1_700_000_000, |_, _| rt.spawn(async {}));
    let mut client = emitter.get_subscriber(9).unwrap();
    let bearer = SuperUserBearer::check(&Some("k".to_string()), &"k".to_string()).unwrap();
    let payload =
        EventPayload { room_id: 9, type_: "chat".to_string(), data: Value::String("hi".into()) };
    let response = RestApi.emit_event(payload, &emitter, bearer);
    assert!(matches!(response, Ok(JsonResponse::Success(()))));
    assert_eq!(response.unwrap().status(), 200);
    let heard = client.try_recv().unwrap();
    assert_eq!(heard.type_, "chat");
    assert_eq!(heard.data, Value::String("hi".to_string()));
}

#[test]
fn publishing_to_a_room_without_clients_succeeds() {
    let rt = Builder::new_current_thread().build().unwrap();
    let mut emitter = EmitterManager::start();
    emitter.register_room(9, 1_700_000_000, |_, _| rt.spawn(async {}));
    let bearer = SuperUserBearer::check(&Some("k".to_string()), &"k".to_string()).unwrap();
    let payload = EventPayload { room_id: 9, type_: "chat".to_string(), data: Value::Null };
    assert!(matches!(
        RestApi.emit_event(payload, &emitter, bearer),
        Ok(JsonResponse::Success(()))
    ));
}

#[test]
fn publishing_to_an_unknown_room_is_an_error() {
    let emitter = EmitterManager::start();
    let bearer = SuperUserBearer::check(&Some("k".to_string()), &"k".to_string()).unwrap();
    let payload = EventPayload { room_id: 9, type_: "chat".to_string(), data: Value::Null };
    assert!(matches!(
        RestApi.emit_event(payload, &emitter, bearer),
        Err(EmitterError::NotFound)
    ));
}

#[test]
fn big_int_reads_signs_and_leading_zeros() {
    assert_eq!(JsSafeBigInt::from_str("00012").unwrap(), JsSafeBigInt(12));
    assert_eq!(JsSafeBigInt::from_str("-0").unwrap(), JsSafeBigInt(0));
    assert_eq!(JsSafeBigInt::from_str("+0").unwrap(), JsSafeBigInt(0));
    assert_eq!(
        JsSafeBigInt::from_str("-9223372036854775808").unwrap(),
        JsSafeBigInt(i64::MIN)
    );
    assert_eq!(
        JsSafeBigInt::from_str("0000000000000000000000000000000000000001").unwrap(),
        JsSafeBigInt(1)
    );
}

#[test]
fn big_int_rejects_a_sign_alone_and_foreign_digits() {
    assert!(JsSafeBigInt::from_str("+").is_err());
    assert!(JsSafeBigInt::from_str("-").is_err());
    assert!(JsSafeBigInt::from_str("--1").is_err());
    assert!(JsSafeBigInt::from_str("+-1").is_err());
    assert!(JsSafeBigInt::from_str("1_000").is_err());
    assert!(JsSafeBigInt::from_str("12 ").is_err());
    assert!(JsSafeBigInt::from_str("\u{661}\u{662}").is_err());
    assert!(JsSafeBigInt::from_str("-9223372036854775809").is_err());
}

#[test]
fn big_int_text_has_no_spare_character() {
    for value in [0i64, 7, -7, 10, -10, 1234567890123, i64::MAX, i64::MIN] {
        let text = JsSafeBigInt(value).to_string();
        assert!(!text.starts_with('+'));
        assert!(text == "0" || !text.trim_start_matches('-').starts_with('0'));
        assert_ne!(text, "-0");
        assert_eq!(JsSafeBigInt::from_str(&text).unwrap().value(), value);
    }
}
