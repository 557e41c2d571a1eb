use room_relay::message::{Timestamp, WsText, LATEST_SECS};
use room_relay::relay::{
    accept_connection, inbound_continues, inbound_step, outbound_continues, outbound_step,
    publish_text, ClientEvent, Half, InboundAction, OutboundAction, Phase, PublishOutcome,
    Rejection, Relay, RelayCommand, RelayEvent,
};
use room_relay::rooms::{CreateRoom, RoomError, RoomName, RoomsDb};
use room_relay::topic::{Delivery, Topic};

#[test]
fn connection_to_unknown_room_is_refused_as_not_found() {
    let r = accept_connection(Err(RoomError::NotFound), Some("bob".to_string()));
    assert!(matches!(r, Err(Rejection::RoomNotFound)));
    let r = accept_connection(Err(RoomError::NotFound), None);
    assert!(matches!(r, Err(Rejection::RoomNotFound)));
}

#[test]
fn connection_without_name_is_unauthorized() {
    let db = RoomsDb::new();
    let room = db.create_room(CreateRoom::new(RoomName::new("general".to_string()))).unwrap();
    let r = accept_connection(Ok(room), None);
    assert!(matches!(r, Err(Rejection::Unauthorized)));
}

#[test]
fn registry_failure_is_internal() {
    let r = accept_connection(Err(RoomError::LockError), Some("bob".to_string()));
    assert!(matches!(r, Err(Rejection::Internal)));
}

#[test]
fn accepted_connection_holds_room_and_name() {
    let db = RoomsDb::new();
    let room = db.create_room(CreateRoom::new(RoomName::new("general".to_string()))).unwrap();
    let id = room.get_room_id().as_str().to_string();
    let ctx = match accept_connection(Ok(room), Some("bob".to_string())) {
        Ok(c) => c,
        Err(_) => panic!("should be accepted"),
    };
    assert_eq!(ctx.get_display_name(), "bob");
    assert_eq!(ctx.get_room().get_room_id().as_str(), id);
    assert_eq!(ctx.topic().get_capacity(), 128);
}

#[test]
fn inbound_publishes_text_and_stops_on_anything_else() {
    assert!(matches!(inbound_step(ClientEvent::Text("hi".to_string())), InboundAction::Publish(t) if t == "hi"));
    assert!(matches!(inbound_step(ClientEvent::NonText), InboundAction::Stop));
    assert!(matches!(inbound_step(ClientEvent::Closed), InboundAction::Stop));
    assert!(matches!(inbound_step(ClientEvent::Failed), InboundAction::Stop));
    assert!(inbound_continues(PublishOutcome::Published(2)));
    assert!(inbound_continues(PublishOutcome::NoSubscriber));
    assert!(!inbound_continues(PublishOutcome::Unencodable));
}

#[test]
fn outbound_forwards_skips_lag_and_stops_on_close() {
    assert!(matches!(outbound_step(Delivery::Message("m".to_string())), OutboundAction::Forward(m) if m == "m"));
    assert!(matches!(outbound_step(Delivery::Lagged(3)), OutboundAction::Skip));
    assert!(matches!(outbound_step(Delivery::Empty), OutboundAction::Wait));
    assert!(matches!(outbound_step(Delivery::Closed), OutboundAction::Stop));
    assert!(outbound_continues(true));
    assert!(!outbound_continues(false));
}

#[test]
fn publish_text_sends_enveloped_message() {
    let topic = Topic::new(8);
    assert_eq!(publish_text(&topic, "alice", "hi"), PublishOutcome::NoSubscriber);
    let mut bob = topic.subscribe();
    assert_eq!(publish_text(&topic, "alice", "yo"), PublishOutcome::Published(1));
    let got = match bob.try_receive() {
        Delivery::Message(m) => m,
        _ => panic!("bob should receive"),
    };
    assert!(got.starts_with("{\"user_name\":\"alice\",\"text\":\"yo\",\"time_stamp\":\""));
    assert!(got.ends_with("Z\"}"));
    assert!(matches!(bob.try_receive(), Delivery::Empty));
}

#[test]
fn end_of_inbound_half_cancels_outbound() {
    let mut relay = Relay::new();
    assert_eq!(relay.phase(), Phase::Handshaking);
    assert_eq!(relay.step(RelayEvent::Admitted), RelayCommand::StartHalves);
    assert_eq!(relay.phase(), Phase::Relaying);
    assert_eq!(relay.step(RelayEvent::HalfEnded(Half::Inbound)), RelayCommand::Cancel(Half::Outbound));
    assert_eq!(relay.phase(), Phase::Terminating);
    assert!(!relay.is_running(Half::Inbound));
    assert!(relay.is_running(Half::Outbound));
    assert_eq!(relay.step(RelayEvent::HalfEnded(Half::Inbound)), RelayCommand::Nothing);
    assert_eq!(relay.step(RelayEvent::HalfEnded(Half::Outbound)), RelayCommand::Finish);
    assert_eq!(relay.phase(), Phase::Terminated);
    assert_eq!(relay.step(RelayEvent::Admitted), RelayCommand::Nothing);
}

#[test]
fn end_of_outbound_half_cancels_inbound() {
    let mut relay = Relay::new();
    relay.step(RelayEvent::Admitted);
    assert_eq!(relay.step(RelayEvent::HalfEnded(Half::Outbound)), RelayCommand::Cancel(Half::Inbound));
    assert_eq!(relay.step(RelayEvent::HalfEnded(Half::Inbound)), RelayCommand::Finish);
    assert_eq!(relay.phase(), Phase::Terminated);
}

#[test]
fn refused_handshake_starts_nothing() {
    let mut relay = Relay::new();
    assert_eq!(relay.step(RelayEvent::Refused), RelayCommand::Refuse);
    assert_eq!(relay.phase(), Phase::Terminated);
    assert!(!relay.is_running(Half::Inbound));
    assert!(!relay.is_running(Half::Outbound));
}

#[test]
fn envelope_json_exact() {
    let m = WsText::new("alice", "yo", Timestamp { secs: 0, nanos: 0 });
    assert_eq!(
        m.to_json().unwrap(),
        "{\"user_name\":\"alice\",\"text\":\"yo\",\"time_stamp\":\"1970-01-01T00:00:00Z\"}"
    );
}

#[test]
fn envelope_json_escapes_and_fraction() {
    let m = WsText::new("b\"ob", "line\nnext\\", Timestamp { secs: 1_700_000_000, nanos: 500_000_000 });
    assert_eq!(
        m.to_json().unwrap(),
        "{\"user_name\":\"b\\\"ob\",\"text\":\"line\\nnext\\\\\",\"time_stamp\":\"2023-11-14T22:13:20.500Z\"}"
    );
}

#[test]
fn message_now_keeps_sender_and_text() {
    let m = WsText::json_from_ws_message("alice", "hi");
    assert_eq!(m.get_user_name(), "alice");
    assert_eq!(m.get_text(), "hi");
    assert!(m.get_time_stamp().secs > 1_600_000_000);
    assert_eq!(m.get_time_stamp().to_rfc3339().unwrap().len() >= 20, true);
}

#[test]
fn unrepresentable_timestamp_has_no_json() {
    let m = WsText::new("a", "b", Timestamp { secs: i64::MAX, nanos: 0 });
    assert!(m.to_json().is_none());
}

#[test]
fn envelope_escapes_control_characters() {
    let m = WsText::new("a", "\u{1}\t\u{1f}/\u{7f}\u{e9}", Timestamp { secs: 0, nanos: 0 });
    assert_eq!(
        m.to_json().unwrap(),
        "{\"user_name\":\"a\",\"text\":\"\\u0001\\t\\u001f/\u{7f}\u{e9}\",\"time_stamp\":\"1970-01-01T00:00:00Z\"}"
    );
}

#[test]
fn latest_representable_instant() {
    let last = Timestamp { secs: LATEST_SECS, nanos: 999_999_999 };
    assert_eq!(last.to_rfc3339().unwrap(), "+262142-12-31T23:59:59.999999999Z");
    let beyond = Timestamp { secs: LATEST_SECS + 1, nanos: 0 };
    assert!(beyond.to_rfc3339().is_none());
    let late_in_range = WsText::new("a", "b", Timestamp { secs: 253_402_300_799, nanos: 0 });
    assert!(late_in_range.to_json().unwrap().ends_with("\"9999-12-31T23:59:59Z\"}"));
}

#[test]
fn relay_keeps_reading_after_publish_to_empty_topic() {
    let topic = Topic::new(4);
    let outcome = publish_text(&topic, "alice", "hi");
    assert_eq!(outcome, PublishOutcome::NoSubscriber);
    assert!(inbound_continues(outcome));
}
