use glitch_in_the_matrix::codec::FromJson;
use glitch_in_the_matrix::errors::MatrixError;
use glitch_in_the_matrix::json::{parse, Json};
use glitch_in_the_matrix::types::content::Content;
use glitch_in_the_matrix::types::events::{Event, Events};
use glitch_in_the_matrix::types::room::Room;
use glitch_in_the_matrix::types::sync::SyncReply;

fn json(text: &str) -> Json {
    parse(text.as_bytes()).expect("the text is JSON")
}

const MESSAGE: &str = r#"{
    "type": "m.room.message",
    "content": {"msgtype": "m.text", "body": "hello"},
    "event_id": "$1:example.org",
    "room_id": "!r:example.org",
    "sender": "@a:example.org",
    "origin_server_ts": 1432735824653,
    "unsigned": {"age": 1234, "transaction_id": "t1"}
}"#;

const STATE: &str = r#"{
    "type": "m.room.name",
    "content": {"name": "New"},
    "prev_content": {"name": "Old"},
    "state_key": "",
    "event_id": "$2:example.org",
    "sender": "@a:example.org",
    "origin_server_ts": 5
}"#;

const TYPING: &str = r#"{"type": "m.typing", "content": {"user_ids": ["@a:example.org"]}}"#;

const INVITE_STATE: &str = r#"{"type": "m.room.join_rules", "state_key": "", "sender": "@a:example.org", "content": {"join_rule": "invite"}}"#;

const REDACTED: &str = r#"{
    "type": "m.room.message",
    "content": {},
    "event_id": "$3:example.org",
    "sender": "@a:example.org",
    "origin_server_ts": 7,
    "unsigned": {
        "age": 10,
        "redacted_because": {
            "type": "m.room.redaction",
            "content": {"reason": "spam"},
            "event_id": "$4:example.org",
            "sender": "@mod:example.org",
            "origin_server_ts": 8,
            "redacts": "$3:example.org"
        }
    }
}"#;

#[test]
fn main_deser_events() {
    for (name, text) in [("message", MESSAGE), ("state", STATE), ("typing", TYPING), ("invite_state", INVITE_STATE), ("redacted", REDACTED)] {
        let parsed = Event::from_json(&json(text));
        println!("test deser_events: parsing {:32} which is {:?}", name, parsed.is_some());
        assert!(parsed.is_some(), "failed to parse {}", name);
    }
}

#[test]
fn a_room_event_has_room_data_and_no_state_data() {
    let e = Event::from_json(&json(MESSAGE)).unwrap();
    assert_eq!(e.event_type, "m.room.message");
    assert!(matches!(e.content, Content::RoomMessage(_)));
    assert!(e.is_room());
    assert!(!e.is_state());
    let room = e.room_data.unwrap();
    assert_eq!(room.event_id, "$1:example.org");
    assert_eq!(room.room, Some(Room::from_id("!r:example.org")));
    assert_eq!(room.sender, "@a:example.org");
    assert_eq!(room.origin_server_ts, 1432735824653);
    let unsigned = room.unsigned.unwrap();
    assert_eq!(unsigned.age, 1234);
    assert_eq!(unsigned.transaction_id, Some("t1".to_string()));
    assert_eq!(unsigned.redacted_because, None);
}

#[test]
fn a_state_event_may_be_a_room_event_too() {
    let e = Event::from_json(&json(STATE)).unwrap();
    assert!(e.is_room());
    assert!(e.is_state());
    let state = e.state_data.unwrap();
    assert_eq!(state.state_key, "");
    assert!(matches!(state.prev_content, Some(Content::RoomName(ref n)) if n.name == "Old"));
    let room = e.room_data.unwrap();
    assert_eq!(room.room, None);
    assert_eq!(room.unsigned, None);
}

#[test]
fn an_event_may_be_neither_or_state_only() {
    let typing = Event::from_json(&json(TYPING)).unwrap();
    assert!(!typing.is_room());
    assert!(!typing.is_state());
    assert!(matches!(typing.content, Content::RootTyping(_)));
    let invite = Event::from_json(&json(INVITE_STATE)).unwrap();
    assert!(!invite.is_room());
    assert!(invite.is_state());
    assert_eq!(invite.state_data.unwrap().prev_content, None);
}

#[test]
fn a_redacted_event_keeps_its_content_as_it_came() {
    let e = Event::from_json(&json(REDACTED)).unwrap();
    assert_eq!(e.content, Content::Unknown(json("{}")));
    let because = e.room_data.unwrap().unsigned.unwrap().redacted_because.unwrap();
    assert_eq!(because.event_type, "m.room.redaction");
    assert!(matches!(because.content, Content::RoomRedaction(ref r) if r.reason == Some("spam".to_string())));
    let strict = Event::from_json_strict(&json(REDACTED)).expect("a redacted event is not held to its shape");
    assert_eq!(strict.content, Content::Unknown(json("{}")));
}

#[test]
fn strict_decoding_refuses_what_lenient_decoding_keeps() {
    let odd = r#"{"type": "m.room.name", "content": {"nom": "x"}}"#;
    let lenient = Event::from_json(&json(odd)).unwrap();
    assert_eq!(lenient.content, Content::Unknown(json(r#"{"nom": "x"}"#)));
    assert_eq!(Event::from_json_strict(&json(odd)), Err(MatrixError::Serialization));
    let unknown = r#"{"type": "org.example.thing", "content": {"x": 1}}"#;
    let e = Event::from_json_strict(&json(unknown)).unwrap();
    assert_eq!(e.content, Content::Unknown(json(r#"{"x": 1}"#)));
    assert_eq!(Event::from_json_strict(&json(MESSAGE)).ok(), Event::from_json(&json(MESSAGE)));
}

#[test]
fn an_event_needs_a_type_and_a_content() {
    assert_eq!(Event::from_json(&json(r#"{"content": {}}"#)), None);
    assert_eq!(Event::from_json(&json(r#"{"type": 5, "content": {}}"#)), None);
    assert_eq!(Event::from_json(&json(r#"{"type": "m.typing"}"#)), None);
    assert_eq!(Event::from_json(&json(r#"[]"#)), None);
    assert!(Event::from_json(&json(r#"{"type": "m.typing", "content": null}"#)).is_some());
}

#[test]
fn unsigned_data_without_its_age_is_left_out() {
    let e = Event::from_json(&json(r#"{"type":"m.typing","content":{"user_ids":[]},"event_id":"$e","sender":"@a:e","origin_server_ts":1,"unsigned":{"transaction_id":"t"}}"#)).unwrap();
    let room = e.room_data.unwrap();
    assert_eq!(room.unsigned, None);
}

#[test]
fn events_are_read_as_a_list() {
    let es = Events::from_json(&json(&format!(r#"{{"events": [{}, {}]}}"#, TYPING, STATE))).unwrap();
    assert_eq!(es.events.len(), 2);
    assert_eq!(Events::from_json(&json(r#"{"events": [{"type": 1}]}"#)), None);
    assert_eq!(Events::from_json(&json(r#"{}"#)), None);
    assert_eq!(Events::new().events.len(), 0);
}

const SYNC_R0: &str = r#"{
    "next_batch": "s72595_4483_1934",
    "presence": {"events": [{"content": {"presence": "online", "user_id": "@example:localhost", "last_active_ago": 2478593}, "type": "m.presence", "sender": "@example:localhost"}]},
    "account_data": {"events": [{"type": "org.example.custom.config", "content": {"custom_config_key": "custom_config_value"}}]},
    "rooms": {
        "join": {
            "!726s6s6q:example.com": {
                "state": {"events": [{"sender": "@alice:example.com", "type": "m.room.member", "state_key": "@alice:example.com", "content": {"membership": "join"}, "origin_server_ts": 1417731086795, "event_id": "$66697273743031:example.com"}]},
                "timeline": {
                    "events": [
                        {"sender": "@bob:example.com", "type": "m.room.member", "state_key": "@bob:example.com", "content": {"membership": "join"}, "prev_content": {"membership": "invite"}, "origin_server_ts": 1417731086795, "event_id": "$7365636s6r6432:example.com"},
                        {"sender": "@alice:example.com", "type": "m.room.message", "unsigned": {"age": 124524, "transaction_id": "1234"}, "content": {"body": "I am a fish", "msgtype": "m.text"}, "origin_server_ts": 1417731086797, "event_id": "$74686972643033:example.com"}
                    ],
                    "limited": true,
                    "prev_batch": "t34-23535_0_0"
                },
                "ephemeral": {"events": [{"type": "m.typing", "content": {"user_ids": ["@alice:example.com"]}}]},
                "account_data": {"events": [{"type": "m.tag", "content": {"tags": {"work": {"order": 1}}}}]},
                "unread_notifications": {"highlight_count": 1, "notification_count": 5}
            },
            "!second:example.com": {
                "timeline": {"events": [{"type": "m.room.topic", "content": {"topic": "t"}, "sender": "@a:e", "origin_server_ts": 1, "event_id": "$t"}], "prev_batch": "p"}
            }
        },
        "invite": {
            "!696r7674:example.com": {
                "invite_state": {"events": [
                    {"sender": "@alice:example.com", "type": "m.room.name", "state_key": "", "content": {"name": "My Room Name"}},
                    {"sender": "@alice:example.com", "type": "m.room.member", "state_key": "@bob:example.com", "content": {"membership": "invite"}}
                ]}
            }
        },
        "leave": {}
    }
}"#;

const SYNC_UNSTABLE: &str = r#"{
    "next_batch": "s1_2_3",
    "rooms": {
        "leave": {"!left:example.com": {"timeline": {"events": [], "prev_batch": "p0"}}}
    },
    "device_lists": {"changed": []},
    "to_device": {"events": []}
}"#;

#[test]
fn main_deser_sync() {
    for (v, sync_json) in [("unstable", SYNC_UNSTABLE), ("r0", SYNC_R0)] {
        println!("test deser_sync: trying to parse sync {}", v);
        SyncReply::from_json(&json(sync_json)).unwrap();
        println!("test deser_sync: sucessfully parsed sync {}!", v);
    }
}

#[test]
fn a_sync_reply_holds_its_rooms() {
    let reply = SyncReply::from_json(&json(SYNC_R0)).unwrap();
    assert_eq!(reply.next_batch, "s72595_4483_1934");
    assert_eq!(reply.rooms.join.len(), 2);
    assert_eq!(reply.rooms.invite.len(), 1);
    assert_eq!(reply.rooms.leave.len(), 0);
    let joined = reply.rooms.join.get("!726s6s6q:example.com").unwrap();
    assert_eq!(joined.timeline.events.len(), 2);
    assert!(joined.timeline.limited);
    assert_eq!(joined.timeline.prev_batch, "t34-23535_0_0");
    assert_eq!(joined.unread_notifications.highlight_count, 1);
    assert_eq!(joined.unread_notifications.notification_count, 5);
    assert_eq!(joined.state.events.len(), 1);
    assert_eq!(joined.ephemeral.events.len(), 1);
    let second = reply.rooms.join.get("!second:example.com").unwrap();
    assert!(!second.timeline.limited);
    assert_eq!(second.state.events.len(), 0);
    assert_eq!(second.unread_notifications.notification_count, 0);
    assert_eq!(reply.presence.events.len(), 1);
    assert_eq!(reply.account_data.events.len(), 1);
    let unstable = SyncReply::from_json(&json(SYNC_UNSTABLE)).unwrap();
    assert_eq!(unstable.rooms.leave.len(), 1);
    assert_eq!(unstable.presence.events.len(), 0);
}

#[test]
fn a_sync_reply_needs_its_batch_token_and_rooms() {
    assert_eq!(SyncReply::from_json(&json(r#"{"rooms": {}}"#)), None);
    assert_eq!(SyncReply::from_json(&json(r#"{"next_batch": "b"}"#)), None);
    assert!(SyncReply::from_json(&json(r#"{"next_batch": "b", "rooms": {}}"#)).is_some());
    assert_eq!(SyncReply::from_json(&json(r#"{"next_batch": "b", "rooms": {"join": {"!r": {}}}}"#)), None);
}

#[test]
fn the_events_of_a_reply_come_room_by_room() {
    let reply = SyncReply::from_json(&json(SYNC_R0)).unwrap();
    let mut it = reply.iter_events();
    let mut seen: Vec<(String, String)> = Vec::new();
    while let Some((room, event)) = it.next() {
        seen.push((room.id, event.event_type.clone()));
    }
    assert_eq!(
        seen,
        vec![
            ("!726s6s6q:example.com".to_string(), "m.room.member".to_string()),
            ("!726s6s6q:example.com".to_string(), "m.room.message".to_string()),
            ("!second:example.com".to_string(), "m.room.topic".to_string()),
        ]
    );
    assert!(it.next().is_none());
    assert!(it.next().is_none());
    let empty = SyncReply::from_json(&json(r#"{"next_batch": "b", "rooms": {}}"#)).unwrap();
    assert!(empty.iter_events().next().is_none());
}
