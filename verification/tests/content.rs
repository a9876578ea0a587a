use glitch_in_the_matrix::codec::{FromJson, ToJson};
use glitch_in_the_matrix::json::{parse, print, Json};
use glitch_in_the_matrix::types::content::room::types::{GuestAccess, HistoryVisibility, JoinRule, Membership};
use glitch_in_the_matrix::types::content::root::types::Presence;
use glitch_in_the_matrix::types::content::{
    deserialize_content, deserialize_content_strict, Content, ContentKind,
};
use glitch_in_the_matrix::types::content::room::{fifty, tru, zero};
use glitch_in_the_matrix::types::messages::{ImageInfo, Message};
use glitch_in_the_matrix::types::room::Room;
use glitch_in_the_matrix::errors::MatrixError;

fn json(text: &str) -> Json {
    parse(text.as_bytes()).expect("the text is JSON")
}

fn text(j: &Json) -> String {
    print(j).expect("the document can be written")
}

#[test]
fn known_types_decode_to_their_variant() {
    let cases: Vec<(&str, &str)> = vec![
        ("m.room.aliases", r##"{"aliases":["#a:example.org"]}"##),
        ("m.room.avatar", r#"{"url":"mxc://example.org/abc"}"#),
        ("m.room.canonical_alias", r##"{"alias":"#a:example.org"}"##),
        ("m.room.create", r#"{"creator":"@a:example.org"}"#),
        ("m.room.guest_access", r#"{"guest_access":"can_join"}"#),
        ("m.room.history_visibility", r#"{"history_visibility":"world_readable"}"#),
        ("m.room.join_rules", r#"{"join_rule":"invite"}"#),
        ("m.room.member", r#"{"membership":"join","displayname":"A"}"#),
        ("m.room.name", r#"{"name":"The room"}"#),
        ("m.room.power_levels", r#"{"users":{"@a:example.org":100}}"#),
        ("m.room.redaction", r#"{"reason":"spam"}"#),
        ("m.room.topic", r#"{"topic":"Things"}"#),
        ("m.room.message", r#"{"msgtype":"m.text","body":"hi"}"#),
        ("m.direct", r#"{"@a:example.org":["!r:example.org"]}"#),
        ("m.presence", r#"{"presence":"online","user_id":"@a:example.org"}"#),
        ("m.receipt", r#"{"$e:example.org":{"m.read":{"@a:example.org":{"ts":1}}}}"#),
        ("m.tag", r#"{"tags":{"work":{"order":1}}}"#),
        ("m.typing", r#"{"user_ids":["@a:example.org"]}"#),
        ("m.call.invite", r#"{"call_id":"1","offer":{"type":"offer","sdp":"v=0"},"version":0,"lifetime":60000}"#),
        ("m.call.candidates", r#"{"call_id":"1","candidates":[{"sdpMid":"audio","sdpMLineIndex":0,"candidate":"c"}],"version":0}"#),
        ("m.call.answer", r#"{"call_id":"1","answer":{"type":"answer","sdp":"v=0"},"version":0}"#),
        ("m.call.hangup", r#"{"call_id":"1","version":0}"#),
    ];
    assert_eq!(cases.len(), 22);
    for (typ, payload) in cases {
        let c = deserialize_content(typ, json(payload));
        assert!(!matches!(c, Content::Unknown(_)), "{} decoded to Unknown", typ);
        let strict = deserialize_content_strict(typ, json(payload)).expect("strict decoding takes it");
        assert_eq!(c, strict);
        assert!(ContentKind::of(typ).is_some());
    }
}

#[test]
fn each_kind_yields_its_own_variant() {
    assert!(matches!(deserialize_content("m.room.name", json(r#"{"name":"n"}"#)), Content::RoomName(_)));
    assert!(matches!(deserialize_content("m.room.topic", json(r#"{"topic":"n"}"#)), Content::RoomTopic(_)));
    assert!(matches!(deserialize_content("m.typing", json(r#"{"user_ids":[]}"#)), Content::RootTyping(_)));
    assert!(matches!(deserialize_content("m.call.hangup", json(r#"{"call_id":"1","version":0}"#)), Content::CallHangup(_)));
    match deserialize_content("m.room.member", json(r#"{"membership":"ban"}"#)) {
        Content::RoomMember(m) => {
            assert_eq!(m.membership, Membership::Ban);
            assert_eq!(m.displayname, None);
            assert_eq!(m.is_direct, None);
        }
        other => panic!("{:?}", other),
    }
}

#[test]
fn unknown_type_keeps_the_payload_in_both_modes() {
    let raw = r#"{"zeta":1,"alpha":[true,null,-3,"x"],"nested":{"k":1.5}}"#;
    let lenient = deserialize_content("org.example.custom", json(raw));
    assert_eq!(lenient, Content::Unknown(json(raw)));
    let strict = deserialize_content_strict("org.example.custom", json(raw));
    assert_eq!(strict, Ok(Content::Unknown(json(raw))));
    assert_eq!(lenient.to_json(), json(raw));
    assert_eq!(text(&lenient.to_json()), raw);
    assert_eq!(ContentKind::of("org.example.custom"), None);
    assert_eq!(ContentKind::of(""), None);
    assert_eq!(ContentKind::of("m.room.names"), None);
}

#[test]
fn malformed_payload_is_unknown_or_refused() {
    let raw = r#"{"nam":"typo"}"#;
    assert_eq!(deserialize_content("m.room.name", json(raw)), Content::Unknown(json(raw)));
    assert_eq!(deserialize_content_strict("m.room.name", json(raw)), Err(MatrixError::Serialization));
    let not_an_object = "[1,2]";
    assert_eq!(deserialize_content("m.room.redaction", json(not_an_object)), Content::Unknown(json(not_an_object)));
    assert_eq!(deserialize_content_strict("m.room.redaction", json(not_an_object)), Err(MatrixError::Serialization));
    let wrong_type = r#"{"name":5}"#;
    assert_eq!(deserialize_content("m.room.name", json(wrong_type)), Content::Unknown(json(wrong_type)));
}

#[test]
fn room_round_trips_as_a_bare_string() {
    let j = json(r#""!abc:example.org""#);
    let room = Room::from_json(&j).expect("a string is a room");
    assert_eq!(room, Room::from_id("!abc:example.org"));
    assert_eq!(room.id, "!abc:example.org");
    assert_eq!(room.to_json(), j);
    assert_eq!(text(&room.to_json()), r#""!abc:example.org""#);
    assert_eq!(Room::from_json(&json("5")), None);
    assert_eq!(Room::from_json(&json(r#"{"id":"x"}"#)), None);
    assert!(room.is(&room.copy()));
    assert!(!room.is(&Room::from_id("!abd:example.org")));
}

#[test]
fn rooms_are_ordered_by_their_ids() {
    let a = Room::from_id("!a:example.org");
    let b = Room::from_id("!b:example.org");
    assert!(a < b);
    assert_eq!(a.clone(), a);
    assert_ne!(a, b);
}

#[test]
fn message_round_trip_keeps_present_and_omits_absent() {
    let texts = vec![
        r#"{"msgtype":"m.text","body":"hi"}"#,
        r#"{"msgtype":"m.text","body":"hi","formatted_body":"<b>hi</b>","format":"org.matrix.custom.html"}"#,
        r#"{"msgtype":"m.notice","body":"hi","format":"f"}"#,
        r#"{"msgtype":"m.image","body":"cat","url":"mxc://e/c","info":{"h":1,"mimetype":"image/png","size":2,"w":3}}"#,
        r#"{"msgtype":"m.image","body":"cat","url":"mxc://e/c","thumbnail_url":"mxc://e/t"}"#,
        r#"{"msgtype":"m.emote","body":"waves"}"#,
        r#"{"msgtype":"m.file","body":"f","filename":"f.txt","info":{"mimetype":"text/plain","size":4},"url":"mxc://e/f"}"#,
        r#"{"msgtype":"m.location","body":"Big Ben","geo_uri":"geo:51.5,-0.12"}"#,
        r#"{"msgtype":"m.audio","body":"a","url":"mxc://e/a","info":{"duration":1000,"mimetype":"audio/aac","size":5}}"#,
        r#"{"msgtype":"m.video","body":"v","url":"mxc://e/v"}"#,
    ];
    for t in texts {
        let m = Message::from_json(&json(t)).expect("the message decodes");
        assert_eq!(text(&m.to_json()), t);
        assert_eq!(Message::from_json(&m.to_json()), Some(m));
    }
}

#[test]
fn message_variants_hold_their_fields() {
    let m = Message::from_json(&json(r#"{"body":"cat","info":{"w":3,"h":1,"size":2,"mimetype":"image/png"},"msgtype":"m.image","url":"u","thumbnail_info":null}"#));
    assert_eq!(
        m,
        Some(Message::Image {
            body: "cat".to_string(),
            url: "u".to_string(),
            info: Some(ImageInfo { h: 1, mimetype: "image/png".to_string(), size: 2, w: 3 }),
            thumbnail_url: None,
            thumbnail_info: None,
        })
    );
    assert_eq!(Message::from_json(&json(r#"{"msgtype":"m.sticker","body":"x"}"#)), None);
    assert_eq!(Message::from_json(&json(r#"{"body":"x"}"#)), None);
    assert_eq!(Message::from_json(&json(r#"{"msgtype":"m.text"}"#)), None);
    assert_eq!(Message::from_json(&json(r#"{"msgtype":"m.text","body":"x","format":7}"#)), None);
}

#[test]
fn text_message_is_written_with_its_tag_first() {
    let m = Message::Text { body: "hi".to_string(), formatted_body: None, format: None };
    assert_eq!(text(&m.to_json()), r#"{"msgtype":"m.text","body":"hi"}"#);
}

#[test]
fn a_tag_order_is_kept_as_it_came() {
    let number = deserialize_content("m.tag", json(r#"{"tags":{"a":{"order":0.25}}}"#));
    let string = deserialize_content("m.tag", json(r#"{"tags":{"a":{"order":"first"}}}"#));
    match (number, string) {
        (Content::RootTag(n), Content::RootTag(s)) => {
            assert_eq!(n.tags.get("a").unwrap().order, Some(json("0.25")));
            assert_eq!(s.tags.get("a").unwrap().order, Some(json(r#""first""#)));
            assert_eq!(text(&n.to_json()), r#"{"tags":{"a":{"order":0.25}}}"#);
        }
        other => panic!("{:?}", other),
    }
}

#[test]
fn power_levels_fall_back_on_their_defaults() {
    assert_eq!(fifty(), 50);
    assert_eq!(zero(), 0);
    assert!(tru());
    match deserialize_content("m.room.power_levels", json("{}")) {
        Content::RoomPowerLevels(p) => {
            assert_eq!((p.ban, p.invite, p.kick, p.redact, p.state_default), (50, 50, 50, 50, 50));
            assert_eq!((p.events_default, p.users_default), (0, 0));
            assert_eq!(p.users.len(), 0);
            assert_eq!(p.events.len(), 0);
        }
        other => panic!("{:?}", other),
    }
    match deserialize_content("m.room.power_levels", json(r#"{"ban":10,"users_default":5,"users":{"@a:e":100},"events":{"m.room.name":60}}"#)) {
        Content::RoomPowerLevels(p) => {
            assert_eq!(p.ban, 10);
            assert_eq!(p.users_default, 5);
            assert_eq!(p.users.get("@a:e"), Some(&100));
            assert_eq!(p.users.get("@b:e"), None);
            assert_eq!(p.events.get("m.room.name"), Some(&60));
        }
        other => panic!("{:?}", other),
    }
    let too_big = r#"{"ban":4294967296}"#;
    assert_eq!(deserialize_content("m.room.power_levels", json(too_big)), Content::Unknown(json(too_big)));
    let negative = r#"{"ban":-1}"#;
    assert_eq!(deserialize_content("m.room.power_levels", json(negative)), Content::Unknown(json(negative)));
}

#[test]
fn a_room_federates_unless_it_says_otherwise() {
    match deserialize_content("m.room.create", json(r#"{"creator":"@a:e"}"#)) {
        Content::RoomCreate(c) => assert!(c.m_federate),
        other => panic!("{:?}", other),
    }
    match deserialize_content("m.room.create", json(r#"{"creator":"@a:e","m.federate":false}"#)) {
        Content::RoomCreate(c) => {
            assert!(!c.m_federate);
            assert_eq!(text(&c.to_json()), r#"{"creator":"@a:e","m.federate":false}"#);
        }
        other => panic!("{:?}", other),
    }
}

#[test]
fn words_have_their_wire_names() {
    assert_eq!(JoinRule::Public.as_str(), "public");
    assert_eq!(Membership::Leave.as_str(), "leave");
    assert_eq!(HistoryVisibility::WorldReadable.as_str(), "world_readable");
    assert_eq!(GuestAccess::CanJoin.as_str(), "can_join");
    assert_eq!(Presence::Unavailable.as_str(), "unavailable");
    assert_eq!(Presence::from_json(&json(r#""offline""#)), Some(Presence::Offline));
    assert_eq!(Presence::from_json(&json(r#""Offline""#)), None);
    assert_eq!(text(&Presence::Online.to_json()), r#""online""#);
    assert_eq!(ContentKind::RoomPowerLevels.as_str(), "m.room.power_levels");
}

#[test]
fn numbers_are_told_apart() {
    assert_eq!(json("7"), Json::UInt(7));
    assert_eq!(json("-7"), Json::Int(-7));
    assert_eq!(json("18446744073709551615"), Json::UInt(u64::MAX));
    assert_eq!(json("1.5"), Json::Float("1.5".to_string()));
    assert_eq!(text(&Json::Float("1.5".to_string())), "1.5");
    assert_eq!(text(&Json::Int(-7)), "-7");
    assert_eq!(text(&Json::UInt(7)), "7");
    assert_eq!(i32::from_json(&json("-2147483648")), Some(i32::MIN));
    assert_eq!(i32::from_json(&json("2147483648")), None);
    assert_eq!(u32::from_json(&json("4294967295")), Some(u32::MAX));
    assert_eq!(u32::from_json(&json("1.0")), None);
    assert_eq!(u64::from_json(&json("-1")), None);
    assert_eq!((-5i32).to_json(), Json::Int(-5));
    assert_eq!(5i32.to_json(), Json::UInt(5));
}

#[test]
fn json_text_is_parsed_and_printed() {
    assert_eq!(parse(b"{"), None);
    assert_eq!(parse(b""), None);
    assert_eq!(parse(b"nul"), None);
    assert_eq!(json("null"), Json::Null);
    assert_eq!(
        json(r#"{"b":[1,"x",false],"a":null}"#),
        Json::Object(vec![
            ("b".to_string(), Json::Array(vec![Json::UInt(1), Json::Str("x".to_string()), Json::Bool(false)])),
            ("a".to_string(), Json::Null),
        ])
    );
    assert_eq!(text(&Json::Object(vec![])), "{}");
    assert_eq!(text(&Json::Null), "null");
    assert_eq!(text(&Json::Str("a\"b".to_string())), r#""a\"b""#);
    let doc = json(r#"{"a":{"b":3},"c":null}"#);
    assert_eq!(doc.get("a").and_then(|a| a.get("b")), Some(&Json::UInt(3)));
    assert_eq!(doc.get("c"), Some(&Json::Null));
    assert_eq!(doc.get_member("c"), None);
    assert_eq!(doc.get("d"), None);
    assert_eq!(doc.copy(), doc);
    assert!(doc.is_object());
    assert!(!doc.is_null());
}

#[test]
fn the_last_of_two_equal_keys_counts() {
    let doc = Json::Object(vec![
        ("k".to_string(), Json::UInt(1)),
        ("k".to_string(), Json::UInt(2)),
    ]);
    assert_eq!(doc.get("k"), Some(&Json::UInt(2)));
    assert_eq!(json(r#"{"k":1,"k":2}"#).get("k"), Some(&Json::UInt(2)));
}
