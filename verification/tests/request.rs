use glitch_in_the_matrix::client::looks_like_uuid;
use glitch_in_the_matrix::codec::ToJson;
use glitch_in_the_matrix::dict::Dict;
use glitch_in_the_matrix::errors::MatrixError;
use glitch_in_the_matrix::json::{parse, print, Json};
use glitch_in_the_matrix::media::Media;
use glitch_in_the_matrix::presence::PresenceManagement;
use glitch_in_the_matrix::profile::Profile;
use glitch_in_the_matrix::request::apis::r0::{ClientApi, MediaApi};
use glitch_in_the_matrix::request::{
    classify_rejection, decode_reply, discarded_response, frame_body, status_is_success,
    typed_response, ApiType, Async, HttpRequest, MatrixRequest, MatrixRequestable, Method,
    TypedApiResponse,
};
use glitch_in_the_matrix::room::{user_power_level, user_power_level_reply, NewRoom, RoomExt};
use glitch_in_the_matrix::text::{bool_to_string, str_eq, u64_to_string};
use glitch_in_the_matrix::types::content::room::PowerLevels;
use glitch_in_the_matrix::types::content::root::types::Presence;
use glitch_in_the_matrix::types::messages::Message;
use glitch_in_the_matrix::types::replies::{
    BadRequestReply, LoginReply, RoomCreationOptions, RoomPreset, RoomVisibility, SendReply,
    UploadReply,
};
use glitch_in_the_matrix::types::room::Room;
use glitch_in_the_matrix::boilerplate::BoilerplateConfig;
use glitch_in_the_matrix::MatrixClient;

fn json(text: &str) -> Json {
    parse(text.as_bytes()).expect("the text is JSON")
}

fn client() -> MatrixClient {
    MatrixClient::login_password_reply(
        "https://example.org",
        200,
        br#"{"user_id":"@bot:example.org","access_token":"tok123","device_id":"DEV"}"#,
    )
    .expect("the login goes well")
}

fn service() -> MatrixClient {
    MatrixClient::as_new(
        "https://example.org".to_string(),
        "@ghost one?:example.org".to_string(),
        "as_tok".to_string(),
    )
}

#[test]
fn instantiate_req() {
    let mut body = Vec::new();
    body.push(("presence".to_string(), Presence::Online.to_json()));
    body.push(("status_msg".to_string(), Json::Str(String::from("I am text YAY"))));
    let req = MatrixRequest::new(Method::Put, "end", Json::Object(body), ClientApi);
    println!("{:?}", req);
    assert_eq!(req.meth, Method::Put);
    assert_eq!(req.endpoint, "end");
    assert_eq!(req.params.len(), 0);
}

#[test]
fn login_yields_a_session_for_the_user() {
    let request = MatrixClient::login_password("bot", "hunter2", "https://example.org").unwrap();
    assert_eq!(request.method, Method::Post);
    assert_eq!(request.uri, "https://example.org/_matrix/client/r0/login");
    assert_eq!(request.content_type, None);
    assert_eq!(
        String::from_utf8(request.body).unwrap(),
        r#"{"type":"m.login.password","user":"bot","password":"hunter2"}"#
    );
    let mut c = MatrixClient::login_password_reply(
        "https://example.org",
        200,
        br#"{"user_id":"@bot:example.org","access_token":"tok123","home_server":"example.org","device_id":"GHTYAJCE"}"#,
    )
    .unwrap();
    assert_eq!(c.user_id(), "@bot:example.org");
    assert_eq!(c.get_user_id(), "@bot:example.org");
    assert_eq!(c.get_access_token(), "tok123");
    assert_eq!(c.get_url(), "https://example.org");
    assert!(!c.is_as());
    let t = c.get_txnid();
    assert_eq!(c.get_access_token(), "tok123");
    assert_eq!(t.len(), 36);
}

#[test]
fn a_failed_login_is_the_servers_error() {
    let refused = MatrixClient::login_password_reply(
        "https://example.org",
        403,
        br#"{"errcode":"M_FORBIDDEN","error":"Invalid password"}"#,
    );
    assert_eq!(
        refused,
        Err(MatrixError::ServerError {
            errcode: "M_FORBIDDEN".to_string(),
            message: Some("Invalid password".to_string()),
        })
    );
    let odd = MatrixClient::login_password_reply("https://example.org", 200, br#"{"user_id":"@bot:example.org"}"#);
    assert_eq!(odd, Err(MatrixError::Serialization));
    assert_eq!(
        MatrixClient::login_password("bot", "pw", "not a url"),
        Err(MatrixError::InvalidAddress)
    );
}

#[test]
fn a_client_is_made_from_an_access_token() {
    let request = MatrixClient::new_from_access_token("tok", "https://example.org").unwrap();
    assert_eq!(request.method, Method::Get);
    assert_eq!(request.uri, "https://example.org/_matrix/client/r0/account/whoami?access_token=tok");
    assert!(request.body.is_empty());
    let c = MatrixClient::new_from_access_token_reply("tok", "https://example.org", 200, br#"{"user_id":"@me:example.org"}"#).unwrap();
    assert_eq!(c.user_id(), "@me:example.org");
    assert_eq!(c.get_access_token(), "tok");
    assert_eq!(
        MatrixClient::new_from_access_token_reply("tok", "https://example.org", 401, b"nope"),
        Err(MatrixError::HttpStatus(401))
    );
}

#[test]
fn an_application_service_names_its_user() {
    let mut c = service();
    assert!(c.is_as());
    let request = MatrixRequest::new_basic(Method::Get, "/sync").make_request(&c).unwrap();
    assert_eq!(
        request.uri,
        "https://example.org/_matrix/client/r0/sync?access_token=as_tok&user_id=@ghost%20one%3F:example.org"
    );
    c.as_alter_user_id("@other:example.org".to_string());
    assert_eq!(c.user_id(), "@other:example.org");
    let request = MatrixRequest::new_basic(Method::Get, "/sync").make_request(&c).unwrap();
    assert_eq!(
        request.uri,
        "https://example.org/_matrix/client/r0/sync?access_token=as_tok&user_id=@other:example.org"
    );
    let register = c.as_register_user("@new:example.org").unwrap();
    assert_eq!(register.method, Method::Post);
    assert_eq!(register.uri, "https://example.org/_matrix/client/r0/register?access_token=as_tok");
    assert_eq!(
        String::from_utf8(register.body).unwrap(),
        r#"{"type":"m.login.application_service","user":"@new:example.org"}"#
    );
}

#[test]
fn logout_is_a_post_without_a_reply() {
    let request = client().logout().unwrap();
    assert_eq!(request.method, Method::Post);
    assert_eq!(request.uri, "https://example.org/_matrix/client/r0/logout?access_token=tok123");
    assert_eq!(discarded_response(200, b""), Ok(()));
    assert_eq!(discarded_response(200, b"{}"), Ok(()));
    assert_eq!(discarded_response(500, b""), Err(MatrixError::HttpStatus(500)));
}

#[test]
fn an_empty_object_is_not_sent() {
    assert_eq!(frame_body("{}".to_string()), Vec::<u8>::new());
    assert_eq!(frame_body("{ }".to_string()), b"{ }".to_vec());
    assert_eq!(frame_body("null".to_string()), Vec::<u8>::new());
    assert_eq!(frame_body("nul".to_string()), b"nul".to_vec());
    assert_eq!(frame_body("[]".to_string()), b"[]".to_vec());
    assert_eq!(frame_body("".to_string()), Vec::<u8>::new());
    let c = client();
    let empty = MatrixRequest::new(Method::Post, "/x", Json::Object(vec![]), ClientApi).make_request(&c).unwrap();
    assert!(empty.body.is_empty());
    let empty_dict = MatrixRequest::new_with_body(Method::Post, "/x", &Dict::new()).make_request(&c).unwrap();
    assert!(empty_dict.body.is_empty());
    let full = MatrixRequest::new(Method::Post, "/x", json(r#"{"a":[1,2],"b":"c"}"#), ClientApi).make_request(&c).unwrap();
    assert_eq!(full.body, br#"{"a":[1,2],"b":"c"}"#.to_vec());
    let basic = MatrixRequest::new_basic(Method::Post, "/x").make_request(&c).unwrap();
    assert!(basic.body.is_empty());
    let null = MatrixRequest::new(Method::Post, "/x", Json::Null, ClientApi).make_request(&c).unwrap();
    assert!(null.body.is_empty());
    let null_ser = MatrixRequest::new_with_body_ser(Method::Post, "/x", &Json::Null).make_request(&c).unwrap();
    assert!(null_ser.body.is_empty());
    let list = MatrixRequest::new(Method::Post, "/x", json("[]"), ClientApi).make_request(&c).unwrap();
    assert_eq!(list.body, b"[]".to_vec());
    let msg = Message::Emote { body: "waves".to_string() };
    let typed = MatrixRequest::new_with_body_ser(Method::Put, "/x", &msg).make_request(&c).unwrap();
    assert_eq!(typed.body, br#"{"msgtype":"m.emote","body":"waves"}"#.to_vec());
}

#[test]
fn a_request_without_a_body_is_sent_without_one() {
    let c = MatrixClient::as_new("https://hs.example".to_string(), "@u:hs.example".to_string(), "tok".to_string());
    let logout = MatrixRequest::new_basic(Method::Post, "/logout").make_request(&c).unwrap();
    assert!(logout.body.is_empty());
    assert_eq!(logout.method, Method::Post);
    assert!(client().logout().unwrap().body.is_empty());
    let room = Room::from_id("!r:example.org");
    let mut cl = client();
    assert!(room.cli(&mut cl).read_receipt("$e").unwrap().body.is_empty());
    assert!(room.cli(&mut cl).set_typed_state("m.room.topic", None, &Json::Null).unwrap().body.is_empty());
}

#[test]
fn a_body_that_cannot_be_written_is_refused() {
    let c = client();
    let odd = Json::Array(vec![Json::UInt(1), Json::Float("one".to_string())]);
    assert_eq!(print(&odd), None);
    assert_eq!(
        MatrixRequest::new(Method::Post, "/x", odd, ClientApi).make_request(&c),
        Err(MatrixError::Serialization)
    );
    let nested = Json::Object(vec![("k".to_string(), Json::Float("\"1\"".to_string()))]);
    assert_eq!(print(&nested), None);
    assert_eq!(print(&Json::Float("[1]".to_string())), None);
    assert_eq!(print(&Json::Float("".to_string())), None);
    assert_eq!(print(&Json::Float("2.5".to_string())), Some("2.5".to_string()));
    assert_eq!(print(&Json::Float("1e3".to_string())), Some("1000.0".to_string()));
    let bad_url = MatrixClient::as_new("a b".to_string(), "u".to_string(), "t".to_string());
    let odd = Json::Float("x".to_string());
    assert_eq!(
        MatrixRequest::new(Method::Post, "/x", odd, ClientApi).make_request(&bad_url),
        Err(MatrixError::Serialization)
    );
}

#[test]
fn query_parameters_are_percent_encoded() {
    let c = client();
    let mut req = MatrixRequest::new_basic(Method::Get, "/search");
    req.params.insert("a b".to_string(), "c?d".to_string());
    req.params.insert("q".to_string(), "{\"x\"}<#>`".to_string());
    req.params.insert("u".to_string(), "\u{e9}\n~/&=+%".to_string());
    let request = req.make_request(&c).unwrap();
    assert_eq!(
        request.uri,
        "https://example.org/_matrix/client/r0/search?access_token=tok123&a%20b=c%3Fd&q=%7B%22x%22%7D%3C%23%3E%60&u=%C3%A9%0A~/&=+%"
    );
    assert_eq!(request.method, Method::Get);
    req.params.insert("a b".to_string(), "again".to_string());
    assert_eq!(req.params.len(), 3);
    let request = req.make_request(&c).unwrap();
    assert!(request.uri.contains("?access_token=tok123&a%20b=again&q="));
}

#[test]
fn a_malformed_address_is_refused() {
    let c = MatrixClient::as_new("http://exa mple".to_string(), "u".to_string(), "t".to_string());
    assert_eq!(
        MatrixRequest::new_basic(Method::Get, "/sync").make_request(&c),
        Err(MatrixError::InvalidAddress)
    );
    let empty = MatrixClient::as_new("".to_string(), "u".to_string(), "t".to_string());
    assert!(MatrixRequest::new_basic(Method::Get, "/sync").make_request(&empty).is_ok());
}

#[test]
fn each_api_has_its_base_path() {
    assert_eq!(ClientApi.get_path(), "/_matrix/client/r0");
    assert_eq!(MediaApi.get_path(), "/_matrix/media/r0");
    let c = client();
    let media = MatrixRequest::new(Method::Post, "/upload", Json::Null, MediaApi).make_request(&c).unwrap();
    assert_eq!(media.uri, "https://example.org/_matrix/media/r0/upload?access_token=tok123");
    assert_eq!(Method::Get.as_str(), "GET");
    assert_eq!(Method::Delete.as_str(), "DELETE");
}

#[test]
fn a_rejection_is_the_servers_error_or_the_status() {
    let with_message: Result<SendReply, MatrixError> =
        typed_response(404, br#"{"errcode": "M_NOT_FOUND", "error": "Event not found"}"#);
    assert_eq!(
        with_message,
        Err(MatrixError::ServerError {
            errcode: "M_NOT_FOUND".to_string(),
            message: Some("Event not found".to_string()),
        })
    );
    let without: Result<SendReply, MatrixError> = typed_response(429, br#"{"errcode": "M_LIMIT_EXCEEDED"}"#);
    assert_eq!(without, Err(MatrixError::ServerError { errcode: "M_LIMIT_EXCEEDED".to_string(), message: None }));
    let html: Result<SendReply, MatrixError> = typed_response(502, b"<html>Bad Gateway</html>");
    assert_eq!(html, Err(MatrixError::HttpStatus(502)));
    let other_json: Result<SendReply, MatrixError> = typed_response(500, br#"{"error": "no code"}"#);
    assert_eq!(other_json, Err(MatrixError::HttpStatus(500)));
    let redirect: Result<SendReply, MatrixError> = typed_response(302, br#"{"event_id": "$1"}"#);
    assert_eq!(redirect, Err(MatrixError::HttpStatus(302)));
    assert_eq!(classify_rejection(400, &None), MatrixError::HttpStatus(400));
    assert_eq!(
        classify_rejection(400, &Some(json(r#"{"errcode":"M_X","error":"y"}"#))),
        MatrixError::ServerError { errcode: "M_X".to_string(), message: Some("y".to_string()) }
    );
    assert_eq!(classify_rejection(400, &Some(json(r#"{"errcode":7}"#))), MatrixError::HttpStatus(400));
}

#[test]
fn a_success_is_decoded_as_the_expected_reply() {
    let ok: Result<SendReply, MatrixError> = typed_response(200, br#"{"event_id": "$1:example.org"}"#);
    assert_eq!(ok.unwrap().event_id, "$1:example.org");
    let malformed: Result<SendReply, MatrixError> = typed_response(200, b"{\"event_id\": ");
    assert_eq!(malformed, Err(MatrixError::Serialization));
    let unexpected: Result<SendReply, MatrixError> = typed_response(201, br#"{"id": "$1"}"#);
    assert_eq!(unexpected, Err(MatrixError::Serialization));
    let upload: Result<UploadReply, MatrixError> = typed_response(299, br#"{"content_uri": "mxc://e/x"}"#);
    assert_eq!(upload.unwrap().content_uri, "mxc://e/x");
    let e: Result<SendReply, MatrixError> = decode_reply(&None);
    assert_eq!(e, Err(MatrixError::Serialization));
    let r: Result<LoginReply, MatrixError> = decode_reply(&Some(json(r#"{"user_id":"u","access_token":"t","device_id":"d"}"#)));
    assert_eq!(r.unwrap().device_id, "d");
    assert!(status_is_success(200));
    assert!(status_is_success(299));
    assert!(!status_is_success(199));
    assert!(!status_is_success(300));
}

#[test]
fn errors_are_described_in_words() {
    assert_eq!(MatrixError::Transport("connection refused".to_string()).describe(), "HTTP error: connection refused");
    assert_eq!(MatrixError::Serialization.describe(), "Serialization error");
    assert_eq!(MatrixError::InvalidAddress.describe(), "Error decoding URI");
    assert_eq!(MatrixError::InvalidHeaderValue.describe(), "Invalid header value");
    assert_eq!(MatrixError::HttpStatus(404).describe(), "Request failed with HTTP status: 404");
    assert_eq!(
        MatrixError::ServerError { errcode: "M_FORBIDDEN".to_string(), message: Some("no".to_string()) }.describe(),
        "Error from homeserver: M_FORBIDDEN: no"
    );
    assert_eq!(
        MatrixError::ServerError { errcode: "M_FORBIDDEN".to_string(), message: None }.describe(),
        "Error from homeserver: M_FORBIDDEN"
    );
}

#[test]
fn errors_tell_not_found_apart() {
    assert!(MatrixError::ServerError { errcode: "M_NOT_FOUND".to_string(), message: None }.is_not_found());
    assert!(!MatrixError::ServerError { errcode: "M_FORBIDDEN".to_string(), message: None }.is_not_found());
    assert!(!MatrixError::HttpStatus(404).is_not_found());
    assert!(!MatrixError::Transport("reset".to_string()).is_not_found());
    let e = MatrixError::ServerError { errcode: "M_X".to_string(), message: Some("m".to_string()) };
    assert_eq!(e.copy(), e);
    let reply = BadRequestReply { errcode: "M_X".to_string(), error: None };
    assert_eq!(reply.to_json(), json(r#"{"errcode":"M_X"}"#));
}

#[test]
fn a_response_is_buffered_before_it_is_decoded() {
    let mut r = TypedApiResponse::new();
    assert_eq!(r.poll::<SendReply>().unwrap(), Async::NotReady);
    r.chunk(b"ignored before the head");
    r.head(200);
    r.head(500);
    assert_eq!(r.poll::<SendReply>().unwrap(), Async::NotReady);
    r.chunk(br#"{"event_"#);
    assert_eq!(r.poll::<SendReply>().unwrap(), Async::NotReady);
    r.chunk(br#"id": "$1"}"#);
    assert_eq!(r.poll::<SendReply>().unwrap(), Async::NotReady);
    r.end();
    r.chunk(b"ignored after the end");
    r.fail(MatrixError::Transport("late".to_string()));
    assert_eq!(r.poll::<SendReply>().unwrap(), Async::Ready(SendReply { event_id: "$1".to_string() }));
    assert_eq!(r.poll_discarding().unwrap(), Async::Ready(()));
    assert_eq!(r.into_parts(), Some((200, br#"{"event_id": "$1"}"#.to_vec())));
    let mut early = TypedApiResponse::new();
    early.head(200);
    early.chunk(b"{}");
    assert_eq!(early.into_parts(), None);
}

#[test]
fn a_failed_connection_is_a_transport_error() {
    let mut r = TypedApiResponse::new();
    r.head(200);
    r.chunk(b"{");
    r.fail(MatrixError::Transport("connection reset".to_string()));
    r.end();
    assert_eq!(r.poll::<SendReply>(), Err(MatrixError::Transport("connection reset".to_string())));
    assert_eq!(r.poll_discarding(), Err(MatrixError::Transport("connection reset".to_string())));
    let mut d = TypedApiResponse::new();
    assert_eq!(d.poll_discarding().unwrap(), Async::NotReady);
    d.head(403);
    d.chunk(br#"{"errcode":"M_FORBIDDEN"}"#);
    d.end();
    assert_eq!(
        d.poll_discarding(),
        Err(MatrixError::ServerError { errcode: "M_FORBIDDEN".to_string(), message: None })
    );
}

#[test]
fn sending_a_text_message() {
    let mut c = client();
    let room = Room::from_id("!abc:example.org");
    let msg = Message::Text { body: "hi".to_string(), formatted_body: None, format: None };
    let request = room.cli(&mut c).send(&msg).unwrap();
    assert_eq!(request.method, Method::Put);
    let prefix = "https://example.org/_matrix/client/r0/rooms/!abc:example.org/send/m.room.message/";
    let suffix = "?access_token=tok123";
    assert!(request.uri.starts_with(prefix));
    assert!(request.uri.ends_with(suffix));
    let txn = &request.uri[prefix.len()..request.uri.len() - suffix.len()];
    assert!(looks_like_uuid(txn));
    assert_eq!(String::from_utf8(request.body).unwrap(), r#"{"msgtype":"m.text","body":"hi"}"#);
    let reply: SendReply = typed_response(200, br#"{"event_id":"$1:example.org"}"#).unwrap();
    assert_eq!(reply.event_id, "$1:example.org");
    let again = room.cli(&mut c).send(&msg).unwrap();
    assert_ne!(again.uri, request.uri);
    let fixed = room.cli(&mut c).send_as(&msg, "txn7").unwrap();
    assert_eq!(fixed.uri, format!("{}txn7{}", prefix, suffix));
}

#[test]
fn notices_are_sent_plain_or_as_html() {
    let mut c = client();
    let room = Room::from_id("!r:example.org");
    let simple = room.cli(&mut c).send_simple("hello").unwrap();
    assert_eq!(String::from_utf8(simple.body).unwrap(), r#"{"msgtype":"m.notice","body":"hello"}"#);
    let html = room.cli(&mut c).send_html("<b>hello</b>", Some("hello")).unwrap();
    assert_eq!(
        String::from_utf8(html.body).unwrap(),
        r#"{"msgtype":"m.notice","body":"hello","formatted_body":"<b>hello</b>","format":"org.matrix.custom.html"}"#
    );
    let only = room.cli(&mut c).send_html("<i>x</i>", None).unwrap();
    assert_eq!(
        String::from_utf8(only.body).unwrap(),
        r#"{"msgtype":"m.notice","body":"<i>x</i>","formatted_body":"<i>x</i>","format":"org.matrix.custom.html"}"#
    );
}

fn uri_of(r: Result<HttpRequest, MatrixError>) -> (Method, String, String) {
    let r = r.unwrap();
    let base = "https://example.org/_matrix/client/r0";
    let tail = "?access_token=tok123";
    assert!(r.uri.starts_with(base));
    let rest = r.uri[base.len()..].to_string();
    let path = rest.replace(tail, "?");
    (r.method, path, String::from_utf8(r.body).unwrap())
}

#[test]
fn room_endpoints_have_their_paths() {
    let mut c = client();
    let room = Room::from_id("!r:example.org");
    let rc = room.cli(&mut c);
    let n = String::new();
    assert_eq!(uri_of(rc.read_receipt("$e")), (Method::Post, "/rooms/!r:example.org/receipt/m.read/$e?".to_string(), n.clone()));
    assert_eq!(uri_of(rc.get_typed_state("m.room.name", None)), (Method::Get, "/rooms/!r:example.org/state/m.room.name/?".to_string(), n.clone()));
    assert_eq!(uri_of(rc.get_typed_state("m.room.member", Some("@a:e"))), (Method::Get, "/rooms/!r:example.org/state/m.room.member/@a:e?".to_string(), n.clone()));
    assert_eq!(
        uri_of(rc.set_typed_state("m.room.topic", None, &json(r#"{"topic":"t"}"#))),
        (Method::Put, "/rooms/!r:example.org/state/m.room.topic/?".to_string(), r#"{"topic":"t"}"#.to_string())
    );
    assert_eq!(uri_of(rc.get_all_state()), (Method::Get, "/rooms/!r:example.org/state?".to_string(), n.clone()));
    assert_eq!(uri_of(rc.get_event("$e")), (Method::Get, "/rooms/!r:example.org/event/$e?".to_string(), n.clone()));
    assert_eq!(uri_of(rc.get_members()), (Method::Get, "/rooms/!r:example.org/members?".to_string(), n.clone()));
    assert_eq!(uri_of(rc.get_joined_members()), (Method::Get, "/rooms/!r:example.org/joined_members?".to_string(), n.clone()));
    assert_eq!(uri_of(rc.join()), (Method::Post, "/rooms/!r:example.org/join?".to_string(), n.clone()));
    assert_eq!(uri_of(rc.leave()), (Method::Post, "/rooms/!r:example.org/leave?".to_string(), n.clone()));
    assert_eq!(uri_of(rc.forget()), (Method::Post, "/rooms/!r:example.org/forget?".to_string(), n.clone()));
    assert_eq!(
        uri_of(rc.kick_user("@a:e", Some("spam"))),
        (Method::Post, "/rooms/!r:example.org/kick?".to_string(), r#"{"user_id":"@a:e","reason":"spam"}"#.to_string())
    );
    assert_eq!(
        uri_of(rc.ban_user("@a:e", None)),
        (Method::Post, "/rooms/!r:example.org/ban?".to_string(), r#"{"user_id":"@a:e"}"#.to_string())
    );
    assert_eq!(
        uri_of(rc.unban_user("@a:e")),
        (Method::Post, "/rooms/!r:example.org/unban?".to_string(), r#"{"user_id":"@a:e"}"#.to_string())
    );
    assert_eq!(
        uri_of(rc.invite_user("@a:e")),
        (Method::Post, "/rooms/!r:example.org/invite?".to_string(), r#"{"user_id":"@a:e"}"#.to_string())
    );
    assert_eq!(
        uri_of(rc.typing(true, Some(3000))),
        (Method::Post, "/rooms/!r:example.org/typing/@bot:example.org?".to_string(), r#"{"typing":"true","timeout":"3000"}"#.to_string())
    );
    assert_eq!(
        uri_of(rc.typing(false, None)),
        (Method::Post, "/rooms/!r:example.org/typing/@bot:example.org?".to_string(), r#"{"typing":"false"}"#.to_string())
    );
    assert_eq!(
        uri_of(rc.redact_as("$e", Some("why"), "t1")),
        (Method::Post, "/rooms/!r:example.org/redact/$e/t1?".to_string(), r#"{"reason":"why"}"#.to_string())
    );
    assert_eq!(uri_of(rc.redact_as("$e", None, "t1")), (Method::Post, "/rooms/!r:example.org/redact/$e/t1?".to_string(), String::new()));
    assert_eq!(uri_of(rc.get_user_power_level()), (Method::Get, "/rooms/!r:example.org/state/m.room.power_levels/?".to_string(), n.clone()));
    let mut rc = rc;
    let redact = rc.redact("$e", None).unwrap();
    assert!(redact.uri.contains("/rooms/!r:example.org/redact/$e/"));
    assert!(redact.body.is_empty());
}

#[test]
fn messages_are_asked_for_page_by_page() {
    let mut c = client();
    let room = Room::from_id("!r:example.org");
    let rc = room.cli(&mut c);
    assert_eq!(
        uri_of(rc.get_messages("t1", Some("t2"), true, Some(25))).1,
        "/rooms/!r:example.org/messages?&from=t1&to=t2&dir=b&limit=25"
    );
    assert_eq!(uri_of(rc.get_messages("t 1", None, false, None)).1, "/rooms/!r:example.org/messages?&from=t%201&dir=f");
    assert_eq!(
        uri_of(rc.get_messages("a", None, true, Some(u32::MAX))).1,
        "/rooms/!r:example.org/messages?&from=a&dir=b&limit=4294967295"
    );
}

#[test]
fn rooms_are_found_joined_and_created() {
    let c = client();
    assert_eq!(uri_of(NewRoom::from_alias(&c, "%23a:example.org")).1, "/directory/room/%23a:example.org?");
    assert_eq!(uri_of(NewRoom::join(&c, "!r:example.org")), (Method::Post, "/join/!r:example.org?".to_string(), String::new()));
    let mut opts = RoomCreationOptions::new();
    assert_eq!(uri_of(NewRoom::create(&c, &opts)), (Method::Post, "/createRoom?".to_string(), r#"{"is_direct":false}"#.to_string()));
    opts.visibility = Some(RoomVisibility::Private);
    opts.name = Some("n".to_string());
    opts.invite.push("@a:e".to_string());
    opts.creation_content.insert("m.federate".to_string(), Json::Bool(false));
    opts.preset = Some(RoomPreset::TrustedPrivateChat);
    opts.is_direct = true;
    assert_eq!(
        uri_of(NewRoom::create(&c, &opts)).2,
        r#"{"visibility":"private","name":"n","invite":["@a:e"],"creation_content":{"m.federate":false},"preset":"trusted_private_chat","is_direct":true}"#
    );
    assert_eq!(NewRoom::joined_reply(200, br#"{"room_id":"!new:example.org"}"#), Ok(Room::from_id("!new:example.org")));
    assert_eq!(
        NewRoom::from_alias_reply(200, br#"{"room_id":"!x:example.org","servers":["example.org"]}"#),
        Ok(Room::from_id("!x:example.org"))
    );
    assert_eq!(NewRoom::from_alias_reply(200, br#"{"room_id":"!x:example.org"}"#), Err(MatrixError::Serialization));
    assert_eq!(
        NewRoom::joined_reply(404, br#"{"errcode":"M_NOT_FOUND","error":"no"}"#),
        Err(MatrixError::ServerError { errcode: "M_NOT_FOUND".to_string(), message: Some("no".to_string()) })
    );
}

#[test]
fn a_missing_power_levels_event_means_level_zero() {
    let not_found: Result<PowerLevels, MatrixError> =
        Err(MatrixError::ServerError { errcode: "M_NOT_FOUND".to_string(), message: Some("Event not found".to_string()) });
    assert_eq!(user_power_level(not_found, "@a:example.org"), Ok(0));
    assert_eq!(
        user_power_level_reply(404, br#"{"errcode":"M_NOT_FOUND","error":"Event not found."}"#, "@a:example.org"),
        Ok(0)
    );
    let levels = br#"{"users":{"@admin:example.org":100},"users_default":10}"#;
    assert_eq!(user_power_level_reply(200, levels, "@admin:example.org"), Ok(100));
    assert_eq!(user_power_level_reply(200, levels, "@a:example.org"), Ok(10));
    assert_eq!(user_power_level_reply(200, br#"{"users":{}}"#, "@a:example.org"), Ok(0));
    assert_eq!(
        user_power_level_reply(403, br#"{"errcode":"M_FORBIDDEN"}"#, "@a:example.org"),
        Err(MatrixError::ServerError { errcode: "M_FORBIDDEN".to_string(), message: None })
    );
    assert_eq!(user_power_level_reply(404, b"", "@a:example.org"), Err(MatrixError::HttpStatus(404)));
    assert_eq!(user_power_level(Err(MatrixError::Transport("x".to_string())), "@a:e"), Err(MatrixError::Transport("x".to_string())));
}

#[test]
fn media_is_uploaded_with_its_content_type() {
    let c = client();
    let request = Media::upload(&c, vec![1, 2, 3], "image/png").unwrap();
    assert_eq!(request.method, Method::Post);
    assert_eq!(request.uri, "https://example.org/_matrix/media/r0/upload?access_token=tok123");
    assert_eq!(request.content_type, Some("image/png".to_string()));
    assert_eq!(request.body, vec![1, 2, 3]);
    assert_eq!(Media::upload(&c, vec![], "image/png\n"), Err(MatrixError::InvalidHeaderValue));
    assert_eq!(Media::upload(&c, vec![], "a\u{7f}"), Err(MatrixError::InvalidHeaderValue));
    assert!(Media::upload(&c, vec![], "text/plain;\tcharset=\u{e9}").is_ok());
    let bad = MatrixClient::as_new("a b".to_string(), "u".to_string(), "t".to_string());
    assert_eq!(Media::upload(&bad, vec![], "bad\n"), Err(MatrixError::InvalidAddress));
}

#[test]
fn profile_and_presence_are_set() {
    let c = client();
    assert_eq!(uri_of(Profile::get_displayname(&c, "@a:e")), (Method::Get, "/profile/@a:e/displayname?".to_string(), String::new()));
    assert_eq!(
        uri_of(Profile::set_displayname(&c, "Bot".to_string())),
        (Method::Put, "/profile/@bot:example.org/displayname?".to_string(), r#"{"displayname":"Bot"}"#.to_string())
    );
    assert_eq!(
        uri_of(PresenceManagement::update_presence(&c, Presence::Unavailable)),
        (Method::Put, "/presence/@bot:example.org/status?".to_string(), r#"{"presence":"unavailable"}"#.to_string())
    );
}

#[test]
fn a_bot_logs_in_with_its_configuration() {
    let cfg = BoilerplateConfig {
        server: "https://example.org".to_string(),
        username: "bot".to_string(),
        password: "pw".to_string(),
    };
    assert_eq!(cfg.login(), MatrixClient::login_password("bot", "pw", "https://example.org"));
    assert_eq!(cfg.login().unwrap().uri, "https://example.org/_matrix/client/r0/login");
}

#[test]
fn transaction_ids_are_uuids() {
    let mut c = client();
    let a = c.get_txnid();
    let b = c.get_txnid();
    assert!(looks_like_uuid(&a));
    assert!(looks_like_uuid(&b));
    assert_ne!(a, b);
    assert!(!looks_like_uuid("txn7"));
    assert!(!looks_like_uuid("0000000000000-0000-0000-0000-00000000"));
    assert!(looks_like_uuid("01234567-89ab-cdef-0123-456789abcdef"));
    assert!(!looks_like_uuid("01234567-89AB-cdef-0123-456789abcdef"));
}

#[test]
fn a_mapping_keeps_each_key_once() {
    let mut d: Dict<u32> = Dict::new();
    assert_eq!(d.len(), 0);
    assert_eq!(d.get("a"), None);
    d.insert("a".to_string(), 1);
    d.insert("b".to_string(), 2);
    d.insert("a".to_string(), 3);
    d.keys_are_distinct();
    assert_eq!(d.len(), 2);
    assert_eq!(d.get("a"), Some(&3));
    assert_eq!(d.get("b"), Some(&2));
    assert_eq!(d.key_at(0), "a");
    assert_eq!(d.value_at(1), &2);
    assert_eq!(d.to_json(), json(r#"{"a":3,"b":2}"#));
}

#[test]
fn text_helpers() {
    assert_eq!(u64_to_string(0), "0");
    assert_eq!(u64_to_string(7), "7");
    assert_eq!(u64_to_string(30000), "30000");
    assert_eq!(u64_to_string(1009), "1009");
    assert_eq!(u64_to_string(u64::MAX), "18446744073709551615");
    assert_eq!(bool_to_string(true), "true");
    assert_eq!(bool_to_string(false), "false");
    assert!(str_eq("", ""));
    assert!(str_eq("m.text", "m.text"));
    assert!(!str_eq("m.text", "m.texT"));
    assert!(!str_eq("m.text", "m.tex"));
    assert!(str_eq("\u{e9}", "\u{e9}"));
}
