use glitch_in_the_matrix::errors::MatrixError;
use glitch_in_the_matrix::request::{MatrixRequestable, Method};
use glitch_in_the_matrix::sync::{SyncPoll, SyncStream};
use glitch_in_the_matrix::MatrixClient;

fn client() -> MatrixClient {
    MatrixClient::login_password_reply(
        "https://example.org",
        200,
        br#"{"user_id":"@bot:example.org","access_token":"tok123","device_id":"DEV"}"#,
    )
    .expect("the login goes well")
}

fn send(stream: &mut SyncStream, c: &MatrixClient) -> String {
    match stream.poll(c) {
        Ok(SyncPoll::Send(request)) => {
            assert_eq!(request.method, Method::Get);
            assert!(request.body.is_empty());
            request.uri
        }
        other => panic!("{:?}", other),
    }
}

fn answer(stream: &mut SyncStream, status: u16, body: &[u8]) {
    stream.head(status);
    let (a, b) = body.split_at(body.len() / 2);
    stream.chunk(a);
    stream.chunk(b);
    stream.end();
}

#[test]
fn a_new_stream_has_its_defaults() {
    let mut s = SyncStream::new();
    assert_eq!(s.timeout(), 30000);
    assert!(s.sync_sets_presence());
    assert_eq!(s.cursor(), None);
    assert!(!s.is_awaiting());
    s.set_timeout(5);
    s.set_sync_sets_presence(false);
    assert_eq!(s.timeout(), 5);
    assert!(!s.sync_sets_presence());
    let req = s.req();
    assert_eq!(req.endpoint, "/sync");
    assert_eq!(req.params.len(), 1);
    assert_eq!(req.params.get("set_presence"), Some(&"offline".to_string()));
    assert_eq!(req.params.get("since"), None);
}

#[test]
fn the_second_poll_names_the_first_batch() {
    let c = client();
    let mut s = SyncStream::new();
    let first = send(&mut s, &c);
    assert_eq!(first, "https://example.org/_matrix/client/r0/sync?access_token=tok123&set_presence=online");
    assert!(!first.contains("since"));
    assert!(!first.contains("timeout"));
    assert!(s.is_awaiting());
    assert!(matches!(s.poll(&c), Ok(SyncPoll::NotReady)));
    answer(&mut s, 200, br#"{"next_batch":"b1","rooms":{}}"#);
    assert_eq!(s.cursor(), None);
    match s.poll(&c) {
        Ok(SyncPoll::Ready(reply)) => assert_eq!(reply.next_batch, "b1"),
        other => panic!("{:?}", other),
    }
    assert_eq!(s.cursor(), Some("b1"));
    assert!(!s.is_awaiting());
    let second = send(&mut s, &c);
    assert!(second.contains("since=b1"));
    assert_eq!(
        second,
        "https://example.org/_matrix/client/r0/sync?access_token=tok123&set_presence=online&since=b1&timeout=30000"
    );
    answer(&mut s, 200, br#"{"next_batch":"b 2","rooms":{}}"#);
    assert!(matches!(s.poll(&c), Ok(SyncPoll::Ready(_))));
    s.set_timeout(1500);
    let third = send(&mut s, &c);
    assert!(third.ends_with("&set_presence=online&since=b%202&timeout=1500"));
}

#[test]
fn a_failed_poll_keeps_the_cursor() {
    let c = client();
    let mut s = SyncStream::new();
    send(&mut s, &c);
    answer(&mut s, 200, br#"{"next_batch":"b1","rooms":{}}"#);
    assert!(matches!(s.poll(&c), Ok(SyncPoll::Ready(_))));
    send(&mut s, &c);
    answer(&mut s, 500, b"oops");
    assert!(matches!(s.poll(&c), Err(MatrixError::HttpStatus(500))));
    assert_eq!(s.cursor(), Some("b1"));
    assert!(!s.is_awaiting());
    assert!(send(&mut s, &c).contains("since=b1"));
    s.head(200);
    s.fail(MatrixError::Transport("reset".to_string()));
    assert!(matches!(s.poll(&c), Err(MatrixError::Transport(_))));
    assert_eq!(s.cursor(), Some("b1"));
    assert!(send(&mut s, &c).contains("since=b1"));
    answer(&mut s, 200, br#"{"next_batch":"b2"}"#);
    assert!(matches!(s.poll(&c), Err(MatrixError::Serialization)));
    assert_eq!(s.cursor(), Some("b1"));
    send(&mut s, &c);
    answer(&mut s, 401, br#"{"errcode":"M_UNKNOWN_TOKEN","error":"gone"}"#);
    match s.poll(&c) {
        Err(MatrixError::ServerError { errcode, message }) => {
            assert_eq!(errcode, "M_UNKNOWN_TOKEN");
            assert_eq!(message, Some("gone".to_string()));
        }
        other => panic!("{:?}", other),
    }
}

#[test]
fn a_request_that_cannot_be_built_leaves_the_stream_idle() {
    let bad = MatrixClient::as_new("not a url".to_string(), "u".to_string(), "t".to_string());
    let mut s = SyncStream::new();
    assert!(matches!(s.poll(&bad), Err(MatrixError::InvalidAddress)));
    assert!(!s.is_awaiting());
    assert!(bad.is_as());
    s.head(200);
    s.chunk(b"x");
    s.end();
    s.fail(MatrixError::Serialization);
    assert!(!s.is_awaiting());
    let c = client();
    assert!(matches!(s.poll(&c), Ok(SyncPoll::Send(_))));
}
