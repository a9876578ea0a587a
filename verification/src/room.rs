//! Abstractions for Matrix rooms.
//!
//! Each endpoint is given as the HTTP request that calls it. The reply to a request is read
//! with `request::typed_response` or `request::discarded_response`.

use vstd::prelude::*;
use vstd::string::*;
use crate::codec::{with_opt, ObjectWriter, ToJson};
use crate::dict::{index_of, lookup};
use crate::errors::{result_view, MatrixErrorView, MatrixResult};
use crate::json::{Json, JsonView};
use crate::request::apis::r0::ClientApi;
use crate::request::{
    address_of, request_outcome, typed_outcome, typed_response, HttpRequest, HttpRequestView,
    MatrixRequest, MatrixRequestable, Method,
};
use crate::text::{bool_to_string, decimal, owned, u64_to_string};
use crate::types::content::room::{PowerLevels, PowerLevelsView};
use crate::types::messages::{Message, MessageView};
use crate::types::replies::{JoinReply, RoomAliasReply, RoomCreationOptions};

pub use crate::types::room::Room;

verus! {

/// The HTTP request for an endpoint of the client-server API.
pub open spec fn client_request<C: MatrixRequestable>(
    cli: &C,
    method: Method,
    endpoint: Seq<char>,
    params: Seq<(Seq<char>, Seq<char>)>,
    body: JsonView,
) -> Result<HttpRequestView, MatrixErrorView> {
    request_outcome(method, address_of(cli, "/_matrix/client/r0"@, endpoint, params), body)
}

/// Trait used to implement methods on `Room`.
///
/// It contains most of the interesting methods for `Room` - most notably, you can make a
/// `RoomClient`, which is how you actually do anything room-related.
pub trait RoomExt {
    /// Use an implementor of `MatrixRequestable` to make a `RoomClient`, an object used to call
    /// endpoints relating to rooms.
    ///
    /// If you want to do pretty much anything *with* this `Room`, you probably
    /// want to call this at some point.
    fn cli<'b, 'c, T: MatrixRequestable>(&'b self, cli: &'c mut T) -> (r: RoomClient<'b, 'c, T>)
        ensures
            r.room == self.as_room(),
            *r.cli == *old(cli),
            *final(r.cli) == *final(cli),
    ;

    /// The room that this is.
    spec fn as_room(&self) -> &Room;
}

impl RoomExt for Room {
    fn cli<'b, 'c, T: MatrixRequestable>(&'b self, cli: &'c mut T) -> (r: RoomClient<'b, 'c, T>) {
        RoomClient { room: self, cli }
    }

    open spec fn as_room(&self) -> &Room {
        self
    }
}

/// Contains endpoints relating to creating or joining rooms.
pub struct NewRoom;

impl NewRoom {
    /// Requests that the server resolve a room alias to a room (ID).
    ///
    /// The server will use the federation API to resolve the alias if the
    /// domain part of the alias does not correspond to the server's own domain.
    pub fn from_alias<R: MatrixRequestable>(cli: &R, alias: &str) -> (r: MatrixResult<HttpRequest>)
        ensures
            result_view(r) == client_request(
                cli,
                Method::Get,
                "/directory/room/"@ + alias@,
                Seq::empty(),
                JsonView::Null,
            ),
    {
        let mut endpoint = owned("/directory/room/");
        endpoint.append(alias);
        MatrixRequest::new_basic(Method::Get, endpoint.as_str()).make_request(cli)
    }

    /// The room that an alias stands for, from the response to `from_alias`.
    pub fn from_alias_reply(status: u16, body: &[u8]) -> (r: MatrixResult<Room>)
        ensures
            result_view(r) == match typed_outcome::<RoomAliasReply>(status, body@) {
                Ok(reply) => Ok(reply.room),
                Err(e) => Err(e),
            },
    {
        match typed_response::<RoomAliasReply>(status, body) {
            Ok(reply) => Ok(reply.room),
            Err(e) => Err(e),
        }
    }

    /// Joins a room by identifier or alias.
    pub fn join<R: MatrixRequestable>(cli: &R, room: &str) -> (r: MatrixResult<HttpRequest>)
        ensures
            result_view(r) == client_request(
                cli,
                Method::Post,
                "/join/"@ + room@,
                Seq::empty(),
                JsonView::Null,
            ),
    {
        let mut endpoint = owned("/join/");
        endpoint.append(room);
        MatrixRequest::new_basic(Method::Post, endpoint.as_str()).make_request(cli)
    }

    /// Creates a room, with given options.
    pub fn create<R: MatrixRequestable>(cli: &R, opts: &RoomCreationOptions) -> (r: MatrixResult<
        HttpRequest,
    >)
        ensures
            result_view(r) == client_request(
                cli,
                Method::Post,
                "/createRoom"@,
                Seq::empty(),
                RoomCreationOptions::encoded(opts.deep_view()),
            ),
    {
        MatrixRequest::new_with_body_ser(Method::Post, "/createRoom", opts).make_request(cli)
    }

    /// The room that was joined or created, from the response to `join` or `create`.
    pub fn joined_reply(status: u16, body: &[u8]) -> (r: MatrixResult<Room>)
        ensures
            result_view(r) == match typed_outcome::<JoinReply>(status, body@) {
                Ok(reply) => Ok(reply.room),
                Err(e) => Err(e),
            },
    {
        match typed_response::<JoinReply>(status, body) {
            Ok(reply) => Ok(reply.room),
            Err(e) => Err(e),
        }
    }
}

/// A `Room` with a `MatrixRequestable` type, which you can use to call endpoints relating
/// to rooms.
pub struct RoomClient<'a, 'c, T> {
    /// A reference to a room.
    pub room: &'a Room,
    /// A reference to a `MatrixRequestable` type.
    pub cli: &'c mut T,
}

/// The state key of a request that may leave it out: the empty string where it does.
pub open spec fn key_or_empty(key: Option<&str>) -> Seq<char> {
    match key {
        Some(k) => k@,
        None => Seq::empty(),
    }
}

/// The notice that `send_simple` sends: unformatted text.
pub open spec fn simple_notice(text: Seq<char>) -> MessageView {
    MessageView::Notice { body: text, formatted_body: None, format: None }
}

/// The notice that `send_html` sends: the HTML as the formatted body, and as the plain
/// body the unformatted text where there is one, and the HTML itself where there is none.
pub open spec fn html_notice(html: Seq<char>, unformatted: Option<Seq<char>>) -> MessageView {
    MessageView::Notice {
        body: match unformatted {
            Some(text) => text,
            None => html,
        },
        formatted_body: Some(html),
        format: Some("org.matrix.custom.html"@),
    }
}

/// The body of a request that names a user, and may give a reason.
pub open spec fn user_action_body(user_id: Seq<char>, reason: Option<Seq<char>>) -> JsonView {
    JsonView::Object(
        with_opt::<String>(
            Seq::empty().push(("user_id"@, JsonView::Str(user_id))),
            "reason"@,
            reason,
        ),
    )
}

/// The body of a redaction, which may give a reason.
pub open spec fn redaction_body(reason: Option<Seq<char>>) -> JsonView {
    JsonView::Object(with_opt::<String>(Seq::empty(), "reason"@, reason))
}

/// The body of a typing notice. The flag and the timeout are written as strings.
pub open spec fn typing_body(typing: bool, timeout: Option<u64>) -> JsonView {
    JsonView::Object(
        with_opt::<String>(
            Seq::empty().push(
                (
                    "typing"@,
                    JsonView::Str(
                        if typing {
                            "true"@
                        } else {
                            "false"@
                        },
                    ),
                ),
            ),
            "timeout"@,
            match timeout {
                Some(t) => Some(decimal(t as nat)),
                None => None,
            },
        ),
    )
}

/// The query parameters of a request for messages.
pub open spec fn messages_params(
    from: Seq<char>,
    to: Option<Seq<char>>,
    backward: bool,
    limit: Option<u32>,
) -> Seq<(Seq<char>, Seq<char>)> {
    let p1 = Seq::empty().push(("from"@, from));
    let p2 = match to {
        Some(t) => p1.push(("to"@, t)),
        None => p1,
    };
    let p3 = p2.push(
        (
            "dir"@,
            if backward {
                "b"@
            } else {
                "f"@
            },
        ),
    );
    match limit {
        Some(l) => p3.push(("limit"@, decimal(l as nat))),
        None => p3,
    }
}

/// The power level of a user, from the answer to the request for the room's power
/// levels: the level that the event gives the user, or the room's default where it gives
/// none; `0` where the homeserver says that the room has no such event (`M_NOT_FOUND`);
/// and the error in every other case.
pub open spec fn power_level_of(
    answer: Result<PowerLevelsView, MatrixErrorView>,
    user_id: Seq<char>,
) -> Result<u32, MatrixErrorView> {
    match answer {
        Ok(levels) => Ok(
            match lookup(levels.users, user_id) {
                Some(level) => level,
                None => levels.users_default,
            },
        ),
        Err(e) => if e.is_not_found() {
            Ok(0u32)
        } else {
            Err(e)
        },
    }
}

fn owned_opt(s: Option<&str>) -> (r: Option<String>)
    ensures
        r.deep_view() == s.deep_view(),
{
    match s {
        Some(x) => Some(owned(x)),
        None => None,
    }
}

fn user_action(user_id: &str, reason: Option<&str>) -> (r: Json)
    ensures
        r@ == user_action_body(user_id@, reason.deep_view()),
{
    let mut w = ObjectWriter::new();
    w.put_json("user_id", Json::Str(owned(user_id)));
    w.put_opt("reason", &owned_opt(reason));
    w.finish()
}

impl<'a, 'c, R: MatrixRequestable> RoomClient<'a, 'c, R> {
    /// The request that sends a message to this room under the transaction ID `txnid`.
    pub fn send_as(&self, msg: &Message, txnid: &str) -> (r: MatrixResult<HttpRequest>)
        ensures
            result_view(r) == client_request(
                &*old(self.cli),
                Method::Put,
                "/rooms/"@ + self.room.deep_view() + "/send/m.room.message/"@ + txnid@,
                Seq::empty(),
                Message::encoded(msg.deep_view()),
            ),
    {
        let mut endpoint = owned("/rooms/");
        endpoint.append(self.room.id.as_str());
        endpoint.append("/send/m.room.message/");
        endpoint.append(txnid);
        MatrixRequest::new_with_body_ser(Method::Put, endpoint.as_str(), msg).make_request(
            &*self.cli,
        )
    }

    /// Sends a message to this room, under a transaction ID that the client hands out.
    pub fn send(&mut self, msg: &Message) -> (r: MatrixResult<HttpRequest>)
        ensures
            exists|txnid: Seq<char>|
                result_view(r) == client_request(
                    &*old(old(self).cli),
                    Method::Put,
                    "/rooms/"@ + old(self).room.deep_view() + "/send/m.room.message/"@ + txnid,
                    Seq::empty(),
                    Message::encoded(msg.deep_view()),
                ),
    {
        let txnid = self.cli.get_txnid();
        self.send_as(msg, txnid.as_str())
    }

    /// Wrapper function that sends a `Message::Notice` with the specified unformatted text
    /// to this room. Provided for convenience purposes.
    pub fn send_simple(&mut self, msg: &str) -> (r: MatrixResult<HttpRequest>)
        ensures
            exists|txnid: Seq<char>|
                result_view(r) == client_request(
                    &*old(old(self).cli),
                    Method::Put,
                    "/rooms/"@ + old(self).room.deep_view() + "/send/m.room.message/"@ + txnid,
                    Seq::empty(),
                    Message::encoded(simple_notice(msg@)),
                ),
    {
        let msg = Message::Notice { body: owned(msg), formatted_body: None, format: None };
        self.send(&msg)
    }

    /// Wrapper function that sends a `Message::Notice` with the specified HTML-formatted text
    /// (and accompanying unformatted text, if given) to this room.
    pub fn send_html(&mut self, msg: &str, unformatted: Option<&str>) -> (r: MatrixResult<
        HttpRequest,
    >)
        ensures
            exists|txnid: Seq<char>|
                result_view(r) == client_request(
                    &*old(old(self).cli),
                    Method::Put,
                    "/rooms/"@ + old(self).room.deep_view() + "/send/m.room.message/"@ + txnid,
                    Seq::empty(),
                    Message::encoded(html_notice(msg@, unformatted.deep_view())),
                ),
    {
        let msg = Message::Notice {
            body: match unformatted {
                Some(text) => owned(text),
                None => owned(msg),
            },
            formatted_body: Some(owned(msg)),
            format: Some(owned("org.matrix.custom.html")),
        };
        self.send(&msg)
    }

    /// Send a read receipt for a given event ID.
    pub fn read_receipt(&self, eventid: &str) -> (r: MatrixResult<HttpRequest>)
        ensures
            result_view(r) == client_request(
                &*old(self.cli),
                Method::Post,
                "/rooms/"@ + self.room.deep_view() + "/receipt/m.read/"@ + eventid@,
                Seq::empty(),
                JsonView::Null,
            ),
    {
        let mut endpoint = owned("/rooms/");
        endpoint.append(self.room.id.as_str());
        endpoint.append("/receipt/m.read/");
        endpoint.append(eventid);
        let request = MatrixRequest::new_basic(Method::Post, endpoint.as_str());
        request.make_request(&*self.cli)
    }

    /// Looks up the contents of a state event with type `ev_type` and state key
    /// `key` in a room. If the user is joined to the room then the state is
    /// taken from the current state of the room. If the user has left the room
    /// then the state is taken from the state of the room when they left.
    ///
    /// The reply can be read as any type that can be read from JSON,
    /// allowing you to use the state API to store arbitrary objects. Common
    /// state events, such as `m.room.name`, can be found in the `content`
    /// module (`content::room::Name` for `m.room.name`).
    ///
    /// If the event was not found, the homeserver answers with `M_NOT_FOUND`.
    pub fn get_typed_state(&self, ev_type: &str, key: Option<&str>) -> (r: MatrixResult<HttpRequest>)
        ensures
            result_view(r) == client_request(
                &*old(self.cli),
                Method::Get,
                "/rooms/"@ + self.room.deep_view() + "/state/"@ + ev_type@ + "/"@ + key_or_empty(key),
                Seq::empty(),
                JsonView::Null,
            ),
    {
        let mut endpoint = owned("/rooms/");
        endpoint.append(self.room.id.as_str());
        endpoint.append("/state/");
        endpoint.append(ev_type);
        endpoint.append("/");
        proof {
            reveal_strlit("");
            assert(""@ =~= Seq::<char>::empty());
        }
        endpoint.append(match key {
            Some(k) => k,
            None => "",
        });
        let request = MatrixRequest::new_basic(Method::Get, endpoint.as_str());
        request.make_request(&*self.cli)
    }

    /// State events can be sent using this endpoint. These events will be
    /// overwritten if the <event type> (`ev_type`) and <state key> (`key`) all
    /// match.
    ///
    /// Like `get_typed_state`, the value here can be any object that can be written as JSON,
    /// allowing you to use the state API to store arbitrary objects.
    pub fn set_typed_state<T: ToJson>(&self, ev_type: &str, key: Option<&str>, val: &T) -> (r: MatrixResult<HttpRequest>)
        ensures
            result_view(r) == client_request(
                &*old(self.cli),
                Method::Put,
                "/rooms/"@ + self.room.deep_view() + "/state/"@ + ev_type@ + "/"@ + key_or_empty(key),
                Seq::empty(),
                T::encoded(val.deep_view()),
            ),
    {
        let mut endpoint = owned("/rooms/");
        endpoint.append(self.room.id.as_str());
        endpoint.append("/state/");
        endpoint.append(ev_type);
        endpoint.append("/");
        proof {
            reveal_strlit("");
            assert(""@ =~= Seq::<char>::empty());
        }
        endpoint.append(match key {
            Some(k) => k,
            None => "",
        });
        let body = val.to_json();
        let request = MatrixRequest::new(Method::Put, endpoint.as_str(), body, ClientApi);
        request.make_request(&*self.cli)
    }

    /// Get the state events for the current state of a room.
    pub fn get_all_state(&self) -> (r: MatrixResult<HttpRequest>)
        ensures
            result_view(r) == client_request(
                &*old(self.cli),
                Method::Get,
                "/rooms/"@ + self.room.deep_view() + "/state"@,
                Seq::empty(),
                JsonView::Null,
            ),
    {
        let mut endpoint = owned("/rooms/");
        endpoint.append(self.room.id.as_str());
        endpoint.append("/state");
        let request = MatrixRequest::new_basic(Method::Get, endpoint.as_str());
        request.make_request(&*self.cli)
    }

    /// Get a single event for this room, based on `event_id`.
    ///
    /// You must have permission to retrieve this event (e.g. by being a member of the room for
    /// this event)
    pub fn get_event(&self, id: &str) -> (r: MatrixResult<HttpRequest>)
        ensures
            result_view(r) == client_request(
                &*old(self.cli),
                Method::Get,
                "/rooms/"@ + self.room.deep_view() + "/event/"@ + id@,
                Seq::empty(),
                JsonView::Null,
            ),
    {
        let mut endpoint = owned("/rooms/");
        endpoint.append(self.room.id.as_str());
        endpoint.append("/event/");
        endpoint.append(id);
        let request = MatrixRequest::new_basic(Method::Get, endpoint.as_str());
        request.make_request(&*self.cli)
    }

    /// Get the list of member events for this room.
    pub fn get_members(&self) -> (r: MatrixResult<HttpRequest>)
        ensures
            result_view(r) == client_request(
                &*old(self.cli),
                Method::Get,
                "/rooms/"@ + self.room.deep_view() + "/members"@,
                Seq::empty(),
                JsonView::Null,
            ),
    {
        let mut endpoint = owned("/rooms/");
        endpoint.append(self.room.id.as_str());
        endpoint.append("/members");
        let request = MatrixRequest::new_basic(Method::Get, endpoint.as_str());
        request.make_request(&*self.cli)
    }

    /// Get the list of joined members in this room.
    ///
    /// The current user must be in the room for it to work, unless it is an
    /// Application Service, in which case any of the AS's users must be in the room.
    ///
    /// This API is primarily for Application Services and should be faster to
    /// respond than `get_members()`, as it can be implemented more efficiently
    /// on the server.
    pub fn get_joined_members(&self) -> (r: MatrixResult<HttpRequest>)
        ensures
            result_view(r) == client_request(
                &*old(self.cli),
                Method::Get,
                "/rooms/"@ + self.room.deep_view() + "/joined_members"@,
                Seq::empty(),
                JsonView::Null,
            ),
    {
        let mut endpoint = owned("/rooms/");
        endpoint.append(self.room.id.as_str());
        endpoint.append("/joined_members");
        let request = MatrixRequest::new_basic(Method::Get, endpoint.as_str());
        request.make_request(&*self.cli)
    }

    /// This API starts a user participating in a particular room, if that user
    /// is allowed to participate in that room. After this call, the client is
    /// allowed to see all current state events in the room, and all subsequent
    /// events associated with the room until the user leaves the room.
    ///
    /// After a user has joined a room, the room will appear as an entry in the
    /// values in the `SyncStream`.
    pub fn join(&self) -> (r: MatrixResult<HttpRequest>)
        ensures
            result_view(r) == client_request(
                &*old(self.cli),
                Method::Post,
                "/rooms/"@ + self.room.deep_view() + "/join"@,
                Seq::empty(),
                JsonView::Null,
            ),
    {
        let mut endpoint = owned("/rooms/");
        endpoint.append(self.room.id.as_str());
        endpoint.append("/join");
        let request = MatrixRequest::new_basic(Method::Post, endpoint.as_str());
        request.make_request(&*self.cli)
    }

    /// This API stops a user participating in a particular room.
    ///
    /// If the user was already in the room, they will no longer be able to see
    /// new events in the room. If the room requires an invite to join, they
    /// will need to be re-invited before they can re-join.
    ///
    /// If the user was invited to the room, but had not joined, this call
    /// serves to reject the invite.
    ///
    /// The user will still be allowed to retrieve history from the room which
    /// they were previously allowed to see.
    pub fn leave(&self) -> (r: MatrixResult<HttpRequest>)
        ensures
            result_view(r) == client_request(
                &*old(self.cli),
                Method::Post,
                "/rooms/"@ + self.room.deep_view() + "/leave"@,
                Seq::empty(),
                JsonView::Null,
            ),
    {
        let mut endpoint = owned("/rooms/");
        endpoint.append(self.room.id.as_str());
        endpoint.append("/leave");
        let request = MatrixRequest::new_basic(Method::Post, endpoint.as_str());
        request.make_request(&*self.cli)
    }

    /// This API stops a user remembering about a particular room.
    ///
    /// In general, history is a first class citizen in Matrix. After this API
    /// is called, however, a user will no longer be able to retrieve history
    /// for this room. If all users on a homeserver forget a room, the room is
    /// eligible for deletion from that homeserver.
    ///
    /// If the user is currently joined to the room, they will implicitly leave
    /// the room as part of this API call.
    pub fn forget(&self) -> (r: MatrixResult<HttpRequest>)
        ensures
            result_view(r) == client_request(
                &*old(self.cli),
                Method::Post,
                "/rooms/"@ + self.room.deep_view() + "/forget"@,
                Seq::empty(),
                JsonView::Null,
            ),
    {
        let mut endpoint = owned("/rooms/");
        endpoint.append(self.room.id.as_str());
        endpoint.append("/forget");
        let request = MatrixRequest::new_basic(Method::Post, endpoint.as_str());
        request.make_request(&*self.cli)
    }

    /// Kick a user from the room.
    ///
    /// The caller must have the required power level in order to perform this
    /// operation.
    pub fn kick_user(&self, user_id: &str, reason: Option<&str>) -> (r: MatrixResult<HttpRequest>)
        ensures
            result_view(r) == client_request(
                &*old(self.cli),
                Method::Post,
                "/rooms/"@ + self.room.deep_view() + "/kick"@,
                Seq::empty(),
                user_action_body(user_id@, reason.deep_view()),
            ),
    {
        let mut endpoint = owned("/rooms/");
        endpoint.append(self.room.id.as_str());
        endpoint.append("/kick");
        let body = user_action(user_id, reason);
        let request = MatrixRequest::new(Method::Post, endpoint.as_str(), body, ClientApi);
        request.make_request(&*self.cli)
    }

    /// Ban a user in the room. If the user is currently in the room, also kick them.
    ///
    /// When a user is banned from a room, they may not join it or be invited to
    /// it until they are unbanned.
    ///
    /// The caller must have the required power level in order to perform this operation.
    pub fn ban_user(&self, user_id: &str, reason: Option<&str>) -> (r: MatrixResult<HttpRequest>)
        ensures
            result_view(r) == client_request(
                &*old(self.cli),
                Method::Post,
                "/rooms/"@ + self.room.deep_view() + "/ban"@,
                Seq::empty(),
                user_action_body(user_id@, reason.deep_view()),
            ),
    {
        let mut endpoint = owned("/rooms/");
        endpoint.append(self.room.id.as_str());
        endpoint.append("/ban");
        let body = user_action(user_id, reason);
        let request = MatrixRequest::new(Method::Post, endpoint.as_str(), body, ClientApi);
        request.make_request(&*self.cli)
    }

    /// Unban a user from the room. This allows them to be invited to the room,
    /// and join if they would otherwise be allowed to join according to its
    /// join rules.
    ///
    /// The caller must have the required power level in order to perform this
    /// operation.
    pub fn unban_user(&self, user_id: &str) -> (r: MatrixResult<HttpRequest>)
        ensures
            result_view(r) == client_request(
                &*old(self.cli),
                Method::Post,
                "/rooms/"@ + self.room.deep_view() + "/unban"@,
                Seq::empty(),
                user_action_body(user_id@, None),
            ),
    {
        let mut endpoint = owned("/rooms/");
        endpoint.append(self.room.id.as_str());
        endpoint.append("/unban");
        let body = user_action(user_id, None);
        let request = MatrixRequest::new(Method::Post, endpoint.as_str(), body, ClientApi);
        request.make_request(&*self.cli)
    }

    /// This API invites a user to participate in a particular room. They do not
    /// start participating in the room until they actually join the room.
    ///
    /// Only users currently in a particular room can invite other users to join
    /// that room.
    ///
    /// If the user was invited to the room, the homeserver will append a
    /// m.room.member event to the room.
    pub fn invite_user(&self, user_id: &str) -> (r: MatrixResult<HttpRequest>)
        ensures
            result_view(r) == client_request(
                &*old(self.cli),
                Method::Post,
                "/rooms/"@ + self.room.deep_view() + "/invite"@,
                Seq::empty(),
                user_action_body(user_id@, None),
            ),
    {
        let mut endpoint = owned("/rooms/");
        endpoint.append(self.room.id.as_str());
        endpoint.append("/invite");
        let body = user_action(user_id, None);
        let request = MatrixRequest::new(Method::Post, endpoint.as_str(), body, ClientApi);
        request.make_request(&*self.cli)
    }

    /// This API returns a list of message and state events for a room. It uses
    /// pagination query parameters to paginate history in the room.
    ///
    /// ## Parameters
    ///
    /// - `from`: The token to start returning events from. This token can be
    ///   obtained from a `prev_batch` token returned for each room by the sync
    ///   API, or from a `start` or `end` token returned by a previous request to
    ///   this endpoint.
    /// - `to`: The token to stop returning events at. This token can be
    ///   obtained from a prev_batch token returned for each room by the sync
    ///   endpoint, or from a start or end token returned by a previous request to
    ///   this endpoint.
    /// - `backward`: Whether to paginate backward, or forward; true = back-pagination.
    /// - `limit`: The maximum number of events to return. (default: 10)
    pub fn get_messages(&self, from: &str, to: Option<&str>, backward: bool, limit: Option<u32>) -> (r:
        MatrixResult<HttpRequest>)
        ensures
            result_view(r) == client_request(
                &*old(self.cli),
                Method::Get,
                "/rooms/"@ + self.room.deep_view() + "/messages"@,
                messages_params(from@, to.deep_view(), backward, limit),
                JsonView::Null,
            ),
    {
        proof {
            reveal_strlit("from");
            reveal_strlit("to");
            reveal_strlit("dir");
            reveal_strlit("limit");
            assert("from"@.len() != "to"@.len());
            assert("from"@.len() != "dir"@.len());
            assert("from"@.len() != "limit"@.len());
            assert("to"@.len() != "dir"@.len());
            assert("to"@.len() != "limit"@.len());
            assert("dir"@.len() != "limit"@.len());
        }
        let mut endpoint = owned("/rooms/");
        endpoint.append(self.room.id.as_str());
        endpoint.append("/messages");
        let mut req = MatrixRequest::new_basic(Method::Get, endpoint.as_str());
        let ghost none = req.params.deep_view();
        assert(index_of(none, "from"@) is None);
        assert(index_of(none, "to"@) is None);
        assert(index_of(none, "dir"@) is None);
        assert(index_of(none, "limit"@) is None);
        req.params.insert(owned("from"), owned(from));
        let ghost p1 = req.params.deep_view();
        assert(p1.drop_last() =~= none);
        assert(index_of(p1, "to"@) is None);
        assert(index_of(p1, "dir"@) is None);
        assert(index_of(p1, "limit"@) is None);
        if let Some(to) = to {
            req.params.insert(owned("to"), owned(to));
        }
        let ghost p2 = req.params.deep_view();
        assert(index_of(p2, "dir"@) is None && index_of(p2, "limit"@) is None) by {
            if to is Some {
                assert(p2.drop_last() =~= p1);
            }
        }
        let dir = if backward {
            "b"
        } else {
            "f"
        };
        req.params.insert(owned("dir"), owned(dir));
        let ghost p3 = req.params.deep_view();
        assert(p3.drop_last() =~= p2);
        assert(index_of(p3, "limit"@) is None);
        if let Some(limit) = limit {
            req.params.insert(owned("limit"), u64_to_string(limit as u64));
        }
        req.make_request(&*self.cli)
    }

    /// The request that redacts an event under the transaction ID `txnid`.
    pub fn redact_as(&self, eventid: &str, reason: Option<&str>, txnid: &str) -> (r: MatrixResult<
        HttpRequest,
    >)
        ensures
            result_view(r) == client_request(
                &*old(self.cli),
                Method::Post,
                "/rooms/"@ + self.room.deep_view() + "/redact/"@ + eventid@ + "/"@ + txnid@,
                Seq::empty(),
                redaction_body(reason.deep_view()),
            ),
    {
        let mut endpoint = owned("/rooms/");
        endpoint.append(self.room.id.as_str());
        endpoint.append("/redact/");
        endpoint.append(eventid);
        endpoint.append("/");
        endpoint.append(txnid);
        let mut w = ObjectWriter::new();
        w.put_opt("reason", &owned_opt(reason));
        let body = w.finish();
        MatrixRequest::new(Method::Post, endpoint.as_str(), body, ClientApi).make_request(
            &*self.cli,
        )
    }

    /// Strips all information out of an event which isn't critical to the
    /// integrity of the server-side representation of the room.
    ///
    /// This cannot be undone.
    ///
    /// Users may redact their own events, and any user with a power level
    /// greater than or equal to the redact power level of the room may redact
    /// events there.
    pub fn redact(&mut self, eventid: &str, reason: Option<&str>) -> (r: MatrixResult<HttpRequest>)
        ensures
            exists|txnid: Seq<char>|
                result_view(r) == client_request(
                    &*old(old(self).cli),
                    Method::Post,
                    "/rooms/"@ + old(self).room.deep_view() + "/redact/"@ + eventid@ + "/"@
                        + txnid,
                    Seq::empty(),
                    redaction_body(reason.deep_view()),
                ),
    {
        let txnid = self.cli.get_txnid();
        self.redact_as(eventid, reason, txnid.as_str())
    }

    /// This tells the server that the user is typing for the next N
    /// milliseconds where N is the value specified in the timeout key.
    /// Alternatively, if typing is false, it tells the server that the user has
    /// stopped typing.
    pub fn typing(&self, typing: bool, timeout: Option<u64>) -> (r: MatrixResult<HttpRequest>)
        ensures
            result_view(r) == client_request(
                &*old(self.cli),
                Method::Post,
                "/rooms/"@ + self.room.deep_view() + "/typing/"@ + old(self.cli).user_id(),
                Seq::empty(),
                typing_body(typing, timeout),
            ),
    {
        let mut endpoint = owned("/rooms/");
        endpoint.append(self.room.id.as_str());
        endpoint.append("/typing/");
        endpoint.append(self.cli.get_user_id().as_str());
        let mut w = ObjectWriter::new();
        w.put_json("typing", Json::Str(bool_to_string(typing)));
        let timeout_text = match timeout {
            Some(t) => Some(u64_to_string(t)),
            None => None,
        };
        w.put_opt("timeout", &timeout_text);
        let body = w.finish();
        MatrixRequest::new(Method::Post, endpoint.as_str(), body, ClientApi).make_request(
            &*self.cli,
        )
    }

    /// The request for the room's power levels: the first half of looking up a user's
    /// power level. The answer to it is read with `user_power_level`.
    pub fn get_user_power_level(&self) -> (r: MatrixResult<HttpRequest>)
        ensures
            result_view(r) == client_request(
                &*old(self.cli),
                Method::Get,
                "/rooms/"@ + self.room.deep_view() + "/state/"@ + "m.room.power_levels"@ + "/"@
                    + Seq::empty(),
                Seq::empty(),
                JsonView::Null,
            ),
    {
        self.get_typed_state("m.room.power_levels", None)
    }
}

/// Get a user's power level, falling back on the default value for the room
/// if not present.
///
/// `answer` is the answer to the request for the room's power levels. Where the
/// homeserver says that the room has no power levels at all, the user's level is `0`.
pub fn user_power_level(answer: MatrixResult<PowerLevels>, user_id: &str) -> (r: MatrixResult<u32>)
    ensures
        result_view(r) == power_level_of(result_view(answer), user_id@),
{
    match answer {
        Ok(levels) => Ok(
            match levels.users.get(user_id) {
                Some(level) => *level,
                None => levels.users_default,
            },
        ),
        Err(e) => if e.is_not_found() {
            Ok(0)
        } else {
            Err(e)
        },
    }
}

/// The power level of a user, from the response to the request for the room's power
/// levels.
pub fn user_power_level_reply(status: u16, body: &[u8], user_id: &str) -> (r: MatrixResult<u32>)
    ensures
        result_view(r) == power_level_of(typed_outcome::<PowerLevels>(status, body@), user_id@),
{
    user_power_level(typed_response::<PowerLevels>(status, body), user_id)
}

/// A user that the power levels do not name has the room's default level, and where the
/// homeserver knows of no power levels (`M_NOT_FOUND`) every user has the level `0`:
/// neither is an error.
pub proof fn lemma_power_level_fallback(
    levels: PowerLevelsView,
    user_id: Seq<char>,
    message: Option<Seq<char>>,
)
    ensures
        lookup(levels.users, user_id) is None ==> power_level_of(Ok(levels), user_id) == Ok::<
            u32,
            MatrixErrorView,
        >(levels.users_default),
        power_level_of(
            Err(MatrixErrorView::ServerError { errcode: "M_NOT_FOUND"@, message }),
            user_id,
        ) == Ok::<u32, MatrixErrorView>(0u32),
{
}

} // verus!
