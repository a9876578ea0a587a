//! Types for representing events.
//!
//! For event *content*, see the `content` module.

use vstd::prelude::*;
use vstd::string::*;
use crate::codec::{optional, optional_spec, required, required_spec, FromJson};
use crate::errors::{MatrixError, MatrixResult};
use crate::json::{lemma_field_decreases, Json, JsonView};
use crate::types::content::{
    content_of, deserialize_content, deserialize_content_strict, strict_content_of, Content,
    ContentView,
};
use crate::types::room::Room;

verus! {

/// Contains optional extra information about the event.
#[derive(Debug, PartialEq)]
pub struct UnsignedData {
    /// The time in milliseconds that has elapsed since the event was sent.
    ///
    /// This field is generated by the local homeserver, and may be incorrect if the local time on at
    /// least one of the two servers is out of sync, which can cause the age to either be negative or
    /// greater than it actually is.
    pub age: u64,
    /// The event that redacted this event, if any.
    pub redacted_because: Option<Box<Event>>,
    /// The client-supplied transaction ID, if the client being given the event is the same one which sent it.
    pub transaction_id: Option<String>,
}

/// Additional fields, specific to a Room Event.
#[derive(Debug, PartialEq)]
pub struct RoomEventData {
    /// The globally unique event identifier.
    pub event_id: String,
    /// The room associated with this event, where the event names it (`room_id`).
    pub room: Option<Room>,
    /// The fully-qualified user ID of the user who sent this event.
    pub sender: String,
    /// Timestamp in milliseconds on originating homeserver when this event was sent.
    pub origin_server_ts: u64,
    /// Optional extra information.
    pub unsigned: Option<UnsignedData>,
}

/// Additional fields, specific to a State Event.
#[derive(Debug, PartialEq)]
pub struct StateEventData {
    /// The previous `content` for this event.
    ///
    /// If there is no previous content, this key will be missing.
    pub prev_content: Option<Content>,
    /// A unique key which defines the overwriting semantics for this piece of room state.
    ///
    /// This value is often a zero-length string. The presence of this key makes this event a State Event.
    /// The key MUST NOT start with '_'.
    pub state_key: String,
}

/// A Matrix event.
///
/// All communication in Matrix is expressed in the form of data objects called events.
/// These are the fundamental building blocks common to the client-server, server-server and
/// application-service APIs.
#[derive(Debug, PartialEq)]
pub struct Event {
    /// Event content.
    pub content: Content,
    /// The type of this event.
    ///
    /// This SHOULD be namespaced similar to Java package naming conventions,
    /// e.g. 'com.example.subdomain.event.type'
    pub event_type: String,
    /// If this event is a Room Event, this struct stores Room Event-specific fields.
    pub room_data: Option<RoomEventData>,
    /// If this event is a State Event, this struct stores State Event-specific fields.
    pub state_data: Option<StateEventData>,
}

/// The mathematical value of [`UnsignedData`].
pub ghost struct UnsignedDataView {
    pub age: u64,
    pub redacted_because: Option<Box<EventView>>,
    pub transaction_id: Option<Seq<char>>,
}

/// The mathematical value of [`RoomEventData`].
pub ghost struct RoomEventDataView {
    pub event_id: Seq<char>,
    pub room: Option<Seq<char>>,
    pub sender: Seq<char>,
    pub origin_server_ts: u64,
    pub unsigned: Option<UnsignedDataView>,
}

/// The mathematical value of [`StateEventData`].
pub ghost struct StateEventDataView {
    pub prev_content: Option<ContentView>,
    pub state_key: Seq<char>,
}

/// The mathematical value of [`Event`].
pub ghost struct EventView {
    pub content: ContentView,
    pub event_type: Seq<char>,
    pub room_data: Option<RoomEventDataView>,
    pub state_data: Option<StateEventDataView>,
}

/// The value of an event.
pub open spec fn event_view(e: Event) -> EventView
    decreases e,
{
    EventView {
        content: e.content.deep_view(),
        event_type: e.event_type@,
        room_data: match e.room_data {
            Some(r) => Some(
                RoomEventDataView {
                    event_id: r.event_id@,
                    room: r.room.deep_view(),
                    sender: r.sender@,
                    origin_server_ts: r.origin_server_ts,
                    unsigned: match r.unsigned {
                        Some(u) => Some(
                            UnsignedDataView {
                                age: u.age,
                                redacted_because: match u.redacted_because {
                                    Some(inner) => Some(Box::new(event_view(*inner))),
                                    None => None,
                                },
                                transaction_id: u.transaction_id.deep_view(),
                            },
                        ),
                        None => None,
                    },
                },
            ),
            None => None,
        },
        state_data: e.state_data.deep_view(),
    }
}

impl DeepView for StateEventData {
    type V = StateEventDataView;

    open spec fn deep_view(&self) -> StateEventDataView {
        StateEventDataView {
            prev_content: self.prev_content.deep_view(),
            state_key: self.state_key@,
        }
    }
}

impl DeepView for Event {
    type V = EventView;

    open spec fn deep_view(&self) -> EventView {
        event_view(*self)
    }
}

impl DeepView for UnsignedData {
    type V = UnsignedDataView;

    open spec fn deep_view(&self) -> UnsignedDataView {
        UnsignedDataView {
            age: self.age,
            redacted_because: match self.redacted_because {
                Some(inner) => Some(Box::new(event_view(*inner))),
                None => None,
            },
            transaction_id: self.transaction_id.deep_view(),
        }
    }
}

impl DeepView for RoomEventData {
    type V = RoomEventDataView;

    open spec fn deep_view(&self) -> RoomEventDataView {
        RoomEventDataView {
            event_id: self.event_id@,
            room: self.room.deep_view(),
            sender: self.sender@,
            origin_server_ts: self.origin_server_ts,
            unsigned: self.unsigned.deep_view(),
        }
    }
}

/// Whether an event on the wire is a redacted one: it holds `unsigned.redacted_because`.
pub open spec fn is_redacted(j: JsonView) -> bool {
    match j.field("unsigned"@) {
        Some(u) => u.field("redacted_because"@) is Some,
        None => false,
    }
}

/// The content of an event on the wire, given its type and the payload under `content`.
///
/// The content of a redacted event is not held to the shape of its type: it is kept as it
/// came. Otherwise the payload is decoded by its type, and `strict` says whether a payload
/// that does not have the shape of its type is refused (`None`) or kept as `Unknown`.
pub open spec fn event_content(j: JsonView, typ: Seq<char>, payload: JsonView, strict: bool) -> Option<
    ContentView,
> {
    if is_redacted(j) {
        Some(ContentView::Unknown(payload))
    } else if strict {
        strict_content_of(typ, payload)
    } else {
        Some(content_of(typ, payload))
    }
}

/// The state-event part of an event on the wire: there where `state_key` is a string. The
/// previous content, where there is one, is decoded by the event's type.
pub open spec fn decoded_state_data(j: JsonView, typ: Seq<char>) -> Option<StateEventDataView> {
    match required_spec::<String>(j, "state_key"@) {
        Some(state_key) => Some(
            StateEventDataView {
                prev_content: match j.member("prev_content"@) {
                    Some(previous) => Some(content_of(typ, previous)),
                    None => None,
                },
                state_key,
            },
        ),
        None => None,
    }
}

/// What the `unsigned` member of an event decodes to; `None` where it does not have the
/// shape of unsigned data, which asks for an `age`.
pub open spec fn decoded_unsigned(u: JsonView, strict: bool) -> Option<UnsignedDataView>
    decreases u, 0nat,
{
    if u is Object {
        match (
            required_spec::<u64>(u, "age"@),
            match u.member("redacted_because"@) {
                Some(inner) => {
                    proof {
                        lemma_field_decreases(u, "redacted_because"@);
                    }
                    match decoded_event(inner, strict) {
                        Some(e) => Some(Some(Box::new(e))),
                        None => None,
                    }
                },
                None => Some(None),
            },
            optional_spec::<String>(u, "transaction_id"@),
        ) {
            (Some(age), Some(redacted_because), Some(transaction_id)) => Some(
                UnsignedDataView { age, redacted_because, transaction_id },
            ),
            _ => None,
        }
    } else {
        None
    }
}

/// The room-event part of an event on the wire: there where `event_id` and `sender` are
/// strings and `origin_server_ts` is a number. The room and the unsigned data are kept
/// where they are there and have their shape.
pub open spec fn decoded_room_data(j: JsonView, strict: bool) -> Option<RoomEventDataView>
    decreases j, 1nat,
{
    match (
        required_spec::<String>(j, "event_id"@),
        required_spec::<String>(j, "sender"@),
        required_spec::<u64>(j, "origin_server_ts"@),
    ) {
        (Some(event_id), Some(sender), Some(origin_server_ts)) => Some(
            RoomEventDataView {
                event_id,
                room: required_spec::<Room>(j, "room_id"@),
                sender,
                origin_server_ts,
                unsigned: match j.field("unsigned"@) {
                    Some(u) => {
                        proof {
                            lemma_field_decreases(j, "unsigned"@);
                        }
                        decoded_unsigned(u, strict)
                    },
                    None => None,
                },
            },
        ),
        _ => None,
    }
}

/// What an event on the wire decodes to; `None` where it is not an object with a string
/// under `type` and a payload under `content`, or where `strict` is set and the payload
/// does not have the shape of its type.
///
/// An event may be a room event, a state event, both or neither.
pub open spec fn decoded_event(j: JsonView, strict: bool) -> Option<EventView>
    decreases j, 2nat,
{
    match (required_spec::<String>(j, "type"@), j.field("content"@)) {
        (Some(event_type), Some(payload)) => match event_content(
            j,
            event_type,
            payload,
            strict,
        ) {
            Some(content) => Some(
                EventView {
                    content,
                    event_type,
                    room_data: decoded_room_data(j, strict),
                    state_data: decoded_state_data(j, event_type),
                },
            ),
            None => None,
        },
        _ => None,
    }
}

fn read_state_data(j: &Json, typ: &str) -> (r: Option<StateEventData>)
    ensures
        r.deep_view() == decoded_state_data(j@, typ@),
{
    match required::<String>(j, "state_key") {
        Some(state_key) => Some(
            StateEventData {
                prev_content: match j.get_member("prev_content") {
                    Some(previous) => Some(deserialize_content(typ, previous.copy())),
                    None => None,
                },
                state_key,
            },
        ),
        None => None,
    }
}

fn read_content(j: &Json, typ: &str, payload: &Json, strict: bool) -> (r: Option<Content>)
    ensures
        r.deep_view() == event_content(j@, typ@, payload@, strict),
{
    let redacted = match j.get("unsigned") {
        Some(u) => u.get("redacted_because").is_some(),
        None => false,
    };
    if redacted {
        Some(Content::Unknown(payload.copy()))
    } else if strict {
        match deserialize_content_strict(typ, payload.copy()) {
            Ok(c) => Some(c),
            Err(_) => None,
        }
    } else {
        Some(deserialize_content(typ, payload.copy()))
    }
}

fn read_unsigned(u: &Json, strict: bool) -> (r: Option<UnsignedData>)
    ensures
        r.deep_view() == decoded_unsigned(u@, strict),
    decreases u, 0nat,
{
    if !u.is_object() {
        return None;
    }
    let age = match required::<u64>(u, "age") {
        Some(x) => x,
        None => {
            return None;
        },
    };
    let redacted_because = match u.get_member("redacted_because") {
        Some(inner) => match read_event(inner, strict) {
            Some(e) => Some(Box::new(e)),
            None => {
                return None;
            },
        },
        None => None,
    };
    let transaction_id = match optional::<String>(u, "transaction_id") {
        Some(x) => x,
        None => {
            return None;
        },
    };
    Some(UnsignedData { age, redacted_because, transaction_id })
}

fn read_room_data(j: &Json, strict: bool) -> (r: Option<RoomEventData>)
    ensures
        r.deep_view() == decoded_room_data(j@, strict),
    decreases j, 1nat,
{
    let event_id = match required::<String>(j, "event_id") {
        Some(x) => x,
        None => {
            return None;
        },
    };
    let sender = match required::<String>(j, "sender") {
        Some(x) => x,
        None => {
            return None;
        },
    };
    let origin_server_ts = match required::<u64>(j, "origin_server_ts") {
        Some(x) => x,
        None => {
            return None;
        },
    };
    let room = required::<Room>(j, "room_id");
    let unsigned = match j.get("unsigned") {
        Some(u) => read_unsigned(u, strict),
        None => None,
    };
    Some(RoomEventData { event_id, room, sender, origin_server_ts, unsigned })
}

fn read_event(j: &Json, strict: bool) -> (r: Option<Event>)
    ensures
        r.deep_view() == decoded_event(j@, strict),
    decreases j, 2nat,
{
    let event_type = match required::<String>(j, "type") {
        Some(x) => x,
        None => {
            return None;
        },
    };
    let payload = match j.get("content") {
        Some(x) => x,
        None => {
            return None;
        },
    };
    let content = match read_content(j, event_type.as_str(), payload, strict) {
        Some(x) => x,
        None => {
            return None;
        },
    };
    let room_data = read_room_data(j, strict);
    let state_data = read_state_data(j, event_type.as_str());
    Some(Event { content, event_type, room_data, state_data })
}

impl FromJson for Event {
    open spec fn decoded(j: JsonView) -> Option<EventView> {
        decoded_event(j, false)
    }

    fn from_json(j: &Json) -> (r: Option<Event>) {
        read_event(j, false)
    }
}

impl Event {
    /// Reads an event, and refuses it where its content does not have the shape that its
    /// type asks for.
    pub fn from_json_strict(j: &Json) -> (r: MatrixResult<Event>)
        ensures
            match r {
                Ok(e) => decoded_event(j@, true) == Some(e.deep_view()),
                Err(e) => decoded_event(j@, true) is None && e is Serialization,
            },
    {
        match read_event(j, true) {
            Some(e) => Ok(e),
            None => Err(MatrixError::Serialization),
        }
    }

    /// Whether this is a State Event.
    pub fn is_state(&self) -> (r: bool)
        ensures
            r == (self.deep_view().state_data is Some),
    {
        self.state_data.is_some()
    }

    /// Whether this is a Room Event.
    pub fn is_room(&self) -> (r: bool)
        ensures
            r == (self.deep_view().room_data is Some),
    {
        self.room_data.is_some()
    }
}

/// Events in a room.
#[derive(Debug, PartialEq)]
pub struct Events {
    /// A list of events.
    pub events: Vec<Event>,
}

/// The mathematical value of [`Events`].
pub ghost struct EventsView {
    pub events: Seq<EventView>,
}

impl EventsView {
    /// No events.
    pub open spec fn empty() -> EventsView {
        EventsView { events: Seq::empty() }
    }
}

impl DeepView for Events {
    type V = EventsView;

    open spec fn deep_view(&self) -> EventsView {
        EventsView { events: self.events.deep_view() }
    }
}

impl Events {
    /// No events.
    pub fn new() -> (r: Events)
        ensures
            r.deep_view() == EventsView::empty(),
    {
        let r = Events { events: Vec::new() };
        assert(r.events.deep_view() =~= Seq::<EventView>::empty());
        r
    }
}

impl FromJson for Events {
    open spec fn decoded(j: JsonView) -> Option<EventsView> {
        if j is Object {
            match required_spec::<Vec<Event>>(j, "events"@) {
                Some(events) => Some(EventsView { events }),
                None => None,
            }
        } else {
            None
        }
    }

    fn from_json(j: &Json) -> (r: Option<Events>) {
        if !j.is_object() {
            return None;
        }
        let events = match required::<Vec<Event>>(j, "events") {
            Some(x) => x,
            None => {
                return None;
            },
        };
        Some(Events { events })
    }
}

/// An event is a state event exactly where `state_key` is a string, and a room event
/// exactly where `event_id` and `sender` are strings and `origin_server_ts` is a number;
/// it may be either, both or neither.
pub proof fn lemma_event_parts(j: JsonView, strict: bool)
    requires
        decoded_event(j, strict) is Some,
    ensures
        decoded_event(j, strict)->0.state_data is Some <==> required_spec::<String>(
            j,
            "state_key"@,
        ) is Some,
        decoded_event(j, strict)->0.room_data is Some <==> (required_spec::<String>(
            j,
            "event_id"@,
        ) is Some && required_spec::<String>(j, "sender"@) is Some && required_spec::<u64>(
            j,
            "origin_server_ts"@,
        ) is Some),
{
}

/// Where payloads are not held to their shape, every object with a string under `type` and
/// a member `content` decodes to an event.
pub proof fn lemma_lenient_event_decodes(j: JsonView)
    requires
        required_spec::<String>(j, "type"@) is Some,
        j.field("content"@) is Some,
    ensures
        decoded_event(j, false) is Some,
{
}

} // verus!
