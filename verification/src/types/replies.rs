//! Replies obtained from calling various API endpoints.

use vstd::prelude::*;
use vstd::string::*;
use crate::codec::{
    optional, optional_spec, required, required_spec, with_opt, FromJson, ObjectWriter, ToJson,
};
use crate::dict::Dict;
use crate::json::{Json, JsonView};
use crate::text::{owned, str_eq};
use crate::types::content::room::{Member, MemberView};
use crate::types::events::{Event, EventView};
use crate::types::room::Room;

verus! {

/// The reply obtained from `/send`.
#[derive(Debug, PartialEq)]
pub struct SendReply {
    /// An ID for the sent event.
    pub event_id: String,
}

/// The mathematical value of [`SendReply`].
pub ghost struct SendReplyView {
    pub event_id: Seq<char>,
}

impl DeepView for SendReply {
    type V = SendReplyView;

    open spec fn deep_view(&self) -> SendReplyView {
        SendReplyView {
            event_id: self.event_id.deep_view(),
        }
    }
}

impl FromJson for SendReply {
    open spec fn decoded(j: JsonView) -> Option<SendReplyView> {
        if j is Object {
            match required_spec::<String>(j, "event_id"@) {
                Some(event_id) => Some(SendReplyView { event_id }),
                None => None,
            }
        } else {
            None
        }
    }

    fn from_json(j: &Json) -> (r: Option<SendReply>) {
        if !j.is_object() {
            return None;
        }
        let event_id = match required::<String>(j, "event_id") {
            Some(x) => x,
            None => {
                return None;
            },
        };
        Some(SendReply { event_id })
    }
}

/// The reply obtained from `/upload`.
#[derive(Debug, PartialEq)]
pub struct UploadReply {
    /// The MXC URI for the uploaded content.
    pub content_uri: String,
}

/// The mathematical value of [`UploadReply`].
pub ghost struct UploadReplyView {
    pub content_uri: Seq<char>,
}

impl DeepView for UploadReply {
    type V = UploadReplyView;

    open spec fn deep_view(&self) -> UploadReplyView {
        UploadReplyView {
            content_uri: self.content_uri.deep_view(),
        }
    }
}

impl FromJson for UploadReply {
    open spec fn decoded(j: JsonView) -> Option<UploadReplyView> {
        if j is Object {
            match required_spec::<String>(j, "content_uri"@) {
                Some(content_uri) => Some(UploadReplyView { content_uri }),
                None => None,
            }
        } else {
            None
        }
    }

    fn from_json(j: &Json) -> (r: Option<UploadReply>) {
        if !j.is_object() {
            return None;
        }
        let content_uri = match required::<String>(j, "content_uri") {
            Some(x) => x,
            None => {
                return None;
            },
        };
        Some(UploadReply { content_uri })
    }
}

/// The reply obtained from `/join`.
#[derive(Debug, PartialEq)]
pub struct JoinReply {
    /// The room that was just joined.
    pub room: Room,
}

/// The mathematical value of [`JoinReply`].
pub ghost struct JoinReplyView {
    pub room: Seq<char>,
}

impl DeepView for JoinReply {
    type V = JoinReplyView;

    open spec fn deep_view(&self) -> JoinReplyView {
        JoinReplyView {
            room: self.room.deep_view(),
        }
    }
}

impl FromJson for JoinReply {
    open spec fn decoded(j: JsonView) -> Option<JoinReplyView> {
        if j is Object {
            match required_spec::<Room>(j, "room_id"@) {
                Some(room) => Some(JoinReplyView { room }),
                None => None,
            }
        } else {
            None
        }
    }

    fn from_json(j: &Json) -> (r: Option<JoinReply>) {
        if !j.is_object() {
            return None;
        }
        let room = match required::<Room>(j, "room_id") {
            Some(x) => x,
            None => {
                return None;
            },
        };
        Some(JoinReply { room })
    }
}

/// The reply obtained from `/login`.
#[derive(Debug, PartialEq)]
pub struct LoginReply {
    /// The fully-qualified Matrix ID that has been registered.
    pub user_id: String,
    /// An access token for the account.
    ///
    /// This access token can then be used to authorize other requests.
    pub access_token: String,
    /// ID of the logged-in device.
    ///
    /// Will be the same as the corresponding parameter in the request, if one was specified.
    pub device_id: String,
}

/// The mathematical value of [`LoginReply`].
pub ghost struct LoginReplyView {
    pub user_id: Seq<char>,
    pub access_token: Seq<char>,
    pub device_id: Seq<char>,
}

impl DeepView for LoginReply {
    type V = LoginReplyView;

    open spec fn deep_view(&self) -> LoginReplyView {
        LoginReplyView {
            user_id: self.user_id.deep_view(),
            access_token: self.access_token.deep_view(),
            device_id: self.device_id.deep_view(),
        }
    }
}

impl FromJson for LoginReply {
    open spec fn decoded(j: JsonView) -> Option<LoginReplyView> {
        if j is Object {
            match (
                required_spec::<String>(j, "user_id"@),
                required_spec::<String>(j, "access_token"@),
                required_spec::<String>(j, "device_id"@),
            ) {
                (Some(user_id), Some(access_token), Some(device_id)) => Some(
                    LoginReplyView { user_id, access_token, device_id },
                ),
                _ => None,
            }
        } else {
            None
        }
    }

    fn from_json(j: &Json) -> (r: Option<LoginReply>) {
        if !j.is_object() {
            return None;
        }
        let user_id = match required::<String>(j, "user_id") {
            Some(x) => x,
            None => {
                return None;
            },
        };
        let access_token = match required::<String>(j, "access_token") {
            Some(x) => x,
            None => {
                return None;
            },
        };
        let device_id = match required::<String>(j, "device_id") {
            Some(x) => x,
            None => {
                return None;
            },
        };
        Some(LoginReply { user_id, access_token, device_id })
    }
}

/// The reply obtained from the `/whoami` API.
#[derive(Debug, PartialEq)]
pub struct WhoamiReply {
    /// The user the access token belongs to.
    pub user_id: String,
}

/// The mathematical value of [`WhoamiReply`].
pub ghost struct WhoamiReplyView {
    pub user_id: Seq<char>,
}

impl DeepView for WhoamiReply {
    type V = WhoamiReplyView;

    open spec fn deep_view(&self) -> WhoamiReplyView {
        WhoamiReplyView {
            user_id: self.user_id.deep_view(),
        }
    }
}

impl FromJson for WhoamiReply {
    open spec fn decoded(j: JsonView) -> Option<WhoamiReplyView> {
        if j is Object {
            match required_spec::<String>(j, "user_id"@) {
                Some(user_id) => Some(WhoamiReplyView { user_id }),
                None => None,
            }
        } else {
            None
        }
    }

    fn from_json(j: &Json) -> (r: Option<WhoamiReply>) {
        if !j.is_object() {
            return None;
        }
        let user_id = match required::<String>(j, "user_id") {
            Some(x) => x,
            None => {
                return None;
            },
        };
        Some(WhoamiReply { user_id })
    }
}

/// The reply obtained from getting a room alias.
#[derive(Debug, PartialEq)]
pub struct RoomAliasReply {
    /// The room for this room alias.
    pub room: Room,
    /// A list of servers that are aware of this room alias.
    pub servers: Vec<String>,
}

/// The mathematical value of [`RoomAliasReply`].
pub ghost struct RoomAliasReplyView {
    pub room: Seq<char>,
    pub servers: Seq<Seq<char>>,
}

impl DeepView for RoomAliasReply {
    type V = RoomAliasReplyView;

    open spec fn deep_view(&self) -> RoomAliasReplyView {
        RoomAliasReplyView {
            room: self.room.deep_view(),
            servers: self.servers.deep_view(),
        }
    }
}

impl FromJson for RoomAliasReply {
    open spec fn decoded(j: JsonView) -> Option<RoomAliasReplyView> {
        if j is Object {
            match (
                required_spec::<Room>(j, "room_id"@),
                required_spec::<Vec<String>>(j, "servers"@),
            ) {
                (Some(room), Some(servers)) => Some(
                    RoomAliasReplyView { room, servers },
                ),
                _ => None,
            }
        } else {
            None
        }
    }

    fn from_json(j: &Json) -> (r: Option<RoomAliasReply>) {
        if !j.is_object() {
            return None;
        }
        let room = match required::<Room>(j, "room_id") {
            Some(x) => x,
            None => {
                return None;
            },
        };
        let servers = match required::<Vec<String>>(j, "servers") {
            Some(x) => x,
            None => {
                return None;
            },
        };
        Some(RoomAliasReply { room, servers })
    }
}

/// Data about a user's display name.
#[derive(Debug, PartialEq)]
pub struct DisplaynameReply {
    /// The display name for this user.
    pub displayname: String,
}

/// The mathematical value of [`DisplaynameReply`].
pub ghost struct DisplaynameReplyView {
    pub displayname: Seq<char>,
}

impl DeepView for DisplaynameReply {
    type V = DisplaynameReplyView;

    open spec fn deep_view(&self) -> DisplaynameReplyView {
        DisplaynameReplyView {
            displayname: self.displayname.deep_view(),
        }
    }
}

impl FromJson for DisplaynameReply {
    open spec fn decoded(j: JsonView) -> Option<DisplaynameReplyView> {
        if j is Object {
            match required_spec::<String>(j, "displayname"@) {
                Some(displayname) => Some(DisplaynameReplyView { displayname }),
                None => None,
            }
        } else {
            None
        }
    }

    fn from_json(j: &Json) -> (r: Option<DisplaynameReply>) {
        if !j.is_object() {
            return None;
        }
        let displayname = match required::<String>(j, "displayname") {
            Some(x) => x,
            None => {
                return None;
            },
        };
        Some(DisplaynameReply { displayname })
    }
}

impl ToJson for DisplaynameReply {
    open spec fn encoded(v: DisplaynameReplyView) -> JsonView {
        let m1 = Seq::<(Seq<char>, JsonView)>::empty().push(
            ("displayname"@, <String>::encoded(v.displayname)),
        );
        JsonView::Object(m1)
    }

    fn to_json(&self) -> (j: Json) {
        let mut w = ObjectWriter::new();
        w.put("displayname", &self.displayname);
        w.finish()
    }
}

/// The reply obtained when calling `RoomClient::set_typed_state`.
#[derive(Debug, PartialEq)]
pub struct SetStateReply {
    /// A unique identifier for the event.
    pub event_id: String,
}

/// The mathematical value of [`SetStateReply`].
pub ghost struct SetStateReplyView {
    pub event_id: Seq<char>,
}

impl DeepView for SetStateReply {
    type V = SetStateReplyView;

    open spec fn deep_view(&self) -> SetStateReplyView {
        SetStateReplyView {
            event_id: self.event_id.deep_view(),
        }
    }
}

impl FromJson for SetStateReply {
    open spec fn decoded(j: JsonView) -> Option<SetStateReplyView> {
        if j is Object {
            match required_spec::<String>(j, "event_id"@) {
                Some(event_id) => Some(SetStateReplyView { event_id }),
                None => None,
            }
        } else {
            None
        }
    }

    fn from_json(j: &Json) -> (r: Option<SetStateReply>) {
        if !j.is_object() {
            return None;
        }
        let event_id = match required::<String>(j, "event_id") {
            Some(x) => x,
            None => {
                return None;
            },
        };
        Some(SetStateReply { event_id })
    }
}

/// A 'standard error response' from a Matrix homeserver.
#[derive(Debug, PartialEq)]
pub struct BadRequestReply {
    /// Unique string describing this kind of error.
    ///
    /// These error codes should have their namespace first in ALL CAPS, followed by a
    /// single _ to ease separating the namespace from the error code. For example, if there was
    /// a custom namespace com.mydomain.here, and a FORBIDDEN code, the error code should look
    /// like COM.MYDOMAIN.HERE_FORBIDDEN.
    pub errcode: String,
    /// Human-readable error message.
    pub error: Option<String>,
}

/// The mathematical value of [`BadRequestReply`].
pub ghost struct BadRequestReplyView {
    pub errcode: Seq<char>,
    pub error: Option<Seq<char>>,
}

impl DeepView for BadRequestReply {
    type V = BadRequestReplyView;

    open spec fn deep_view(&self) -> BadRequestReplyView {
        BadRequestReplyView {
            errcode: self.errcode.deep_view(),
            error: self.error.deep_view(),
        }
    }
}

impl FromJson for BadRequestReply {
    open spec fn decoded(j: JsonView) -> Option<BadRequestReplyView> {
        if j is Object {
            match (
                required_spec::<String>(j, "errcode"@),
                optional_spec::<String>(j, "error"@),
            ) {
                (Some(errcode), Some(error)) => Some(
                    BadRequestReplyView { errcode, error },
                ),
                _ => None,
            }
        } else {
            None
        }
    }

    fn from_json(j: &Json) -> (r: Option<BadRequestReply>) {
        if !j.is_object() {
            return None;
        }
        let errcode = match required::<String>(j, "errcode") {
            Some(x) => x,
            None => {
                return None;
            },
        };
        let error = match optional::<String>(j, "error") {
            Some(x) => x,
            None => {
                return None;
            },
        };
        Some(BadRequestReply { errcode, error })
    }
}

impl ToJson for BadRequestReply {
    open spec fn encoded(v: BadRequestReplyView) -> JsonView {
        let m1 = Seq::<(Seq<char>, JsonView)>::empty().push(
            ("errcode"@, <String>::encoded(v.errcode)),
        );
        let m2 = with_opt::<String>(m1, "error"@, v.error);
        JsonView::Object(m2)
    }

    fn to_json(&self) -> (j: Json) {
        let mut w = ObjectWriter::new();
        w.put("errcode", &self.errcode);
        w.put_opt("error", &self.error);
        w.finish()
    }
}

/// The reply obtained from `RoomClient::get_messages`.
#[derive(Debug, PartialEq)]
pub struct MessagesReply {
    /// The token the pagination starts from.
    ///
    /// If back-paginating, this will be the token supplied in `from`.
    pub start: String,
    /// The token the pagination ends at.
    ///
    /// If back-paginating, use this to request earlier events.
    pub end: String,
    /// A list of room events.
    pub chunk: Vec<Event>,
}

/// The mathematical value of [`MessagesReply`].
pub ghost struct MessagesReplyView {
    pub start: Seq<char>,
    pub end: Seq<char>,
    pub chunk: Seq<EventView>,
}

impl DeepView for MessagesReply {
    type V = MessagesReplyView;

    open spec fn deep_view(&self) -> MessagesReplyView {
        MessagesReplyView {
            start: self.start.deep_view(),
            end: self.end.deep_view(),
            chunk: self.chunk.deep_view(),
        }
    }
}

impl FromJson for MessagesReply {
    open spec fn decoded(j: JsonView) -> Option<MessagesReplyView> {
        if j is Object {
            match (
                required_spec::<String>(j, "start"@),
                required_spec::<String>(j, "end"@),
                required_spec::<Vec<Event>>(j, "chunk"@),
            ) {
                (Some(start), Some(end), Some(chunk)) => Some(
                    MessagesReplyView { start, end, chunk },
                ),
                _ => None,
            }
        } else {
            None
        }
    }

    fn from_json(j: &Json) -> (r: Option<MessagesReply>) {
        if !j.is_object() {
            return None;
        }
        let start = match required::<String>(j, "start") {
            Some(x) => x,
            None => {
                return None;
            },
        };
        let end = match required::<String>(j, "end") {
            Some(x) => x,
            None => {
                return None;
            },
        };
        let chunk = match required::<Vec<Event>>(j, "chunk") {
            Some(x) => x,
            None => {
                return None;
            },
        };
        Some(MessagesReply { start, end, chunk })
    }
}

/// A chunk of events.
#[derive(Debug, PartialEq)]
pub struct ChunkReply {
    /// A list of room events.
    pub chunk: Vec<Event>,
}

/// The mathematical value of [`ChunkReply`].
pub ghost struct ChunkReplyView {
    pub chunk: Seq<EventView>,
}

impl DeepView for ChunkReply {
    type V = ChunkReplyView;

    open spec fn deep_view(&self) -> ChunkReplyView {
        ChunkReplyView {
            chunk: self.chunk.deep_view(),
        }
    }
}

impl FromJson for ChunkReply {
    open spec fn decoded(j: JsonView) -> Option<ChunkReplyView> {
        if j is Object {
            match required_spec::<Vec<Event>>(j, "chunk"@) {
                Some(chunk) => Some(ChunkReplyView { chunk }),
                None => None,
            }
        } else {
            None
        }
    }

    fn from_json(j: &Json) -> (r: Option<ChunkReply>) {
        if !j.is_object() {
            return None;
        }
        let chunk = match required::<Vec<Event>>(j, "chunk") {
            Some(x) => x,
            None => {
                return None;
            },
        };
        Some(ChunkReply { chunk })
    }
}

/// The reply obtained from `/joined_members`.
#[derive(Debug, PartialEq)]
pub struct JoinedMembersReply {
    /// A map of MXID to room member objects.
    pub joined: Dict<Member>,
}

/// The mathematical value of [`JoinedMembersReply`].
pub ghost struct JoinedMembersReplyView {
    pub joined: Seq<(Seq<char>, MemberView)>,
}

impl DeepView for JoinedMembersReply {
    type V = JoinedMembersReplyView;

    open spec fn deep_view(&self) -> JoinedMembersReplyView {
        JoinedMembersReplyView {
            joined: self.joined.deep_view(),
        }
    }
}

impl FromJson for JoinedMembersReply {
    open spec fn decoded(j: JsonView) -> Option<JoinedMembersReplyView> {
        if j is Object {
            match required_spec::<Dict<Member>>(j, "joined"@) {
                Some(joined) => Some(JoinedMembersReplyView { joined }),
                None => None,
            }
        } else {
            None
        }
    }

    fn from_json(j: &Json) -> (r: Option<JoinedMembersReply>) {
        if !j.is_object() {
            return None;
        }
        let joined = match required::<Dict<Member>>(j, "joined") {
            Some(x) => x,
            None => {
                return None;
            },
        };
        Some(JoinedMembersReply { joined })
    }
}

/// Controls room visibility in the published room list.
#[derive(Debug, Clone, Copy, PartialEq, Eq, Structural)]
pub enum RoomVisibility {
    Public,
    Private,
}

impl DeepView for RoomVisibility {
    type V = RoomVisibility;

    open spec fn deep_view(&self) -> RoomVisibility {
        *self
    }
}

impl RoomVisibility {
    /// The name of a variant on the wire.
    pub open spec fn name(self) -> Seq<char> {
        match self {
            RoomVisibility::Public => "public"@,
            RoomVisibility::Private => "private"@,
        }
    }

    /// The variant that a name on the wire stands for.
    pub open spec fn named(s: Seq<char>) -> Option<RoomVisibility> {
        if s == "public"@ {
            Some(RoomVisibility::Public)
        } else if s == "private"@ {
            Some(RoomVisibility::Private)
        } else {
            None
        }
    }

    /// The name of this variant on the wire.
    pub fn as_str(&self) -> (r: &'static str)
        ensures
            r@ == self.name(),
    {
        match self {
            RoomVisibility::Public => "public",
            RoomVisibility::Private => "private",
        }
    }
}

impl FromJson for RoomVisibility {
    open spec fn decoded(j: JsonView) -> Option<RoomVisibility> {
        match j {
            JsonView::Str(s) => RoomVisibility::named(s),
            _ => None,
        }
    }

    fn from_json(j: &Json) -> (r: Option<RoomVisibility>) {
        match j {
            Json::Str(s) => {
                if str_eq(s.as_str(), "public") {
                    Some(RoomVisibility::Public)
                } else if str_eq(s.as_str(), "private") {
                    Some(RoomVisibility::Private)
                } else {
                    None
                }
            },
            _ => None,
        }
    }
}

impl ToJson for RoomVisibility {
    open spec fn encoded(v: RoomVisibility) -> JsonView {
        JsonView::Str(v.name())
    }

    fn to_json(&self) -> (j: Json) {
        Json::Str(owned(self.as_str()))
    }
}

/// A list of convenience presets used to make a room.
#[derive(Debug, Clone, Copy, PartialEq, Eq, Structural)]
pub enum RoomPreset {
    /// `join_rules` is set to `invite`, `history_visibility` is set to `shared`
    PrivateChat,
    /// `join_rules` is set to `invite`, `history_visibility` is set to `shared`.
    /// All invitees are given the same power level as the room creator.
    TrustedPrivateChat,
    /// `join_rules` is set to `public`, `history_visibility` is set to `shared`
    PublicChat,
}

impl DeepView for RoomPreset {
    type V = RoomPreset;

    open spec fn deep_view(&self) -> RoomPreset {
        *self
    }
}

impl RoomPreset {
    /// The name of a variant on the wire.
    pub open spec fn name(self) -> Seq<char> {
        match self {
            RoomPreset::PrivateChat => "private_chat"@,
            RoomPreset::TrustedPrivateChat => "trusted_private_chat"@,
            RoomPreset::PublicChat => "public_chat"@,
        }
    }

    /// The variant that a name on the wire stands for.
    pub open spec fn named(s: Seq<char>) -> Option<RoomPreset> {
        if s == "private_chat"@ {
            Some(RoomPreset::PrivateChat)
        } else if s == "trusted_private_chat"@ {
            Some(RoomPreset::TrustedPrivateChat)
        } else if s == "public_chat"@ {
            Some(RoomPreset::PublicChat)
        } else {
            None
        }
    }

    /// The name of this variant on the wire.
    pub fn as_str(&self) -> (r: &'static str)
        ensures
            r@ == self.name(),
    {
        match self {
            RoomPreset::PrivateChat => "private_chat",
            RoomPreset::TrustedPrivateChat => "trusted_private_chat",
            RoomPreset::PublicChat => "public_chat",
        }
    }
}

impl FromJson for RoomPreset {
    open spec fn decoded(j: JsonView) -> Option<RoomPreset> {
        match j {
            JsonView::Str(s) => RoomPreset::named(s),
            _ => None,
        }
    }

    fn from_json(j: &Json) -> (r: Option<RoomPreset>) {
        match j {
            Json::Str(s) => {
                if str_eq(s.as_str(), "private_chat") {
                    Some(RoomPreset::PrivateChat)
                } else if str_eq(s.as_str(), "trusted_private_chat") {
                    Some(RoomPreset::TrustedPrivateChat)
                } else if str_eq(s.as_str(), "public_chat") {
                    Some(RoomPreset::PublicChat)
                } else {
                    None
                }
            },
            _ => None,
        }
    }
}

impl ToJson for RoomPreset {
    open spec fn encoded(v: RoomPreset) -> JsonView {
        JsonView::Str(v.name())
    }

    fn to_json(&self) -> (j: Json) {
        Json::Str(owned(self.as_str()))
    }
}

/// Options used to create a room.
#[derive(Debug, PartialEq)]
pub struct RoomCreationOptions {
    /// Controls whether the room will be shown in the published room list.
    /// NB. **Not** the same thing as `join_rules`.
    ///
    /// Rooms default to `private` visibility if this key is not included.
    pub visibility: Option<RoomVisibility>,
    /// The desired room alias **local part**.
    ///
    /// If this is included, a room alias will be created and mapped to the newly created room. The alias will belong
    /// on the same homeserver which created the room.
    ///
    /// For example, if this was set to "foo" and sent to the homeserver "example.com", the complete room alias
    /// would be `#foo:example.com`.
    pub room_alias_name: Option<String>,
    /// If this is included, an `m.room.name` event will be sent into the room to indicate the name of the room.
    pub name: Option<String>,
    /// If this is included, an `m.room.topic` event will be sent into the room to indicate the topic for the room.
    pub topic: Option<String>,
    /// A list of user IDs to invite to the room. This will tell the server to invite everyone in the list to the newly created room.
    pub invite: Vec<String>,
    /// Extra keys to be added to the content of the `m.room.create`.
    ///
    /// The server will clobber the following keys: `creator`.
    /// Later versions of the protocol may allow the server to clobber other keys.
    pub creation_content: Dict<Json>,
    /// Convenience parameter for setting various default state events based on a preset.
    ///
    /// See the `RoomPreset` docs for more.
    pub preset: Option<RoomPreset>,
    /// This flag makes the server set the `is_direct` flag on the `m.room.member` events sent to the users
    /// in `invite` and `invite_3pid`.
    pub is_direct: bool,
}

/// The mathematical value of [`RoomCreationOptions`].
pub ghost struct RoomCreationOptionsView {
    pub visibility: Option<RoomVisibility>,
    pub room_alias_name: Option<Seq<char>>,
    pub name: Option<Seq<char>>,
    pub topic: Option<Seq<char>>,
    pub invite: Seq<Seq<char>>,
    pub creation_content: Seq<(Seq<char>, JsonView)>,
    pub preset: Option<RoomPreset>,
    pub is_direct: bool,
}

impl DeepView for RoomCreationOptions {
    type V = RoomCreationOptionsView;

    open spec fn deep_view(&self) -> RoomCreationOptionsView {
        RoomCreationOptionsView {
            visibility: self.visibility.deep_view(),
            room_alias_name: self.room_alias_name.deep_view(),
            name: self.name.deep_view(),
            topic: self.topic.deep_view(),
            invite: self.invite.deep_view(),
            creation_content: self.creation_content.deep_view(),
            preset: self.preset.deep_view(),
            is_direct: self.is_direct,
        }
    }
}

impl RoomCreationOptions {
    /// The options that ask for nothing: every member left out, no invitations, and not a
    /// direct chat.
    pub fn new() -> (r: RoomCreationOptions)
        ensures
            r.deep_view() == (RoomCreationOptionsView {
                visibility: None,
                room_alias_name: None,
                name: None,
                topic: None,
                invite: Seq::empty(),
                creation_content: Seq::empty(),
                preset: None,
                is_direct: false,
            }),
    {
        let r = RoomCreationOptions {
            visibility: None,
            room_alias_name: None,
            name: None,
            topic: None,
            invite: Vec::new(),
            creation_content: Dict::new(),
            preset: None,
            is_direct: false,
        };
        assert(r.invite.deep_view() =~= Seq::<Seq<char>>::empty());
        r
    }
}

impl ToJson for RoomCreationOptions {
    /// An option that is not set, an empty list of invitations and an empty creation
    /// content are left out.
    open spec fn encoded(v: RoomCreationOptionsView) -> JsonView {
        let m0 = Seq::<(Seq<char>, JsonView)>::empty();
        let m1 = with_opt::<RoomVisibility>(m0, "visibility"@, v.visibility);
        let m2 = with_opt::<String>(m1, "room_alias_name"@, v.room_alias_name);
        let m3 = with_opt::<String>(m2, "name"@, v.name);
        let m4 = with_opt::<String>(m3, "topic"@, v.topic);
        let m5 = if v.invite.len() > 0 {
            m4.push(("invite"@, <Vec<String>>::encoded(v.invite)))
        } else {
            m4
        };
        let m6 = if v.creation_content.len() > 0 {
            m5.push(("creation_content"@, <Dict<Json>>::encoded(v.creation_content)))
        } else {
            m5
        };
        let m7 = with_opt::<RoomPreset>(m6, "preset"@, v.preset);
        let m8 = m7.push(("is_direct"@, <bool>::encoded(v.is_direct)));
        JsonView::Object(m8)
    }

    fn to_json(&self) -> (j: Json) {
        let mut w = ObjectWriter::new();
        w.put_opt("visibility", &self.visibility);
        w.put_opt("room_alias_name", &self.room_alias_name);
        w.put_opt("name", &self.name);
        w.put_opt("topic", &self.topic);
        if self.invite.len() > 0 {
            w.put("invite", &self.invite);
        }
        if self.creation_content.len() > 0 {
            w.put("creation_content", &self.creation_content);
        }
        w.put_opt("preset", &self.preset);
        w.put("is_direct", &self.is_direct);
        w.finish()
    }
}

} // verus!
