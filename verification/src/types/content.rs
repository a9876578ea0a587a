//! Values for the `content` key of an event.
//!
//! These are organised by event type: events with type `m.room.*` are found
//! under the `room` module, while events with type `m.*` are found under the
//! `root` module.
//!
//! The name of a `struct` in this module (and submodules) mirrors its event
//! type, modulo case conversion. That is, `m.room.join_rules` would be found in
//! `content::room::JoinRules`.

use vstd::prelude::*;
use vstd::string::*;
use crate::codec::{FromJson, ToJson};
use crate::errors::{MatrixError, MatrixResult};
use crate::json::{Json, JsonView};
use crate::text::str_eq;
use crate::types::messages::MessageView;

pub mod call;
pub mod room;
pub mod root;

verus! {

/// The content of an event.
///
/// NB: This crate's API does *not* guarantee exhaustive matching on this enum.
#[derive(Debug, PartialEq)]
#[allow(missing_docs)]
pub enum Content {
    RoomAliases(room::Aliases),
    RoomAvatar(room::Avatar),
    RoomCanonicalAlias(room::CanonicalAlias),
    RoomCreate(room::Create),
    RoomGuestAccess(room::GuestAccess),
    RoomHistoryVisibility(room::HistoryVisibility),
    RoomJoinRules(room::JoinRules),
    RoomMember(room::Member),
    RoomName(room::Name),
    RoomPowerLevels(room::PowerLevels),
    RoomRedaction(room::Redaction),
    RoomTopic(room::Topic),
    RoomMessage(room::Message),
    RootDirect(root::Direct),
    RootPresence(root::Presence),
    RootReceipt(root::Receipt),
    RootTag(root::Tag),
    RootTyping(root::Typing),
    CallInvite(call::Invite),
    CallCandidates(call::Candidates),
    CallAnswer(call::Answer),
    CallHangup(call::Hangup),
    /// Content of a type that this library does not know, or that does not have the shape
    /// that its type asks for: the payload as it came.
    Unknown(Json),
}

/// The mathematical value of [`Content`].
pub ghost enum ContentView {
    RoomAliases(room::AliasesView),
    RoomAvatar(room::AvatarView),
    RoomCanonicalAlias(room::CanonicalAliasView),
    RoomCreate(room::CreateView),
    RoomGuestAccess(room::GuestAccessView),
    RoomHistoryVisibility(room::HistoryVisibilityView),
    RoomJoinRules(room::JoinRulesView),
    RoomMember(room::MemberView),
    RoomName(room::NameView),
    RoomPowerLevels(room::PowerLevelsView),
    RoomRedaction(room::RedactionView),
    RoomTopic(room::TopicView),
    RoomMessage(MessageView),
    RootDirect(Seq<(Seq<char>, Seq<Seq<char>>)>),
    RootPresence(root::PresenceView),
    RootReceipt(Seq<(Seq<char>, root::types::ReceiptsView)>),
    RootTag(root::TagView),
    RootTyping(root::TypingView),
    CallInvite(call::InviteView),
    CallCandidates(call::CandidatesView),
    CallAnswer(call::AnswerView),
    CallHangup(call::HangupView),
    Unknown(JsonView),
}

impl DeepView for Content {
    type V = ContentView;

    open spec fn deep_view(&self) -> ContentView {
        match self {
            Content::RoomAliases(x) => ContentView::RoomAliases(x.deep_view()),
            Content::RoomAvatar(x) => ContentView::RoomAvatar(x.deep_view()),
            Content::RoomCanonicalAlias(x) => ContentView::RoomCanonicalAlias(x.deep_view()),
            Content::RoomCreate(x) => ContentView::RoomCreate(x.deep_view()),
            Content::RoomGuestAccess(x) => ContentView::RoomGuestAccess(x.deep_view()),
            Content::RoomHistoryVisibility(x) => ContentView::RoomHistoryVisibility(x.deep_view()),
            Content::RoomJoinRules(x) => ContentView::RoomJoinRules(x.deep_view()),
            Content::RoomMember(x) => ContentView::RoomMember(x.deep_view()),
            Content::RoomName(x) => ContentView::RoomName(x.deep_view()),
            Content::RoomPowerLevels(x) => ContentView::RoomPowerLevels(x.deep_view()),
            Content::RoomRedaction(x) => ContentView::RoomRedaction(x.deep_view()),
            Content::RoomTopic(x) => ContentView::RoomTopic(x.deep_view()),
            Content::RoomMessage(x) => ContentView::RoomMessage(x.deep_view()),
            Content::RootDirect(x) => ContentView::RootDirect(x.deep_view()),
            Content::RootPresence(x) => ContentView::RootPresence(x.deep_view()),
            Content::RootReceipt(x) => ContentView::RootReceipt(x.deep_view()),
            Content::RootTag(x) => ContentView::RootTag(x.deep_view()),
            Content::RootTyping(x) => ContentView::RootTyping(x.deep_view()),
            Content::CallInvite(x) => ContentView::CallInvite(x.deep_view()),
            Content::CallCandidates(x) => ContentView::CallCandidates(x.deep_view()),
            Content::CallAnswer(x) => ContentView::CallAnswer(x.deep_view()),
            Content::CallHangup(x) => ContentView::CallHangup(x.deep_view()),
            Content::Unknown(j) => ContentView::Unknown(j@),
        }
    }
}

/// The event types that have a decoder: the keys of the table by which content is
/// decoded.
#[derive(Debug, Clone, Copy, PartialEq, Eq, Structural)]
pub enum ContentKind {
    /// `m.room.aliases`
    RoomAliases,
    /// `m.room.avatar`
    RoomAvatar,
    /// `m.room.canonical_alias`
    RoomCanonicalAlias,
    /// `m.room.create`
    RoomCreate,
    /// `m.room.guest_access`
    RoomGuestAccess,
    /// `m.room.history_visibility`
    RoomHistoryVisibility,
    /// `m.room.join_rules`
    RoomJoinRules,
    /// `m.room.member`
    RoomMember,
    /// `m.room.name`
    RoomName,
    /// `m.room.power_levels`
    RoomPowerLevels,
    /// `m.room.redaction`
    RoomRedaction,
    /// `m.room.topic`
    RoomTopic,
    /// `m.room.message`
    RoomMessage,
    /// `m.direct`
    RootDirect,
    /// `m.presence`
    RootPresence,
    /// `m.receipt`
    RootReceipt,
    /// `m.tag`
    RootTag,
    /// `m.typing`
    RootTyping,
    /// `m.call.invite`
    CallInvite,
    /// `m.call.candidates`
    CallCandidates,
    /// `m.call.answer`
    CallAnswer,
    /// `m.call.hangup`
    CallHangup,
}

impl DeepView for ContentKind {
    type V = ContentKind;

    open spec fn deep_view(&self) -> ContentKind {
        *self
    }
}

impl ContentKind {
    /// The name of a variant on the wire.
    pub open spec fn name(self) -> Seq<char> {
        match self {
            ContentKind::RoomAliases => "m.room.aliases"@,
            ContentKind::RoomAvatar => "m.room.avatar"@,
            ContentKind::RoomCanonicalAlias => "m.room.canonical_alias"@,
            ContentKind::RoomCreate => "m.room.create"@,
            ContentKind::RoomGuestAccess => "m.room.guest_access"@,
            ContentKind::RoomHistoryVisibility => "m.room.history_visibility"@,
            ContentKind::RoomJoinRules => "m.room.join_rules"@,
            ContentKind::RoomMember => "m.room.member"@,
            ContentKind::RoomName => "m.room.name"@,
            ContentKind::RoomPowerLevels => "m.room.power_levels"@,
            ContentKind::RoomRedaction => "m.room.redaction"@,
            ContentKind::RoomTopic => "m.room.topic"@,
            ContentKind::RoomMessage => "m.room.message"@,
            ContentKind::RootDirect => "m.direct"@,
            ContentKind::RootPresence => "m.presence"@,
            ContentKind::RootReceipt => "m.receipt"@,
            ContentKind::RootTag => "m.tag"@,
            ContentKind::RootTyping => "m.typing"@,
            ContentKind::CallInvite => "m.call.invite"@,
            ContentKind::CallCandidates => "m.call.candidates"@,
            ContentKind::CallAnswer => "m.call.answer"@,
            ContentKind::CallHangup => "m.call.hangup"@,
        }
    }

    /// The variant that a name on the wire stands for.
    pub open spec fn named(s: Seq<char>) -> Option<ContentKind> {
        if s == "m.room.aliases"@ {
            Some(ContentKind::RoomAliases)
        } else if s == "m.room.avatar"@ {
            Some(ContentKind::RoomAvatar)
        } else if s == "m.room.canonical_alias"@ {
            Some(ContentKind::RoomCanonicalAlias)
        } else if s == "m.room.create"@ {
            Some(ContentKind::RoomCreate)
        } else if s == "m.room.guest_access"@ {
            Some(ContentKind::RoomGuestAccess)
        } else if s == "m.room.history_visibility"@ {
            Some(ContentKind::RoomHistoryVisibility)
        } else if s == "m.room.join_rules"@ {
            Some(ContentKind::RoomJoinRules)
        } else if s == "m.room.member"@ {
            Some(ContentKind::RoomMember)
        } else if s == "m.room.name"@ {
            Some(ContentKind::RoomName)
        } else if s == "m.room.power_levels"@ {
            Some(ContentKind::RoomPowerLevels)
        } else if s == "m.room.redaction"@ {
            Some(ContentKind::RoomRedaction)
        } else if s == "m.room.topic"@ {
            Some(ContentKind::RoomTopic)
        } else if s == "m.room.message"@ {
            Some(ContentKind::RoomMessage)
        } else if s == "m.direct"@ {
            Some(ContentKind::RootDirect)
        } else if s == "m.presence"@ {
            Some(ContentKind::RootPresence)
        } else if s == "m.receipt"@ {
            Some(ContentKind::RootReceipt)
        } else if s == "m.tag"@ {
            Some(ContentKind::RootTag)
        } else if s == "m.typing"@ {
            Some(ContentKind::RootTyping)
        } else if s == "m.call.invite"@ {
            Some(ContentKind::CallInvite)
        } else if s == "m.call.candidates"@ {
            Some(ContentKind::CallCandidates)
        } else if s == "m.call.answer"@ {
            Some(ContentKind::CallAnswer)
        } else if s == "m.call.hangup"@ {
            Some(ContentKind::CallHangup)
        } else {
            None
        }
    }

    /// The name of this variant on the wire.
    pub fn as_str(&self) -> (r: &'static str)
        ensures
            r@ == self.name(),
    {
        match self {
            ContentKind::RoomAliases => "m.room.aliases",
            ContentKind::RoomAvatar => "m.room.avatar",
            ContentKind::RoomCanonicalAlias => "m.room.canonical_alias",
            ContentKind::RoomCreate => "m.room.create",
            ContentKind::RoomGuestAccess => "m.room.guest_access",
            ContentKind::RoomHistoryVisibility => "m.room.history_visibility",
            ContentKind::RoomJoinRules => "m.room.join_rules",
            ContentKind::RoomMember => "m.room.member",
            ContentKind::RoomName => "m.room.name",
            ContentKind::RoomPowerLevels => "m.room.power_levels",
            ContentKind::RoomRedaction => "m.room.redaction",
            ContentKind::RoomTopic => "m.room.topic",
            ContentKind::RoomMessage => "m.room.message",
            ContentKind::RootDirect => "m.direct",
            ContentKind::RootPresence => "m.presence",
            ContentKind::RootReceipt => "m.receipt",
            ContentKind::RootTag => "m.tag",
            ContentKind::RootTyping => "m.typing",
            ContentKind::CallInvite => "m.call.invite",
            ContentKind::CallCandidates => "m.call.candidates",
            ContentKind::CallAnswer => "m.call.answer",
            ContentKind::CallHangup => "m.call.hangup",
        }
    }
}

impl ContentKind {
    /// The kind that an event type names, if it names one.
    pub fn of(typ: &str) -> (r: Option<ContentKind>)
        ensures
            r == ContentKind::named(typ@),
    {
        if str_eq(typ, "m.room.aliases") {
            Some(ContentKind::RoomAliases)
        } else if str_eq(typ, "m.room.avatar") {
            Some(ContentKind::RoomAvatar)
        } else if str_eq(typ, "m.room.canonical_alias") {
            Some(ContentKind::RoomCanonicalAlias)
        } else if str_eq(typ, "m.room.create") {
            Some(ContentKind::RoomCreate)
        } else if str_eq(typ, "m.room.guest_access") {
            Some(ContentKind::RoomGuestAccess)
        } else if str_eq(typ, "m.room.history_visibility") {
            Some(ContentKind::RoomHistoryVisibility)
        } else if str_eq(typ, "m.room.join_rules") {
            Some(ContentKind::RoomJoinRules)
        } else if str_eq(typ, "m.room.member") {
            Some(ContentKind::RoomMember)
        } else if str_eq(typ, "m.room.name") {
            Some(ContentKind::RoomName)
        } else if str_eq(typ, "m.room.power_levels") {
            Some(ContentKind::RoomPowerLevels)
        } else if str_eq(typ, "m.room.redaction") {
            Some(ContentKind::RoomRedaction)
        } else if str_eq(typ, "m.room.topic") {
            Some(ContentKind::RoomTopic)
        } else if str_eq(typ, "m.room.message") {
            Some(ContentKind::RoomMessage)
        } else if str_eq(typ, "m.direct") {
            Some(ContentKind::RootDirect)
        } else if str_eq(typ, "m.presence") {
            Some(ContentKind::RootPresence)
        } else if str_eq(typ, "m.receipt") {
            Some(ContentKind::RootReceipt)
        } else if str_eq(typ, "m.tag") {
            Some(ContentKind::RootTag)
        } else if str_eq(typ, "m.typing") {
            Some(ContentKind::RootTyping)
        } else if str_eq(typ, "m.call.invite") {
            Some(ContentKind::CallInvite)
        } else if str_eq(typ, "m.call.candidates") {
            Some(ContentKind::CallCandidates)
        } else if str_eq(typ, "m.call.answer") {
            Some(ContentKind::CallAnswer)
        } else if str_eq(typ, "m.call.hangup") {
            Some(ContentKind::CallHangup)
        } else {
            None
        }
    }
}

/// The table: what a payload decodes to as content of the given kind; `None` where it
/// does not have the shape of that kind.
pub open spec fn decoded_as(kind: ContentKind, j: JsonView) -> Option<ContentView> {
    match kind {
        ContentKind::RoomAliases => match <room::Aliases>::decoded(j) {
            Some(x) => Some(ContentView::RoomAliases(x)),
            None => None,
        },
        ContentKind::RoomAvatar => match <room::Avatar>::decoded(j) {
            Some(x) => Some(ContentView::RoomAvatar(x)),
            None => None,
        },
        ContentKind::RoomCanonicalAlias => match <room::CanonicalAlias>::decoded(j) {
            Some(x) => Some(ContentView::RoomCanonicalAlias(x)),
            None => None,
        },
        ContentKind::RoomCreate => match <room::Create>::decoded(j) {
            Some(x) => Some(ContentView::RoomCreate(x)),
            None => None,
        },
        ContentKind::RoomGuestAccess => match <room::GuestAccess>::decoded(j) {
            Some(x) => Some(ContentView::RoomGuestAccess(x)),
            None => None,
        },
        ContentKind::RoomHistoryVisibility => match <room::HistoryVisibility>::decoded(j) {
            Some(x) => Some(ContentView::RoomHistoryVisibility(x)),
            None => None,
        },
        ContentKind::RoomJoinRules => match <room::JoinRules>::decoded(j) {
            Some(x) => Some(ContentView::RoomJoinRules(x)),
            None => None,
        },
        ContentKind::RoomMember => match <room::Member>::decoded(j) {
            Some(x) => Some(ContentView::RoomMember(x)),
            None => None,
        },
        ContentKind::RoomName => match <room::Name>::decoded(j) {
            Some(x) => Some(ContentView::RoomName(x)),
            None => None,
        },
        ContentKind::RoomPowerLevels => match <room::PowerLevels>::decoded(j) {
            Some(x) => Some(ContentView::RoomPowerLevels(x)),
            None => None,
        },
        ContentKind::RoomRedaction => match <room::Redaction>::decoded(j) {
            Some(x) => Some(ContentView::RoomRedaction(x)),
            None => None,
        },
        ContentKind::RoomTopic => match <room::Topic>::decoded(j) {
            Some(x) => Some(ContentView::RoomTopic(x)),
            None => None,
        },
        ContentKind::RoomMessage => match <room::Message>::decoded(j) {
            Some(x) => Some(ContentView::RoomMessage(x)),
            None => None,
        },
        ContentKind::RootDirect => match <root::Direct>::decoded(j) {
            Some(x) => Some(ContentView::RootDirect(x)),
            None => None,
        },
        ContentKind::RootPresence => match <root::Presence>::decoded(j) {
            Some(x) => Some(ContentView::RootPresence(x)),
            None => None,
        },
        ContentKind::RootReceipt => match <root::Receipt>::decoded(j) {
            Some(x) => Some(ContentView::RootReceipt(x)),
            None => None,
        },
        ContentKind::RootTag => match <root::Tag>::decoded(j) {
            Some(x) => Some(ContentView::RootTag(x)),
            None => None,
        },
        ContentKind::RootTyping => match <root::Typing>::decoded(j) {
            Some(x) => Some(ContentView::RootTyping(x)),
            None => None,
        },
        ContentKind::CallInvite => match <call::Invite>::decoded(j) {
            Some(x) => Some(ContentView::CallInvite(x)),
            None => None,
        },
        ContentKind::CallCandidates => match <call::Candidates>::decoded(j) {
            Some(x) => Some(ContentView::CallCandidates(x)),
            None => None,
        },
        ContentKind::CallAnswer => match <call::Answer>::decoded(j) {
            Some(x) => Some(ContentView::CallAnswer(x)),
            None => None,
        },
        ContentKind::CallHangup => match <call::Hangup>::decoded(j) {
            Some(x) => Some(ContentView::CallHangup(x)),
            None => None,
        },
    }
}

/// Decodes a payload as content of the given kind.
pub fn decode_as(kind: ContentKind, j: &Json) -> (r: Option<Content>)
    ensures
        r.deep_view() == decoded_as(kind, j@),
{
    match kind {
        ContentKind::RoomAliases => match <room::Aliases>::from_json(j) {
            Some(x) => Some(Content::RoomAliases(x)),
            None => None,
        },
        ContentKind::RoomAvatar => match <room::Avatar>::from_json(j) {
            Some(x) => Some(Content::RoomAvatar(x)),
            None => None,
        },
        ContentKind::RoomCanonicalAlias => match <room::CanonicalAlias>::from_json(j) {
            Some(x) => Some(Content::RoomCanonicalAlias(x)),
            None => None,
        },
        ContentKind::RoomCreate => match <room::Create>::from_json(j) {
            Some(x) => Some(Content::RoomCreate(x)),
            None => None,
        },
        ContentKind::RoomGuestAccess => match <room::GuestAccess>::from_json(j) {
            Some(x) => Some(Content::RoomGuestAccess(x)),
            None => None,
        },
        ContentKind::RoomHistoryVisibility => match <room::HistoryVisibility>::from_json(j) {
            Some(x) => Some(Content::RoomHistoryVisibility(x)),
            None => None,
        },
        ContentKind::RoomJoinRules => match <room::JoinRules>::from_json(j) {
            Some(x) => Some(Content::RoomJoinRules(x)),
            None => None,
        },
        ContentKind::RoomMember => match <room::Member>::from_json(j) {
            Some(x) => Some(Content::RoomMember(x)),
            None => None,
        },
        ContentKind::RoomName => match <room::Name>::from_json(j) {
            Some(x) => Some(Content::RoomName(x)),
            None => None,
        },
        ContentKind::RoomPowerLevels => match <room::PowerLevels>::from_json(j) {
            Some(x) => Some(Content::RoomPowerLevels(x)),
            None => None,
        },
        ContentKind::RoomRedaction => match <room::Redaction>::from_json(j) {
            Some(x) => Some(Content::RoomRedaction(x)),
            None => None,
        },
        ContentKind::RoomTopic => match <room::Topic>::from_json(j) {
            Some(x) => Some(Content::RoomTopic(x)),
            None => None,
        },
        ContentKind::RoomMessage => match <room::Message>::from_json(j) {
            Some(x) => Some(Content::RoomMessage(x)),
            None => None,
        },
        ContentKind::RootDirect => match <root::Direct>::from_json(j) {
            Some(x) => Some(Content::RootDirect(x)),
            None => None,
        },
        ContentKind::RootPresence => match <root::Presence>::from_json(j) {
            Some(x) => Some(Content::RootPresence(x)),
            None => None,
        },
        ContentKind::RootReceipt => match <root::Receipt>::from_json(j) {
            Some(x) => Some(Content::RootReceipt(x)),
            None => None,
        },
        ContentKind::RootTag => match <root::Tag>::from_json(j) {
            Some(x) => Some(Content::RootTag(x)),
            None => None,
        },
        ContentKind::RootTyping => match <root::Typing>::from_json(j) {
            Some(x) => Some(Content::RootTyping(x)),
            None => None,
        },
        ContentKind::CallInvite => match <call::Invite>::from_json(j) {
            Some(x) => Some(Content::CallInvite(x)),
            None => None,
        },
        ContentKind::CallCandidates => match <call::Candidates>::from_json(j) {
            Some(x) => Some(Content::CallCandidates(x)),
            None => None,
        },
        ContentKind::CallAnswer => match <call::Answer>::from_json(j) {
            Some(x) => Some(Content::CallAnswer(x)),
            None => None,
        },
        ContentKind::CallHangup => match <call::Hangup>::from_json(j) {
            Some(x) => Some(Content::CallHangup(x)),
            None => None,
        },
    }
}

impl ToJson for Content {
    open spec fn encoded(v: ContentView) -> JsonView {
        match v {
            ContentView::RoomAliases(x) => <room::Aliases>::encoded(x),
            ContentView::RoomAvatar(x) => <room::Avatar>::encoded(x),
            ContentView::RoomCanonicalAlias(x) => <room::CanonicalAlias>::encoded(x),
            ContentView::RoomCreate(x) => <room::Create>::encoded(x),
            ContentView::RoomGuestAccess(x) => <room::GuestAccess>::encoded(x),
            ContentView::RoomHistoryVisibility(x) => <room::HistoryVisibility>::encoded(x),
            ContentView::RoomJoinRules(x) => <room::JoinRules>::encoded(x),
            ContentView::RoomMember(x) => <room::Member>::encoded(x),
            ContentView::RoomName(x) => <room::Name>::encoded(x),
            ContentView::RoomPowerLevels(x) => <room::PowerLevels>::encoded(x),
            ContentView::RoomRedaction(x) => <room::Redaction>::encoded(x),
            ContentView::RoomTopic(x) => <room::Topic>::encoded(x),
            ContentView::RoomMessage(x) => <room::Message>::encoded(x),
            ContentView::RootDirect(x) => <root::Direct>::encoded(x),
            ContentView::RootPresence(x) => <root::Presence>::encoded(x),
            ContentView::RootReceipt(x) => <root::Receipt>::encoded(x),
            ContentView::RootTag(x) => <root::Tag>::encoded(x),
            ContentView::RootTyping(x) => <root::Typing>::encoded(x),
            ContentView::CallInvite(x) => <call::Invite>::encoded(x),
            ContentView::CallCandidates(x) => <call::Candidates>::encoded(x),
            ContentView::CallAnswer(x) => <call::Answer>::encoded(x),
            ContentView::CallHangup(x) => <call::Hangup>::encoded(x),
            ContentView::Unknown(j) => j,
        }
    }

    fn to_json(&self) -> (j: Json) {
        match self {
            Content::RoomAliases(x) => x.to_json(),
            Content::RoomAvatar(x) => x.to_json(),
            Content::RoomCanonicalAlias(x) => x.to_json(),
            Content::RoomCreate(x) => x.to_json(),
            Content::RoomGuestAccess(x) => x.to_json(),
            Content::RoomHistoryVisibility(x) => x.to_json(),
            Content::RoomJoinRules(x) => x.to_json(),
            Content::RoomMember(x) => x.to_json(),
            Content::RoomName(x) => x.to_json(),
            Content::RoomPowerLevels(x) => x.to_json(),
            Content::RoomRedaction(x) => x.to_json(),
            Content::RoomTopic(x) => x.to_json(),
            Content::RoomMessage(x) => x.to_json(),
            Content::RootDirect(x) => x.to_json(),
            Content::RootPresence(x) => x.to_json(),
            Content::RootReceipt(x) => x.to_json(),
            Content::RootTag(x) => x.to_json(),
            Content::RootTyping(x) => x.to_json(),
            Content::CallInvite(x) => x.to_json(),
            Content::CallCandidates(x) => x.to_json(),
            Content::CallAnswer(x) => x.to_json(),
            Content::CallHangup(x) => x.to_json(),
            Content::Unknown(j) => j.copy(),
        }
    }
}

/// What a payload decodes to as the content of an event of type `typ`: the typed variant
/// where the type has a decoder and the payload has its shape, and the payload itself, as
/// `Unknown`, in every other case.
pub open spec fn content_of(typ: Seq<char>, payload: JsonView) -> ContentView {
    match ContentKind::named(typ) {
        Some(kind) => match decoded_as(kind, payload) {
            Some(content) => content,
            None => ContentView::Unknown(payload),
        },
        None => ContentView::Unknown(payload),
    }
}

/// What a payload decodes to where a payload that does not have the shape of its type is
/// refused (`None`). A type without a decoder still gives `Unknown`: there is no shape to
/// hold the payload to.
pub open spec fn strict_content_of(typ: Seq<char>, payload: JsonView) -> Option<ContentView> {
    match ContentKind::named(typ) {
        Some(kind) => decoded_as(kind, payload),
        None => Some(ContentView::Unknown(payload)),
    }
}

/// Deserialize a JSON value of given event type into some event `Content`.
///
/// Content that does not have the shape of its type is kept as `Unknown`.
pub fn deserialize_content(typ: &str, val: Json) -> (c: Content)
    ensures
        c.deep_view() == content_of(typ@, val@),
{
    match ContentKind::of(typ) {
        Some(kind) => match decode_as(kind, &val) {
            Some(content) => content,
            None => Content::Unknown(val),
        },
        None => Content::Unknown(val),
    }
}

/// Like `deserialize_content`, but content that does not have the shape of its type is an
/// error.
pub fn deserialize_content_strict(typ: &str, val: Json) -> (r: MatrixResult<Content>)
    ensures
        match r {
            Ok(c) => strict_content_of(typ@, val@) == Some(c.deep_view()),
            Err(e) => strict_content_of(typ@, val@) is None && e is Serialization,
        },
{
    match ContentKind::of(typ) {
        Some(kind) => match decode_as(kind, &val) {
            Some(content) => Ok(content),
            None => Err(MatrixError::Serialization),
        },
        None => Ok(Content::Unknown(val)),
    }
}

impl ContentView {
    /// The kind of typed content; `None` for `Unknown`.
    pub open spec fn kind(self) -> Option<ContentKind> {
        match self {
            ContentView::RoomAliases(_) => Some(ContentKind::RoomAliases),
            ContentView::RoomAvatar(_) => Some(ContentKind::RoomAvatar),
            ContentView::RoomCanonicalAlias(_) => Some(ContentKind::RoomCanonicalAlias),
            ContentView::RoomCreate(_) => Some(ContentKind::RoomCreate),
            ContentView::RoomGuestAccess(_) => Some(ContentKind::RoomGuestAccess),
            ContentView::RoomHistoryVisibility(_) => Some(ContentKind::RoomHistoryVisibility),
            ContentView::RoomJoinRules(_) => Some(ContentKind::RoomJoinRules),
            ContentView::RoomMember(_) => Some(ContentKind::RoomMember),
            ContentView::RoomName(_) => Some(ContentKind::RoomName),
            ContentView::RoomPowerLevels(_) => Some(ContentKind::RoomPowerLevels),
            ContentView::RoomRedaction(_) => Some(ContentKind::RoomRedaction),
            ContentView::RoomTopic(_) => Some(ContentKind::RoomTopic),
            ContentView::RoomMessage(_) => Some(ContentKind::RoomMessage),
            ContentView::RootDirect(_) => Some(ContentKind::RootDirect),
            ContentView::RootPresence(_) => Some(ContentKind::RootPresence),
            ContentView::RootReceipt(_) => Some(ContentKind::RootReceipt),
            ContentView::RootTag(_) => Some(ContentKind::RootTag),
            ContentView::RootTyping(_) => Some(ContentKind::RootTyping),
            ContentView::CallInvite(_) => Some(ContentKind::CallInvite),
            ContentView::CallCandidates(_) => Some(ContentKind::CallCandidates),
            ContentView::CallAnswer(_) => Some(ContentKind::CallAnswer),
            ContentView::CallHangup(_) => Some(ContentKind::CallHangup),
            ContentView::Unknown(_) => None,
        }
    }
}

/// Each kind is found again under its own name: no two kinds share a name.
pub proof fn lemma_kind_named(kind: ContentKind)
    ensures
        ContentKind::named(kind.name()) == Some(kind),
{
    reveal_strlit("m.room.aliases");
    reveal_strlit("m.room.avatar");
    reveal_strlit("m.room.canonical_alias");
    reveal_strlit("m.room.create");
    reveal_strlit("m.room.guest_access");
    reveal_strlit("m.room.history_visibility");
    reveal_strlit("m.room.join_rules");
    reveal_strlit("m.room.member");
    reveal_strlit("m.room.name");
    reveal_strlit("m.room.power_levels");
    reveal_strlit("m.room.redaction");
    reveal_strlit("m.room.topic");
    reveal_strlit("m.room.message");
    reveal_strlit("m.direct");
    reveal_strlit("m.presence");
    reveal_strlit("m.receipt");
    reveal_strlit("m.tag");
    reveal_strlit("m.typing");
    reveal_strlit("m.call.invite");
    reveal_strlit("m.call.candidates");
    reveal_strlit("m.call.answer");
    reveal_strlit("m.call.hangup");
    match kind {
        ContentKind::RoomAliases => {
        },
        ContentKind::RoomAvatar => {
            assert("m.room.avatar"@.len() != "m.room.aliases"@.len());
        },
        ContentKind::RoomCanonicalAlias => {
            assert("m.room.canonical_alias"@.len() != "m.room.aliases"@.len());
            assert("m.room.canonical_alias"@.len() != "m.room.avatar"@.len());
        },
        ContentKind::RoomCreate => {
            assert("m.room.create"@.len() != "m.room.aliases"@.len());
            assert("m.room.create"@[7] != "m.room.avatar"@[7]);
            assert("m.room.create"@.len() != "m.room.canonical_alias"@.len());
        },
        ContentKind::RoomGuestAccess => {
            assert("m.room.guest_access"@.len() != "m.room.aliases"@.len());
            assert("m.room.guest_access"@.len() != "m.room.avatar"@.len());
            assert("m.room.guest_access"@.len() != "m.room.canonical_alias"@.len());
            assert("m.room.guest_access"@.len() != "m.room.create"@.len());
        },
        ContentKind::RoomHistoryVisibility => {
            assert("m.room.history_visibility"@.len() != "m.room.aliases"@.len());
            assert("m.room.history_visibility"@.len() != "m.room.avatar"@.len());
            assert("m.room.history_visibility"@.len() != "m.room.canonical_alias"@.len());
            assert("m.room.history_visibility"@.len() != "m.room.create"@.len());
            assert("m.room.history_visibility"@.len() != "m.room.guest_access"@.len());
        },
        ContentKind::RoomJoinRules => {
            assert("m.room.join_rules"@.len() != "m.room.aliases"@.len());
            assert("m.room.join_rules"@.len() != "m.room.avatar"@.len());
            assert("m.room.join_rules"@.len() != "m.room.canonical_alias"@.len());
            assert("m.room.join_rules"@.len() != "m.room.create"@.len());
            assert("m.room.join_rules"@.len() != "m.room.guest_access"@.len());
            assert("m.room.join_rules"@.len() != "m.room.history_visibility"@.len());
        },
        ContentKind::RoomMember => {
            assert("m.room.member"@.len() != "m.room.aliases"@.len());
            assert("m.room.member"@[7] != "m.room.avatar"@[7]);
            assert("m.room.member"@.len() != "m.room.canonical_alias"@.len());
            assert("m.room.member"@[7] != "m.room.create"@[7]);
            assert("m.room.member"@.len() != "m.room.guest_access"@.len());
            assert("m.room.member"@.len() != "m.room.history_visibility"@.len());
            assert("m.room.member"@.len() != "m.room.join_rules"@.len());
        },
        ContentKind::RoomName => {
            assert("m.room.name"@.len() != "m.room.aliases"@.len());
            assert("m.room.name"@.len() != "m.room.avatar"@.len());
            assert("m.room.name"@.len() != "m.room.canonical_alias"@.len());
            assert("m.room.name"@.len() != "m.room.create"@.len());
            assert("m.room.name"@.len() != "m.room.guest_access"@.len());
            assert("m.room.name"@.len() != "m.room.history_visibility"@.len());
            assert("m.room.name"@.len() != "m.room.join_rules"@.len());
            assert("m.room.name"@.len() != "m.room.member"@.len());
        },
        ContentKind::RoomPowerLevels => {
            assert("m.room.power_levels"@.len() != "m.room.aliases"@.len());
            assert("m.room.power_levels"@.len() != "m.room.avatar"@.len());
            assert("m.room.power_levels"@.len() != "m.room.canonical_alias"@.len());
            assert("m.room.power_levels"@.len() != "m.room.create"@.len());
            assert("m.room.power_levels"@[7] != "m.room.guest_access"@[7]);
            assert("m.room.power_levels"@.len() != "m.room.history_visibility"@.len());
            assert("m.room.power_levels"@.len() != "m.room.join_rules"@.len());
            assert("m.room.power_levels"@.len() != "m.room.member"@.len());
            assert("m.room.power_levels"@.len() != "m.room.name"@.len());
        },
        ContentKind::RoomRedaction => {
            assert("m.room.redaction"@.len() != "m.room.aliases"@.len());
            assert("m.room.redaction"@.len() != "m.room.avatar"@.len());
            assert("m.room.redaction"@.len() != "m.room.canonical_alias"@.len());
            assert("m.room.redaction"@.len() != "m.room.create"@.len());
            assert("m.room.redaction"@.len() != "m.room.guest_access"@.len());
            assert("m.room.redaction"@.len() != "m.room.history_visibility"@.len());
            assert("m.room.redaction"@.len() != "m.room.join_rules"@.len());
            assert("m.room.redaction"@.len() != "m.room.member"@.len());
            assert("m.room.redaction"@.len() != "m.room.name"@.len());
            assert("m.room.redaction"@.len() != "m.room.power_levels"@.len());
        },
        ContentKind::RoomTopic => {
            assert("m.room.topic"@.len() != "m.room.aliases"@.len());
            assert("m.room.topic"@.len() != "m.room.avatar"@.len());
            assert("m.room.topic"@.len() != "m.room.canonical_alias"@.len());
            assert("m.room.topic"@.len() != "m.room.create"@.len());
            assert("m.room.topic"@.len() != "m.room.guest_access"@.len());
            assert("m.room.topic"@.len() != "m.room.history_visibility"@.len());
            assert("m.room.topic"@.len() != "m.room.join_rules"@.len());
            assert("m.room.topic"@.len() != "m.room.member"@.len());
            assert("m.room.topic"@.len() != "m.room.name"@.len());
            assert("m.room.topic"@.len() != "m.room.power_levels"@.len());
            assert("m.room.topic"@.len() != "m.room.redaction"@.len());
        },
        ContentKind::RoomMessage => {
            assert("m.room.message"@[7] != "m.room.aliases"@[7]);
            assert("m.room.message"@.len() != "m.room.avatar"@.len());
            assert("m.room.message"@.len() != "m.room.canonical_alias"@.len());
            assert("m.room.message"@.len() != "m.room.create"@.len());
            assert("m.room.message"@.len() != "m.room.guest_access"@.len());
            assert("m.room.message"@.len() != "m.room.history_visibility"@.len());
            assert("m.room.message"@.len() != "m.room.join_rules"@.len());
            assert("m.room.message"@.len() != "m.room.member"@.len());
            assert("m.room.message"@.len() != "m.room.name"@.len());
            assert("m.room.message"@.len() != "m.room.power_levels"@.len());
            assert("m.room.message"@.len() != "m.room.redaction"@.len());
            assert("m.room.message"@.len() != "m.room.topic"@.len());
        },
        ContentKind::RootDirect => {
            assert("m.direct"@.len() != "m.room.aliases"@.len());
            assert("m.direct"@.len() != "m.room.avatar"@.len());
            assert("m.direct"@.len() != "m.room.canonical_alias"@.len());
            assert("m.direct"@.len() != "m.room.create"@.len());
            assert("m.direct"@.len() != "m.room.guest_access"@.len());
            assert("m.direct"@.len() != "m.room.history_visibility"@.len());
            assert("m.direct"@.len() != "m.room.join_rules"@.len());
            assert("m.direct"@.len() != "m.room.member"@.len());
            assert("m.direct"@.len() != "m.room.name"@.len());
            assert("m.direct"@.len() != "m.room.power_levels"@.len());
            assert("m.direct"@.len() != "m.room.redaction"@.len());
            assert("m.direct"@.len() != "m.room.topic"@.len());
            assert("m.direct"@.len() != "m.room.message"@.len());
        },
        ContentKind::RootPresence => {
            assert("m.presence"@.len() != "m.room.aliases"@.len());
            assert("m.presence"@.len() != "m.room.avatar"@.len());
            assert("m.presence"@.len() != "m.room.canonical_alias"@.len());
            assert("m.presence"@.len() != "m.room.create"@.len());
            assert("m.presence"@.len() != "m.room.guest_access"@.len());
            assert("m.presence"@.len() != "m.room.history_visibility"@.len());
            assert("m.presence"@.len() != "m.room.join_rules"@.len());
            assert("m.presence"@.len() != "m.room.member"@.len());
            assert("m.presence"@.len() != "m.room.name"@.len());
            assert("m.presence"@.len() != "m.room.power_levels"@.len());
            assert("m.presence"@.len() != "m.room.redaction"@.len());
            assert("m.presence"@.len() != "m.room.topic"@.len());
            assert("m.presence"@.len() != "m.room.message"@.len());
            assert("m.presence"@.len() != "m.direct"@.len());
        },
        ContentKind::RootReceipt => {
            assert("m.receipt"@.len() != "m.room.aliases"@.len());
            assert("m.receipt"@.len() != "m.room.avatar"@.len());
            assert("m.receipt"@.len() != "m.room.canonical_alias"@.len());
            assert("m.receipt"@.len() != "m.room.create"@.len());
            assert("m.receipt"@.len() != "m.room.guest_access"@.len());
            assert("m.receipt"@.len() != "m.room.history_visibility"@.len());
            assert("m.receipt"@.len() != "m.room.join_rules"@.len());
            assert("m.receipt"@.len() != "m.room.member"@.len());
            assert("m.receipt"@.len() != "m.room.name"@.len());
            assert("m.receipt"@.len() != "m.room.power_levels"@.len());
            assert("m.receipt"@.len() != "m.room.redaction"@.len());
            assert("m.receipt"@.len() != "m.room.topic"@.len());
            assert("m.receipt"@.len() != "m.room.message"@.len());
            assert("m.receipt"@.len() != "m.direct"@.len());
            assert("m.receipt"@.len() != "m.presence"@.len());
        },
        ContentKind::RootTag => {
            assert("m.tag"@.len() != "m.room.aliases"@.len());
            assert("m.tag"@.len() != "m.room.avatar"@.len());
            assert("m.tag"@.len() != "m.room.canonical_alias"@.len());
            assert("m.tag"@.len() != "m.room.create"@.len());
            assert("m.tag"@.len() != "m.room.guest_access"@.len());
            assert("m.tag"@.len() != "m.room.history_visibility"@.len());
            assert("m.tag"@.len() != "m.room.join_rules"@.len());
            assert("m.tag"@.len() != "m.room.member"@.len());
            assert("m.tag"@.len() != "m.room.name"@.len());
            assert("m.tag"@.len() != "m.room.power_levels"@.len());
            assert("m.tag"@.len() != "m.room.redaction"@.len());
            assert("m.tag"@.len() != "m.room.topic"@.len());
            assert("m.tag"@.len() != "m.room.message"@.len());
            assert("m.tag"@.len() != "m.direct"@.len());
            assert("m.tag"@.len() != "m.presence"@.len());
            assert("m.tag"@.len() != "m.receipt"@.len());
        },
        ContentKind::RootTyping => {
            assert("m.typing"@.len() != "m.room.aliases"@.len());
            assert("m.typing"@.len() != "m.room.avatar"@.len());
            assert("m.typing"@.len() != "m.room.canonical_alias"@.len());
            assert("m.typing"@.len() != "m.room.create"@.len());
            assert("m.typing"@.len() != "m.room.guest_access"@.len());
            assert("m.typing"@.len() != "m.room.history_visibility"@.len());
            assert("m.typing"@.len() != "m.room.join_rules"@.len());
            assert("m.typing"@.len() != "m.room.member"@.len());
            assert("m.typing"@.len() != "m.room.name"@.len());
            assert("m.typing"@.len() != "m.room.power_levels"@.len());
            assert("m.typing"@.len() != "m.room.redaction"@.len());
            assert("m.typing"@.len() != "m.room.topic"@.len());
            assert("m.typing"@.len() != "m.room.message"@.len());
            assert("m.typing"@[2] != "m.direct"@[2]);
            assert("m.typing"@.len() != "m.presence"@.len());
            assert("m.typing"@.len() != "m.receipt"@.len());
            assert("m.typing"@.len() != "m.tag"@.len());
        },
        ContentKind::CallInvite => {
            assert("m.call.invite"@.len() != "m.room.aliases"@.len());
            assert("m.call.invite"@[2] != "m.room.avatar"@[2]);
            assert("m.call.invite"@.len() != "m.room.canonical_alias"@.len());
            assert("m.call.invite"@[2] != "m.room.create"@[2]);
            assert("m.call.invite"@.len() != "m.room.guest_access"@.len());
            assert("m.call.invite"@.len() != "m.room.history_visibility"@.len());
            assert("m.call.invite"@.len() != "m.room.join_rules"@.len());
            assert("m.call.invite"@[2] != "m.room.member"@[2]);
            assert("m.call.invite"@.len() != "m.room.name"@.len());
            assert("m.call.invite"@.len() != "m.room.power_levels"@.len());
            assert("m.call.invite"@.len() != "m.room.redaction"@.len());
            assert("m.call.invite"@.len() != "m.room.topic"@.len());
            assert("m.call.invite"@.len() != "m.room.message"@.len());
            assert("m.call.invite"@.len() != "m.direct"@.len());
            assert("m.call.invite"@.len() != "m.presence"@.len());
            assert("m.call.invite"@.len() != "m.receipt"@.len());
            assert("m.call.invite"@.len() != "m.tag"@.len());
            assert("m.call.invite"@.len() != "m.typing"@.len());
        },
        ContentKind::CallCandidates => {
            assert("m.call.candidates"@.len() != "m.room.aliases"@.len());
            assert("m.call.candidates"@.len() != "m.room.avatar"@.len());
            assert("m.call.candidates"@.len() != "m.room.canonical_alias"@.len());
            assert("m.call.candidates"@.len() != "m.room.create"@.len());
            assert("m.call.candidates"@.len() != "m.room.guest_access"@.len());
            assert("m.call.candidates"@.len() != "m.room.history_visibility"@.len());
            assert("m.call.candidates"@[2] != "m.room.join_rules"@[2]);
            assert("m.call.candidates"@.len() != "m.room.member"@.len());
            assert("m.call.candidates"@.len() != "m.room.name"@.len());
            assert("m.call.candidates"@.len() != "m.room.power_levels"@.len());
            assert("m.call.candidates"@.len() != "m.room.redaction"@.len());
            assert("m.call.candidates"@.len() != "m.room.topic"@.len());
            assert("m.call.candidates"@.len() != "m.room.message"@.len());
            assert("m.call.candidates"@.len() != "m.direct"@.len());
            assert("m.call.candidates"@.len() != "m.presence"@.len());
            assert("m.call.candidates"@.len() != "m.receipt"@.len());
            assert("m.call.candidates"@.len() != "m.tag"@.len());
            assert("m.call.candidates"@.len() != "m.typing"@.len());
            assert("m.call.candidates"@.len() != "m.call.invite"@.len());
        },
        ContentKind::CallAnswer => {
            assert("m.call.answer"@.len() != "m.room.aliases"@.len());
            assert("m.call.answer"@[2] != "m.room.avatar"@[2]);
            assert("m.call.answer"@.len() != "m.room.canonical_alias"@.len());
            assert("m.call.answer"@[2] != "m.room.create"@[2]);
            assert("m.call.answer"@.len() != "m.room.guest_access"@.len());
            assert("m.call.answer"@.len() != "m.room.history_visibility"@.len());
            assert("m.call.answer"@.len() != "m.room.join_rules"@.len());
            assert("m.call.answer"@[2] != "m.room.member"@[2]);
            assert("m.call.answer"@.len() != "m.room.name"@.len());
            assert("m.call.answer"@.len() != "m.room.power_levels"@.len());
            assert("m.call.answer"@.len() != "m.room.redaction"@.len());
            assert("m.call.answer"@.len() != "m.room.topic"@.len());
            assert("m.call.answer"@.len() != "m.room.message"@.len());
            assert("m.call.answer"@.len() != "m.direct"@.len());
            assert("m.call.answer"@.len() != "m.presence"@.len());
            assert("m.call.answer"@.len() != "m.receipt"@.len());
            assert("m.call.answer"@.len() != "m.tag"@.len());
            assert("m.call.answer"@.len() != "m.typing"@.len());
            assert("m.call.answer"@[7] != "m.call.invite"@[7]);
            assert("m.call.answer"@.len() != "m.call.candidates"@.len());
        },
        ContentKind::CallHangup => {
            assert("m.call.hangup"@.len() != "m.room.aliases"@.len());
            assert("m.call.hangup"@[2] != "m.room.avatar"@[2]);
            assert("m.call.hangup"@.len() != "m.room.canonical_alias"@.len());
            assert("m.call.hangup"@[2] != "m.room.create"@[2]);
            assert("m.call.hangup"@.len() != "m.room.guest_access"@.len());
            assert("m.call.hangup"@.len() != "m.room.history_visibility"@.len());
            assert("m.call.hangup"@.len() != "m.room.join_rules"@.len());
            assert("m.call.hangup"@[2] != "m.room.member"@[2]);
            assert("m.call.hangup"@.len() != "m.room.name"@.len());
            assert("m.call.hangup"@.len() != "m.room.power_levels"@.len());
            assert("m.call.hangup"@.len() != "m.room.redaction"@.len());
            assert("m.call.hangup"@.len() != "m.room.topic"@.len());
            assert("m.call.hangup"@.len() != "m.room.message"@.len());
            assert("m.call.hangup"@.len() != "m.direct"@.len());
            assert("m.call.hangup"@.len() != "m.presence"@.len());
            assert("m.call.hangup"@.len() != "m.receipt"@.len());
            assert("m.call.hangup"@.len() != "m.tag"@.len());
            assert("m.call.hangup"@.len() != "m.typing"@.len());
            assert("m.call.hangup"@[7] != "m.call.invite"@[7]);
            assert("m.call.hangup"@.len() != "m.call.candidates"@.len());
            assert("m.call.hangup"@[7] != "m.call.answer"@[7]);
        },
    }
}

/// Content of a kind is of that kind.
pub proof fn lemma_decoded_as_kind(kind: ContentKind, payload: JsonView)
    ensures
        decoded_as(kind, payload) matches Some(c) ==> c.kind() == Some(kind),
{
}

/// For every event type with a decoder, a payload that has the shape of that type decodes
/// to the typed content of that type, never to `Unknown`, whether payloads are held to
/// their shape or not.
pub proof fn lemma_known_type_decodes(kind: ContentKind, payload: JsonView)
    requires
        decoded_as(kind, payload) is Some,
    ensures
        content_of(kind.name(), payload) == decoded_as(kind, payload)->0,
        strict_content_of(kind.name(), payload) == decoded_as(kind, payload),
        content_of(kind.name(), payload).kind() == Some(kind),
        !(content_of(kind.name(), payload) is Unknown),
{
    lemma_kind_named(kind);
    lemma_decoded_as_kind(kind, payload);
}

/// For every event type without a decoder, the content is the payload itself, whether
/// payloads are held to their shape or not, and writing that content gives the payload
/// back.
pub proof fn lemma_unknown_type_keeps_payload(typ: Seq<char>, payload: JsonView)
    requires
        ContentKind::named(typ) is None,
    ensures
        content_of(typ, payload) == ContentView::Unknown(payload),
        strict_content_of(typ, payload) == Some(ContentView::Unknown(payload)),
        Content::encoded(content_of(typ, payload)) == payload,
{
}

} // verus!
