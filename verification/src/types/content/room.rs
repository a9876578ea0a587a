//! Content types for `m.room.*` events.

use vstd::prelude::*;
use vstd::string::*;
use crate::codec::{
    defaulted, defaulted_spec, optional, optional_spec, required, required_spec, with_opt,
    FromJson, ObjectWriter, ToJson,
};
use crate::json::{Json, JsonView};
use crate::dict::Dict;
use crate::types::messages;

pub mod types;

verus! {

/// The default of a flag that is on unless the event says otherwise.
pub fn tru() -> (r: bool)
    ensures
        r,
{
    true
}

/// The default of the levels that an event may leave out: moderator.
pub fn fifty() -> (r: u32)
    ensures
        r == 50,
{
    50
}

/// The default of the levels that an event may leave out: everyone.
pub fn zero() -> (r: u32)
    ensures
        r == 0,
{
    0
}

/// `m.room.aliases`
///
/// - `state_key`: The homeserver domain which owns these room aliases.
///
/// This event is sent by a homeserver directly to inform of changes to the list
/// of aliases it knows about for that room.
#[derive(Debug, PartialEq)]
pub struct Aliases {
    /// A list of room aliases.
    pub aliases: Vec<String>,
}

/// The mathematical value of [`Aliases`].
pub ghost struct AliasesView {
    pub aliases: Seq<Seq<char>>,
}

impl DeepView for Aliases {
    type V = AliasesView;

    open spec fn deep_view(&self) -> AliasesView {
        AliasesView {
            aliases: self.aliases.deep_view(),
        }
    }
}

impl FromJson for Aliases {
    open spec fn decoded(j: JsonView) -> Option<AliasesView> {
        if j is Object {
            match required_spec::<Vec<String>>(j, "aliases"@) {
                Some(aliases) => Some(AliasesView { aliases }),
                None => None,
            }
        } else {
            None
        }
    }

    fn from_json(j: &Json) -> (r: Option<Aliases>) {
        if !j.is_object() {
            return None;
        }
        let aliases = match required::<Vec<String>>(j, "aliases") {
            Some(x) => x,
            None => {
                return None;
            },
        };
        Some(Aliases { aliases })
    }
}

impl ToJson for Aliases {
    open spec fn encoded(v: AliasesView) -> JsonView {
        let m1 = Seq::<(Seq<char>, JsonView)>::empty().push(
            ("aliases"@, <Vec<String>>::encoded(v.aliases)),
        );
        JsonView::Object(m1)
    }

    fn to_json(&self) -> (j: Json) {
        let mut w = ObjectWriter::new();
        w.put("aliases", &self.aliases);
        w.finish()
    }
}

/// `m.room.canonical_alias`
///
/// This event is used to inform the room about which alias should be considered
/// the canonical one.
#[derive(Debug, PartialEq)]
pub struct CanonicalAlias {
    pub alias: String,
}

/// The mathematical value of [`CanonicalAlias`].
pub ghost struct CanonicalAliasView {
    pub alias: Seq<char>,
}

impl DeepView for CanonicalAlias {
    type V = CanonicalAliasView;

    open spec fn deep_view(&self) -> CanonicalAliasView {
        CanonicalAliasView {
            alias: self.alias.deep_view(),
        }
    }
}

impl FromJson for CanonicalAlias {
    open spec fn decoded(j: JsonView) -> Option<CanonicalAliasView> {
        if j is Object {
            match required_spec::<String>(j, "alias"@) {
                Some(alias) => Some(CanonicalAliasView { alias }),
                None => None,
            }
        } else {
            None
        }
    }

    fn from_json(j: &Json) -> (r: Option<CanonicalAlias>) {
        if !j.is_object() {
            return None;
        }
        let alias = match required::<String>(j, "alias") {
            Some(x) => x,
            None => {
                return None;
            },
        };
        Some(CanonicalAlias { alias })
    }
}

impl ToJson for CanonicalAlias {
    open spec fn encoded(v: CanonicalAliasView) -> JsonView {
        let m1 = Seq::<(Seq<char>, JsonView)>::empty().push(("alias"@, <String>::encoded(v.alias)));
        JsonView::Object(m1)
    }

    fn to_json(&self) -> (j: Json) {
        let mut w = ObjectWriter::new();
        w.put("alias", &self.alias);
        w.finish()
    }
}

/// `m.room.create`
///
/// This is the first event in a room and cannot be changed. It acts as the root
/// of all other events.
#[derive(Debug, PartialEq)]
pub struct Create {
    /// The user_id of the room creator. This is set by the homeserver.
    pub creator: String,
    /// Whether users on other servers can join this room. Defaults to true if
    /// key does not exist.
    pub m_federate: bool,
}

/// The mathematical value of [`Create`].
pub ghost struct CreateView {
    pub creator: Seq<char>,
    pub m_federate: bool,
}

impl DeepView for Create {
    type V = CreateView;

    open spec fn deep_view(&self) -> CreateView {
        CreateView {
            creator: self.creator.deep_view(),
            m_federate: self.m_federate.deep_view(),
        }
    }
}

impl FromJson for Create {
    open spec fn decoded(j: JsonView) -> Option<CreateView> {
        if j is Object {
            match (
                required_spec::<String>(j, "creator"@),
                defaulted_spec::<bool>(j, "m.federate"@, true),
            ) {
                (Some(creator), Some(m_federate)) => Some(
                    CreateView { creator, m_federate },
                ),
                _ => None,
            }
        } else {
            None
        }
    }

    fn from_json(j: &Json) -> (r: Option<Create>) {
        if !j.is_object() {
            return None;
        }
        let creator = match required::<String>(j, "creator") {
            Some(x) => x,
            None => {
                return None;
            },
        };
        let m_federate = match defaulted::<bool>(j, "m.federate", tru()) {
            Some(x) => x,
            None => {
                return None;
            },
        };
        Some(Create { creator, m_federate })
    }
}

impl ToJson for Create {
    open spec fn encoded(v: CreateView) -> JsonView {
        let m1 = Seq::<(Seq<char>, JsonView)>::empty().push(
            ("creator"@, <String>::encoded(v.creator)),
        );
        let m2 = m1.push(("m.federate"@, <bool>::encoded(v.m_federate)));
        JsonView::Object(m2)
    }

    fn to_json(&self) -> (j: Json) {
        let mut w = ObjectWriter::new();
        w.put("creator", &self.creator);
        w.put("m.federate", &self.m_federate);
        w.finish()
    }
}

/// `m.room.join_rules`
///
/// A room may be public meaning anyone can join the room without any prior
/// action. Alternatively, it can be invite meaning that a user who wishes to
/// join the room must first receive an invite to the room from someone already
/// inside of the room.
#[derive(Debug, PartialEq)]
pub struct JoinRules {
    /// The type of rules used for users wishing to join this room.
    pub join_rule: types::JoinRule,
}

/// The mathematical value of [`JoinRules`].
pub ghost struct JoinRulesView {
    pub join_rule: types::JoinRule,
}

impl DeepView for JoinRules {
    type V = JoinRulesView;

    open spec fn deep_view(&self) -> JoinRulesView {
        JoinRulesView {
            join_rule: self.join_rule.deep_view(),
        }
    }
}

impl FromJson for JoinRules {
    open spec fn decoded(j: JsonView) -> Option<JoinRulesView> {
        if j is Object {
            match required_spec::<types::JoinRule>(j, "join_rule"@) {
                Some(join_rule) => Some(JoinRulesView { join_rule }),
                None => None,
            }
        } else {
            None
        }
    }

    fn from_json(j: &Json) -> (r: Option<JoinRules>) {
        if !j.is_object() {
            return None;
        }
        let join_rule = match required::<types::JoinRule>(j, "join_rule") {
            Some(x) => x,
            None => {
                return None;
            },
        };
        Some(JoinRules { join_rule })
    }
}

impl ToJson for JoinRules {
    open spec fn encoded(v: JoinRulesView) -> JsonView {
        let m1 = Seq::<(Seq<char>, JsonView)>::empty().push(
            ("join_rule"@, <types::JoinRule>::encoded(v.join_rule)),
        );
        JsonView::Object(m1)
    }

    fn to_json(&self) -> (j: Json) {
        let mut w = ObjectWriter::new();
        w.put("join_rule", &self.join_rule);
        w.finish()
    }
}

/// `m.room.member`
///
/// - `state_key`: The user_id this membership event relates to.
///
/// Adjusts the membership state for a user in a room.
#[derive(Debug, PartialEq)]
pub struct Member {
    /// The avatar URL for this user, if any. This is added by the homeserver.
    pub avatar_url: Option<String>,
    /// The display name for this user, if any. This is added by the homeserver.
    pub displayname: Option<String>,
    /// The membership state of the user.
    pub membership: types::Membership,
    /// Flag indicating if the room containing this event was created with the
    /// intention of being a direct chat.
    pub is_direct: Option<bool>,
    /// Set if this invite is the successor of an `m.room.third_party_invite` event.
    pub third_party_invite: Option<Json>,
}

/// The mathematical value of [`Member`].
pub ghost struct MemberView {
    pub avatar_url: Option<Seq<char>>,
    pub displayname: Option<Seq<char>>,
    pub membership: types::Membership,
    pub is_direct: Option<bool>,
    pub third_party_invite: Option<JsonView>,
}

impl DeepView for Member {
    type V = MemberView;

    open spec fn deep_view(&self) -> MemberView {
        MemberView {
            avatar_url: self.avatar_url.deep_view(),
            displayname: self.displayname.deep_view(),
            membership: self.membership.deep_view(),
            is_direct: self.is_direct.deep_view(),
            third_party_invite: self.third_party_invite.deep_view(),
        }
    }
}

impl FromJson for Member {
    open spec fn decoded(j: JsonView) -> Option<MemberView> {
        if j is Object {
            match (
                optional_spec::<String>(j, "avatar_url"@),
                optional_spec::<String>(j, "displayname"@),
                required_spec::<types::Membership>(j, "membership"@),
                optional_spec::<bool>(j, "is_direct"@),
                optional_spec::<Json>(j, "third_party_invite"@),
            ) {
                (
                    Some(avatar_url),
                    Some(displayname),
                    Some(membership),
                    Some(is_direct),
                    Some(third_party_invite),
                ) => Some(
                    MemberView {
                        avatar_url,
                        displayname,
                        membership,
                        is_direct,
                        third_party_invite,
                    },
                ),
                _ => None,
            }
        } else {
            None
        }
    }

    fn from_json(j: &Json) -> (r: Option<Member>) {
        if !j.is_object() {
            return None;
        }
        let avatar_url = match optional::<String>(j, "avatar_url") {
            Some(x) => x,
            None => {
                return None;
            },
        };
        let displayname = match optional::<String>(j, "displayname") {
            Some(x) => x,
            None => {
                return None;
            },
        };
        let membership = match required::<types::Membership>(j, "membership") {
            Some(x) => x,
            None => {
                return None;
            },
        };
        let is_direct = match optional::<bool>(j, "is_direct") {
            Some(x) => x,
            None => {
                return None;
            },
        };
        let third_party_invite = match optional::<Json>(j, "third_party_invite") {
            Some(x) => x,
            None => {
                return None;
            },
        };
        Some(Member { avatar_url, displayname, membership, is_direct, third_party_invite })
    }
}

impl ToJson for Member {
    open spec fn encoded(v: MemberView) -> JsonView {
        let m1 = with_opt::<String>(
            Seq::<(Seq<char>, JsonView)>::empty(),
            "avatar_url"@,
            v.avatar_url,
        );
        let m2 = with_opt::<String>(m1, "displayname"@, v.displayname);
        let m3 = m2.push(("membership"@, <types::Membership>::encoded(v.membership)));
        let m4 = with_opt::<bool>(m3, "is_direct"@, v.is_direct);
        let m5 = with_opt::<Json>(m4, "third_party_invite"@, v.third_party_invite);
        JsonView::Object(m5)
    }

    fn to_json(&self) -> (j: Json) {
        let mut w = ObjectWriter::new();
        w.put_opt("avatar_url", &self.avatar_url);
        w.put_opt("displayname", &self.displayname);
        w.put("membership", &self.membership);
        w.put_opt("is_direct", &self.is_direct);
        w.put_opt("third_party_invite", &self.third_party_invite);
        w.finish()
    }
}

/// `m.room.power_levels`
///
/// This event specifies the minimum level a user must have in order to perform
/// a certain action. It also specifies the levels of each user in the room.
///
/// If a user_id is in the users list, then that user_id has the associated
/// power level. Otherwise they have the default level users_default. If
/// users_default is not supplied, it is assumed to be 0.
#[derive(Debug, PartialEq)]
pub struct PowerLevels {
    /// The level required to ban a user. Defaults to 50 if unspecified.
    pub ban: u32,
    /// The level required to send specific event types. This is a mapping from
    /// event type to power level required.
    pub events: Dict<u32>,
    /// The default level required to send message events. Can be overridden by
    /// the events key. Defaults to 0 if unspecified.
    pub events_default: u32,
    /// The level required to invite a user. Defaults to 50 if unspecified.
    pub invite: u32,
    /// The level required to kick a user. Defaults to 50 if unspecified.
    pub kick: u32,
    /// The level required to redact an event. Defaults to 50 if unspecified.
    pub redact: u32,
    /// The default level required to send state events. Can be overridden by
    /// the events key. Defaults to 50 if unspecified.
    pub state_default: u32,
    /// The power levels for specific users. This is a mapping from user_id to
    /// power level for that user.
    pub users: Dict<u32>,
    /// The default power level for every user in the room, unless their user_id
    /// is mentioned in the users key. Defaults to 0 if unspecified.
    pub users_default: u32,
}

/// The mathematical value of [`PowerLevels`].
pub ghost struct PowerLevelsView {
    pub ban: u32,
    pub events: Seq<(Seq<char>, u32)>,
    pub events_default: u32,
    pub invite: u32,
    pub kick: u32,
    pub redact: u32,
    pub state_default: u32,
    pub users: Seq<(Seq<char>, u32)>,
    pub users_default: u32,
}

impl DeepView for PowerLevels {
    type V = PowerLevelsView;

    open spec fn deep_view(&self) -> PowerLevelsView {
        PowerLevelsView {
            ban: self.ban.deep_view(),
            events: self.events.deep_view(),
            events_default: self.events_default.deep_view(),
            invite: self.invite.deep_view(),
            kick: self.kick.deep_view(),
            redact: self.redact.deep_view(),
            state_default: self.state_default.deep_view(),
            users: self.users.deep_view(),
            users_default: self.users_default.deep_view(),
        }
    }
}

impl FromJson for PowerLevels {
    open spec fn decoded(j: JsonView) -> Option<PowerLevelsView> {
        if j is Object {
            match (
                defaulted_spec::<u32>(j, "ban"@, 50u32),
                defaulted_spec::<Dict<u32>>(j, "events"@, Seq::empty()),
                defaulted_spec::<u32>(j, "events_default"@, 0u32),
                defaulted_spec::<u32>(j, "invite"@, 50u32),
                defaulted_spec::<u32>(j, "kick"@, 50u32),
                defaulted_spec::<u32>(j, "redact"@, 50u32),
                defaulted_spec::<u32>(j, "state_default"@, 50u32),
                defaulted_spec::<Dict<u32>>(j, "users"@, Seq::empty()),
                defaulted_spec::<u32>(j, "users_default"@, 0u32),
            ) {
                (
                    Some(ban),
                    Some(events),
                    Some(events_default),
                    Some(invite),
                    Some(kick),
                    Some(redact),
                    Some(state_default),
                    Some(users),
                    Some(users_default),
                ) => Some(
                    PowerLevelsView {
                        ban,
                        events,
                        events_default,
                        invite,
                        kick,
                        redact,
                        state_default,
                        users,
                        users_default,
                    },
                ),
                _ => None,
            }
        } else {
            None
        }
    }

    fn from_json(j: &Json) -> (r: Option<PowerLevels>) {
        if !j.is_object() {
            return None;
        }
        let ban = match defaulted::<u32>(j, "ban", fifty()) {
            Some(x) => x,
            None => {
                return None;
            },
        };
        let events = match defaulted::<Dict<u32>>(j, "events", Dict::new()) {
            Some(x) => x,
            None => {
                return None;
            },
        };
        let events_default = match defaulted::<u32>(j, "events_default", zero()) {
            Some(x) => x,
            None => {
                return None;
            },
        };
        let invite = match defaulted::<u32>(j, "invite", fifty()) {
            Some(x) => x,
            None => {
                return None;
            },
        };
        let kick = match defaulted::<u32>(j, "kick", fifty()) {
            Some(x) => x,
            None => {
                return None;
            },
        };
        let redact = match defaulted::<u32>(j, "redact", fifty()) {
            Some(x) => x,
            None => {
                return None;
            },
        };
        let state_default = match defaulted::<u32>(j, "state_default", fifty()) {
            Some(x) => x,
            None => {
                return None;
            },
        };
        let users = match defaulted::<Dict<u32>>(j, "users", Dict::new()) {
            Some(x) => x,
            None => {
                return None;
            },
        };
        let users_default = match defaulted::<u32>(j, "users_default", zero()) {
            Some(x) => x,
            None => {
                return None;
            },
        };
        Some(PowerLevels {
            ban,
            events,
            events_default,
            invite,
            kick,
            redact,
            state_default,
            users,
            users_default,
        })
    }
}

impl ToJson for PowerLevels {
    open spec fn encoded(v: PowerLevelsView) -> JsonView {
        let m1 = Seq::<(Seq<char>, JsonView)>::empty().push(("ban"@, <u32>::encoded(v.ban)));
        let m2 = m1.push(("events"@, <Dict<u32>>::encoded(v.events)));
        let m3 = m2.push(("events_default"@, <u32>::encoded(v.events_default)));
        let m4 = m3.push(("invite"@, <u32>::encoded(v.invite)));
        let m5 = m4.push(("kick"@, <u32>::encoded(v.kick)));
        let m6 = m5.push(("redact"@, <u32>::encoded(v.redact)));
        let m7 = m6.push(("state_default"@, <u32>::encoded(v.state_default)));
        let m8 = m7.push(("users"@, <Dict<u32>>::encoded(v.users)));
        let m9 = m8.push(("users_default"@, <u32>::encoded(v.users_default)));
        JsonView::Object(m9)
    }

    fn to_json(&self) -> (j: Json) {
        let mut w = ObjectWriter::new();
        w.put("ban", &self.ban);
        w.put("events", &self.events);
        w.put("events_default", &self.events_default);
        w.put("invite", &self.invite);
        w.put("kick", &self.kick);
        w.put("redact", &self.redact);
        w.put("state_default", &self.state_default);
        w.put("users", &self.users);
        w.put("users_default", &self.users_default);
        w.finish()
    }
}

/// `m.room.redaction`
///
/// Events can be redacted by either room or server admins. The event that has
/// been redacted is specified in the `redacts` event level key.
#[derive(Debug, PartialEq)]
pub struct Redaction {
    /// The reason for the redaction, if any.
    pub reason: Option<String>,
}

/// The mathematical value of [`Redaction`].
pub ghost struct RedactionView {
    pub reason: Option<Seq<char>>,
}

impl DeepView for Redaction {
    type V = RedactionView;

    open spec fn deep_view(&self) -> RedactionView {
        RedactionView {
            reason: self.reason.deep_view(),
        }
    }
}

impl FromJson for Redaction {
    open spec fn decoded(j: JsonView) -> Option<RedactionView> {
        if j is Object {
            match optional_spec::<String>(j, "reason"@) {
                Some(reason) => Some(RedactionView { reason }),
                None => None,
            }
        } else {
            None
        }
    }

    fn from_json(j: &Json) -> (r: Option<Redaction>) {
        if !j.is_object() {
            return None;
        }
        let reason = match optional::<String>(j, "reason") {
            Some(x) => x,
            None => {
                return None;
            },
        };
        Some(Redaction { reason })
    }
}

impl ToJson for Redaction {
    open spec fn encoded(v: RedactionView) -> JsonView {
        let m1 = with_opt::<String>(Seq::<(Seq<char>, JsonView)>::empty(), "reason"@, v.reason);
        JsonView::Object(m1)
    }

    fn to_json(&self) -> (j: Json) {
        let mut w = ObjectWriter::new();
        w.put_opt("reason", &self.reason);
        w.finish()
    }
}

/// `m.room.message`
///
/// Yeah, this is just a re-export of the message type from the other module.
pub type Message = messages::Message;

/// `m.room.name`
///
/// The room name is a human-friendly string designed to be displayed to the
/// end-user. The room name is not unique, as multiple rooms can have the same
/// room name set.
#[derive(Debug, PartialEq)]
pub struct Name {
    /// The name of the room. This MUST NOT exceed 255 bytes.
    pub name: String,
}

/// The mathematical value of [`Name`].
pub ghost struct NameView {
    pub name: Seq<char>,
}

impl DeepView for Name {
    type V = NameView;

    open spec fn deep_view(&self) -> NameView {
        NameView {
            name: self.name.deep_view(),
        }
    }
}

impl FromJson for Name {
    open spec fn decoded(j: JsonView) -> Option<NameView> {
        if j is Object {
            match required_spec::<String>(j, "name"@) {
                Some(name) => Some(NameView { name }),
                None => None,
            }
        } else {
            None
        }
    }

    fn from_json(j: &Json) -> (r: Option<Name>) {
        if !j.is_object() {
            return None;
        }
        let name = match required::<String>(j, "name") {
            Some(x) => x,
            None => {
                return None;
            },
        };
        Some(Name { name })
    }
}

impl ToJson for Name {
    open spec fn encoded(v: NameView) -> JsonView {
        let m1 = Seq::<(Seq<char>, JsonView)>::empty().push(("name"@, <String>::encoded(v.name)));
        JsonView::Object(m1)
    }

    fn to_json(&self) -> (j: Json) {
        let mut w = ObjectWriter::new();
        w.put("name", &self.name);
        w.finish()
    }
}

/// `m.room.avatar`
///
/// A picture that is associated with the room. This can be displayed alongside
/// the room information.
#[derive(Debug, PartialEq)]
pub struct Avatar {
    /// Metadata about the image referred to in `url`.
    pub info: Option<messages::ImageInfo>,
    /// The URL to the image.
    pub url: String,
}

/// The mathematical value of [`Avatar`].
pub ghost struct AvatarView {
    pub info: Option<messages::ImageInfoView>,
    pub url: Seq<char>,
}

impl DeepView for Avatar {
    type V = AvatarView;

    open spec fn deep_view(&self) -> AvatarView {
        AvatarView {
            info: self.info.deep_view(),
            url: self.url.deep_view(),
        }
    }
}

impl FromJson for Avatar {
    open spec fn decoded(j: JsonView) -> Option<AvatarView> {
        if j is Object {
            match (
                optional_spec::<messages::ImageInfo>(j, "info"@),
                required_spec::<String>(j, "url"@),
            ) {
                (Some(info), Some(url)) => Some(
                    AvatarView { info, url },
                ),
                _ => None,
            }
        } else {
            None
        }
    }

    fn from_json(j: &Json) -> (r: Option<Avatar>) {
        if !j.is_object() {
            return None;
        }
        let info = match optional::<messages::ImageInfo>(j, "info") {
            Some(x) => x,
            None => {
                return None;
            },
        };
        let url = match required::<String>(j, "url") {
            Some(x) => x,
            None => {
                return None;
            },
        };
        Some(Avatar { info, url })
    }
}

impl ToJson for Avatar {
    open spec fn encoded(v: AvatarView) -> JsonView {
        let m1 = with_opt::<messages::ImageInfo>(
            Seq::<(Seq<char>, JsonView)>::empty(),
            "info"@,
            v.info,
        );
        let m2 = m1.push(("url"@, <String>::encoded(v.url)));
        JsonView::Object(m2)
    }

    fn to_json(&self) -> (j: Json) {
        let mut w = ObjectWriter::new();
        w.put_opt("info", &self.info);
        w.put("url", &self.url);
        w.finish()
    }
}

/// `m.room.topic`
///
/// A topic is a short message detailing what is currently being discussed in
/// the room.
#[derive(Debug, PartialEq)]
pub struct Topic {
    /// The topic text.
    pub topic: String,
}

/// The mathematical value of [`Topic`].
pub ghost struct TopicView {
    pub topic: Seq<char>,
}

impl DeepView for Topic {
    type V = TopicView;

    open spec fn deep_view(&self) -> TopicView {
        TopicView {
            topic: self.topic.deep_view(),
        }
    }
}

impl FromJson for Topic {
    open spec fn decoded(j: JsonView) -> Option<TopicView> {
        if j is Object {
            match required_spec::<String>(j, "topic"@) {
                Some(topic) => Some(TopicView { topic }),
                None => None,
            }
        } else {
            None
        }
    }

    fn from_json(j: &Json) -> (r: Option<Topic>) {
        if !j.is_object() {
            return None;
        }
        let topic = match required::<String>(j, "topic") {
            Some(x) => x,
            None => {
                return None;
            },
        };
        Some(Topic { topic })
    }
}

impl ToJson for Topic {
    open spec fn encoded(v: TopicView) -> JsonView {
        let m1 = Seq::<(Seq<char>, JsonView)>::empty().push(("topic"@, <String>::encoded(v.topic)));
        JsonView::Object(m1)
    }

    fn to_json(&self) -> (j: Json) {
        let mut w = ObjectWriter::new();
        w.put("topic", &self.topic);
        w.finish()
    }
}

/// `m.room.history_visibility`
///
/// This event controls whether a user can see the events that happened in a
/// room from before they joined.
#[derive(Debug, PartialEq)]
pub struct HistoryVisibility {
    /// Who can see the room history.
    pub history_visibility: types::HistoryVisibility,
}

/// The mathematical value of [`HistoryVisibility`].
pub ghost struct HistoryVisibilityView {
    pub history_visibility: types::HistoryVisibility,
}

impl DeepView for HistoryVisibility {
    type V = HistoryVisibilityView;

    open spec fn deep_view(&self) -> HistoryVisibilityView {
        HistoryVisibilityView {
            history_visibility: self.history_visibility.deep_view(),
        }
    }
}

impl FromJson for HistoryVisibility {
    open spec fn decoded(j: JsonView) -> Option<HistoryVisibilityView> {
        if j is Object {
            match required_spec::<types::HistoryVisibility>(j, "history_visibility"@) {
                Some(history_visibility) => Some(HistoryVisibilityView { history_visibility }),
                None => None,
            }
        } else {
            None
        }
    }

    fn from_json(j: &Json) -> (r: Option<HistoryVisibility>) {
        if !j.is_object() {
            return None;
        }
        let history_visibility = match required::<types::HistoryVisibility>(
            j,
            "history_visibility",
        ) {
            Some(x) => x,
            None => {
                return None;
            },
        };
        Some(HistoryVisibility { history_visibility })
    }
}

impl ToJson for HistoryVisibility {
    open spec fn encoded(v: HistoryVisibilityView) -> JsonView {
        let m1 = Seq::<(Seq<char>, JsonView)>::empty().push(
            ("history_visibility"@, <types::HistoryVisibility>::encoded(v.history_visibility)),
        );
        JsonView::Object(m1)
    }

    fn to_json(&self) -> (j: Json) {
        let mut w = ObjectWriter::new();
        w.put("history_visibility", &self.history_visibility);
        w.finish()
    }
}

/// `m.room.guest_access`
///
/// This event controls whether guest users are allowed to join rooms. If this
/// event is absent, servers should act as if it is present and has the
/// guest_access value "forbidden".
#[derive(Debug, PartialEq)]
pub struct GuestAccess {
    /// Whether guests can join the room.
    pub guest_access: types::GuestAccess,
}

/// The mathematical value of [`GuestAccess`].
pub ghost struct GuestAccessView {
    pub guest_access: types::GuestAccess,
}

impl DeepView for GuestAccess {
    type V = GuestAccessView;

    open spec fn deep_view(&self) -> GuestAccessView {
        GuestAccessView {
            guest_access: self.guest_access.deep_view(),
        }
    }
}

impl FromJson for GuestAccess {
    open spec fn decoded(j: JsonView) -> Option<GuestAccessView> {
        if j is Object {
            match required_spec::<types::GuestAccess>(j, "guest_access"@) {
                Some(guest_access) => Some(GuestAccessView { guest_access }),
                None => None,
            }
        } else {
            None
        }
    }

    fn from_json(j: &Json) -> (r: Option<GuestAccess>) {
        if !j.is_object() {
            return None;
        }
        let guest_access = match required::<types::GuestAccess>(j, "guest_access") {
            Some(x) => x,
            None => {
                return None;
            },
        };
        Some(GuestAccess { guest_access })
    }
}

impl ToJson for GuestAccess {
    open spec fn encoded(v: GuestAccessView) -> JsonView {
        let m1 = Seq::<(Seq<char>, JsonView)>::empty().push(
            ("guest_access"@, <types::GuestAccess>::encoded(v.guest_access)),
        );
        JsonView::Object(m1)
    }

    fn to_json(&self) -> (j: Json) {
        let mut w = ObjectWriter::new();
        w.put("guest_access", &self.guest_access);
        w.finish()
    }
}

} // verus!
