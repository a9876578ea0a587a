//! Content types for `m.*` events.

use vstd::prelude::*;
use vstd::string::*;
use crate::codec::{
    defaulted, defaulted_spec, optional, optional_spec, required, required_spec, with_opt,
    FromJson, ObjectWriter, ToJson,
};
use crate::json::{Json, JsonView};
use crate::dict::Dict;

pub mod types;

verus! {

/// `m.typing`
///
/// Informs the client of the list of users currently typing.
#[derive(Debug, PartialEq)]
pub struct Typing {
    /// The list of user IDs typing in this room, if any.
    pub user_ids: Vec<String>,
}

/// The mathematical value of [`Typing`].
pub ghost struct TypingView {
    pub user_ids: Seq<Seq<char>>,
}

impl DeepView for Typing {
    type V = TypingView;

    open spec fn deep_view(&self) -> TypingView {
        TypingView {
            user_ids: self.user_ids.deep_view(),
        }
    }
}

impl FromJson for Typing {
    open spec fn decoded(j: JsonView) -> Option<TypingView> {
        if j is Object {
            match required_spec::<Vec<String>>(j, "user_ids"@) {
                Some(user_ids) => Some(TypingView { user_ids }),
                None => None,
            }
        } else {
            None
        }
    }

    fn from_json(j: &Json) -> (r: Option<Typing>) {
        if !j.is_object() {
            return None;
        }
        let user_ids = match required::<Vec<String>>(j, "user_ids") {
            Some(x) => x,
            None => {
                return None;
            },
        };
        Some(Typing { user_ids })
    }
}

impl ToJson for Typing {
    open spec fn encoded(v: TypingView) -> JsonView {
        let m1 = Seq::<(Seq<char>, JsonView)>::empty().push(
            ("user_ids"@, <Vec<String>>::encoded(v.user_ids)),
        );
        JsonView::Object(m1)
    }

    fn to_json(&self) -> (j: Json) {
        let mut w = ObjectWriter::new();
        w.put("user_ids", &self.user_ids);
        w.finish()
    }
}

/// `m.receipt`
///
/// Informs the client of new receipts: for each event ID, the receipts for it.
#[derive(Debug, PartialEq)]
pub struct Receipt(pub Dict<types::Receipts>);

impl DeepView for Receipt {
    type V = Seq<(Seq<char>, types::ReceiptsView)>;

    open spec fn deep_view(&self) -> Seq<(Seq<char>, types::ReceiptsView)> {
        self.0.deep_view()
    }
}

impl FromJson for Receipt {
    open spec fn decoded(j: JsonView) -> Option<Seq<(Seq<char>, types::ReceiptsView)>> {
        <Dict<types::Receipts>>::decoded(j)
    }

    fn from_json(j: &Json) -> (r: Option<Receipt>) {
        match <Dict<types::Receipts>>::from_json(j) {
            Some(x) => Some(Receipt(x)),
            None => None,
        }
    }
}

impl ToJson for Receipt {
    open spec fn encoded(v: Seq<(Seq<char>, types::ReceiptsView)>) -> JsonView {
        <Dict<types::Receipts>>::encoded(v)
    }

    fn to_json(&self) -> (j: Json) {
        self.0.to_json()
    }
}

/// `m.presence`
///
/// Informs the client of a user's presence state change.
#[derive(Debug, PartialEq)]
pub struct Presence {
    /// The current avatar URL for this user, if any.
    pub avatar_url: Option<String>,
    /// The current display name for this user, if any.
    pub displayname: Option<String>,
    /// The last time since this used performed some action, in milliseconds.
    pub last_active_ago: Option<u64>,
    /// The presence state for this user.
    pub presence: types::Presence,
    /// Whether the user is currently active.
    pub currently_active: bool,
    /// The user's ID.
    pub user_id: String,
}

/// The mathematical value of [`Presence`].
pub ghost struct PresenceView {
    pub avatar_url: Option<Seq<char>>,
    pub displayname: Option<Seq<char>>,
    pub last_active_ago: Option<u64>,
    pub presence: types::Presence,
    pub currently_active: bool,
    pub user_id: Seq<char>,
}

impl DeepView for Presence {
    type V = PresenceView;

    open spec fn deep_view(&self) -> PresenceView {
        PresenceView {
            avatar_url: self.avatar_url.deep_view(),
            displayname: self.displayname.deep_view(),
            last_active_ago: self.last_active_ago.deep_view(),
            presence: self.presence.deep_view(),
            currently_active: self.currently_active.deep_view(),
            user_id: self.user_id.deep_view(),
        }
    }
}

impl FromJson for Presence {
    open spec fn decoded(j: JsonView) -> Option<PresenceView> {
        if j is Object {
            match (
                optional_spec::<String>(j, "avatar_url"@),
                optional_spec::<String>(j, "displayname"@),
                optional_spec::<u64>(j, "last_active_ago"@),
                required_spec::<types::Presence>(j, "presence"@),
                defaulted_spec::<bool>(j, "currently_active"@, false),
                required_spec::<String>(j, "user_id"@),
            ) {
                (
                    Some(avatar_url),
                    Some(displayname),
                    Some(last_active_ago),
                    Some(presence),
                    Some(currently_active),
                    Some(user_id),
                ) => Some(
                    PresenceView {
                        avatar_url,
                        displayname,
                        last_active_ago,
                        presence,
                        currently_active,
                        user_id,
                    },
                ),
                _ => None,
            }
        } else {
            None
        }
    }

    fn from_json(j: &Json) -> (r: Option<Presence>) {
        if !j.is_object() {
            return None;
        }
        let avatar_url = match optional::<String>(j, "avatar_url") {
            Some(x) => x,
            None => {
                return None;
            },
        };
        let displayname = match optional::<String>(j, "displayname") {
            Some(x) => x,
            None => {
                return None;
            },
        };
        let last_active_ago = match optional::<u64>(j, "last_active_ago") {
            Some(x) => x,
            None => {
                return None;
            },
        };
        let presence = match required::<types::Presence>(j, "presence") {
            Some(x) => x,
            None => {
                return None;
            },
        };
        let currently_active = match defaulted::<bool>(j, "currently_active", false) {
            Some(x) => x,
            None => {
                return None;
            },
        };
        let user_id = match required::<String>(j, "user_id") {
            Some(x) => x,
            None => {
                return None;
            },
        };
        Some(Presence {
            avatar_url,
            displayname,
            last_active_ago,
            presence,
            currently_active,
            user_id,
        })
    }
}

impl ToJson for Presence {
    open spec fn encoded(v: PresenceView) -> JsonView {
        let m1 = with_opt::<String>(
            Seq::<(Seq<char>, JsonView)>::empty(),
            "avatar_url"@,
            v.avatar_url,
        );
        let m2 = with_opt::<String>(m1, "displayname"@, v.displayname);
        let m3 = with_opt::<u64>(m2, "last_active_ago"@, v.last_active_ago);
        let m4 = m3.push(("presence"@, <types::Presence>::encoded(v.presence)));
        let m5 = m4.push(("currently_active"@, <bool>::encoded(v.currently_active)));
        let m6 = m5.push(("user_id"@, <String>::encoded(v.user_id)));
        JsonView::Object(m6)
    }

    fn to_json(&self) -> (j: Json) {
        let mut w = ObjectWriter::new();
        w.put_opt("avatar_url", &self.avatar_url);
        w.put_opt("displayname", &self.displayname);
        w.put_opt("last_active_ago", &self.last_active_ago);
        w.put("presence", &self.presence);
        w.put("currently_active", &self.currently_active);
        w.put("user_id", &self.user_id);
        w.finish()
    }
}

/// `m.tag`
///
/// Informs the client of tags on a room.
#[derive(Debug, PartialEq)]
pub struct Tag {
    /// The tags on the room and their contents.
    pub tags: Dict<types::RoomTag>,
}

/// The mathematical value of [`Tag`].
pub ghost struct TagView {
    pub tags: Seq<(Seq<char>, types::RoomTagView)>,
}

impl DeepView for Tag {
    type V = TagView;

    open spec fn deep_view(&self) -> TagView {
        TagView {
            tags: self.tags.deep_view(),
        }
    }
}

impl FromJson for Tag {
    open spec fn decoded(j: JsonView) -> Option<TagView> {
        if j is Object {
            match required_spec::<Dict<types::RoomTag>>(j, "tags"@) {
                Some(tags) => Some(TagView { tags }),
                None => None,
            }
        } else {
            None
        }
    }

    fn from_json(j: &Json) -> (r: Option<Tag>) {
        if !j.is_object() {
            return None;
        }
        let tags = match required::<Dict<types::RoomTag>>(j, "tags") {
            Some(x) => x,
            None => {
                return None;
            },
        };
        Some(Tag { tags })
    }
}

impl ToJson for Tag {
    open spec fn encoded(v: TagView) -> JsonView {
        let m1 = Seq::<(Seq<char>, JsonView)>::empty().push(
            ("tags"@, <Dict<types::RoomTag>>::encoded(v.tags)),
        );
        JsonView::Object(m1)
    }

    fn to_json(&self) -> (j: Json) {
        let mut w = ObjectWriter::new();
        w.put("tags", &self.tags);
        w.finish()
    }
}

/// `m.direct`
///
/// A map of which rooms are considered 'direct' rooms for specific users is
/// kept in account_data in an event of type m.direct. The content of this event
/// is an object where the keys are the user IDs and values are lists of room ID
/// strings of the 'direct' rooms for that user ID.
#[derive(Debug, PartialEq)]
pub struct Direct(pub Dict<Vec<String>>);

impl DeepView for Direct {
    type V = Seq<(Seq<char>, Seq<Seq<char>>)>;

    open spec fn deep_view(&self) -> Seq<(Seq<char>, Seq<Seq<char>>)> {
        self.0.deep_view()
    }
}

impl FromJson for Direct {
    open spec fn decoded(j: JsonView) -> Option<Seq<(Seq<char>, Seq<Seq<char>>)>> {
        <Dict<Vec<String>>>::decoded(j)
    }

    fn from_json(j: &Json) -> (r: Option<Direct>) {
        match <Dict<Vec<String>>>::from_json(j) {
            Some(x) => Some(Direct(x)),
            None => None,
        }
    }
}

impl ToJson for Direct {
    open spec fn encoded(v: Seq<(Seq<char>, Seq<Seq<char>>)>) -> JsonView {
        <Dict<Vec<String>>>::encoded(v)
    }

    fn to_json(&self) -> (j: Json) {
        self.0.to_json()
    }
}

} // verus!
