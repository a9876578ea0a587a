//! The words that `m.room.*` content is written with.

use vstd::prelude::*;
use vstd::string::*;
use crate::codec::{FromJson, ToJson};
use crate::json::{Json, JsonView};
use crate::text::{owned, str_eq};

verus! {

/// Defines who can join a room
#[derive(Debug, Clone, Copy, PartialEq, Eq, Structural)]
pub enum JoinRule {
    Public,
    Invite,
}

impl DeepView for JoinRule {
    type V = JoinRule;

    open spec fn deep_view(&self) -> JoinRule {
        *self
    }
}

impl JoinRule {
    /// The name of a variant on the wire.
    pub open spec fn name(self) -> Seq<char> {
        match self {
            JoinRule::Public => "public"@,
            JoinRule::Invite => "invite"@,
        }
    }

    /// The variant that a name on the wire stands for.
    pub open spec fn named(s: Seq<char>) -> Option<JoinRule> {
        if s == "public"@ {
            Some(JoinRule::Public)
        } else if s == "invite"@ {
            Some(JoinRule::Invite)
        } else {
            None
        }
    }

    /// The name of this variant on the wire.
    pub fn as_str(&self) -> (r: &'static str)
        ensures
            r@ == self.name(),
    {
        match self {
            JoinRule::Public => "public",
            JoinRule::Invite => "invite",
        }
    }
}

impl FromJson for JoinRule {
    open spec fn decoded(j: JsonView) -> Option<JoinRule> {
        match j {
            JsonView::Str(s) => JoinRule::named(s),
            _ => None,
        }
    }

    fn from_json(j: &Json) -> (r: Option<JoinRule>) {
        match j {
            Json::Str(s) => {
                if str_eq(s.as_str(), "public") {
                    Some(JoinRule::Public)
                } else if str_eq(s.as_str(), "invite") {
                    Some(JoinRule::Invite)
                } else {
                    None
                }
            },
            _ => None,
        }
    }
}

impl ToJson for JoinRule {
    open spec fn encoded(v: JoinRule) -> JsonView {
        JsonView::Str(v.name())
    }

    fn to_json(&self) -> (j: Json) {
        Json::Str(owned(self.as_str()))
    }
}

/// Possible membership states of a user
#[derive(Debug, Clone, Copy, PartialEq, Eq, Structural)]
pub enum Membership {
    /// The user has been invited to join a room, but has not yet joined it.
    /// They may not participate in the room until they join.
    Invite,
    /// The user has joined the room (possibly after accepting an invite), and
    /// may participate in it.
    Join,
    /// The user was once joined to the room, but has since left (possibly by
    /// choice, or possibly by being kicked).
    Leave,
    /// The user has been banned from the room, and is no longer allowed to join
    /// it until they are un-banned from the room (by having their membership
    /// state set to a value other than ban).
    Ban,
}

impl DeepView for Membership {
    type V = Membership;

    open spec fn deep_view(&self) -> Membership {
        *self
    }
}

impl Membership {
    /// The name of a variant on the wire.
    pub open spec fn name(self) -> Seq<char> {
        match self {
            Membership::Invite => "invite"@,
            Membership::Join => "join"@,
            Membership::Leave => "leave"@,
            Membership::Ban => "ban"@,
        }
    }

    /// The variant that a name on the wire stands for.
    pub open spec fn named(s: Seq<char>) -> Option<Membership> {
        if s == "invite"@ {
            Some(Membership::Invite)
        } else if s == "join"@ {
            Some(Membership::Join)
        } else if s == "leave"@ {
            Some(Membership::Leave)
        } else if s == "ban"@ {
            Some(Membership::Ban)
        } else {
            None
        }
    }

    /// The name of this variant on the wire.
    pub fn as_str(&self) -> (r: &'static str)
        ensures
            r@ == self.name(),
    {
        match self {
            Membership::Invite => "invite",
            Membership::Join => "join",
            Membership::Leave => "leave",
            Membership::Ban => "ban",
        }
    }
}

impl FromJson for Membership {
    open spec fn decoded(j: JsonView) -> Option<Membership> {
        match j {
            JsonView::Str(s) => Membership::named(s),
            _ => None,
        }
    }

    fn from_json(j: &Json) -> (r: Option<Membership>) {
        match j {
            Json::Str(s) => {
                if str_eq(s.as_str(), "invite") {
                    Some(Membership::Invite)
                } else if str_eq(s.as_str(), "join") {
                    Some(Membership::Join)
                } else if str_eq(s.as_str(), "leave") {
                    Some(Membership::Leave)
                } else if str_eq(s.as_str(), "ban") {
                    Some(Membership::Ban)
                } else {
                    None
                }
            },
            _ => None,
        }
    }
}

impl ToJson for Membership {
    open spec fn encoded(v: Membership) -> JsonView {
        JsonView::Str(v.name())
    }

    fn to_json(&self) -> (j: Json) {
        Json::Str(owned(self.as_str()))
    }
}

/// Who can see the room history
#[derive(Debug, Clone, Copy, PartialEq, Eq, Structural)]
pub enum HistoryVisibility {
    Invited,
    Joined,
    Shared,
    WorldReadable,
}

impl DeepView for HistoryVisibility {
    type V = HistoryVisibility;

    open spec fn deep_view(&self) -> HistoryVisibility {
        *self
    }
}

impl HistoryVisibility {
    /// The name of a variant on the wire.
    pub open spec fn name(self) -> Seq<char> {
        match self {
            HistoryVisibility::Invited => "invited"@,
            HistoryVisibility::Joined => "joined"@,
            HistoryVisibility::Shared => "shared"@,
            HistoryVisibility::WorldReadable => "world_readable"@,
        }
    }

    /// The variant that a name on the wire stands for.
    pub open spec fn named(s: Seq<char>) -> Option<HistoryVisibility> {
        if s == "invited"@ {
            Some(HistoryVisibility::Invited)
        } else if s == "joined"@ {
            Some(HistoryVisibility::Joined)
        } else if s == "shared"@ {
            Some(HistoryVisibility::Shared)
        } else if s == "world_readable"@ {
            Some(HistoryVisibility::WorldReadable)
        } else {
            None
        }
    }

    /// The name of this variant on the wire.
    pub fn as_str(&self) -> (r: &'static str)
        ensures
            r@ == self.name(),
    {
        match self {
            HistoryVisibility::Invited => "invited",
            HistoryVisibility::Joined => "joined",
            HistoryVisibility::Shared => "shared",
            HistoryVisibility::WorldReadable => "world_readable",
        }
    }
}

impl FromJson for HistoryVisibility {
    open spec fn decoded(j: JsonView) -> Option<HistoryVisibility> {
        match j {
            JsonView::Str(s) => HistoryVisibility::named(s),
            _ => None,
        }
    }

    fn from_json(j: &Json) -> (r: Option<HistoryVisibility>) {
        match j {
            Json::Str(s) => {
                if str_eq(s.as_str(), "invited") {
                    Some(HistoryVisibility::Invited)
                } else if str_eq(s.as_str(), "joined") {
                    Some(HistoryVisibility::Joined)
                } else if str_eq(s.as_str(), "shared") {
                    Some(HistoryVisibility::Shared)
                } else if str_eq(s.as_str(), "world_readable") {
                    Some(HistoryVisibility::WorldReadable)
                } else {
                    None
                }
            },
            _ => None,
        }
    }
}

impl ToJson for HistoryVisibility {
    open spec fn encoded(v: HistoryVisibility) -> JsonView {
        JsonView::Str(v.name())
    }

    fn to_json(&self) -> (j: Json) {
        Json::Str(owned(self.as_str()))
    }
}

/// Whether guests can join a room
#[derive(Debug, Clone, Copy, PartialEq, Eq, Structural)]
pub enum GuestAccess {
    CanJoin,
    Forbidden,
}

impl DeepView for GuestAccess {
    type V = GuestAccess;

    open spec fn deep_view(&self) -> GuestAccess {
        *self
    }
}

impl GuestAccess {
    /// The name of a variant on the wire.
    pub open spec fn name(self) -> Seq<char> {
        match self {
            GuestAccess::CanJoin => "can_join"@,
            GuestAccess::Forbidden => "forbidden"@,
        }
    }

    /// The variant that a name on the wire stands for.
    pub open spec fn named(s: Seq<char>) -> Option<GuestAccess> {
        if s == "can_join"@ {
            Some(GuestAccess::CanJoin)
        } else if s == "forbidden"@ {
            Some(GuestAccess::Forbidden)
        } else {
            None
        }
    }

    /// The name of this variant on the wire.
    pub fn as_str(&self) -> (r: &'static str)
        ensures
            r@ == self.name(),
    {
        match self {
            GuestAccess::CanJoin => "can_join",
            GuestAccess::Forbidden => "forbidden",
        }
    }
}

impl FromJson for GuestAccess {
    open spec fn decoded(j: JsonView) -> Option<GuestAccess> {
        match j {
            JsonView::Str(s) => GuestAccess::named(s),
            _ => None,
        }
    }

    fn from_json(j: &Json) -> (r: Option<GuestAccess>) {
        match j {
            Json::Str(s) => {
                if str_eq(s.as_str(), "can_join") {
                    Some(GuestAccess::CanJoin)
                } else if str_eq(s.as_str(), "forbidden") {
                    Some(GuestAccess::Forbidden)
                } else {
                    None
                }
            },
            _ => None,
        }
    }
}

impl ToJson for GuestAccess {
    open spec fn encoded(v: GuestAccess) -> JsonView {
        JsonView::Str(v.name())
    }

    fn to_json(&self) -> (j: Json) {
        Json::Str(owned(self.as_str()))
    }
}

} // verus!
