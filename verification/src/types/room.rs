//! Type for Matrix rooms.

use vstd::prelude::*;
use vstd::string::*;
use crate::codec::{FromJson, ToJson};
use crate::json::{Json, JsonView};
use crate::text::{owned, str_eq};

verus! {

/// A Matrix room. This object is a thin wrapper over a room ID.
///
/// Two rooms are equal where their IDs are, and rooms are ordered as their IDs are. On the
/// wire a room is its ID, a bare string.
#[derive(Clone, Debug, Hash, Eq, PartialEq, Ord, PartialOrd)]
pub struct Room {
    #[allow(missing_docs)]
    pub id: String,
}

impl DeepView for Room {
    type V = Seq<char>;

    open spec fn deep_view(&self) -> Seq<char> {
        self.id@
    }
}

impl Room {
    /// Make a `Room` object from a room ID.
    pub fn from_id(id: &str) -> (r: Room)
        ensures
            r.deep_view() == id@,
    {
        Room { id: owned(id) }
    }

    /// A copy of this room.
    pub fn copy(&self) -> (r: Room)
        ensures
            r.deep_view() == self.deep_view(),
    {
        Room { id: self.id.clone() }
    }

    /// Whether this is the room `other`.
    pub fn is(&self, other: &Room) -> (r: bool)
        ensures
            r == (self.deep_view() == other.deep_view()),
    {
        str_eq(self.id.as_str(), other.id.as_str())
    }
}

impl FromJson for Room {
    open spec fn decoded(j: JsonView) -> Option<Seq<char>> {
        match j {
            JsonView::Str(id) => Some(id),
            _ => None,
        }
    }

    fn from_json(j: &Json) -> (r: Option<Room>) {
        match j {
            Json::Str(id) => Some(Room { id: id.clone() }),
            _ => None,
        }
    }
}

impl ToJson for Room {
    open spec fn encoded(v: Seq<char>) -> JsonView {
        JsonView::Str(v)
    }

    fn to_json(&self) -> (j: Json) {
        Json::Str(self.id.clone())
    }
}

/// Reading a room and writing it again gives the bare string that was read, and writing a
/// room and reading it again gives the room.
pub proof fn lemma_room_round_trip(j: JsonView, id: Seq<char>)
    ensures
        Room::decoded(j) matches Some(room) ==> Room::encoded(room) == j,
        Room::encoded(id) is Str,
        Room::decoded(Room::encoded(id)) == Some(id),
{
}

} // verus!
