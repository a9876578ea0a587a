//! The parts that `m.*` content is made of.

use vstd::prelude::*;
use vstd::string::*;
use crate::codec::{
    optional, optional_spec, required, required_spec, with_opt, FromJson, ObjectWriter, ToJson,
};
use crate::json::{Json, JsonView};
use crate::dict::Dict;
use crate::text::{owned, str_eq};

verus! {

/// One user's receipt for an event.
#[derive(Debug, PartialEq)]
pub struct Receipt {
    /// When the receipt was sent, in milliseconds since the epoch.
    pub ts: u64,
}

/// The mathematical value of [`Receipt`].
pub ghost struct ReceiptView {
    pub ts: u64,
}

impl DeepView for Receipt {
    type V = ReceiptView;

    open spec fn deep_view(&self) -> ReceiptView {
        ReceiptView {
            ts: self.ts.deep_view(),
        }
    }
}

impl FromJson for Receipt {
    open spec fn decoded(j: JsonView) -> Option<ReceiptView> {
        if j is Object {
            match required_spec::<u64>(j, "ts"@) {
                Some(ts) => Some(ReceiptView { ts }),
                None => None,
            }
        } else {
            None
        }
    }

    fn from_json(j: &Json) -> (r: Option<Receipt>) {
        if !j.is_object() {
            return None;
        }
        let ts = match required::<u64>(j, "ts") {
            Some(x) => x,
            None => {
                return None;
            },
        };
        Some(Receipt { ts })
    }
}

impl ToJson for Receipt {
    open spec fn encoded(v: ReceiptView) -> JsonView {
        let m1 = Seq::<(Seq<char>, JsonView)>::empty().push(("ts"@, <u64>::encoded(v.ts)));
        JsonView::Object(m1)
    }

    fn to_json(&self) -> (j: Json) {
        let mut w = ObjectWriter::new();
        w.put("ts", &self.ts);
        w.finish()
    }
}

/// The receipts for one event.
#[derive(Debug, PartialEq)]
pub struct Receipts {
    /// The read receipts, by user ID.
    pub read: Dict<Receipt>,
}

/// The mathematical value of [`Receipts`].
pub ghost struct ReceiptsView {
    pub read: Seq<(Seq<char>, ReceiptView)>,
}

impl DeepView for Receipts {
    type V = ReceiptsView;

    open spec fn deep_view(&self) -> ReceiptsView {
        ReceiptsView {
            read: self.read.deep_view(),
        }
    }
}

impl FromJson for Receipts {
    open spec fn decoded(j: JsonView) -> Option<ReceiptsView> {
        if j is Object {
            match required_spec::<Dict<Receipt>>(j, "m.read"@) {
                Some(read) => Some(ReceiptsView { read }),
                None => None,
            }
        } else {
            None
        }
    }

    fn from_json(j: &Json) -> (r: Option<Receipts>) {
        if !j.is_object() {
            return None;
        }
        let read = match required::<Dict<Receipt>>(j, "m.read") {
            Some(x) => x,
            None => {
                return None;
            },
        };
        Some(Receipts { read })
    }
}

impl ToJson for Receipts {
    open spec fn encoded(v: ReceiptsView) -> JsonView {
        let m1 = Seq::<(Seq<char>, JsonView)>::empty().push(
            ("m.read"@, <Dict<Receipt>>::encoded(v.read)),
        );
        JsonView::Object(m1)
    }

    fn to_json(&self) -> (j: Json) {
        let mut w = ObjectWriter::new();
        w.put("m.read", &self.read);
        w.finish()
    }
}

/// Information about whether people are online or not.
#[derive(Debug, Clone, Copy, PartialEq, Eq, Structural)]
pub enum Presence {
    Online,
    Offline,
    Unavailable,
}

impl DeepView for Presence {
    type V = Presence;

    open spec fn deep_view(&self) -> Presence {
        *self
    }
}

impl Presence {
    /// The name of a variant on the wire.
    pub open spec fn name(self) -> Seq<char> {
        match self {
            Presence::Online => "online"@,
            Presence::Offline => "offline"@,
            Presence::Unavailable => "unavailable"@,
        }
    }

    /// The variant that a name on the wire stands for.
    pub open spec fn named(s: Seq<char>) -> Option<Presence> {
        if s == "online"@ {
            Some(Presence::Online)
        } else if s == "offline"@ {
            Some(Presence::Offline)
        } else if s == "unavailable"@ {
            Some(Presence::Unavailable)
        } else {
            None
        }
    }

    /// The name of this variant on the wire.
    pub fn as_str(&self) -> (r: &'static str)
        ensures
            r@ == self.name(),
    {
        match self {
            Presence::Online => "online",
            Presence::Offline => "offline",
            Presence::Unavailable => "unavailable",
        }
    }
}

impl FromJson for Presence {
    open spec fn decoded(j: JsonView) -> Option<Presence> {
        match j {
            JsonView::Str(s) => Presence::named(s),
            _ => None,
        }
    }

    fn from_json(j: &Json) -> (r: Option<Presence>) {
        match j {
            Json::Str(s) => {
                if str_eq(s.as_str(), "online") {
                    Some(Presence::Online)
                } else if str_eq(s.as_str(), "offline") {
                    Some(Presence::Offline)
                } else if str_eq(s.as_str(), "unavailable") {
                    Some(Presence::Unavailable)
                } else {
                    None
                }
            },
            _ => None,
        }
    }
}

impl ToJson for Presence {
    open spec fn encoded(v: Presence) -> JsonView {
        JsonView::Str(v.name())
    }

    fn to_json(&self) -> (j: Json) {
        Json::Str(owned(self.as_str()))
    }
}

/// What is known of one tag on a room.
#[derive(Debug, PartialEq)]
pub struct RoomTag {
    /// Where the room stands among those with the same tag: a number or a string.
    pub order: Option<Json>,
}

/// The mathematical value of [`RoomTag`].
pub ghost struct RoomTagView {
    pub order: Option<JsonView>,
}

impl DeepView for RoomTag {
    type V = RoomTagView;

    open spec fn deep_view(&self) -> RoomTagView {
        RoomTagView {
            order: self.order.deep_view(),
        }
    }
}

impl FromJson for RoomTag {
    open spec fn decoded(j: JsonView) -> Option<RoomTagView> {
        if j is Object {
            match optional_spec::<Json>(j, "order"@) {
                Some(order) => Some(RoomTagView { order }),
                None => None,
            }
        } else {
            None
        }
    }

    fn from_json(j: &Json) -> (r: Option<RoomTag>) {
        if !j.is_object() {
            return None;
        }
        let order = match optional::<Json>(j, "order") {
            Some(x) => x,
            None => {
                return None;
            },
        };
        Some(RoomTag { order })
    }
}

impl ToJson for RoomTag {
    open spec fn encoded(v: RoomTagView) -> JsonView {
        let m1 = with_opt::<Json>(Seq::<(Seq<char>, JsonView)>::empty(), "order"@, v.order);
        JsonView::Object(m1)
    }

    fn to_json(&self) -> (j: Json) {
        let mut w = ObjectWriter::new();
        w.put_opt("order", &self.order);
        w.finish()
    }
}

} // verus!
