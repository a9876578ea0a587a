//! JSON documents as plain values.

use vstd::prelude::*;
use vstd::string::*;
use serde_json::Value;
use crate::dict::{index_of, lemma_index_of, lookup};
use crate::text::str_eq;

verus! {

/// A JSON document.
#[derive(Debug, PartialEq)]
pub enum Json {
    Null,
    Bool(bool),
    UInt(u64),
    Int(i64),
    Float(String),
    Str(String),
    Array(Vec<Json>),
    Object(Vec<(String, Json)>),
}

/// The mathematical value of a JSON document.
pub ghost enum JsonView {
    Null,
    Bool(bool),
    UInt(u64),
    Int(i64),
    Float(Seq<char>),
    Str(Seq<char>),
    Array(Seq<JsonView>),
    Object(Seq<(Seq<char>, JsonView)>),
}

/// The mathematical value of a document.
pub open spec fn json_view(j: Json) -> JsonView
    decreases j,
{
    match j {
        Json::Null => JsonView::Null,
        Json::Bool(b) => JsonView::Bool(b),
        Json::UInt(n) => JsonView::UInt(n),
        Json::Int(n) => JsonView::Int(n),
        Json::Float(s) => JsonView::Float(s@),
        Json::Str(s) => JsonView::Str(s@),
        Json::Array(items) => JsonView::Array(
            Seq::new(
                items.len() as nat,
                |i: int|
                    if 0 <= i < items.len() {
                        json_view(items[i])
                    } else {
                        JsonView::Null
                    },
            ),
        ),
        Json::Object(members) => JsonView::Object(
            Seq::new(
                members.len() as nat,
                |i: int|
                    if 0 <= i < members.len() {
                        (members[i].0@, json_view(members[i].1))
                    } else {
                        (Seq::empty(), JsonView::Null)
                    },
            ),
        ),
    }
}

impl View for Json {
    type V = JsonView;

    open spec fn view(&self) -> JsonView {
        json_view(*self)
    }
}

impl DeepView for Json {
    type V = JsonView;

    open spec fn deep_view(&self) -> JsonView {
        self@
    }
}

impl JsonView {
    /// The member `key` of an object; `None` for a missing member and for a value that is
    /// no object.
    pub open spec fn field(self, key: Seq<char>) -> Option<JsonView> {
        match self {
            JsonView::Object(members) => lookup(members, key),
            _ => None,
        }
    }

    /// The member `key` of an object, where a `null` member counts as missing.
    pub open spec fn member(self, key: Seq<char>) -> Option<JsonView> {
        match self.field(key) {
            Some(JsonView::Null) => None,
            other => other,
        }
    }
}

/// A found member is a proper part of the members it was found in.
pub proof fn lemma_lookup_decreases(members: Seq<(Seq<char>, JsonView)>, key: Seq<char>)
    ensures
        lookup(members, key) matches Some(v) ==> decreases_to!(members => v),
{
    lemma_index_of(members, key);
    if let Some(i) = index_of(members, key) {
        assert(decreases_to!(members => members[i]));
        assert(decreases_to!(members[i] => members[i].1));
    }
}

/// A member of a value is a proper part of that value.
pub proof fn lemma_field_decreases(j: JsonView, key: Seq<char>)
    ensures
        j.field(key) matches Some(v) ==> decreases_to!(j => v),
        j.member(key) matches Some(v) ==> decreases_to!(j => v),
{
    if let JsonView::Object(members) = j {
        lemma_lookup_decreases(members, key);
    }
}

impl Json {
    /// The members of an object, as the view has them.
    pub proof fn lemma_object_view(self)
        requires
            self is Object,
        ensures
            self@ is Object,
            self@->Object_0.len() == self->Object_0.len(),
            forall|i: int|
                0 <= i < self->Object_0.len() ==> #[trigger] self@->Object_0[i] == (
                    self->Object_0[i].0@,
                    self->Object_0[i].1@,
                ),
    {
    }

    /// The items of an array, as the view has them.
    pub proof fn lemma_array_view(self)
        requires
            self is Array,
        ensures
            self@ is Array,
            self@->Array_0.len() == self->Array_0.len(),
            forall|i: int|
                0 <= i < self->Array_0.len() ==> #[trigger] self@->Array_0[i]
                    == self->Array_0[i]@,
    {
    }

    pub fn is_object(&self) -> (r: bool)
        ensures
            r == (self@ is Object),
    {
        match self {
            Json::Object(_) => true,
            _ => false,
        }
    }

    pub fn is_null(&self) -> (r: bool)
        ensures
            r == (self@ is Null),
    {
        match self {
            Json::Null => true,
            _ => false,
        }
    }

    /// The member `key` of an object.
    pub fn get(&self, key: &str) -> (r: Option<&Json>)
        ensures
            r.deep_view() == self@.field(key@),
            r matches Some(x) ==> decreases_to!(self => x),
    {
        match self {
            Json::Object(members) => {
                proof {
                    self.lemma_object_view();
                }
                let ghost all = self@->Object_0;
                let mut i: usize = members.len();
                assert(all.take(i as int) =~= all);
                while i > 0
                    invariant
                        i <= members.len(),
                        all.len() == members.len(),
                        forall|k: int|
                            0 <= k < members.len() ==> #[trigger] all[k] == (
                                members[k].0@,
                                members[k].1@,
                            ),
                        index_of(all, key@) == index_of(all.take(i as int), key@),
                        self == Json::Object(*members),
                        self@ == JsonView::Object(all),
                    decreases i,
                {
                    i -= 1;
                    assert(all.take(i + 1).drop_last() =~= all.take(i as int));
                    assert(all.take(i + 1).last() == all[i as int]);
                    if str_eq(members[i].0.as_str(), key) {
                        assert(decreases_to!(self => self->Object_0));
                        assert(decreases_to!(self->Object_0 => self->Object_0[i as int]));
                        assert(decreases_to!(self->Object_0[i as int] => self->Object_0[i as int].1));
                        return Some(&members[i].1);
                    }
                }
                assert(all.take(0) =~= Seq::empty());
                None
            },
            _ => None,
        }
    }

    /// The member `key` of an object, where a `null` member counts as missing.
    pub fn get_member(&self, key: &str) -> (r: Option<&Json>)
        ensures
            r.deep_view() == self@.member(key@),
            r matches Some(x) ==> decreases_to!(self => x),
    {
        match self.get(key) {
            Some(Json::Null) => None,
            other => other,
        }
    }

    /// A deep copy.
    pub fn copy(&self) -> (r: Json)
        ensures
            r@ == self@,
        decreases self,
    {
        match self {
            Json::Null => Json::Null,
            Json::Bool(b) => Json::Bool(*b),
            Json::UInt(n) => Json::UInt(*n),
            Json::Int(n) => Json::Int(*n),
            Json::Float(s) => Json::Float(s.clone()),
            Json::Str(s) => Json::Str(s.clone()),
            Json::Array(items) => {
                let mut out: Vec<Json> = Vec::new();
                let mut i: usize = 0;
                while i < items.len()
                    invariant
                        i <= items.len(),
                        out.len() == i,
                        forall|k: int| 0 <= k < i ==> out[k]@ == items[k]@,
                        self == Json::Array(*items),
                    decreases items.len() - i,
                {
                    assert(decreases_to!(self => self->Array_0));
                    assert(decreases_to!(self->Array_0 => self->Array_0[i as int]));
                    let c = items[i].copy();
                    out.push(c);
                    i += 1;
                }
                let r = Json::Array(out);
                assert(r@->Array_0 =~= self@->Array_0);
                r
            },
            Json::Object(members) => {
                let mut out: Vec<(String, Json)> = Vec::new();
                let mut i: usize = 0;
                while i < members.len()
                    invariant
                        i <= members.len(),
                        out.len() == i,
                        forall|k: int|
                            0 <= k < i ==> out[k].0@ == members[k].0@ && out[k].1@
                                == members[k].1@,
                        self == Json::Object(*members),
                    decreases members.len() - i,
                {
                    assert(decreases_to!(self => self->Object_0));
                    assert(decreases_to!(self->Object_0 => self->Object_0[i as int]));
                    assert(decreases_to!(self->Object_0[i as int] => self->Object_0[i as int].1));
                    let c = members[i].1.copy();
                    out.push((members[i].0.clone(), c));
                    i += 1;
                }
                let r = Json::Object(out);
                assert(r@->Object_0 =~= self@->Object_0);
                r
            },
        }
    }
}

/// `serde_json::Value`, of which nothing is seen here but what the functions below say.
#[verifier::external_type_specification]
#[verifier::external_body]
pub struct ExValue(serde_json::Value);

/// The document that a value of serde_json's own stands for.
pub uninterp spec fn value_view(v: serde_json::Value) -> JsonView;

/// The document that a JSON text holds, or nothing where the bytes are no JSON text.
pub uninterp spec fn json_parse(bytes: Seq<u8>) -> Option<JsonView>;

/// `serde_json::from_slice` to a `serde_json::Value`: the parsed value, or nothing where
/// serde_json reports an error. What the bytes parse to depends on the bytes alone, and is
/// named `json_parse`.
#[verifier::external_body]
fn parse_value(bytes: &[u8]) -> (r: Option<serde_json::Value>)
    ensures
        r is Some <==> json_parse(bytes@) is Some,
        r matches Some(v) ==> json_parse(bytes@) == Some(value_view(v)),
{
    match serde_json::from_slice::<serde_json::Value>(bytes) {
        Ok(v) => Some(v),
        Err(_) => None,
    }
}

/// Moves a `serde_json::Value` into a document, variant by variant. A number becomes
/// `UInt` where `Number::as_u64` gives it, `Int` where only `Number::as_i64` does, and
/// `Float` with the text that `Number::to_string` writes otherwise. The members of an
/// object come in the order in which serde_json's map hands them out. The document that a
/// value stands for is named `value_view`.
#[verifier::external_body]
fn json_of_value(v: serde_json::Value) -> (r: Json)
    ensures
        r@ == value_view(v),
{
    match v {
        serde_json::Value::Null => Json::Null,
        serde_json::Value::Bool(b) => Json::Bool(b),
        serde_json::Value::Number(n) => match (n.as_u64(), n.as_i64()) {
            (Some(u), _) => Json::UInt(u),
            (None, Some(i)) => Json::Int(i),
            (None, None) => Json::Float(n.to_string()),
        },
        serde_json::Value::String(s) => Json::Str(s),
        serde_json::Value::Array(a) => Json::Array(a.into_iter().map(json_of_value).collect()),
        serde_json::Value::Object(o) => Json::Object(
            o.into_iter().map(|(k, x)| (k, json_of_value(x))).collect()),
    }
}

/// Parses a JSON text.
pub fn parse(bytes: &[u8]) -> (r: Option<Json>)
    ensures
        r.deep_view() == json_parse(bytes@),
{
    match parse_value(bytes) {
        Some(v) => Some(json_of_value(v)),
        None => None,
    }
}

/// The text that serde_json prints for a value of its own.
pub uninterp spec fn value_text(v: serde_json::Value) -> Option<Seq<char>>;

/// The compact JSON text of a document.
pub uninterp spec fn json_text(j: JsonView) -> Option<Seq<char>>;

/// Builds the `serde_json::Value` for a document, variant by variant: integers with
/// `Value::from`, the text of a `Float` read as a `serde_json::Number` with
/// `serde_json::from_str`, the members of an object collected into serde_json's map. There
/// is no value where the text of a `Float` is no JSON number, and then the document has no
/// text. The text that serde_json prints for the value built depends on the document
/// alone, and is named `json_text`.
#[verifier::external_body]
fn value_of_json(j: &Json) -> (r: Option<serde_json::Value>)
    ensures
        match r {
            Some(v) => value_text(v) == json_text(j@),
            None => json_text(j@) is None,
        },
{
    Some(match j {
        Json::Null => Value::Null,
        Json::Bool(b) => Value::Bool(*b),
        Json::UInt(n) => Value::from(*n),
        Json::Int(n) => Value::from(*n),
        Json::Float(s) => Value::Number(serde_json::from_str(s).ok()?),
        Json::Str(s) => Value::String(s.clone()),
        Json::Array(a) => Value::Array(a.iter().map(value_of_json).collect::<Option<_>>()?),
        Json::Object(o) => Value::Object(
            o.iter().map(|(k, x)| Some((k.clone(), value_of_json(x)?))).collect::<Option<_>>()?),
    })
}

/// `serde_json::to_string` on a `serde_json::Value`: its compact text, or nothing where
/// serde_json reports an error. The text is named `value_text`.
#[verifier::external_body]
fn print_value(v: &serde_json::Value) -> (r: Option<String>)
    ensures
        r.deep_view() == value_text(*v),
{
    match serde_json::to_string(v) {
        Ok(s) => Some(s),
        Err(_) => None,
    }
}

/// Prints a document as compact JSON text.
pub fn print(j: &Json) -> (r: Option<String>)
    ensures
        r.deep_view() == json_text(j@),
{
    match value_of_json(j) {
        Some(v) => print_value(&v),
        None => None,
    }
}

} // verus!
