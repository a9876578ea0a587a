//! Decoding typed values from JSON documents and encoding them back.

use vstd::prelude::*;
use vstd::string::*;
use crate::dict::{inserted, lemma_index_of, lookup, Dict};
use crate::json::{Json, JsonView};
use crate::text::owned;

verus! {

/// A type that can be read from a JSON document.
pub trait FromJson: DeepView + Sized {
    /// What a document decodes to; `None` where it does not have this type's shape.
    spec fn decoded(j: JsonView) -> Option<Self::V>;

    fn from_json(j: &Json) -> (r: Option<Self>)
        ensures
            r.deep_view() == Self::decoded(j@),
    ;
}

/// A type that can be written as a JSON document.
pub trait ToJson: DeepView {
    /// The document that stands for a value.
    spec fn encoded(v: Self::V) -> JsonView;

    fn to_json(&self) -> (j: Json)
        ensures
            j@ == Self::encoded(self.deep_view()),
    ;
}

impl FromJson for String {
    open spec fn decoded(j: JsonView) -> Option<Seq<char>> {
        match j {
            JsonView::Str(s) => Some(s),
            _ => None,
        }
    }

    fn from_json(j: &Json) -> (r: Option<String>) {
        match j {
            Json::Str(s) => Some(s.clone()),
            _ => None,
        }
    }
}

impl ToJson for String {
    open spec fn encoded(v: Seq<char>) -> JsonView {
        JsonView::Str(v)
    }

    fn to_json(&self) -> (j: Json) {
        Json::Str(self.clone())
    }
}

impl FromJson for bool {
    open spec fn decoded(j: JsonView) -> Option<bool> {
        match j {
            JsonView::Bool(b) => Some(b),
            _ => None,
        }
    }

    fn from_json(j: &Json) -> (r: Option<bool>) {
        match j {
            Json::Bool(b) => Some(*b),
            _ => None,
        }
    }
}

impl ToJson for bool {
    open spec fn encoded(v: bool) -> JsonView {
        JsonView::Bool(v)
    }

    fn to_json(&self) -> (j: Json) {
        Json::Bool(*self)
    }
}

impl FromJson for u64 {
    open spec fn decoded(j: JsonView) -> Option<u64> {
        match j {
            JsonView::UInt(n) => Some(n),
            _ => None,
        }
    }

    fn from_json(j: &Json) -> (r: Option<u64>) {
        match j {
            Json::UInt(n) => Some(*n),
            _ => None,
        }
    }
}

impl ToJson for u64 {
    open spec fn encoded(v: u64) -> JsonView {
        JsonView::UInt(v)
    }

    fn to_json(&self) -> (j: Json) {
        Json::UInt(*self)
    }
}

impl FromJson for u32 {
    open spec fn decoded(j: JsonView) -> Option<u32> {
        match j {
            JsonView::UInt(n) if n <= u32::MAX => Some(n as u32),
            _ => None,
        }
    }

    fn from_json(j: &Json) -> (r: Option<u32>) {
        match j {
            Json::UInt(n) => if *n <= u32::MAX as u64 {
                Some(*n as u32)
            } else {
                None
            },
            _ => None,
        }
    }
}

impl ToJson for u32 {
    open spec fn encoded(v: u32) -> JsonView {
        JsonView::UInt(v as u64)
    }

    fn to_json(&self) -> (j: Json) {
        Json::UInt(*self as u64)
    }
}

impl FromJson for i32 {
    open spec fn decoded(j: JsonView) -> Option<i32> {
        match j {
            JsonView::UInt(n) if n <= i32::MAX => Some(n as i32),
            JsonView::Int(n) if i32::MIN <= n <= i32::MAX => Some(n as i32),
            _ => None,
        }
    }

    fn from_json(j: &Json) -> (r: Option<i32>) {
        match j {
            Json::UInt(n) => if *n <= i32::MAX as u64 {
                Some(*n as i32)
            } else {
                None
            },
            Json::Int(n) => if i32::MIN as i64 <= *n && *n <= i32::MAX as i64 {
                Some(*n as i32)
            } else {
                None
            },
            _ => None,
        }
    }
}

impl ToJson for i32 {
    open spec fn encoded(v: i32) -> JsonView {
        if v >= 0 {
            JsonView::UInt(v as u64)
        } else {
            JsonView::Int(v as i64)
        }
    }

    fn to_json(&self) -> (j: Json) {
        if *self >= 0 {
            Json::UInt(*self as u64)
        } else {
            Json::Int(*self as i64)
        }
    }
}

impl FromJson for Json {
    open spec fn decoded(j: JsonView) -> Option<JsonView> {
        Some(j)
    }

    fn from_json(j: &Json) -> (r: Option<Json>) {
        Some(j.copy())
    }
}

impl ToJson for Json {
    open spec fn encoded(v: JsonView) -> JsonView {
        v
    }

    fn to_json(&self) -> (j: Json) {
        self.copy()
    }
}

/// The items of an array, each decoded; `None` where one of them does not decode.
pub open spec fn decoded_items<T: FromJson>(items: Seq<JsonView>) -> Option<Seq<T::V>> {
    if forall|i: int| 0 <= i < items.len() ==> (#[trigger] T::decoded(items[i])) is Some {
        Some(Seq::new(items.len(), |i: int| T::decoded(items[i])->0))
    } else {
        None
    }
}

impl<T: FromJson> FromJson for Vec<T> {
    open spec fn decoded(j: JsonView) -> Option<Seq<T::V>> {
        match j {
            JsonView::Array(items) => decoded_items::<T>(items),
            _ => None,
        }
    }

    fn from_json(j: &Json) -> (r: Option<Vec<T>>) {
        match j {
            Json::Array(items) => {
                proof {
                    j.lemma_array_view();
                }
                let ghost all = j@->Array_0;
                let mut out: Vec<T> = Vec::new();
                let mut i: usize = 0;
                while i < items.len()
                    invariant
                        i <= items.len(),
                        out.len() == i,
                        all.len() == items.len(),
                        j@ == JsonView::Array(all),
                        forall|k: int| 0 <= k < items.len() ==> #[trigger] all[k] == items[k]@,
                        forall|k: int|
                            0 <= k < i ==> (#[trigger] T::decoded(all[k])) == Some(
                                out[k].deep_view(),
                            ),
                    decreases items.len() - i,
                {
                    match T::from_json(&items[i]) {
                        Some(x) => {
                            out.push(x);
                        },
                        None => {
                            assert(T::decoded(all[i as int]) is None);
                            return None;
                        },
                    }
                    i += 1;
                }
                assert(out.deep_view() =~= decoded_items::<T>(all)->0);
                Some(out)
            },
            _ => None,
        }
    }
}

impl<T: ToJson> ToJson for Vec<T> {
    open spec fn encoded(v: Seq<T::V>) -> JsonView {
        JsonView::Array(Seq::new(v.len(), |i: int| T::encoded(v[i])))
    }

    fn to_json(&self) -> (j: Json) {
        let mut out: Vec<Json> = Vec::new();
        let mut i: usize = 0;
        while i < self.len()
            invariant
                i <= self.len(),
                out.len() == i,
                forall|k: int| 0 <= k < i ==> (#[trigger] out[k])@ == T::encoded(self[k].deep_view()),
            decreases self.len() - i,
        {
            out.push(self[i].to_json());
            i += 1;
        }
        let j = Json::Array(out);
        proof {
            j.lemma_array_view();
            assert(j@->Array_0 =~= Self::encoded(self.deep_view())->Array_0);
        }
        j
    }
}

/// The members of an object, each value decoded, gathered into a mapping in their order;
/// `None` where one of the values does not decode.
pub open spec fn decoded_members<T: FromJson>(members: Seq<(Seq<char>, JsonView)>) -> Option<
    Seq<(Seq<char>, T::V)>,
>
    decreases members.len(),
{
    if members.len() == 0 {
        Some(Seq::empty())
    } else {
        match (decoded_members::<T>(members.drop_last()), T::decoded(members.last().1)) {
            (Some(before), Some(value)) => Some(inserted(before, members.last().0, value)),
            _ => None,
        }
    }
}

impl<T: FromJson> FromJson for Dict<T> {
    open spec fn decoded(j: JsonView) -> Option<Seq<(Seq<char>, T::V)>> {
        match j {
            JsonView::Object(members) => decoded_members::<T>(members),
            _ => None,
        }
    }

    fn from_json(j: &Json) -> (r: Option<Dict<T>>) {
        match j {
            Json::Object(members) => {
                proof {
                    j.lemma_object_view();
                }
                let ghost all = j@->Object_0;
                let mut out: Dict<T> = Dict::new();
                let mut i: usize = 0;
                assert(all.take(0) =~= Seq::empty());
                while i < members.len()
                    invariant
                        i <= members.len(),
                        all.len() == members.len(),
                        forall|k: int|
                            0 <= k < members.len() ==> #[trigger] all[k] == (
                                members[k].0@,
                                members[k].1@,
                            ),
                        j@ == JsonView::Object(all),
                        decoded_members::<T>(all.take(i as int)) == Some(out.deep_view()),
                    decreases members.len() - i,
                {
                    assert(all.take(i + 1).drop_last() =~= all.take(i as int));
                    assert(all.take(i + 1).last() == all[i as int]);
                    match T::from_json(&members[i].1) {
                        Some(x) => {
                            out.insert(members[i].0.clone(), x);
                        },
                        None => {
                            proof {
                                lemma_decoded_members_prefix::<T>(all, i + 1);
                            }
                            return None;
                        },
                    }
                    i += 1;
                }
                assert(all.take(i as int) =~= all);
                Some(out)
            },
            _ => None,
        }
    }
}

/// Where the members of an object decode, so does every prefix of them.
pub proof fn lemma_decoded_members_prefix<T: FromJson>(
    members: Seq<(Seq<char>, JsonView)>,
    n: int,
)
    requires
        0 <= n <= members.len(),
        decoded_members::<T>(members.take(n)) is None,
    ensures
        decoded_members::<T>(members) is None,
    decreases members.len(),
{
    if n < members.len() {
        assert(members.drop_last().take(n) =~= members.take(n));
        lemma_decoded_members_prefix::<T>(members.drop_last(), n);
    } else {
        assert(members.take(n) =~= members);
    }
}

impl<T: ToJson> ToJson for Dict<T> {
    open spec fn encoded(v: Seq<(Seq<char>, T::V)>) -> JsonView {
        JsonView::Object(Seq::new(v.len(), |i: int| (v[i].0, T::encoded(v[i].1))))
    }

    fn to_json(&self) -> (j: Json) {
        let mut out: Vec<(String, Json)> = Vec::new();
        let mut i: usize = 0;
        while i < self.len()
            invariant
                i <= self.deep_view().len(),
                out.len() == i,
                forall|k: int|
                    0 <= k < i ==> (#[trigger] out[k]).0@ == self.deep_view()[k].0 && out[k].1@
                        == T::encoded(self.deep_view()[k].1),
            decreases self.deep_view().len() - i,
        {
            let v = self.value_at(i).to_json();
            out.push((self.key_at(i).clone(), v));
            i += 1;
        }
        let j = Json::Object(out);
        proof {
            j.lemma_object_view();
            assert(j@->Object_0 =~= Self::encoded(self.deep_view())->Object_0);
        }
        j
    }
}

/// The member `key`, which must be there and decode.
pub open spec fn required_spec<T: FromJson>(j: JsonView, key: Seq<char>) -> Option<T::V> {
    match j.field(key) {
        Some(v) => T::decoded(v),
        None => None,
    }
}

/// The member `key`, which may be missing or `null`, and must decode where it is neither.
pub open spec fn optional_spec<T: FromJson>(j: JsonView, key: Seq<char>) -> Option<
    Option<T::V>,
> {
    match j.member(key) {
        None => Some(None),
        Some(v) => match T::decoded(v) {
            Some(x) => Some(Some(x)),
            None => None,
        },
    }
}

/// The member `key`, which may be missing, where `default` takes its place, and must
/// decode where it is there.
pub open spec fn defaulted_spec<T: FromJson>(j: JsonView, key: Seq<char>, default: T::V) -> Option<
    T::V,
> {
    match j.field(key) {
        None => Some(default),
        Some(v) => T::decoded(v),
    }
}

/// Reads the member `key`, which must be there.
pub fn required<T: FromJson>(j: &Json, key: &str) -> (r: Option<T>)
    ensures
        r.deep_view() == required_spec::<T>(j@, key@),
{
    match j.get(key) {
        Some(v) => T::from_json(v),
        None => None,
    }
}

/// Reads the member `key`, which may be missing or `null`. The outer `None` says that the
/// member is there and does not decode.
pub fn optional<T: FromJson>(j: &Json, key: &str) -> (r: Option<Option<T>>)
    ensures
        r.deep_view() == optional_spec::<T>(j@, key@),
{
    match j.get_member(key) {
        None => Some(None),
        Some(v) => match T::from_json(v) {
            Some(x) => Some(Some(x)),
            None => None,
        },
    }
}

/// Reads the member `key`, with `default` in its place where it is missing.
pub fn defaulted<T: FromJson>(j: &Json, key: &str, default: T) -> (r: Option<T>)
    ensures
        r.deep_view() == defaulted_spec::<T>(j@, key@, default.deep_view()),
{
    match j.get(key) {
        None => Some(default),
        Some(v) => T::from_json(v),
    }
}

/// An empty list.
pub fn empty_list<T: DeepView>() -> (r: Vec<T>)
    ensures
        r.deep_view() == Seq::<T::V>::empty(),
{
    let r: Vec<T> = Vec::new();
    assert(r.deep_view() =~= Seq::<T::V>::empty());
    r
}

/// Collects the members of an object that is being written.
pub struct ObjectWriter {
    members: Vec<(String, Json)>,
}

impl ObjectWriter {
    /// The members written so far.
    pub closed spec fn members(&self) -> Seq<(Seq<char>, JsonView)> {
        self.members.deep_view()
    }

    pub fn new() -> (r: ObjectWriter)
        ensures
            r.members() == Seq::<(Seq<char>, JsonView)>::empty(),
    {
        let r = ObjectWriter { members: Vec::new() };
        assert(r.members.deep_view() =~= Seq::<(Seq<char>, JsonView)>::empty());
        r
    }

    /// Adds the member `key` with the document `value`.
    pub fn put_json(&mut self, key: &str, value: Json)
        ensures
            final(self).members() == old(self).members().push((key@, value@)),
    {
        let ghost before = self.members.deep_view();
        self.members.push((owned(key), value));
        assert(self.members.deep_view() =~= before.push((key@, value@)));
    }

    /// Adds the member `key` with the encoding of `value`.
    pub fn put<T: ToJson>(&mut self, key: &str, value: &T)
        ensures
            final(self).members() == old(self).members().push(
                (key@, T::encoded(value.deep_view())),
            ),
    {
        self.put_json(key, value.to_json());
    }

    /// Adds the member `key` where there is a value, and nothing where there is none.
    pub fn put_opt<T: ToJson>(&mut self, key: &str, value: &Option<T>)
        ensures
            final(self).members() == with_opt::<T>(old(self).members(), key@, value.deep_view()),
    {
        match value {
            Some(x) => self.put(key, x),
            None => {},
        }
    }

    /// The object with the members written.
    pub fn finish(self) -> (j: Json)
        ensures
            j@ == JsonView::Object(self.members()),
    {
        let j = Json::Object(self.members);
        proof {
            j.lemma_object_view();
            assert(j@->Object_0 =~= self.members());
        }
        j
    }
}

/// `members` with `key` added where `value` is there.
pub open spec fn with_opt<T: ToJson>(
    members: Seq<(Seq<char>, JsonView)>,
    key: Seq<char>,
    value: Option<T::V>,
) -> Seq<(Seq<char>, JsonView)> {
    match value {
        Some(x) => members.push((key, T::encoded(x))),
        None => members,
    }
}

/// Looking up a key among members of which the last was just added: the added value
/// where the keys agree, and what was there before where they do not.
pub proof fn lemma_lookup_push(
    members: Seq<(Seq<char>, JsonView)>,
    key: Seq<char>,
    value: JsonView,
    wanted: Seq<char>,
)
    ensures
        lookup(members.push((key, value)), wanted) == if key == wanted {
            Some(value)
        } else {
            lookup(members, wanted)
        },
{
    assert(members.push((key, value)).drop_last() =~= members);
    lemma_index_of(members, wanted);
}

/// Looking up a key among members to which a member was added where it had a value.
pub proof fn lemma_lookup_with_opt<T: ToJson>(
    members: Seq<(Seq<char>, JsonView)>,
    key: Seq<char>,
    value: Option<T::V>,
    wanted: Seq<char>,
)
    ensures
        lookup(with_opt::<T>(members, key, value), wanted) == if value is Some && key == wanted {
            Some(T::encoded(value->0))
        } else {
            lookup(members, wanted)
        },
{
    if value is Some {
        lemma_lookup_push(members, key, T::encoded(value->0), wanted);
    }
}

/// No key is found among no members.
pub proof fn lemma_lookup_empty(wanted: Seq<char>)
    ensures
        lookup(Seq::<(Seq<char>, JsonView)>::empty(), wanted) is None,
{
}

} // verus!
