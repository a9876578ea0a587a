//! String-keyed mappings that keep the order in which their keys arrived.

use vstd::prelude::*;
use vstd::string::*;
use crate::text::str_eq;

verus! {

/// The position of `key` among `pairs`: that of its last occurrence.
pub open spec fn index_of<V>(pairs: Seq<(Seq<char>, V)>, key: Seq<char>) -> Option<int>
    decreases pairs.len(),
{
    if pairs.len() == 0 {
        None
    } else if pairs.last().0 == key {
        Some(pairs.len() - 1)
    } else {
        index_of(pairs.drop_last(), key)
    }
}

/// The value stored under `key`. Where a key occurs more than once, the last occurrence
/// counts.
pub open spec fn lookup<V>(pairs: Seq<(Seq<char>, V)>, key: Seq<char>) -> Option<V> {
    match index_of(pairs, key) {
        Some(i) => Some(pairs[i].1),
        None => None,
    }
}

/// `pairs` after `key` was set to `value`: the value is replaced where the key is present,
/// and the pair is added at the end where it is not.
pub open spec fn inserted<V>(pairs: Seq<(Seq<char>, V)>, key: Seq<char>, value: V) -> Seq<
    (Seq<char>, V),
> {
    match index_of(pairs, key) {
        Some(i) => pairs.update(i, (key, value)),
        None => pairs.push((key, value)),
    }
}

/// No key occurs twice.
pub open spec fn keys_distinct<V>(pairs: Seq<(Seq<char>, V)>) -> bool {
    forall|i: int, j: int| 0 <= i < j < pairs.len() ==> pairs[i].0 != pairs[j].0
}

/// What `index_of` finds is a position that holds the key, and it finds one whenever the
/// key is present.
pub proof fn lemma_index_of<V>(pairs: Seq<(Seq<char>, V)>, key: Seq<char>)
    ensures
        index_of(pairs, key) matches Some(i) ==> 0 <= i < pairs.len() && pairs[i].0 == key,
        index_of(pairs, key) is None ==> forall|i: int|
            0 <= i < pairs.len() ==> pairs[i].0 != key,
    decreases pairs.len(),
{
    if pairs.len() > 0 && pairs.last().0 != key {
        lemma_index_of(pairs.drop_last(), key);
        assert forall|i: int| 0 <= i < pairs.len() && index_of(pairs, key) is None implies pairs[i].0
            != key by {
            if i < pairs.len() - 1 {
                assert(pairs.drop_last()[i] == pairs[i]);
            }
        }
    }
}

/// Among distinct keys, the position of a key is the one position that holds it.
pub proof fn lemma_index_of_distinct<V>(pairs: Seq<(Seq<char>, V)>, key: Seq<char>, i: int)
    requires
        keys_distinct(pairs),
        0 <= i < pairs.len(),
        pairs[i].0 == key,
    ensures
        index_of(pairs, key) == Some(i),
{
    lemma_index_of(pairs, key);
}

/// Setting a key keeps the keys distinct.
pub proof fn lemma_inserted_distinct<V>(pairs: Seq<(Seq<char>, V)>, key: Seq<char>, value: V)
    requires
        keys_distinct(pairs),
    ensures
        keys_distinct(inserted(pairs, key, value)),
{
    lemma_index_of(pairs, key);
}

/// After a key was set, looking it up gives the value it was set to.
pub proof fn lemma_lookup_inserted_same<V>(pairs: Seq<(Seq<char>, V)>, key: Seq<char>, value: V)
    requires
        keys_distinct(pairs),
    ensures
        lookup(inserted(pairs, key, value), key) == Some(value),
{
    lemma_index_of(pairs, key);
    lemma_inserted_distinct(pairs, key, value);
    let after = inserted(pairs, key, value);
    match index_of(pairs, key) {
        Some(i) => {
            lemma_index_of_distinct(after, key, i);
        },
        None => {
            lemma_index_of_distinct(after, key, pairs.len() as int);
        },
    }
}

/// Setting a key leaves what is stored under every other key as it was.
pub proof fn lemma_lookup_inserted_other<V>(
    pairs: Seq<(Seq<char>, V)>,
    key: Seq<char>,
    value: V,
    other: Seq<char>,
)
    requires
        keys_distinct(pairs),
        other != key,
    ensures
        lookup(inserted(pairs, key, value), other) == lookup(pairs, other),
{
    lemma_index_of(pairs, key);
    lemma_index_of(pairs, other);
    lemma_inserted_distinct(pairs, key, value);
    let after = inserted(pairs, key, value);
    lemma_index_of(after, other);
    match index_of(pairs, other) {
        Some(i) => {
            lemma_index_of_distinct(after, other, i);
        },
        None => {
            if let Some(k) = index_of(after, other) {
                if k < pairs.len() {
                    assert(pairs[k].0 == other);
                }
            }
        },
    }
}

/// A mapping from strings to values of `T`, in the order in which the keys were first set.
#[derive(Debug, PartialEq)]
pub struct Dict<T> {
    entries: Vec<(String, T)>,
}

impl<T> Dict<T> {
    #[verifier::type_invariant]
    spec fn keys_differ(&self) -> bool {
        forall|i: int, j: int|
            0 <= i < j < self.entries.len() ==> self.entries[i].0@ != self.entries[j].0@
    }
}

impl<T: DeepView> DeepView for Dict<T> {
    type V = Seq<(Seq<char>, T::V)>;

    closed spec fn deep_view(&self) -> Seq<(Seq<char>, T::V)> {
        self.entries.deep_view()
    }
}

impl<T: DeepView> Dict<T> {
    /// The empty mapping.
    pub fn new() -> (r: Dict<T>)
        ensures
            r.deep_view() == Seq::<(Seq<char>, T::V)>::empty(),
    {
        let r = Dict { entries: Vec::new() };
        assert(r.entries.deep_view() =~= Seq::<(Seq<char>, T::V)>::empty());
        r
    }

    /// Does nothing; tells the caller that the keys of this mapping are distinct.
    pub fn keys_are_distinct(&self)
        ensures
            keys_distinct(self.deep_view()),
    {
        proof {
            use_type_invariant(self);
            let pairs = self.deep_view();
            assert forall|i: int, j: int| 0 <= i < j < pairs.len() implies pairs[i].0 != pairs[j].0 by {
                assert(pairs[i].0 == self.entries[i].0@);
                assert(pairs[j].0 == self.entries[j].0@);
            }
        }
    }

    /// The number of keys.
    pub fn len(&self) -> (r: usize)
        ensures
            r == self.deep_view().len(),
    {
        self.entries.len()
    }

    /// The key at position `i`.
    pub fn key_at(&self, i: usize) -> (r: &String)
        requires
            i < self.deep_view().len(),
        ensures
            r@ == self.deep_view()[i as int].0,
    {
        &self.entries[i].0
    }

    /// The value at position `i`.
    pub fn value_at(&self, i: usize) -> (r: &T)
        requires
            i < self.deep_view().len(),
        ensures
            r.deep_view() == self.deep_view()[i as int].1,
    {
        &self.entries[i].1
    }

    fn position(&self, key: &str) -> (r: Option<usize>)
        ensures
            match r {
                Some(i) => index_of(self.deep_view(), key@) == Some(i as int) && i
                    < self.entries.len(),
                None => index_of(self.deep_view(), key@) is None,
            },
    {
        let ghost pairs = self.deep_view();
        proof {
            use_type_invariant(self);
            lemma_index_of(pairs, key@);
            assert forall|i: int, j: int| 0 <= i < j < pairs.len() implies pairs[i].0 != pairs[j].0 by {
                assert(pairs[i].0 == self.entries[i].0@);
                assert(pairs[j].0 == self.entries[j].0@);
            }
        }
        let mut i: usize = 0;
        while i < self.entries.len()
            invariant
                i <= self.entries.len(),
                pairs == self.entries.deep_view(),
                keys_distinct(pairs),
                forall|k: int| 0 <= k < i ==> pairs[k].0 != key@,
            decreases self.entries.len() - i,
        {
            if str_eq(self.entries[i].0.as_str(), key) {
                proof {
                    assert(pairs[i as int].0 == key@);
                    lemma_index_of_distinct(pairs, key@, i as int);
                }
                return Some(i);
            }
            i += 1;
        }
        None
    }

    /// The value stored under `key`.
    pub fn get(&self, key: &str) -> (r: Option<&T>)
        ensures
            r.deep_view() == lookup(self.deep_view(), key@),
    {
        match self.position(key) {
            Some(i) => Some(&self.entries[i].1),
            None => None,
        }
    }

    /// Sets `key` to `value`.
    pub fn insert(&mut self, key: String, value: T)
        ensures
            final(self).deep_view() == inserted(
                old(self).deep_view(),
                key@,
                value.deep_view(),
            ),
    {
        proof {
            use_type_invariant(&*self);
        }
        let ghost before = self.deep_view();
        let found = self.position(key.as_str());
        let mut entries: Vec<(String, T)> = Vec::new();
        core::mem::swap(&mut self.entries, &mut entries);
        match found {
            Some(i) => {
                entries.set(i, (key, value));
                assert(entries.deep_view() =~= before.update(i as int, (key@, value.deep_view())));
            },
            None => {
                proof {
                    lemma_index_of(before, key@);
                }
                entries.push((key, value));
                assert(entries.deep_view() =~= before.push((key@, value.deep_view())));
            },
        }
        proof {
            lemma_inserted_distinct(before, key@, value.deep_view());
            let after = entries.deep_view();
            assert forall|i: int, j: int| 0 <= i < j < entries.len() implies entries[i].0@
                != entries[j].0@ by {
                assert(after[i].0 == entries[i].0@);
                assert(after[j].0 == entries[j].0@);
            }
        }
        core::mem::swap(&mut self.entries, &mut entries);
    }
}

} // verus!
