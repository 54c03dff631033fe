//! The woven methods of an `impl` block with their attribute lists, in the order of weaving.

use crate::shared::values;
use indexmap::IndexMap;
use std::rc::Rc;
use vstd::prelude::*;

verus! {

/// The insertion-ordered map of the `indexmap` crate.
#[verifier::external_type_specification]
#[verifier::external_body]
#[verifier::reject_recursive_types(K)]
#[verifier::reject_recursive_types(V)]
#[verifier::reject_recursive_types(S)]
pub struct ExIndexMap<K, V, S>(IndexMap<K, V, S>);

/// The key-value pairs of an `IndexMap`, in the map's order.
pub uninterp spec fn index_entries(map: IndexMap<String, usize>) -> Seq<(Seq<char>, usize)>;

/// The first position at which `key` stands in `entries`, if it stands there at all.
pub open spec fn key_position<V>(entries: Seq<(Seq<char>, V)>, key: Seq<char>) -> Option<int>
    decreases entries.len(),
{
    if entries.len() == 0 {
        None
    } else if entries[0].0 == key {
        Some(0)
    } else {
        match key_position(entries.skip(1), key) {
            Some(p) => Some(p + 1),
            None => None,
        }
    }
}

/// The entries after `value` has been recorded under `key`: a key that is already there keeps
/// its place and gets the new value, a new key goes to the end.
pub open spec fn record<V>(entries: Seq<(Seq<char>, V)>, key: Seq<char>, value: V) -> Seq<
    (Seq<char>, V),
> {
    match key_position(entries, key) {
        Some(p) => entries.update(p, (key, value)),
        None => entries.push((key, value)),
    }
}

/// No key stands twice in `entries`.
pub open spec fn distinct_keys<V>(entries: Seq<(Seq<char>, V)>) -> bool {
    forall|p: int, q: int|
        0 <= p < q < entries.len() ==> (#[trigger] entries[p]).0 != (#[trigger] entries[q]).0
}

/// `IndexMap::new`: the new map holds nothing.
#[verifier::external_body]
fn index_new() -> (map: IndexMap<String, usize>)
    ensures
        index_entries(map) == Seq::<(Seq<char>, usize)>::empty(),
{
    IndexMap::new()
}

/// `IndexMap::insert`: an equal key that is already in the map keeps its place and gets the
/// new value; otherwise the pair goes in, last in order.
#[verifier::external_body]
fn index_insert(map: &mut IndexMap<String, usize>, key: String, value: usize)
    ensures
        index_entries(*final(map)) == record(index_entries(*old(map)), key@, value),
{
    map.insert(key, value);
}

/// `IndexMap::get`: the value stored under an equal key, `None` if there is no such key.
#[verifier::external_body]
fn index_get(map: &IndexMap<String, usize>, key: &str) -> (value: Option<usize>)
    ensures
        match value {
            Some(v) => exists|p: int|
                0 <= p < index_entries(*map).len() && #[trigger] index_entries(*map)[p] == (
                    key@,
                    v,
                ),
            None => key_position(index_entries(*map), key@) is None,
        },
{
    map.get(key).copied()
}

/// `IndexMap::len`: the number of pairs in the map.
#[verifier::external_body]
fn index_len(map: &IndexMap<String, usize>) -> (len: usize)
    ensures
        len == index_entries(*map).len(),
{
    map.len()
}

/// `IndexMap::get_index`: the pair at a position of the map's order, `None` past the end.
#[verifier::external_body]
fn index_get_index(map: &IndexMap<String, usize>, position: usize) -> (pair: Option<
    (&String, usize),
>)
    ensures
        match pair {
            Some((key, value)) => position < index_entries(*map).len() && index_entries(
                *map,
            )[position as int] == (key@, value),
            None => position >= index_entries(*map).len(),
        },
{
    map.get_index(position).map(|(key, value)| (key, *value))
}

/// A key that stands at a position has a first position, and none before it holds the key.
pub proof fn key_position_finds<V>(entries: Seq<(Seq<char>, V)>, key: Seq<char>)
    ensures
        match key_position(entries, key) {
            Some(p) => 0 <= p < entries.len() && entries[p].0 == key && forall|q: int|
                0 <= q < p ==> (#[trigger] entries[q]).0 != key,
            None => forall|q: int| 0 <= q < entries.len() ==> (#[trigger] entries[q]).0 != key,
        },
    decreases entries.len(),
{
    if entries.len() != 0 && entries[0].0 != key {
        let rest = entries.skip(1);
        key_position_finds(rest, key);
        match key_position(rest, key) {
            Some(p) => {
                assert forall|q: int| 0 <= q < p + 1 implies (#[trigger] entries[q]).0 != key by {
                    if q > 0 {
                        assert(rest[q - 1] == entries[q]);
                    }
                }
            },
            None => {
                assert forall|q: int| 0 <= q < entries.len() implies (#[trigger] entries[q]).0
                    != key by {
                    if q > 0 {
                        assert(rest[q - 1] == entries[q]);
                    }
                }
            },
        }
    }
}

/// Recording keeps the keys distinct.
pub proof fn record_keeps_distinct<V>(entries: Seq<(Seq<char>, V)>, key: Seq<char>, value: V)
    requires
        distinct_keys(entries),
    ensures
        distinct_keys(record(entries, key, value)),
{
    key_position_finds(entries, key);
    let after = record(entries, key, value);
    assert forall|p: int, q: int| 0 <= p < q < after.len() implies (#[trigger] after[p]).0 != (
        #[trigger] after[q]).0 by {
        match key_position(entries, key) {
            Some(at) => {
                assert(entries[p].0 != entries[q].0);
            },
            None => {
                if q < entries.len() {
                    assert(entries[p].0 != entries[q].0);
                }
            },
        }
    }
}

/// The position of a key depends on the keys alone.
pub proof fn key_position_by_keys<V, U>(
    left: Seq<(Seq<char>, V)>,
    right: Seq<(Seq<char>, U)>,
    key: Seq<char>,
)
    requires
        left.len() == right.len(),
        forall|p: int| 0 <= p < left.len() ==> (#[trigger] left[p]).0 == (#[trigger] right[p]).0,
    ensures
        key_position(left, key) == key_position(right, key),
    decreases left.len(),
{
    if left.len() != 0 {
        assert(left[0].0 == right[0].0);
        if left[0].0 != key {
            let l = left.skip(1);
            let r = right.skip(1);
            assert forall|p: int| 0 <= p < l.len() implies (#[trigger] l[p]).0 == (
                #[trigger] r[p]).0 by {
                assert(left[p + 1].0 == right[p + 1].0);
            }
            key_position_by_keys(l, r, key);
        }
    }
}

/// The woven methods of an `impl` block: each name with the attribute list that its
/// method was woven with, in the order in which the methods were first woven.
pub struct WovenFns<F> {
    /// Method name to position in `lists`.
    index: IndexMap<String, usize>,
    lists: Vec<Vec<Rc<F>>>,
}

impl<F> WovenFns<F> {
    /// Every name stands once and points at one of the lists.
    pub closed spec fn wf(self) -> bool {
        &&& distinct_keys(index_entries(self.index))
        &&& forall|p: int|
            0 <= p < index_entries(self.index).len() ==> (#[trigger] index_entries(
                self.index,
            )[p]).1 < self.lists@.len()
    }

    /// The names and their attribute lists, in order.
    pub closed spec fn entries(self) -> Seq<(Seq<char>, Seq<F>)> {
        Seq::new(
            index_entries(self.index).len(),
            |p: int|
                (
                    index_entries(self.index)[p].0,
                    values(self.lists@[index_entries(self.index)[p].1 as int]@),
                ),
        )
    }

    /// A mapping without entries.
    pub fn new() -> (woven: Self)
        ensures
            woven.wf(),
            woven.entries() == Seq::<(Seq<char>, Seq<F>)>::empty(),
    {
        WovenFns { index: index_new(), lists: Vec::new() }
    }

    /// Records `list` under `name`: a name that is already there keeps its place, a new one
    /// goes to the end.
    pub fn insert(&mut self, name: String, list: Vec<Rc<F>>)
        requires
            old(self).wf(),
        ensures
            final(self).wf(),
            final(self).entries() == record(old(self).entries(), name@, values(list@)),
    {
        let ghost before = index_entries(self.index);
        let ghost old_entries = self.entries();
        let position = self.lists.len();
        self.lists.push(list);
        proof {
            record_keeps_distinct(before, name@, position);
            key_position_finds(before, name@);
        }
        index_insert(&mut self.index, name, position);
        proof {
            key_position_by_keys(before, old_entries, name@);
            assert(self.entries() =~= record(old_entries, name@, values(list@)));
        }
    }

    /// The number of woven methods.
    pub fn len(&self) -> (len: usize)
        ensures
            len == self.entries().len(),
    {
        index_len(&self.index)
    }

    /// The attribute list recorded under `name`.
    pub fn get(&self, name: &str) -> (list: Option<&Vec<Rc<F>>>)
        requires
            self.wf(),
        ensures
            match (list, key_position(self.entries(), name@)) {
                (Some(l), Some(p)) => values(l@) == self.entries()[p].1,
                (None, None) => true,
                _ => false,
            },
    {
        proof {
            key_position_by_keys(index_entries(self.index), self.entries(), name@);
            key_position_finds(index_entries(self.index), name@);
        }
        match index_get(&self.index, name) {
            Some(position) => Some(&self.lists[position]),
            None => None,
        }
    }

    /// The name and the attribute list at a position of the order.
    pub fn get_index(&self, position: usize) -> (entry: Option<(&String, &Vec<Rc<F>>)>)
        requires
            self.wf(),
        ensures
            match entry {
                Some((name, list)) => position < self.entries().len()
                    && self.entries()[position as int] == (name@, values(list@)),
                None => position >= self.entries().len(),
            },
    {
        match index_get_index(&self.index, position) {
            Some((name, at)) => Some((name, &self.lists[at])),
            None => None,
        }
    }
}

} // verus!
