//! A map from text to values that keeps its keys in ascending order.

use crate::text::to_chars;
use vstd::prelude::*;

verus! {

/// Whether `a` comes before `b`: at the first place where they differ, `a` has
/// the smaller character or has ended.
pub open spec fn precedes(a: Seq<char>, b: Seq<char>) -> bool
    decreases a.len(),
{
    if b.len() == 0 {
        false
    } else if a.len() == 0 {
        true
    } else if a[0] != b[0] {
        a[0] < b[0]
    } else {
        precedes(a.drop_first(), b.drop_first())
    }
}

/// Nothing precedes itself.
pub proof fn precedes_is_irreflexive(a: Seq<char>)
    ensures
        !precedes(a, a),
    decreases a.len(),
{
    if a.len() > 0 {
        precedes_is_irreflexive(a.drop_first());
    }
}

/// The order of text is transitive.
pub proof fn precedes_is_transitive(a: Seq<char>, b: Seq<char>, c: Seq<char>)
    requires
        precedes(a, b),
        precedes(b, c),
    ensures
        precedes(a, c),
    decreases a.len(),
{
    if a.len() > 0 && a[0] == b[0] && b[0] == c[0] {
        precedes_is_transitive(a.drop_first(), b.drop_first(), c.drop_first());
    }
}

/// Of two different texts one precedes the other.
pub proof fn precedes_is_total(a: Seq<char>, b: Seq<char>)
    ensures
        precedes(a, b) || precedes(b, a) || a == b,
    decreases a.len(),
{
    if a.len() == 0 || b.len() == 0 {
        assert(a.len() == b.len() ==> a =~= b);
    } else if a[0] == b[0] {
        precedes_is_total(a.drop_first(), b.drop_first());
        if a.drop_first() == b.drop_first() {
            assert(a =~= seq![a[0]] + a.drop_first());
            assert(b =~= seq![b[0]] + b.drop_first());
        }
    }
}

/// How one text stands to another.
#[derive(Clone, Copy)]
pub enum TextOrder {
    /// The first precedes the second.
    Before,
    /// Both are the same.
    Same,
    /// The second precedes the first.
    After,
}

/// Compares two character slices from position `from` on, where they agree
/// before it.
fn order_from(a: &[char], b: &[char], from: usize) -> (order: TextOrder)
    requires
        from <= a@.len(),
        from <= b@.len(),
    ensures
        match order {
            TextOrder::Before => precedes(a@.skip(from as int), b@.skip(from as int)),
            TextOrder::Same => a@.skip(from as int) == b@.skip(from as int),
            TextOrder::After => precedes(b@.skip(from as int), a@.skip(from as int)),
        },
    decreases a@.len() - from,
{
    if from == a.len() {
        if from == b.len() {
            assert(a@.skip(from as int) =~= b@.skip(from as int));
            TextOrder::Same
        } else {
            TextOrder::Before
        }
    } else if from == b.len() || b[from] < a[from] {
        TextOrder::After
    } else if a[from] < b[from] {
        TextOrder::Before
    } else {
        assert(a@.skip(from as int).drop_first() =~= a@.skip(from + 1));
        assert(b@.skip(from as int).drop_first() =~= b@.skip(from + 1));
        let order: TextOrder = order_from(a, b, from + 1);
        assert(a@.skip(from as int) =~= seq![a@[from as int]] + a@.skip(from + 1));
        assert(b@.skip(from as int) =~= seq![b@[from as int]] + b@.skip(from + 1));
        order
    }
}

/// Compares two strings.
pub fn order_texts(a: &str, b: &str) -> (order: TextOrder)
    ensures
        match order {
            TextOrder::Before => precedes(a@, b@),
            TextOrder::Same => a@ == b@,
            TextOrder::After => precedes(b@, a@),
        },
{
    let a: Vec<char> = to_chars(a);
    let b: Vec<char> = to_chars(b);
    assert(a@.skip(0) =~= a@);
    assert(b@.skip(0) =~= b@);
    order_from(a.as_slice(), b.as_slice(), 0)
}

/// A map from text to values that keeps its keys in ascending order.
#[derive(Debug, PartialEq, Eq)]
pub struct StringMap<V> {
    entries: Vec<(String, V)>,
}

impl<V> View for StringMap<V> {
    type V = Map<Seq<char>, V>;

    closed spec fn view(&self) -> Map<Seq<char>, V> {
        Map::new(
            |key: Seq<char>| self.keys().contains(key),
            |key: Seq<char>| self.values()[self.keys().index_of(key)],
        )
    }
}

impl<V: Clone> Clone for StringMap<V> {
    fn clone(&self) -> (copy: Self)
        ensures
            copy.keys() == self.keys(),
            copy.values().len() == self.values().len(),
            forall|i: int|
                0 <= i < self.values().len() ==> cloned::<V>(
                    self.values()[i],
                    #[trigger] copy.values()[i],
                ),
    {
        proof {
            use_type_invariant(self);
        }
        let mut entries: Vec<(String, V)> = Vec::new();
        for i in 0..self.entries.len()
            invariant
                entries@.len() == i,
                forall|j: int|
                    0 <= j < i ==> {
                        &&& (#[trigger] entries@[j]).0@ == self.entries@[j].0@
                        &&& cloned::<V>(self.entries@[j].1, entries@[j].1)
                    },
        {
            entries.push((self.entries[i].0.clone(), self.entries[i].1.clone()));
        }
        let copy: Self = StringMap { entries };
        assert(copy.keys() =~= self.keys());
        copy
    }
}

impl<V> Default for StringMap<V> {
    fn default() -> (map: Self)
        ensures
            map@ == Map::<Seq<char>, V>::empty(),
    {
        StringMap::new()
    }
}

impl<V> StringMap<V> {
    /// The keys, in ascending order.
    pub closed spec fn keys(&self) -> Seq<Seq<char>> {
        self.entries@.map_values(|entry: (String, V)| entry.0@)
    }

    /// The values, in the order of their keys.
    pub closed spec fn values(&self) -> Seq<V> {
        self.entries@.map_values(|entry: (String, V)| entry.1)
    }

    /// Whether each key precedes the next ones.
    #[verifier::type_invariant]
    spec fn ordered(&self) -> bool {
        forall|i: int, j: int|
            0 <= i < j < self.entries@.len() ==> precedes(
                (#[trigger] self.entries@[i]).0@,
                (#[trigger] self.entries@[j]).0@,
            )
    }

    /// What the keys and values say of the view.
    proof fn describe(&self)
        requires
            self.ordered(),
        ensures
            self.keys().len() == self.entries@.len(),
            self.values().len() == self.entries@.len(),
            forall|i: int|
                0 <= i < self.entries@.len() ==> {
                    let entry = #[trigger] self.entries@[i];
                    &&& self.keys()[i] == entry.0@
                    &&& self.values()[i] == entry.1
                    &&& self@.contains_key(entry.0@)
                    &&& self@[entry.0@] == entry.1
                },
            forall|key: Seq<char>| #[trigger]
                self@.contains_key(key) ==> exists|i: int|
                    0 <= i < self.entries@.len() && (#[trigger] self.entries@[i]).0@ == key,
    {
        assert forall|i: int| 0 <= i < self.entries@.len() implies {
            let entry = #[trigger] self.entries@[i];
            &&& self.keys()[i] == entry.0@
            &&& self.values()[i] == entry.1
            &&& self@.contains_key(entry.0@)
            &&& self@[entry.0@] == entry.1
        } by {
            let key = self.entries@[i].0@;
            assert(self.keys()[i] == key);
            let j = self.keys().index_of(key);
            assert(self.keys()[j] == key);
            assert(self.entries@[j].0@ == key);
            precedes_is_irreflexive(key);
            assert(i == j);
        }
        assert forall|key: Seq<char>| #[trigger] self@.contains_key(key) implies exists|i: int|
            0 <= i < self.entries@.len() && (#[trigger] self.entries@[i]).0@ == key by {
            let j = self.keys().index_of(key);
            assert(self.keys()[j] == key);
            assert(self.entries@[j].0@ == key);
        }
    }

    /// Two maps with the same keys and values in the same order are the same
    /// map to every caller.
    pub proof fn entries_determine_view(a: &Self, b: &Self)
        requires
            a.keys() == b.keys(),
            a.values() == b.values(),
        ensures
            a@ == b@,
    {
        assert(a@ =~= b@);
    }

    /// Creates an empty map.
    pub fn new() -> (map: Self)
        ensures
            map@ == Map::<Seq<char>, V>::empty(),
    {
        let map: Self = StringMap { entries: Vec::new() };
        assert(map@ =~= Map::<Seq<char>, V>::empty());
        map
    }

    /// The number of keys before `key`, and whether `key` itself is there.
    fn position(&self, key: &str) -> (found: (usize, bool))
        ensures
            found.0 <= self.entries@.len(),
            forall|i: int| 0 <= i < found.0 ==> precedes((#[trigger] self.entries@[i]).0@, key@),
            found.1 ==> found.0 < self.entries@.len() && self.entries@[found.0 as int].0@ == key@,
            !found.1 ==> forall|i: int|
                found.0 <= i < self.entries@.len() ==> precedes(
                    key@,
                    (#[trigger] self.entries@[i]).0@,
                ),
    {
        proof {
            use_type_invariant(self);
        }
        for i in 0..self.entries.len()
            invariant
                forall|j: int| 0 <= j < i ==> precedes((#[trigger] self.entries@[j]).0@, key@),
                self.ordered(),
        {
            match order_texts(self.entries[i].0.as_str(), key) {
                TextOrder::Before => {},
                TextOrder::Same => {
                    return (i, true);
                },
                TextOrder::After => {
                    assert forall|j: int| i <= j < self.entries@.len() implies precedes(
                        key@,
                        (#[trigger] self.entries@[j]).0@,
                    ) by {
                        if j > i {
                            precedes_is_transitive(
                                key@,
                                self.entries@[i as int].0@,
                                self.entries@[j].0@,
                            );
                        }
                    }
                    return (i, false);
                },
            }
        }
        (self.entries.len(), false)
    }

    /// Returns the value of `key`, if it has one.
    pub fn get(&self, key: &str) -> (value: Option<&V>)
        ensures
            match value {
                Some(value) => self@.contains_key(key@) && *value == self@[key@],
                None => !self@.contains_key(key@),
            },
    {
        let (at, there): (usize, bool) = self.position(key);
        proof {
            use_type_invariant(self);
            self.describe();
        }
        if there {
            Some(&self.entries[at].1)
        } else {
            proof {
                precedes_is_irreflexive(key@);
            }
            None
        }
    }

    /// Reports whether `key` has a value.
    pub fn contains_key(&self, key: &str) -> (held: bool)
        ensures
            held == self@.contains_key(key@),
    {
        self.get(key).is_some()
    }

    /// Removes `key` and returns the value it had.
    pub fn remove(&mut self, key: &str) -> (value: Option<V>)
        ensures
            final(self)@ == old(self)@.remove(key@),
            match value {
                Some(value) => old(self)@.contains_key(key@) && value == old(self)@[key@],
                None => !old(self)@.contains_key(key@),
            },
    {
        let (at, there): (usize, bool) = self.position(key);
        proof {
            use_type_invariant(&*self);
            self.describe();
        }
        if !there {
            proof {
                precedes_is_irreflexive(key@);
                assert(!self@.contains_key(key@));
                assert(self@.remove(key@) =~= self@);
            }
            return None;
        }
        let ghost before = *self;
        let mut entries: Vec<(String, V)> = Vec::new();
        core::mem::swap(&mut entries, &mut self.entries);
        let (_, value): (String, V) = entries.remove(at);
        proof {
            let after = StringMap { entries };
            assert(after.entries@ =~= before.entries@.remove(at as int));
            assert(after.ordered());
            after.describe();
            before.describe();
            precedes_is_irreflexive(key@);
            assert(after@ =~= before@.remove(key@)) by {
                assert forall|k: Seq<char>| after@.contains_key(k) <==> before@.remove(
                    key@,
                ).contains_key(k) by {
                    if after@.contains_key(k) {
                        let i = choose|i: int|
                            0 <= i < after.entries@.len() && (#[trigger] after.entries@[i]).0@
                                == k;
                        let j = if i < at {
                            i
                        } else {
                            i + 1
                        };
                        assert(before.entries@[j].0@ == k);
                        assert(k != key@);
                    }
                    if before@.remove(key@).contains_key(k) {
                        let j = choose|j: int|
                            0 <= j < before.entries@.len() && (#[trigger] before.entries@[j]).0@
                                == k;
                        assert(j != at);
                        let i = if j < at {
                            j
                        } else {
                            j - 1
                        };
                        assert(after.entries@[i].0@ == k);
                    }
                }
                assert forall|k: Seq<char>| #[trigger] after@.contains_key(k) implies after@[k]
                    == before@.remove(key@)[k] by {
                    let i = choose|i: int|
                        0 <= i < after.entries@.len() && (#[trigger] after.entries@[i]).0@ == k;
                    let j = if i < at {
                        i
                    } else {
                        i + 1
                    };
                    assert(before.entries@[j] == after.entries@[i]);
                }
            }
        }
        self.entries = entries;
        Some(value)
    }

    /// Gives `key` the value `value`, in place of the one it had.
    pub fn insert(&mut self, key: String, value: V)
        ensures
            final(self)@ == old(self)@.insert(key@, value),
    {
        let ghost given = *self;
        let _: Option<V> = self.remove(key.as_str());
        let (at, there): (usize, bool) = self.position(key.as_str());
        proof {
            use_type_invariant(&*self);
            self.describe();
            if there {
                assert(self@.contains_key(key@));
            }
        }
        let ghost before = *self;
        let ghost entry = (key, value);
        let mut entries: Vec<(String, V)> = Vec::new();
        core::mem::swap(&mut entries, &mut self.entries);
        entries.insert(at, (key, value));
        proof {
            let after = StringMap { entries };
            assert(after.entries@ =~= before.entries@.insert(at as int, entry));
            assert forall|i: int, j: int| 0 <= i < j < after.entries@.len() implies precedes(
                (#[trigger] after.entries@[i]).0@,
                (#[trigger] after.entries@[j]).0@,
            ) by {
                let p = if i < at {
                    i
                } else {
                    i - 1
                };
                let q = if j < at {
                    j
                } else {
                    j - 1
                };
                if i != at {
                    assert(after.entries@[i] == before.entries@[p]);
                }
                if j != at {
                    assert(after.entries@[j] == before.entries@[q]);
                }
            }
            after.describe();
            before.describe();
            assert(after@ =~= before@.insert(key@, value)) by {
                assert forall|k: Seq<char>| after@.contains_key(k) <==> before@.insert(
                    key@,
                    value,
                ).contains_key(k) by {
                    if after@.contains_key(k) {
                        let i = choose|i: int|
                            0 <= i < after.entries@.len() && (#[trigger] after.entries@[i]).0@
                                == k;
                        if i != at {
                            let j = if i < at {
                                i
                            } else {
                                i - 1
                            };
                            assert(before.entries@[j].0@ == k);
                        }
                    }
                    if before@.insert(key@, value).contains_key(k) {
                        if k == key@ {
                            assert(after.entries@[at as int].0@ == k);
                        } else {
                            let j = choose|j: int|
                                0 <= j < before.entries@.len() && (
                                #[trigger] before.entries@[j]).0@ == k;
                            let i = if j < at {
                                j
                            } else {
                                j + 1
                            };
                            assert(after.entries@[i].0@ == k);
                        }
                    }
                }
                assert forall|k: Seq<char>| #[trigger] after@.contains_key(k) implies after@[k]
                    == before@.insert(key@, value)[k] by {
                    let i = choose|i: int|
                        0 <= i < after.entries@.len() && (#[trigger] after.entries@[i]).0@ == k;
                    if i != at {
                        let j = if i < at {
                            i
                        } else {
                            i - 1
                        };
                        assert(before.entries@[j] == after.entries@[i]);
                        precedes_is_irreflexive(key@);
                    }
                }
            }
            assert(before@.insert(key@, value) =~= given@.insert(key@, value));
        }
        self.entries = entries;
    }

    /// Whether entries are those of the map, in ascending order of their keys.
    pub open spec fn lists(map: Map<Seq<char>, V>, entries: Seq<(String, V)>) -> bool {
        &&& forall|i: int, j: int|
            0 <= i < j < entries.len() ==> precedes(
                (#[trigger] entries[i]).0@,
                (#[trigger] entries[j]).0@,
            )
        &&& forall|i: int|
            0 <= i < entries.len() ==> {
                &&& map.contains_key((#[trigger] entries[i]).0@)
                &&& map[entries[i].0@] == entries[i].1
            }
        &&& forall|key: Seq<char>| #[trigger]
            map.contains_key(key) ==> exists|i: int|
                0 <= i < entries.len() && (#[trigger] entries[i]).0@ == key
    }

    /// Returns the entries in ascending order of their keys.
    pub fn into_entries(self) -> (entries: Vec<(String, V)>)
        ensures
            Self::lists(self@, entries@),
    {
        proof {
            use_type_invariant(&self);
            self.describe();
        }
        self.entries
    }
}

/// Texts are ordered by the first character in which they differ, and a text
/// comes before every longer one that begins with it.
pub proof fn law_the_first_difference_decides(a: Seq<char>, b: Seq<char>, n: nat)
    requires
        n <= a.len(),
        n <= b.len(),
        forall|i: int| 0 <= i < n ==> #[trigger] a[i] == b[i],
    ensures
        n < a.len() && n < b.len() && a[n as int] != b[n as int] ==> (precedes(a, b)
            <==> a[n as int] < b[n as int]),
        n == a.len() && n < b.len() ==> precedes(a, b) && !precedes(b, a),
        n == a.len() && n == b.len() ==> !precedes(a, b),
    decreases n,
{
    if n > 0 {
        let x = a.drop_first();
        let y = b.drop_first();
        assert forall|i: int| 0 <= i < n - 1 implies #[trigger] x[i] == y[i] by {
            assert(a[i + 1] == b[i + 1]);
        }
        assert(a[0] == b[0]);
        law_the_first_difference_decides(x, y, (n - 1) as nat);
    }
}

/// The entries of a map are listed by their keys, ascending, each of them once.
pub proof fn law_entries_are_listed_once<V>(
    map: Map<Seq<char>, V>,
    entries: Seq<(String, V)>,
    key: Seq<char>,
    i: int,
    j: int,
)
    requires
        StringMap::<V>::lists(map, entries),
        0 <= i < j < entries.len(),
    ensures
        precedes(entries[i].0@, entries[j].0@),
        entries[i].0@ != entries[j].0@,
        map.contains_key(entries[i].0@) && map[entries[i].0@] == entries[i].1,
        map.contains_key(key) <==> exists|k: int|
            0 <= k < entries.len() && (#[trigger] entries[k]).0@ == key,
{
    precedes_is_irreflexive(entries[i].0@);
}

} // verus!
