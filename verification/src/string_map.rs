//! A small map from strings to values that keeps its entries in the order in
//! which their keys first arrived. Its contents are a mathematical map from
//! character sequences to values.

use vstd::prelude::*;
use vstd::string::*;
use crate::text::str_eq;

verus! {

/// Whether position `i` of `keys` holds the key `k`.
pub open spec fn key_at(keys: Seq<String>, k: Seq<char>, i: int) -> bool {
    0 <= i < keys.len() && keys[i]@ == k
}

/// Whether no key occurs twice.
pub open spec fn distinct_keys(keys: Seq<String>) -> bool {
    forall|i: int, j: int| 0 <= i < j < keys.len() ==> keys[i]@ != keys[j]@
}

/// The map that parallel sequences of keys and values stand for.
pub open spec fn map_of<V>(keys: Seq<String>, values: Seq<V>) -> Map<Seq<char>, V> {
    Map::new(
        |k: Seq<char>| exists|i: int| key_at(keys, k, i),
        |k: Seq<char>| values[choose|i: int| key_at(keys, k, i)],
    )
}

/// Where keys are distinct, the key at a position maps to the value there.
pub proof fn lemma_map_of_at<V>(keys: Seq<String>, values: Seq<V>, i: int)
    requires
        distinct_keys(keys),
        keys.len() == values.len(),
        0 <= i < keys.len(),
    ensures
        map_of(keys, values).contains_key(keys[i]@),
        map_of(keys, values)[keys[i]@] == values[i],
{
    let k = keys[i]@;
    assert(key_at(keys, k, i));
    let j = choose|j: int| key_at(keys, k, j);
    assert(key_at(keys, k, j));
    if j < i {
        assert(keys[j]@ != keys[i]@);
    } else if i < j {
        assert(keys[i]@ != keys[j]@);
    }
}

/// The first position of `keys` that holds `key`, if there is one.
fn find_key(keys: &Vec<String>, key: &str) -> (p: Option<usize>)
    ensures
        match p {
            Some(i) => key_at(keys@, key@, i as int),
            None => forall|i: int| !key_at(keys@, key@, i),
        },
{
    let mut i: usize = 0;
    while i < keys.len()
        invariant
            i <= keys.len(),
            forall|j: int| 0 <= j < i ==> keys@[j]@ != key@,
        decreases keys.len() - i,
    {
        if str_eq(keys[i].as_str(), key) {
            return Some(i);
        }
        i = i + 1;
    }
    None
}

/// A map keyed by strings.
#[derive(Debug)]
pub struct StringMap<V> {
    keys: Vec<String>,
    values: Vec<V>,
}

impl<V> View for StringMap<V> {
    type V = Map<Seq<char>, V>;

    closed spec fn view(&self) -> Map<Seq<char>, V> {
        map_of(self.keys@, self.values@)
    }
}

impl<V> StringMap<V> {
    #[verifier::type_invariant]
    spec fn inv(self) -> bool {
        self.keys@.len() == self.values@.len() && distinct_keys(self.keys@)
    }

    /// The keys in the order in which they first arrived.
    pub closed spec fn spec_keys(&self) -> Seq<Seq<char>> {
        Seq::new(self.keys@.len(), |i: int| self.keys@[i]@)
    }

    /// The values in the order of their keys.
    pub closed spec fn spec_values(&self) -> Seq<V> {
        self.values@
    }

    /// The entries are well formed: as many values as keys, no key twice, and
    /// the map holds exactly the pairs at matching positions.
    pub open spec fn listed(&self) -> bool {
        &&& self.spec_keys().len() == self.spec_values().len()
        &&& forall|i: int, j: int|
            0 <= i < j < self.spec_keys().len() ==> self.spec_keys()[i] != self.spec_keys()[j]
        &&& forall|i: int|
            0 <= i < self.spec_keys().len() ==> self@.contains_key(#[trigger] self.spec_keys()[i])
                && self@[self.spec_keys()[i]] == self.spec_values()[i]
        &&& forall|k: Seq<char>|
            self@.contains_key(k) ==> exists|i: int|
                0 <= i < self.spec_keys().len() && #[trigger] self.spec_keys()[i] == k
    }

    proof fn lemma_listed(&self)
        requires
            self.keys@.len() == self.values@.len(),
            distinct_keys(self.keys@),
        ensures
            self.listed(),
    {
        let ks = self.spec_keys();
        assert forall|i: int, j: int| 0 <= i < j < ks.len() implies ks[i] != ks[j] by {
            assert(self.keys@[i]@ != self.keys@[j]@);
        }
        assert forall|i: int| 0 <= i < ks.len() implies self@.contains_key(#[trigger] ks[i])
            && self@[ks[i]] == self.spec_values()[i] by {
            lemma_map_of_at(self.keys@, self.values@, i);
        }
        assert forall|k: Seq<char>| self@.contains_key(k) implies exists|i: int|
            0 <= i < ks.len() && #[trigger] ks[i] == k by {
            let i = choose|i: int| key_at(self.keys@, k, i);
            assert(key_at(self.keys@, k, i));
            assert(ks[i] == k);
        }
    }

    /// An empty map.
    pub fn new() -> (m: Self)
        ensures
            m@ == Map::<Seq<char>, V>::empty(),
            m.spec_keys().len() == 0,
            m.listed(),
    {
        let m = StringMap { keys: Vec::new(), values: Vec::new() };
        proof {
            assert(m@ =~= Map::<Seq<char>, V>::empty());
            m.lemma_listed();
        }
        m
    }

    /// The number of entries.
    pub fn len(&self) -> (n: usize)
        ensures
            n == self.spec_keys().len(),
            self.listed(),
    {
        proof {
            use_type_invariant(self);
            self.lemma_listed();
        }
        self.keys.len()
    }

    /// Whether the map has no entry.
    pub fn is_empty(&self) -> (b: bool)
        ensures
            b == (self.spec_keys().len() == 0),
            b == (self@ == Map::<Seq<char>, V>::empty()),
    {
        proof {
            use_type_invariant(self);
            self.lemma_listed();
            if self.keys@.len() == 0 {
                assert(self@ =~= Map::<Seq<char>, V>::empty());
            } else {
                assert(self@.contains_key(self.spec_keys()[0]));
            }
        }
        self.keys.len() == 0
    }

    /// The position of a key, if the map holds it.
    fn position(&self, key: &str) -> (p: Option<usize>)
        ensures
            match p {
                Some(i) => key_at(self.keys@, key@, i as int),
                None => forall|i: int| !key_at(self.keys@, key@, i),
            },
    {
        find_key(&self.keys, key)
    }

    /// Take the entries out, leaving the map empty.
    fn take_entries(&mut self) -> (entries: (Vec<String>, Vec<V>))
        ensures
            entries.0@ == old(self).keys@,
            entries.1@ == old(self).values@,
            entries.0@.len() == entries.1@.len(),
            distinct_keys(entries.0@),
    {
        proof {
            use_type_invariant(&*self);
        }
        let mut taken = StringMap { keys: Vec::new(), values: Vec::new() };
        std::mem::swap(self, &mut taken);
        let StringMap { keys, values } = taken;
        (keys, values)
    }

    /// Whether the map holds the key.
    pub fn contains_key(&self, key: &str) -> (b: bool)
        ensures
            b == self@.contains_key(key@),
    {
        let p = self.position(key);
        proof {
            if let Some(i) = p {
                assert(key_at(self.keys@, key@, i as int));
            }
        }
        p.is_some()
    }

    /// The value under the key, if the map holds it.
    pub fn get(&self, key: &str) -> (v: Option<&V>)
        ensures
            match v {
                Some(x) => self@.contains_key(key@) && *x == self@[key@],
                None => !self@.contains_key(key@),
            },
    {
        proof {
            use_type_invariant(self);
        }
        match self.position(key) {
            Some(i) => {
                proof {
                    lemma_map_of_at(self.keys@, self.values@, i as int);
                }
                Some(&self.values[i])
            },
            None => None,
        }
    }

    /// Put a value under the key. A key that is new goes to the end; one that
    /// is there keeps its place. Returns the value that was there before.
    pub fn insert(&mut self, key: String, value: V) -> (prev: Option<V>)
        ensures
            final(self)@ == old(self)@.insert(key@, value),
            match prev {
                Some(x) => old(self)@.contains_key(key@) && x == old(self)@[key@],
                None => !old(self)@.contains_key(key@),
            },
            old(self)@.contains_key(key@) ==> final(self).spec_keys() == old(self).spec_keys(),
            !old(self)@.contains_key(key@) ==> final(self).spec_keys() == old(self).spec_keys().push(
                key@,
            ),
            old(self).listed(),
            final(self).listed(),
    {
        let ghost old_keys = self.keys@;
        let ghost old_values = self.values@;
        let (mut keys, mut values) = self.take_entries();
        proof {
            old(self).lemma_listed();
        }
        let p = find_key(&keys, key.as_str());
        let prev = match p {
            Some(i) => {
                proof {
                    lemma_map_of_at(old_keys, old_values, i as int);
                }
                values.push(value);
                let slot = values.swap_remove(i);
                *self = StringMap { keys, values };
                proof {
                    let new_values = self.values@;
                    assert(new_values =~= old_values.update(i as int, value));
                    assert forall|k: Seq<char>| #[trigger]
                        map_of(old_keys, new_values).contains_key(k) implies map_of(
                        old_keys,
                        new_values,
                    )[k] == map_of(old_keys, old_values).insert(key@, value)[k] by {
                        let j = choose|j: int| key_at(old_keys, k, j);
                        assert(key_at(old_keys, k, j));
                        lemma_map_of_at(old_keys, old_values, j);
                        lemma_map_of_at(old_keys, new_values, j);
                    }
                    assert(map_of(old_keys, new_values) =~= map_of(old_keys, old_values).insert(
                        key@,
                        value,
                    ));
                    assert(self.spec_keys() =~= old(self).spec_keys());
                }
                Some(slot)
            },
            None => {
                keys.push(key);
                values.push(value);
                proof {
                    let new_keys = keys@;
                    let new_values = values@;
                    assert(distinct_keys(new_keys)) by {
                        assert forall|i: int, j: int| 0 <= i < j < new_keys.len() implies new_keys[i]@
                            != new_keys[j]@ by {
                            if j < old_keys.len() {
                                assert(old_keys[i]@ != old_keys[j]@);
                            } else {
                                assert(!key_at(old_keys, key@, i));
                            }
                        }
                    }
                    assert forall|k: Seq<char>| #[trigger]
                        map_of(new_keys, new_values).contains_key(k) implies map_of(
                        old_keys,
                        old_values,
                    ).insert(key@, value).contains_key(k) && map_of(new_keys, new_values)[k]
                        == map_of(old_keys, old_values).insert(key@, value)[k] by {
                        let j = choose|j: int| key_at(new_keys, k, j);
                        assert(key_at(new_keys, k, j));
                        lemma_map_of_at(new_keys, new_values, j);
                        if j < old_keys.len() {
                            assert(key_at(old_keys, k, j));
                            lemma_map_of_at(old_keys, old_values, j);
                        }
                    }
                    assert forall|k: Seq<char>| #[trigger]
                        map_of(old_keys, old_values).insert(key@, value).contains_key(
                            k,
                        ) implies map_of(new_keys, new_values).contains_key(k) by {
                        if k == key@ {
                            assert(key_at(new_keys, k, old_keys.len() as int));
                        } else {
                            let j = choose|j: int| key_at(old_keys, k, j);
                            assert(key_at(old_keys, k, j));
                            assert(key_at(new_keys, k, j));
                        }
                    }
                    assert(map_of(new_keys, new_values) =~= map_of(old_keys, old_values).insert(
                        key@,
                        value,
                    ));
                }
                *self = StringMap { keys, values };
                proof {
                    assert(self.spec_keys() =~= old(self).spec_keys().push(key@));
                }
                None
            },
        };
        proof {
            self.lemma_listed();
        }
        prev
    }

    /// Take the key and its value out of the map. The entries behind it move
    /// up by one place. Returns the value that was there.
    pub fn remove(&mut self, key: &str) -> (prev: Option<V>)
        ensures
            final(self)@ == old(self)@.remove(key@),
            match prev {
                Some(x) => old(self)@.contains_key(key@) && x == old(self)@[key@],
                None => !old(self)@.contains_key(key@),
            },
            match prev {
                Some(_) => exists|i: int|
                    0 <= i < old(self).spec_keys().len() && #[trigger] old(self).spec_keys()[i]
                        == key@ && final(self).spec_keys() == old(self).spec_keys().remove(i)
                        && final(self).spec_values() == old(self).spec_values().remove(i),
                None => final(self).spec_keys() == old(self).spec_keys() && final(self).spec_values() == old(self).spec_values(),
            },
            old(self).listed(),
            final(self).listed(),
    {
        let ghost old_keys = self.keys@;
        let ghost old_values = self.values@;
        let (mut keys, mut values) = self.take_entries();
        proof {
            old(self).lemma_listed();
        }
        let p = find_key(&keys, key);
        let prev = match p {
            Some(i) => {
                proof {
                    lemma_map_of_at(old_keys, old_values, i as int);
                }
                let _ = keys.remove(i);
                let value = values.remove(i);
                proof {
                    let new_keys = keys@;
                    let new_values = values@;
                    assert(new_keys == old_keys.remove(i as int));
                    assert(new_values == old_values.remove(i as int));
                    assert(distinct_keys(new_keys)) by {
                        assert forall|a: int, b: int| 0 <= a < b < new_keys.len() implies new_keys[a]@
                            != new_keys[b]@ by {
                            let a0 = if a < i { a } else { a + 1 };
                            let b0 = if b < i { b } else { b + 1 };
                            assert(old_keys[a0]@ != old_keys[b0]@);
                        }
                    }
                    assert forall|k: Seq<char>| #[trigger]
                        map_of(new_keys, new_values).contains_key(k) implies map_of(
                        old_keys,
                        old_values,
                    ).remove(key@).contains_key(k) && map_of(new_keys, new_values)[k] == map_of(
                        old_keys,
                        old_values,
                    ).remove(key@)[k] by {
                        let j = choose|j: int| key_at(new_keys, k, j);
                        assert(key_at(new_keys, k, j));
                        lemma_map_of_at(new_keys, new_values, j);
                        let j0 = if j < i { j } else { j + 1 };
                        assert(key_at(old_keys, k, j0));
                        lemma_map_of_at(old_keys, old_values, j0);
                        if j0 < i {
                            assert(old_keys[j0]@ != old_keys[i as int]@);
                        } else {
                            assert(old_keys[i as int]@ != old_keys[j0]@);
                        }
                    }
                    assert forall|k: Seq<char>| #[trigger]
                        map_of(old_keys, old_values).remove(key@).contains_key(
                            k,
                        ) implies map_of(new_keys, new_values).contains_key(k) by {
                        let j = choose|j: int| key_at(old_keys, k, j);
                        assert(key_at(old_keys, k, j));
                        let j1 = if j < i { j } else { j - 1 };
                        assert(key_at(new_keys, k, j1));
                    }
                    assert(map_of(new_keys, new_values) =~= map_of(old_keys, old_values).remove(
                        key@,
                    ));
                }
                *self = StringMap { keys, values };
                proof {
                    assert(old(self).spec_keys()[i as int] == key@);
                    assert(self.spec_keys() =~= old(self).spec_keys().remove(i as int));
                    assert(self.spec_values() =~= old(self).spec_values().remove(i as int));
                }
                Some(value)
            },
            None => {
                proof {
                    assert(!map_of(old_keys, old_values).contains_key(key@)) by {
                        if map_of(old_keys, old_values).contains_key(key@) {
                            let j = choose|j: int| key_at(old_keys, key@, j);
                            assert(key_at(old_keys, key@, j));
                        }
                    }
                    assert(map_of(old_keys, old_values) =~= map_of(old_keys, old_values).remove(
                        key@,
                    ));
                }
                *self = StringMap { keys, values };
                proof {
                    assert(self.spec_keys() =~= old(self).spec_keys());
                }
                None
            },
        };
        proof {
            self.lemma_listed();
        }
        prev
    }

    /// The key at a position in arrival order.
    pub fn key_at_index(&self, i: usize) -> (k: &String)
        requires
            i < self.spec_keys().len(),
        ensures
            k@ == self.spec_keys()[i as int],
    {
        &self.keys[i]
    }

    /// The value at a position in arrival order.
    pub fn value_at_index(&self, i: usize) -> (v: &V)
        requires
            i < self.spec_keys().len(),
        ensures
            *v == self.spec_values()[i as int],
            self.listed(),
    {
        proof {
            use_type_invariant(self);
            self.lemma_listed();
        }
        &self.values[i]
    }
}

} // verus!
