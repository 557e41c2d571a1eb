//! A table of values keyed by text, with at most one value per key.
//!
//! The registry of rooms and the pool of sessions are both such tables. The
//! values are kept in a vector, in the order they were inserted; the table's
//! view is the map from each key to its value.
//!
//! A `std::collections::HashMap` is not used: vstd specifies its operations
//! only for key types that obey its hashing model, and `String` is not one
//! of them, so with text keys nothing about a lookup could be proved.

use vstd::prelude::*;

verus! {

/// A value that carries its own key.
pub trait Keyed: Sized {
    /// The key of this value.
    spec fn key_of(&self) -> Seq<char>;

    fn key(&self) -> (k: &str)
        ensures
            k@ == self.key_of(),
    ;

    /// A copy that is equal to this value.
    fn duplicate(&self) -> (r: Self)
        ensures
            r == *self,
    ;
}

/// Some value of `items` has the key `k`.
pub open spec fn has_key<V: Keyed>(items: Seq<V>, k: Seq<char>) -> bool {
    exists|i: int| 0 <= i < items.len() && (#[trigger] items[i]).key_of() == k
}

/// No two values of `items` have the same key.
pub open spec fn keys_distinct<V: Keyed>(items: Seq<V>) -> bool {
    forall|i: int, j: int|
        0 <= i < items.len() && 0 <= j < items.len() && i != j ==> (#[trigger] items[i]).key_of()
            != (#[trigger] items[j]).key_of()
}

/// The values of `items` under their keys.
pub open spec fn keyed_map<V: Keyed>(items: Seq<V>) -> Map<Seq<char>, V> {
    Map::new(
        |k: Seq<char>| has_key(items, k),
        |k: Seq<char>| items[choose|i: int| 0 <= i < items.len() && (#[trigger] items[i]).key_of() == k],
    )
}

proof fn lemma_keyed_map_at<V: Keyed>(items: Seq<V>, i: int)
    requires
        keys_distinct(items),
        0 <= i < items.len(),
    ensures
        keyed_map(items).contains_key(items[i].key_of()),
        keyed_map(items)[items[i].key_of()] == items[i],
{
    let k = items[i].key_of();
    assert(has_key(items, k));
    let j = choose|j: int| 0 <= j < items.len() && (#[trigger] items[j]).key_of() == k;
    assert(items[j].key_of() == k);
    assert(j == i);
}

proof fn lemma_keyed_map_push<V: Keyed>(items: Seq<V>, v: V)
    requires
        keys_distinct(items),
        !has_key(items, v.key_of()),
    ensures
        keys_distinct(items.push(v)),
        keyed_map(items.push(v)) == keyed_map(items).insert(v.key_of(), v),
{
    let pushed = items.push(v);
    let n = items.len() as int;
    assert forall|i: int, j: int|
        0 <= i < pushed.len() && 0 <= j < pushed.len() && i != j implies (#[trigger] pushed[i]).key_of()
            != (#[trigger] pushed[j]).key_of() by {
        if i < n && j < n {
            assert(pushed[i] == items[i] && pushed[j] == items[j]);
        } else if i < n {
            assert(pushed[i] == items[i]);
        } else {
            assert(pushed[j] == items[j]);
        }
    }
    let m = keyed_map(pushed);
    let e = keyed_map(items).insert(v.key_of(), v);
    assert forall|k: Seq<char>| m.contains_key(k) <==> e.contains_key(k) by {
        if m.contains_key(k) {
            let i = choose|i: int| 0 <= i < pushed.len() && (#[trigger] pushed[i]).key_of() == k;
            if i < n {
                assert(items[i] == pushed[i]);
            }
        }
        if e.contains_key(k) && k != v.key_of() {
            let i = choose|i: int| 0 <= i < items.len() && (#[trigger] items[i]).key_of() == k;
            assert(pushed[i] == items[i]);
        }
        if k == v.key_of() {
            assert(pushed[n] == v);
        }
    }
    assert forall|k: Seq<char>| m.contains_key(k) implies m[k] == e[k] by {
        let i = choose|i: int| 0 <= i < pushed.len() && (#[trigger] pushed[i]).key_of() == k;
        lemma_keyed_map_at(pushed, i);
        if i < n {
            assert(pushed[i] == items[i]);
            lemma_keyed_map_at(items, i);
        }
    }
    assert(m =~= e);
}

proof fn lemma_keyed_map_remove<V: Keyed>(items: Seq<V>, j: int)
    requires
        keys_distinct(items),
        0 <= j < items.len(),
    ensures
        keys_distinct(items.remove(j)),
        keyed_map(items.remove(j)) == keyed_map(items).remove(items[j].key_of()),
{
    let rest = items.remove(j);
    assert forall|i: int| 0 <= i < rest.len() implies #[trigger] rest[i] == (if i < j {
        items[i]
    } else {
        items[i + 1]
    }) by {}
    assert forall|a: int, b: int|
        0 <= a < rest.len() && 0 <= b < rest.len() && a != b implies (#[trigger] rest[a]).key_of()
            != (#[trigger] rest[b]).key_of() by {
        let a2 = if a < j { a } else { a + 1 };
        let b2 = if b < j { b } else { b + 1 };
        assert(rest[a] == items[a2] && rest[b] == items[b2]);
    }
    let gone = items[j].key_of();
    let m = keyed_map(rest);
    let e = keyed_map(items).remove(gone);
    assert forall|k: Seq<char>| m.contains_key(k) <==> e.contains_key(k) by {
        if m.contains_key(k) {
            let i = choose|i: int| 0 <= i < rest.len() && (#[trigger] rest[i]).key_of() == k;
            let i2 = if i < j { i } else { i + 1 };
            assert(rest[i] == items[i2]);
            assert(has_key(items, k));
        }
        if e.contains_key(k) {
            let i = choose|i: int| 0 <= i < items.len() && (#[trigger] items[i]).key_of() == k;
            assert(i != j);
            let i2 = if i < j { i } else { i - 1 };
            assert(rest[i2] == items[i]);
        }
    }
    assert forall|k: Seq<char>| m.contains_key(k) implies m[k] == e[k] by {
        let i = choose|i: int| 0 <= i < rest.len() && (#[trigger] rest[i]).key_of() == k;
        let i2 = if i < j { i } else { i + 1 };
        assert(rest[i] == items[i2]);
        lemma_keyed_map_at(rest, i);
        lemma_keyed_map_at(items, i2);
    }
    assert(m =~= e);
}

/// Values with pairwise distinct keys, in the order they were inserted.
pub struct KeyedTable<V: Keyed> {
    items: Vec<V>,
}

impl<V: Keyed> View for KeyedTable<V> {
    type V = Map<Seq<char>, V>;

    /// Each value under its key.
    closed spec fn view(&self) -> Map<Seq<char>, V> {
        keyed_map(self.items@)
    }
}

impl<V: Keyed> KeyedTable<V> {
    #[verifier::type_invariant]
    spec fn inv(&self) -> bool {
        keys_distinct(self.items@)
    }

    /// A table with no value.
    pub fn new() -> (t: Self)
        ensures
            t@ == Map::<Seq<char>, V>::empty(),
    {
        let t = KeyedTable { items: Vec::new() };
        assert(t@ =~= Map::<Seq<char>, V>::empty());
        t
    }

    /// Where the value with key `key` stands, if there is one.
    fn position(&self, key: &str) -> (r: Option<usize>)
        ensures
            match r {
                Some(i) => i < self.items@.len() && self.items@[i as int].key_of() == key@,
                None => !has_key(self.items@, key@),
            },
    {
        let mut i: usize = 0;
        while i < self.items.len()
            invariant
                i <= self.items@.len(),
                forall|j: int| 0 <= j < i ==> (#[trigger] self.items@[j]).key_of() != key@,
            decreases self.items@.len() - i,
        {
            if str_eq(self.items[i].key(), key) {
                return Some(i);
            }
            i = i + 1;
        }
        None
    }

    /// Whether a value has the key `key`.
    pub fn contains(&self, key: &str) -> (b: bool)
        ensures
            b == self@.contains_key(key@),
    {
        self.position(key).is_some()
    }

    /// Stores `v` under its key, unless that key is taken: then the table
    /// stays as it was and `v` is handed back.
    pub fn insert_new(&mut self, v: V) -> (r: Result<(), V>)
        ensures
            old(self)@.contains_key(v.key_of()) ==> r == Err::<(), V>(v) && final(self)@ == old(self)@,
            !old(self)@.contains_key(v.key_of()) ==> r == Ok::<(), V>(())
                && final(self)@ == old(self)@.insert(v.key_of(), v),
    {
        proof {
            use_type_invariant(&*self);
        }
        match self.position(v.key()) {
            Some(_) => Err(v),
            None => {
                let mut items = Vec::new();
                std::mem::swap(&mut items, &mut self.items);
                proof {
                    lemma_keyed_map_push(items@, v);
                }
                items.push(v);
                self.items = items;
                Ok(())
            },
        }
    }

    /// A copy of the value under `key`, if there is one.
    pub fn get(&self, key: &str) -> (r: Option<V>)
        ensures
            match r {
                Some(v) => self@.contains_key(key@) && v == self@[key@] && v.key_of() == key@,
                None => !self@.contains_key(key@),
            },
    {
        proof {
            use_type_invariant(&*self);
        }
        match self.position(key) {
            Some(i) => {
                proof {
                    lemma_keyed_map_at(self.items@, i as int);
                }
                Some(self.items[i].duplicate())
            },
            None => None,
        }
    }

    /// Takes out the value under `key` and returns it, if there is one.
    pub fn remove(&mut self, key: &str) -> (r: Option<V>)
        ensures
            match r {
                Some(v) => old(self)@.contains_key(key@) && v == old(self)@[key@]
                    && final(self)@ == old(self)@.remove(key@),
                None => !old(self)@.contains_key(key@) && final(self)@ == old(self)@,
            },
    {
        proof {
            use_type_invariant(&*self);
        }
        match self.position(key) {
            Some(i) => {
                let mut items = Vec::new();
                std::mem::swap(&mut items, &mut self.items);
                proof {
                    lemma_keyed_map_at(items@, i as int);
                    lemma_keyed_map_remove(items@, i as int);
                }
                let v = items.remove(i);
                self.items = items;
                Some(v)
            },
            None => None,
        }
    }

    /// A copy of every value, each once, in the order of insertion.
    pub fn values(&self) -> (r: Vec<V>)
        ensures
            forall|i: int|
                0 <= i < r@.len() ==> self@.contains_key((#[trigger] r@[i]).key_of()) && r@[i]
                    == self@[r@[i].key_of()],
            forall|k: Seq<char>|
                self@.contains_key(k) ==> exists|i: int|
                    0 <= i < r@.len() && (#[trigger] r@[i]).key_of() == k,
            keys_distinct(r@),
    {
        proof {
            use_type_invariant(&*self);
        }
        let mut out: Vec<V> = Vec::new();
        let mut i: usize = 0;
        while i < self.items.len()
            invariant
                i <= self.items@.len(),
                keys_distinct(self.items@),
                out@ == self.items@.subrange(0, i as int),
            decreases self.items@.len() - i,
        {
            out.push(self.items[i].duplicate());
            i = i + 1;
            assert(out@ =~= self.items@.subrange(0, i as int));
        }
        proof {
            assert(out@ =~= self.items@);
            assert forall|i: int| 0 <= i < out@.len() implies self@.contains_key(
                (#[trigger] out@[i]).key_of(),
            ) && out@[i] == self@[out@[i].key_of()] by {
                lemma_keyed_map_at(self.items@, i);
            }
        }
        out
    }
}

/// Equality of two texts, character by character.
pub fn str_eq(a: &str, b: &str) -> (r: bool)
    ensures
        r == (a@ == b@),
{
    let x = a.to_owned();
    let y = b.to_owned();
    x == y
}

} // verus!
