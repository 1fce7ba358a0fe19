//! An insertion-ordered map from text keys to values, in which no key occurs
//! twice. Headers and route tables are kept in it.
use vstd::prelude::*;
use crate::text::str_equals;

verus! {

/// No key occurs twice in `s`.
pub open spec fn keys_unique<V>(s: Seq<(Seq<char>, V)>) -> bool {
    forall|i: int, j: int|
        0 <= i < s.len() && 0 <= j < s.len() && i != j ==> #[trigger] s[i].0 != #[trigger] s[j].0
}

/// `k` is one of the keys of `s`.
pub open spec fn has_key<V>(s: Seq<(Seq<char>, V)>, k: Seq<char>) -> bool {
    exists|i: int| 0 <= i < s.len() && #[trigger] s[i].0 == k
}

/// The position of key `k` in `s` (meaningful when `has_key(s, k)`).
pub open spec fn key_index<V>(s: Seq<(Seq<char>, V)>, k: Seq<char>) -> int {
    choose|i: int| 0 <= i < s.len() && #[trigger] s[i].0 == k
}

/// The value stored under `k`, if any.
pub open spec fn lookup<V>(s: Seq<(Seq<char>, V)>, k: Seq<char>) -> Option<V> {
    if has_key(s, k) {
        Some(s[key_index(s, k)].1)
    } else {
        None
    }
}

/// `s` after storing `v` under `k`: an existing entry for `k` keeps its place
/// and takes the new value; a new key goes last.
pub open spec fn inserted<V>(s: Seq<(Seq<char>, V)>, k: Seq<char>, v: V) -> Seq<(Seq<char>, V)> {
    if has_key(s, k) {
        s.update(key_index(s, k), (k, v))
    } else {
        s.push((k, v))
    }
}

pub struct KeyedList<V> {
    entries: Vec<(String, V)>,
}

impl<V> View for KeyedList<V> {
    type V = Seq<(Seq<char>, V)>;

    closed spec fn view(&self) -> Seq<(Seq<char>, V)> {
        self.entries@.map_values(|e: (String, V)| (e.0@, e.1))
    }
}

impl<V> KeyedList<V> {
    #[verifier::type_invariant]
    closed spec fn unique(self) -> bool {
        keys_unique(self@)
    }

    /// An empty list.
    pub fn new() -> (r: Self)
        ensures
            r@ == Seq::<(Seq<char>, V)>::empty(),
    {
        let r = KeyedList { entries: Vec::new() };
        assert(r@ =~= Seq::<(Seq<char>, V)>::empty());
        r
    }

    /// Every entry, in order.
    pub fn as_vec(&self) -> (r: &Vec<(String, V)>)
        ensures
            r@.map_values(|e: (String, V)| (e.0@, e.1)) == self@,
            keys_unique(self@),
    {
        proof {
            use_type_invariant(self);
        }
        &self.entries
    }

    /// The number of entries.
    pub fn len(&self) -> (n: usize)
        ensures
            n == self@.len(),
            keys_unique(self@),
    {
        proof {
            use_type_invariant(self);
        }
        self.entries.len()
    }

    /// Position of `key`, if it is stored.
    fn find(&self, key: &str) -> (r: Option<usize>)
        ensures
            r is Some <==> has_key(self@, key@),
            r matches Some(i) ==> i < self@.len() && self@[i as int].0 == key@ && key_index(
                self@,
                key@,
            ) == i,
    {
        proof {
            use_type_invariant(self);
        }
        let n = self.entries.len();
        for i in 0..n
            invariant
                n == self@.len(),
                keys_unique(self@),
                forall|j: int| 0 <= j < i ==> #[trigger] self@[j].0 != key@,
        {
            assert(self@[i as int].0 == self.entries@[i as int].0@);
            if str_equals(self.entries[i].0.as_str(), key) {
                assert(has_key(self@, key@));
                return Some(i);
            }
        }
        None
    }

    /// The value stored under `key`, if any.
    pub fn get(&self, key: &str) -> (r: Option<&V>)
        ensures
            r is Some <==> has_key(self@, key@),
            r matches Some(v) ==> lookup(self@, key@) == Some(*v),
            keys_unique(self@),
    {
        proof {
            use_type_invariant(self);
        }
        match self.find(key) {
            Some(i) => Some(&self.entries[i].1),
            None => None,
        }
    }

    /// Stores `value` under `key`, replacing what was there.
    pub fn insert(&mut self, key: String, value: V)
        ensures
            final(self)@ == inserted(old(self)@, key@, value),
    {
        proof {
            use_type_invariant(&*self);
        }
        let ghost k = key@;
        let found = self.find(key.as_str());
        let mut entries: Vec<(String, V)> = Vec::new();
        std::mem::swap(&mut entries, &mut self.entries);
        match found {
            Some(i) => {
                entries.set(i, (key, value));
            },
            None => {
                entries.push((key, value));
            },
        }
        assert(entries@.map_values(|e: (String, V)| (e.0@, e.1)) =~= inserted(old(self)@, k, value));
        proof {
            law_insert_lookup(old(self)@, k, value, k);
        }
        self.entries = entries;
    }
}

/// Storing a value and then reading its key gives the value back; every
/// other key reads as before; keys stay unique.
pub proof fn law_insert_lookup<V>(s: Seq<(Seq<char>, V)>, k: Seq<char>, v: V, other: Seq<char>)
    requires
        keys_unique(s),
    ensures
        keys_unique(inserted(s, k, v)),
        lookup(inserted(s, k, v), k) == Some(v),
        other != k ==> lookup(inserted(s, k, v), other) == lookup(s, other),
        has_key(s, k) ==> inserted(s, k, v).len() == s.len(),
        !has_key(s, k) ==> inserted(s, k, v).len() == s.len() + 1,
{
    let t = inserted(s, k, v);
    if has_key(s, k) {
        let i = key_index(s, k);
        assert(t[i].0 == k);
        assert(has_key(t, k));
    } else {
        assert(t[s.len() as int].0 == k);
        assert(has_key(t, k));
    }
    assert(keys_unique(t));
    if other != k {
        if has_key(s, other) {
            let j = key_index(s, other);
            assert(t[j].0 == other);
        }
        if has_key(t, other) {
            let j = key_index(t, other);
            assert(s[j].0 == other);
        }
    }
}

} // verus!
