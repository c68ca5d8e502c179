//! A table of records keyed by a string, viewed as a map from key to record contents.

use vstd::prelude::*;

verus! {

/// A record with a string key.
pub trait Keyed: View + Sized {
    spec fn key(&self) -> Seq<char>;

    fn key_str(&self) -> (r: &str)
        ensures
            r@ == self.key();
}

/// Some record of `s` has key `k`.
pub open spec fn has_key<T: Keyed>(s: Seq<T>, k: Seq<char>) -> bool {
    exists|i: int| 0 <= i < s.len() && #[trigger] s[i].key() == k
}

/// An index of `s` whose record has key `k`.
pub open spec fn index_of_key<T: Keyed>(s: Seq<T>, k: Seq<char>) -> int {
    choose|i: int| 0 <= i < s.len() && #[trigger] s[i].key() == k
}

/// No two records of `s` share a key.
pub open spec fn unique_keys<T: Keyed>(s: Seq<T>) -> bool {
    forall|i: int, j: int| 0 <= i < s.len() && 0 <= j < s.len() && i != j ==> #[trigger] s[i].key() != #[trigger] s[j].key()
}

/// The map from key to record contents.
pub open spec fn map_of<T: Keyed>(s: Seq<T>) -> Map<Seq<char>, T::V> {
    Map::new(|k: Seq<char>| has_key(s, k), |k: Seq<char>| s[index_of_key(s, k)]@)
}

pub proof fn lemma_map_of_index<T: Keyed>(s: Seq<T>, i: int)
    requires
        unique_keys(s),
        0 <= i < s.len(),
    ensures
        map_of(s).contains_key(s[i].key()),
        map_of(s)[s[i].key()] == s[i]@,
{
    let k = s[i].key();
    assert(has_key(s, k));
    let j = index_of_key(s, k);
    assert(0 <= j < s.len() && s[j].key() == k);
    assert(j == i);
}

pub proof fn lemma_map_of_push<T: Keyed>(s: Seq<T>, x: T)
    requires
        unique_keys(s),
        !has_key(s, x.key()),
    ensures
        unique_keys(s.push(x)),
        map_of(s.push(x)) == map_of(s).insert(x.key(), x@),
{
    let t = s.push(x);
    assert forall|i: int, j: int| 0 <= i < t.len() && 0 <= j < t.len() && i != j implies #[trigger] t[i].key() != #[trigger] t[j].key() by {
        if i < s.len() && j < s.len() {
            assert(t[i] == s[i] && t[j] == s[j]);
        } else if i < s.len() {
            assert(t[i] == s[i]);
        } else {
            assert(t[j] == s[j]);
        }
    }
    assert forall|k: Seq<char>| #[trigger] map_of(t).contains_key(k) == map_of(s).insert(x.key(), x@).contains_key(k) by {
        if has_key(t, k) && k != x.key() {
            let i = choose|i: int| 0 <= i < t.len() && #[trigger] t[i].key() == k;
            assert(i < s.len());
            assert(s[i].key() == k);
        }
        if has_key(s, k) {
            let i = choose|i: int| 0 <= i < s.len() && #[trigger] s[i].key() == k;
            assert(t[i].key() == k);
        }
        if k == x.key() {
            assert(t[s.len() as int].key() == k);
        }
    }
    assert forall|k: Seq<char>| #[trigger] map_of(t).contains_key(k) implies map_of(t)[k] == map_of(s).insert(x.key(), x@)[k] by {
        if k == x.key() {
            lemma_map_of_index(t, s.len() as int);
        } else {
            let i = choose|i: int| 0 <= i < t.len() && #[trigger] t[i].key() == k;
            assert(i < s.len());
            lemma_map_of_index(t, i);
            lemma_map_of_index(s, i);
        }
    }
    assert(map_of(t) =~= map_of(s).insert(x.key(), x@));
}

pub proof fn lemma_map_of_update<T: Keyed>(s: Seq<T>, i: int, x: T)
    requires
        unique_keys(s),
        0 <= i < s.len(),
        x.key() == s[i].key(),
    ensures
        unique_keys(s.update(i, x)),
        map_of(s.update(i, x)) == map_of(s).insert(x.key(), x@),
{
    let t = s.update(i, x);
    assert forall|a: int, b: int| 0 <= a < t.len() && 0 <= b < t.len() && a != b implies #[trigger] t[a].key() != #[trigger] t[b].key() by {
        assert(t[a].key() == s[a].key());
        assert(t[b].key() == s[b].key());
    }
    lemma_map_of_index(s, i);
    assert forall|k: Seq<char>| #[trigger] map_of(t).contains_key(k) == map_of(s).insert(x.key(), x@).contains_key(k) by {
        if has_key(t, k) {
            let a = choose|a: int| 0 <= a < t.len() && #[trigger] t[a].key() == k;
            assert(s[a].key() == k);
        }
        if has_key(s, k) {
            let a = choose|a: int| 0 <= a < s.len() && #[trigger] s[a].key() == k;
            assert(t[a].key() == k);
        }
    }
    assert forall|k: Seq<char>| #[trigger] map_of(t).contains_key(k) implies map_of(t)[k] == map_of(s).insert(x.key(), x@)[k] by {
        let a = choose|a: int| 0 <= a < t.len() && #[trigger] t[a].key() == k;
        lemma_map_of_index(t, a);
        if a != i {
            assert(t[a] == s[a]);
            lemma_map_of_index(s, a);
        }
    }
    assert(map_of(t) =~= map_of(s).insert(x.key(), x@));
}

pub proof fn lemma_map_of_remove<T: Keyed>(s: Seq<T>, i: int)
    requires
        unique_keys(s),
        0 <= i < s.len(),
    ensures
        unique_keys(s.remove(i)),
        map_of(s.remove(i)) == map_of(s).remove(s[i].key()),
{
    let t = s.remove(i);
    let k0 = s[i].key();
    assert forall|a: int| 0 <= a < t.len() implies #[trigger] t[a] == s[if a < i { a } else { a + 1 }] by {}
    assert forall|a: int, b: int| 0 <= a < t.len() && 0 <= b < t.len() && a != b implies #[trigger] t[a].key() != #[trigger] t[b].key() by {
        let a1 = if a < i { a } else { a + 1 };
        let b1 = if b < i { b } else { b + 1 };
        assert(t[a] == s[a1]);
        assert(t[b] == s[b1]);
    }
    assert forall|k: Seq<char>| #[trigger] map_of(t).contains_key(k) == map_of(s).remove(k0).contains_key(k) by {
        if has_key(t, k) {
            let a = choose|a: int| 0 <= a < t.len() && #[trigger] t[a].key() == k;
            let a1 = if a < i { a } else { a + 1 };
            assert(t[a] == s[a1]);
            assert(s[a1].key() == k);
        }
        if has_key(s, k) && k != k0 {
            let a = choose|a: int| 0 <= a < s.len() && #[trigger] s[a].key() == k;
            assert(a != i);
            let a0 = if a < i { a } else { a - 1 };
            assert(t[a0] == s[a]);
            assert(t[a0].key() == k);
        }
    }
    assert forall|k: Seq<char>| #[trigger] map_of(t).contains_key(k) implies map_of(t)[k] == map_of(s).remove(k0)[k] by {
        let a = choose|a: int| 0 <= a < t.len() && #[trigger] t[a].key() == k;
        let a1 = if a < i { a } else { a + 1 };
        assert(t[a] == s[a1]);
        lemma_map_of_index(t, a);
        lemma_map_of_index(s, a1);
    }
    assert(map_of(t) =~= map_of(s).remove(k0));
}

/// Records with unique keys.
pub struct Table<T> {
    entries: Vec<T>,
}

impl<T: Keyed> View for Table<T> {
    type V = Map<Seq<char>, T::V>;

    open spec fn view(&self) -> Map<Seq<char>, T::V> {
        map_of(self.items())
    }
}

impl<T: Keyed> Table<T> {
    /// The records, in insertion order.
    pub closed spec fn items(&self) -> Seq<T> {
        self.entries@
    }

    /// Keys are unique.
    pub open spec fn wf(&self) -> bool {
        unique_keys(self.items())
    }

    pub fn new() -> (r: Self)
        ensures
            r.wf(),
            r.items() == Seq::<T>::empty(),
            r@ == Map::<Seq<char>, T::V>::empty(),
    {
        let r = Table { entries: Vec::new() };
        proof {
            assert(r@ =~= Map::<Seq<char>, T::V>::empty());
        }
        r
    }

    /// The records, in insertion order.
    pub fn entries(&self) -> (r: &Vec<T>)
        ensures
            r@ == self.items(),
    {
        &self.entries
    }

    /// The position of the record with key `key`.
    pub fn find(&self, key: &str) -> (r: Option<usize>)
        requires
            self.wf(),
        ensures
            match r {
                Some(i) => i < self.items().len() && self.items()[i as int].key() == key@,
                None => !self@.contains_key(key@),
            },
    {
        let mut i: usize = 0;
        while i < self.entries.len()
            invariant
                i <= self.entries@.len(),
                forall|j: int| 0 <= j < i ==> #[trigger] self.entries@[j].key() != key@,
            decreases self.entries@.len() - i,
        {
            if crate::text::str_eq(self.entries[i].key_str(), key) {
                return Some(i);
            }
            i = i + 1;
        }
        None
    }

    /// The record with key `key`.
    pub fn get(&self, key: &str) -> (r: Option<&T>)
        requires
            self.wf(),
        ensures
            r is Some == self@.contains_key(key@),
            r is Some ==> r->0@ == self@[key@] && r->0.key() == key@,
    {
        match self.find(key) {
            Some(i) => {
                proof {
                    lemma_map_of_index(self.items(), i as int);
                }
                Some(&self.entries[i])
            },
            None => None,
        }
    }

    /// Inserts `item`, replacing the record with the same key.
    pub fn insert(&mut self, item: T)
        requires
            old(self).wf(),
        ensures
            final(self).wf(),
            final(self)@ == old(self)@.insert(item.key(), item@),
    {
        match self.find(item.key_str()) {
            Some(i) => {
                proof {
                    lemma_map_of_update(self.items(), i as int, item);
                }
                self.entries.set(i, item);
            },
            None => {
                proof {
                    lemma_map_of_push(self.items(), item);
                }
                self.entries.push(item);
            },
        }
    }

    /// Removes the record with key `key`, returning it.
    pub fn remove(&mut self, key: &str) -> (r: Option<T>)
        requires
            old(self).wf(),
        ensures
            final(self).wf(),
            final(self)@ == old(self)@.remove(key@),
            r is Some == old(self)@.contains_key(key@),
            r is Some ==> r->0@ == old(self)@[key@],
    {
        match self.find(key) {
            Some(i) => {
                proof {
                    lemma_map_of_remove(self.items(), i as int);
                    lemma_map_of_index(self.items(), i as int);
                }
                Some(self.entries.remove(i))
            },
            None => {
                proof {
                    assert(self@.remove(key@) =~= self@);
                }
                None
            },
        }
    }
}

} // verus!
