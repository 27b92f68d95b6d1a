//! A small table keyed by strings, each key at most once, viewed as a map.

use vstd::prelude::*;
use crate::text::str_equal;

verus! {

/// The map a list of (key, value) entries stands for (a later entry wins,
/// though a well-formed table holds each key once).
pub open spec fn keyed_map<V>(s: Seq<(String, V)>) -> Map<Seq<char>, V>
    decreases s.len(),
{
    if s.len() == 0 {
        Map::empty()
    } else {
        keyed_map(s.drop_last()).insert(s.last().0@, s.last().1)
    }
}

/// No key occurs twice.
pub open spec fn keys_distinct<V>(s: Seq<(String, V)>) -> bool {
    forall|i: int, j: int|
        0 <= i < s.len() && 0 <= j < s.len() && i != j ==> #[trigger] s[i].0@ != #[trigger] s[j].0@
}

/// With distinct keys, the map holds exactly the entries' keys, each with
/// its entry's value.
pub proof fn lemma_keyed_map<V>(s: Seq<(String, V)>)
    requires
        keys_distinct(s),
    ensures
        forall|k: Seq<char>|
            #[trigger] keyed_map(s).contains_key(k) <==> exists|i: int|
                0 <= i < s.len() && s[i].0@ == k,
        forall|i: int| 0 <= i < s.len() ==> keyed_map(s)[#[trigger] s[i].0@] == s[i].1,
    decreases s.len(),
{
    if s.len() > 0 {
        let t = s.drop_last();
        let n = s.len() - 1;
        assert forall|i: int, j: int|
            0 <= i < t.len() && 0 <= j < t.len() && i != j implies #[trigger] t[i].0@
            != #[trigger] t[j].0@ by {
            assert(t[i] == s[i] && t[j] == s[j]);
        }
        lemma_keyed_map(t);
        assert forall|k: Seq<char>|
            #[trigger] keyed_map(s).contains_key(k) <==> exists|i: int|
                0 <= i < s.len() && s[i].0@ == k by {
            if keyed_map(s).contains_key(k) {
                if k == s[n].0@ {
                    assert(s[n].0@ == k);
                } else {
                    assert(keyed_map(t).contains_key(k));
                    let i = choose|i: int| 0 <= i < t.len() && t[i].0@ == k;
                    assert(s[i].0@ == k);
                }
            }
            if exists|i: int| 0 <= i < s.len() && s[i].0@ == k {
                let i = choose|i: int| 0 <= i < s.len() && s[i].0@ == k;
                if i < n {
                    assert(t[i].0@ == k);
                    assert(keyed_map(t).contains_key(k));
                }
            }
        }
        assert forall|i: int| 0 <= i < s.len() implies keyed_map(s)[#[trigger] s[i].0@] == s[i].1 by {
            if i < n {
                assert(t[i] == s[i]);
                assert(s[i].0@ != s[n].0@);
                assert(keyed_map(t)[t[i].0@] == t[i].1);
            }
        }
    }
}

proof fn lemma_keyed_map_remove<V>(s: Seq<(String, V)>, i: int)
    requires
        keys_distinct(s),
        0 <= i < s.len(),
    ensures
        keys_distinct(s.remove(i)),
        keyed_map(s.remove(i)) == keyed_map(s).remove(s[i].0@),
{
    let r = s.remove(i);
    assert forall|a: int| 0 <= a < r.len() implies #[trigger] r[a] == (if a < i {
        s[a]
    } else {
        s[a + 1]
    }) by {}
    assert forall|a: int, b: int|
        0 <= a < r.len() && 0 <= b < r.len() && a != b implies #[trigger] r[a].0@
        != #[trigger] r[b].0@ by {
        let sa = if a < i { a } else { a + 1 };
        let sb = if b < i { b } else { b + 1 };
        assert(r[a] == s[sa] && r[b] == s[sb]);
    }
    lemma_keyed_map(s);
    lemma_keyed_map(r);
    let lhs = keyed_map(r);
    let rhs = keyed_map(s).remove(s[i].0@);
    assert forall|k: Seq<char>| #[trigger] lhs.contains_key(k) <==> rhs.contains_key(k) by {
        if lhs.contains_key(k) {
            let a = choose|a: int| 0 <= a < r.len() && r[a].0@ == k;
            let sa = if a < i { a } else { a + 1 };
            assert(r[a] == s[sa]);
            assert(s[sa].0@ != s[i].0@);
            assert(keyed_map(s).contains_key(k));
        }
        if rhs.contains_key(k) {
            let b = choose|b: int| 0 <= b < s.len() && s[b].0@ == k;
            assert(b != i);
            let a = if b < i { b } else { b - 1 };
            assert(r[a] == s[b]);
            assert(lhs.contains_key(r[a].0@));
        }
    }
    assert forall|k: Seq<char>| lhs.contains_key(k) implies #[trigger] lhs[k] == rhs[k] by {
        let a = choose|a: int| 0 <= a < r.len() && r[a].0@ == k;
        let sa = if a < i { a } else { a + 1 };
        assert(r[a] == s[sa]);
        assert(lhs[r[a].0@] == r[a].1);
        assert(keyed_map(s)[s[sa].0@] == s[sa].1);
    }
    assert(lhs =~= rhs);
}

/// A table from string keys to values, each key at most once.
#[derive(Debug)]
pub struct KeyedTable<V> {
    entries: Vec<(String, V)>,
}

impl<V> KeyedTable<V> {
    #[verifier::type_invariant]
    spec fn distinct(self) -> bool {
        keys_distinct(self.entries@)
    }

    /// The table as a map.
    pub closed spec fn table(self) -> Map<Seq<char>, V> {
        keyed_map(self.entries@)
    }

    /// The entries in table order.
    pub closed spec fn entries_view(self) -> Seq<(String, V)> {
        self.entries@
    }

    /// Law: the map holds exactly the keys of the entries, each with its
    /// entry's value, and no key occurs twice among the entries.
    pub proof fn lemma_entries(self)
        requires
            keys_distinct(self.entries_view()),
        ensures
            forall|k: Seq<char>|
                #[trigger] self.table().contains_key(k) <==> exists|i: int|
                    0 <= i < self.entries_view().len() && self.entries_view()[i].0@ == k,
            forall|i: int|
                0 <= i < self.entries_view().len() ==> self.table()[#[trigger] self.entries_view()[i].0@]
                    == self.entries_view()[i].1,
    {
        lemma_keyed_map(self.entries@);
    }

    /// An empty table.
    pub fn new() -> (r: Self)
        ensures
            r.table() == Map::<Seq<char>, V>::empty(),
            r.entries_view().len() == 0,
    {
        KeyedTable { entries: Vec::new() }
    }

    /// Number of entries.
    pub fn len(&self) -> (r: usize)
        ensures
            r == self.entries_view().len(),
            keys_distinct(self.entries_view()),
    {
        proof {
            use_type_invariant(self);
        }
        self.entries.len()
    }

    /// The entry at position `i`.
    pub fn entry(&self, i: usize) -> (r: &(String, V))
        requires
            i < self.entries_view().len(),
        ensures
            *r == self.entries_view()[i as int],
            keys_distinct(self.entries_view()),
    {
        proof {
            use_type_invariant(self);
        }
        &self.entries[i]
    }

    fn find(&self, key: &str) -> (r: Option<usize>)
        ensures
            r is Some <==> self.table().contains_key(key@),
            r matches Some(i) ==> i < self.entries@.len() && self.entries@[i as int].0@ == key@,
    {
        proof {
            use_type_invariant(self);
            lemma_keyed_map(self.entries@);
        }
        let mut i: usize = 0;
        while i < self.entries.len()
            invariant
                i <= self.entries@.len(),
                forall|j: int| 0 <= j < i ==> self.entries@[j].0@ != key@,
            decreases self.entries.len() - i,
        {
            if str_equal(self.entries[i].0.as_str(), key) {
                proof {
                    use_type_invariant(self);
                    lemma_keyed_map(self.entries@);
                }
                assert(self.entries@[i as int].0@ == key@);
                assert(self.table().contains_key(key@));
                return Some(i);
            }
            i += 1;
        }
        None
    }

    /// The value stored under `key`.
    pub fn get(&self, key: &str) -> (r: Option<&V>)
        ensures
            r is Some <==> self.table().contains_key(key@),
            r matches Some(v) ==> *v == self.table()[key@],
    {
        proof {
            use_type_invariant(self);
            lemma_keyed_map(self.entries@);
        }
        match self.find(key) {
            Some(i) => Some(&self.entries[i].1),
            None => None,
        }
    }

    /// `key` is in the table.
    pub fn contains(&self, key: &str) -> (r: bool)
        ensures
            r == self.table().contains_key(key@),
    {
        self.find(key).is_some()
    }

    /// The table is empty.
    pub fn is_empty(&self) -> (r: bool)
        ensures
            r == (self.table() == Map::<Seq<char>, V>::empty()),
    {
        proof {
            use_type_invariant(self);
            lemma_keyed_map(self.entries@);
        }
        if self.entries.len() == 0 {
            assert(self.table() =~= Map::<Seq<char>, V>::empty());
            true
        } else {
            assert(self.table().contains_key(self.entries@[0].0@));
            false
        }
    }

    /// Removes `key`, handing back its value.
    pub fn remove(&mut self, key: &str) -> (r: Option<V>)
        ensures
            final(self).table() == old(self).table().remove(key@),
            r == (if old(self).table().contains_key(key@) {
                Some(old(self).table()[key@])
            } else {
                None
            }),
    {
        proof {
            use_type_invariant(&*self);
        }
        let ghost s0 = self.entries@;
        proof {
            lemma_keyed_map(s0);
        }
        match self.find(key) {
            Some(i) => {
                proof {
                    lemma_keyed_map_remove(s0, i as int);
                }
                let mut entries: Vec<(String, V)> = Vec::new();
                std::mem::swap(&mut entries, &mut self.entries);
                let e = entries.remove(i);
                self.entries = entries;
                assert(keyed_map(s0)[s0[i as int].0@] == e.1);
                Some(e.1)
            },
            None => {
                assert(keyed_map(s0).remove(key@) =~= keyed_map(s0));
                None
            },
        }
    }

    /// Stores `value` under `key`; returns the value it replaces.
    pub fn insert(&mut self, key: String, value: V) -> (r: Option<V>)
        ensures
            final(self).table() == old(self).table().insert(key@, value),
            r == (if old(self).table().contains_key(key@) {
                Some(old(self).table()[key@])
            } else {
                None
            }),
    {
        let ghost t0 = self.table();
        let displaced = self.remove(key.as_str());
        proof {
            use_type_invariant(&*self);
        }
        let ghost s1 = self.entries@;
        proof {
            lemma_keyed_map(s1);
            assert(!keyed_map(s1).contains_key(key@));
        }
        let entry = (key, value);
        proof {
            let s2 = s1.push(entry);
            assert(s2.drop_last() =~= s1);
            assert forall|a: int, b: int|
                0 <= a < s2.len() && 0 <= b < s2.len() && a != b implies #[trigger] s2[a].0@
                != #[trigger] s2[b].0@ by {
                if a < s1.len() && b < s1.len() {
                    assert(s2[a] == s1[a] && s2[b] == s1[b]);
                } else if a < s1.len() {
                    assert(s2[a] == s1[a]);
                    assert(keyed_map(s1).contains_key(s1[a].0@));
                } else {
                    assert(s2[b] == s1[b]);
                    assert(keyed_map(s1).contains_key(s1[b].0@));
                }
            }
        }
        let mut entries: Vec<(String, V)> = Vec::new();
        std::mem::swap(&mut entries, &mut self.entries);
        entries.push(entry);
        self.entries = entries;
        assert(self.entries@.drop_last() =~= s1);
        assert(self.table() =~= t0.insert(key@, value));
        displaced
    }
}

} // verus!
