//! A map from text to text that keeps its entries in the order in which
//! their keys first came. No key occurs twice.

use vstd::prelude::*;
use crate::text::text_eq;

verus! {

/// The entries of a map as mathematical values, in order.
pub type Pairs = Seq<(Seq<char>, Seq<char>)>;

/// No key occurs twice.
pub open spec fn distinct_keys(pairs: Pairs) -> bool {
    forall|i: int, j: int|
        0 <= i < pairs.len() && 0 <= j < pairs.len() && i != j ==> (#[trigger] pairs[i]).0 != (
        #[trigger] pairs[j]).0
}

/// Whether some entry has the key.
pub open spec fn has_key(pairs: Pairs, key: Seq<char>) -> bool {
    exists|i: int| 0 <= i < pairs.len() && (#[trigger] pairs[i]).0 == key
}

/// The place of an entry with the key, where there is one.
pub open spec fn place_of(pairs: Pairs, key: Seq<char>) -> int {
    choose|i: int| 0 <= i < pairs.len() && (#[trigger] pairs[i]).0 == key
}

/// The value that goes with the key, if the key is there.
pub open spec fn lookup(pairs: Pairs, key: Seq<char>) -> Option<Seq<char>> {
    if has_key(pairs, key) {
        Some(pairs[place_of(pairs, key)].1)
    } else {
        None
    }
}

/// The entries after `key` has been given `value`: an entry with the key
/// keeps its place and takes the value; a new key goes to the end.
pub open spec fn put(pairs: Pairs, key: Seq<char>, value: Seq<char>) -> Pairs {
    if has_key(pairs, key) {
        pairs.update(place_of(pairs, key), (key, value))
    } else {
        pairs.push((key, value))
    }
}

/// The entries after each pair of `more` has been put, first to last.
pub open spec fn put_all(pairs: Pairs, more: Pairs) -> Pairs
    decreases more.len(),
{
    if more.len() == 0 {
        pairs
    } else {
        put(put_all(pairs, more.drop_last()), more.last().0, more.last().1)
    }
}

/// Putting keeps the keys distinct, and the key then has the value.
pub proof fn lemma_put(pairs: Pairs, key: Seq<char>, value: Seq<char>)
    requires
        distinct_keys(pairs),
    ensures
        distinct_keys(put(pairs, key, value)),
        lookup(put(pairs, key, value), key) == Some(value),
        forall|other: Seq<char>|
            other != key ==> lookup(put(pairs, key, value), other) == lookup(pairs, other),
{
    let after = put(pairs, key, value);
    if has_key(pairs, key) {
        let p = place_of(pairs, key);
        assert(after[p].0 == key);
        assert forall|other: Seq<char>| other != key implies lookup(after, other) == lookup(
            pairs,
            other,
        ) by {
            if has_key(pairs, other) {
                let q = place_of(pairs, other);
                assert(after[q] == pairs[q]);
                assert(has_key(after, other));
                let q2 = place_of(after, other);
                assert(pairs[q2].0 == other);
            } else {
                if has_key(after, other) {
                    let q2 = place_of(after, other);
                    assert(pairs[q2].0 == other);
                }
            }
        }
        assert(has_key(after, key));
        let p2 = place_of(after, key);
        assert(p2 == p) by {
            if p2 != p {
                assert(pairs[p2].0 == key);
            }
        }
    } else {
        let n = pairs.len() as int;
        assert(after[n].0 == key);
        assert(has_key(after, key));
        let p2 = place_of(after, key);
        assert(p2 == n) by {
            if p2 != n {
                assert(pairs[p2].0 == key);
            }
        }
        assert forall|other: Seq<char>| other != key implies lookup(after, other) == lookup(
            pairs,
            other,
        ) by {
            if has_key(pairs, other) {
                let q = place_of(pairs, other);
                assert(after[q] == pairs[q]);
                assert(has_key(after, other));
                let q2 = place_of(after, other);
                assert(pairs[q2].0 == other);
            } else {
                if has_key(after, other) {
                    let q2 = place_of(after, other);
                    assert(pairs[q2].0 == other);
                }
            }
        }
    }
}

/// A map from text to text, in insertion order.
#[derive(Debug, PartialEq, Eq)]
pub struct LYServerStringMap {
    entries: Vec<(String, String)>,
}

impl View for LYServerStringMap {
    type V = Pairs;

    closed spec fn view(&self) -> Pairs {
        Seq::new(self.entries@.len(), |i: int| (self.entries@[i].0@, self.entries@[i].1@))
    }
}

impl LYServerStringMap {
    #[verifier::type_invariant]
    spec fn keys_are_distinct(self) -> bool {
        distinct_keys(self@)
    }

    /// The empty map.
    pub fn new() -> (r: Self)
        ensures
            r@ == Pairs::empty(),
    {
        let r = LYServerStringMap { entries: Vec::new() };
        assert(r@ =~= Pairs::empty());
        r
    }

    /// The number of entries.
    pub fn len(&self) -> (r: usize)
        ensures
            r == self@.len(),
            distinct_keys(self@),
    {
        proof {
            use_type_invariant(self);
        }
        self.entries.len()
    }

    /// The place of the entry with the key, if there is one.
    fn find(&self, key: &str) -> (r: Option<usize>)
        ensures
            match r {
                Some(i) => i < self@.len() && self@[i as int].0 == key@ && has_key(self@, key@)
                    && place_of(self@, key@) == i,
                None => !has_key(self@, key@),
            },
    {
        proof {
            use_type_invariant(self);
        }
        let n: usize = self.entries.len();
        let mut i: usize = 0;
        while i < n
            invariant
                n == self.entries@.len(),
                n == self@.len(),
                i <= n,
                distinct_keys(self@),
                forall|j: int| 0 <= j < i ==> (#[trigger] self@[j]).0 != key@,
            decreases n - i,
        {
            if text_eq(self.entries[i].0.as_str(), key) {
                proof {
                    assert(self@[i as int].0 == key@);
                    let p = place_of(self@, key@);
                    if p != i {
                        assert(self@[p].0 == key@);
                    }
                }
                return Some(i);
            }
            i = i + 1;
        }
        None
    }

    /// Whether the key is in the map.
    pub fn contains_key(&self, key: &str) -> (r: bool)
        ensures
            r == has_key(self@, key@),
    {
        self.find(key).is_some()
    }

    /// The value that goes with the key, if the key is in the map.
    pub fn get(&self, key: &str) -> (r: Option<String>)
        ensures
            match r {
                Some(v) => lookup(self@, key@) == Some(v@),
                None => lookup(self@, key@).is_none(),
            },
    {
        match self.find(key) {
            Some(i) => Some(self.entries[i].1.clone()),
            None => None,
        }
    }

    /// Gives the key the value. An entry with the key keeps its place.
    pub fn insert(&mut self, key: String, value: String)
        ensures
            final(self)@ == put(old(self)@, key@, value@),
            distinct_keys(final(self)@),
    {
        proof {
            use_type_invariant(&*self);
            lemma_put(self@, key@, value@);
        }
        let ghost before = self@;
        let ghost after = put(before, key@, value@);
        let found = self.find(key.as_str());
        let mut entries: Vec<(String, String)> = Vec::new();
        core::mem::swap(&mut self.entries, &mut entries);
        assert(before =~= Seq::new(entries@.len(), |i: int| (entries@[i].0@, entries@[i].1@)));
        match found {
            Some(i) => {
                entries[i] = (key, value);
            },
            None => {
                entries.push((key, value));
            },
        }
        assert(after =~= Seq::new(entries@.len(), |i: int| (entries@[i].0@, entries@[i].1@)));
        core::mem::swap(&mut self.entries, &mut entries);
    }

    /// The entry at a place.
    pub fn entry(&self, i: usize) -> (r: (String, String))
        requires
            i < self@.len(),
        ensures
            (r.0@, r.1@) == self@[i as int],
    {
        (self.entries[i].0.clone(), self.entries[i].1.clone())
    }

    /// The entries, in order.
    pub fn entries(&self) -> (r: Vec<(String, String)>)
        ensures
            r@.len() == self@.len(),
            forall|i: int| 0 <= i < r@.len() ==> (r@[i].0@, r@[i].1@) == #[trigger] self@[i],
    {
        let n: usize = self.entries.len();
        let mut out: Vec<(String, String)> = Vec::new();
        let mut i: usize = 0;
        while i < n
            invariant
                n == self.entries@.len(),
                n == self@.len(),
                i <= n,
                out@.len() == i,
                forall|j: int| 0 <= j < i ==> (out@[j].0@, out@[j].1@) == #[trigger] self@[j],
            decreases n - i,
        {
            out.push(self.entry(i));
            i = i + 1;
        }
        out
    }

    /// The map that holds the given pairs, put first to last.
    pub fn from_pairs(pairs: &Vec<(String, String)>) -> (r: Self)
        ensures
            r@ == put_all(
                Pairs::empty(),
                Seq::new(pairs@.len(), |i: int| (pairs@[i].0@, pairs@[i].1@)),
            ),
    {
        let ghost all = Seq::new(pairs@.len(), |i: int| (pairs@[i].0@, pairs@[i].1@));
        let mut out = LYServerStringMap::new();
        let n: usize = pairs.len();
        let mut i: usize = 0;
        assert(all.take(0) =~= Pairs::empty());
        while i < n
            invariant
                n == pairs@.len(),
                i <= n,
                all == Seq::new(pairs@.len(), |i: int| (pairs@[i].0@, pairs@[i].1@)),
                out@ == put_all(Pairs::empty(), all.take(i as int)),
            decreases n - i,
        {
            out.insert(pairs[i].0.clone(), pairs[i].1.clone());
            proof {
                let next = all.take(i + 1);
                assert(next.drop_last() =~= all.take(i as int));
                assert(next.last() == all[i as int]);
            }
            i = i + 1;
        }
        assert(all.take(n as int) =~= all);
        out
    }
}

impl Clone for LYServerStringMap {
    fn clone(&self) -> (r: Self)
        ensures
            r@ == self@,
    {
        proof {
            use_type_invariant(self);
        }
        let n: usize = self.entries.len();
        let mut out: Vec<(String, String)> = Vec::new();
        let mut i: usize = 0;
        while i < n
            invariant
                n == self.entries@.len(),
                i <= n,
                out@.len() == i,
                forall|j: int| 0 <= j < i ==> out@[j].0@ == self.entries@[j].0@ && out@[j].1@ == self.entries@[j].1@,
            decreases n - i,
        {
            out.push((self.entries[i].0.clone(), self.entries[i].1.clone()));
            i = i + 1;
        }
        let ghost view_out = Seq::new(out@.len(), |i: int| (out@[i].0@, out@[i].1@));
        assert(view_out =~= self@);
        let r = LYServerStringMap { entries: out };
        assert(r@ =~= self@);
        r
    }
}

} // verus!
