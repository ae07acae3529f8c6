//! A string-to-string mapping backed by a vector of key/value pairs with
//! pairwise-distinct keys. It stands in for the engine-side objects whose
//! enumerable properties the processor installs and reads back: the
//! `options` input object, the request headers, and the output record.

use vstd::prelude::*;
use crate::strutil::str_eq;

verus! {

/// The mathematical map denoted by a sequence of key/value pairs, a later
/// pair overriding an earlier one with the same key.
pub open spec fn map_of_pairs(pairs: Seq<(String, String)>) -> Map<Seq<char>, Seq<char>>
    decreases pairs.len(),
{
    if pairs.len() == 0 {
        Map::empty()
    } else {
        map_of_pairs(pairs.drop_last()).insert(pairs.last().0@, pairs.last().1@)
    }
}

/// Law: a key is present in the denoted map exactly when some pair carries it.
pub proof fn lemma_pairs_key_coverage(pairs: Seq<(String, String)>, k: Seq<char>)
    ensures
        map_of_pairs(pairs).contains_key(k) <==> exists|i: int|
            0 <= i < pairs.len() && pairs[i].0@ == k,
    decreases pairs.len(),
{
    if pairs.len() == 0 {
    } else {
        lemma_pairs_key_coverage(pairs.drop_last(), k);
        if pairs.last().0@ == k {
            assert(pairs[pairs.len() - 1].0@ == k);
        } else {
            if exists|i: int| 0 <= i < pairs.len() && pairs[i].0@ == k {
                let i = choose|i: int| 0 <= i < pairs.len() && pairs[i].0@ == k;
                assert(pairs.drop_last()[i].0@ == k);
            }
            if map_of_pairs(pairs.drop_last()).contains_key(k) {
                let i = choose|i: int| 0 <= i < pairs.drop_last().len() && pairs.drop_last()[i].0@ == k;
                assert(pairs[i].0@ == k);
            }
        }
    }
}

/// Law: the value held for a key is the one of the last pair carrying it.
pub proof fn lemma_pairs_last_write(pairs: Seq<(String, String)>, i: int, k: Seq<char>)
    requires
        0 <= i < pairs.len(),
        pairs[i].0@ == k,
        forall|j: int| i < j < pairs.len() ==> pairs[j].0@ != k,
    ensures
        map_of_pairs(pairs).contains_key(k),
        map_of_pairs(pairs)[k] == pairs[i].1@,
    decreases pairs.len(),
{
    if i == pairs.len() - 1 {
    } else {
        assert(forall|j: int| i < j < pairs.drop_last().len() ==> pairs.drop_last()[j].0@ != k);
        assert(pairs.drop_last()[i].0@ == k);
        lemma_pairs_last_write(pairs.drop_last(), i, k);
        assert(pairs.last().0@ != k);
    }
}

/// Law: with pairwise-distinct keys, the denoted map holds exactly one
/// entry per pair.
pub proof fn lemma_pairs_entry_count(pairs: Seq<(String, String)>)
    requires
        forall|i: int, j: int| 0 <= i < j < pairs.len() ==> pairs[i].0@ != pairs[j].0@,
    ensures
        map_of_pairs(pairs).dom().finite(),
        map_of_pairs(pairs).dom().len() == pairs.len(),
    decreases pairs.len(),
{
    broadcast use vstd::set::axiom_set_insert_len;

    if pairs.len() == 0 {
        assert(map_of_pairs(pairs).dom() =~= Set::<Seq<char>>::empty());
    } else {
        lemma_pairs_entry_count(pairs.drop_last());
        lemma_pairs_key_coverage(pairs.drop_last(), pairs.last().0@);
        assert(!map_of_pairs(pairs.drop_last()).contains_key(pairs.last().0@)) by {
            if exists|i: int|
                0 <= i < pairs.drop_last().len() && pairs.drop_last()[i].0@ == pairs.last().0@ {
                let i = choose|i: int|
                    0 <= i < pairs.drop_last().len() && pairs.drop_last()[i].0@
                        == pairs.last().0@;
                assert(pairs[i].0@ == pairs[pairs.len() - 1].0@);
            }
        }
        assert(map_of_pairs(pairs).dom() == map_of_pairs(pairs.drop_last()).dom().insert(
            pairs.last().0@,
        ));
    }
}

/// Replacing the last pair that carries a key amounts to inserting over it.
proof fn lemma_pairs_update(pairs: Seq<(String, String)>, i: int, p: (String, String))
    requires
        0 <= i < pairs.len(),
        pairs[i].0@ == p.0@,
        forall|j: int| i < j < pairs.len() ==> pairs[j].0@ != pairs[i].0@,
    ensures
        map_of_pairs(pairs.update(i, p)) == map_of_pairs(pairs).insert(p.0@, p.1@),
    decreases pairs.len(),
{
    let upd = pairs.update(i, p);
    if i == pairs.len() - 1 {
        assert(upd.drop_last() =~= pairs.drop_last());
        assert(upd.last() == p);
        assert(map_of_pairs(pairs.drop_last()).insert(pairs.last().0@, pairs.last().1@).insert(
            p.0@,
            p.1@,
        ) =~= map_of_pairs(pairs.drop_last()).insert(p.0@, p.1@));
    } else {
        assert(pairs.drop_last()[i].0@ == p.0@);
        assert(forall|j: int|
            i < j < pairs.drop_last().len() ==> pairs.drop_last()[j].0@ != pairs.drop_last()[i].0@);
        lemma_pairs_update(pairs.drop_last(), i, p);
        assert(upd.drop_last() =~= pairs.drop_last().update(i, p));
        assert(upd.last() == pairs.last());
        assert(pairs.last().0@ != p.0@);
        assert(map_of_pairs(pairs.drop_last()).insert(p.0@, p.1@).insert(
            pairs.last().0@,
            pairs.last().1@,
        ) =~= map_of_pairs(pairs.drop_last()).insert(pairs.last().0@, pairs.last().1@).insert(
            p.0@,
            p.1@,
        ));
    }
}

/// A string-to-string record with unique keys; insertion is last-write-wins.
#[derive(Clone, Debug)]
pub struct StringMap {
    pairs: Vec<(String, String)>,
}

impl View for StringMap {
    type V = Map<Seq<char>, Seq<char>>;

    closed spec fn view(&self) -> Map<Seq<char>, Seq<char>> {
        map_of_pairs(self.pairs@)
    }
}

impl StringMap {
    /// The key/value pairs backing the map, in insertion order.
    pub closed spec fn kv_pairs(self) -> Seq<(String, String)> {
        self.pairs@
    }

    /// Keys are pairwise distinct.
    pub closed spec fn wf(self) -> bool {
        forall|i: int, j: int|
            0 <= i < j < self.pairs@.len() ==> self.pairs@[i].0@ != self.pairs@[j].0@
    }

    pub fn new() -> (m: StringMap)
        ensures
            m.wf(),
            m@ == Map::<Seq<char>, Seq<char>>::empty(),
            m.kv_pairs().len() == 0,
    {
        StringMap { pairs: Vec::new() }
    }

    /// How many entries the record holds.
    pub fn len(&self) -> (n: usize)
        ensures
            n == self.kv_pairs().len(),
            self.wf() ==> self@.dom().finite() && n == self@.dom().len(),
    {
        proof {
            if self.wf() {
                lemma_pairs_entry_count(self.pairs@);
            }
        }
        self.pairs.len()
    }

    /// Index of the last pair whose key reads as `key`, if any.
    fn find(&self, key: &str) -> (r: Option<usize>)
        ensures
            match r {
                Some(i) => {
                    &&& i < self.pairs@.len()
                    &&& self.pairs@[i as int].0@ == key@
                    &&& forall|j: int| i < j < self.pairs@.len() ==> self.pairs@[j].0@ != key@
                },
                None => forall|j: int| 0 <= j < self.pairs@.len() ==> self.pairs@[j].0@ != key@,
            },
    {
        let n = self.pairs.len();
        let mut i: usize = n;
        while i > 0
            invariant
                i <= n,
                n == self.pairs@.len(),
                forall|j: int| i <= j < n ==> self.pairs@[j].0@ != key@,
            decreases i,
        {
            i -= 1;
            if str_eq(self.pairs[i].0.as_str(), key) {
                return Some(i);
            }
        }
        None
    }

    /// Looks the key up; the result is the value the map holds for it.
    pub fn get(&self, key: &str) -> (r: Option<&String>)
        ensures
            match r {
                Some(v) => self@.contains_key(key@) && v@ == self@[key@],
                None => !self@.contains_key(key@),
            },
    {
        match self.find(key) {
            Some(i) => {
                proof {
                    lemma_pairs_last_write(self.pairs@, i as int, key@);
                }
                Some(&self.pairs[i].1)
            },
            None => {
                proof {
                    lemma_pairs_key_coverage(self.pairs@, key@);
                }
                None
            },
        }
    }

    pub fn contains_key(&self, key: &str) -> (r: bool)
        ensures
            r == self@.contains_key(key@),
    {
        match self.get(key) {
            Some(_) => true,
            None => false,
        }
    }

    /// Inserts the pair; an existing entry with the same key is overwritten.
    pub fn insert(&mut self, key: String, value: String)
        requires
            old(self).wf(),
        ensures
            final(self).wf(),
            final(self)@ == old(self)@.insert(key@, value@),
            final(self).kv_pairs().len() == old(self).kv_pairs().len() + (if old(self)@.contains_key(
                key@,
            ) {
                0int
            } else {
                1
            }),
    {
        match self.find(key.as_str()) {
            Some(i) => {
                proof {
                    lemma_pairs_key_coverage(self.pairs@, key@);
                    lemma_pairs_update(self.pairs@, i as int, (key, value));
                }
                let ghost before = self.pairs@;
                self.pairs[i] = (key, value);
                proof {
                    assert(self.pairs@ == before.update(i as int, (key, value)));
                    assert forall|m: int| 0 <= m < self.pairs@.len() implies self.pairs@[m].0@
                        == before[m].0@ by {}
                }
            },
            None => {
                let ghost before = self.pairs@;
                self.pairs.push((key, value));
                proof {
                    lemma_pairs_key_coverage(before, key@);
                    assert(self.pairs@.drop_last() =~= before);
                    assert forall|a: int, b: int|
                        0 <= a < b < self.pairs@.len() implies self.pairs@[a].0@
                        != self.pairs@[b].0@ by {
                        if b < before.len() {
                            assert(before[a].0@ != before[b].0@);
                        } else {
                            assert(self.pairs@[b] == (key, value));
                        }
                    }
                }
            },
        }
    }

    /// The backing pairs, for enumeration by the embedder.
    pub fn entries(&self) -> (r: &Vec<(String, String)>)
        ensures
            r@ == self.kv_pairs(),
    {
        &self.pairs
    }
}

} // verus!
