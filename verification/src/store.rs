//! The key-value store that accounts are kept in, and one that lives in
//! memory.

use crate::model::option_text;
use crate::text::same_text;
use vstd::prelude::*;
use vstd::string::StringExecFns;

verus! {

/// Why the store did not do what it was asked.
#[derive(Debug)]
pub struct StoreError {
    pub reason: String,
}

impl View for StoreError {
    type V = Seq<char>;

    open spec fn view(&self) -> Seq<char> {
        self.reason@
    }
}

impl DeepView for StoreError {
    type V = Seq<char>;

    open spec fn deep_view(&self) -> Seq<char> {
        self.reason@
    }
}

/// The value under `key` in `entries`, if there is one.
pub open spec fn stored(entries: Map<Seq<char>, Seq<char>>, key: Seq<char>) -> Option<Seq<char>> {
    if entries.contains_key(key) {
        Some(entries[key])
    } else {
        None
    }
}

/// A store of texts under text keys. Of a call that fails, nothing is
/// asked.
pub trait KvWrapper {
    /// What the store holds.
    spec fn entries(&self) -> Map<Seq<char>, Seq<char>>;

    /// Puts `value` under `key`, in place of what was there.
    fn put_val(&mut self, key: &str, value: &str) -> (done: Result<(), StoreError>)
        ensures
            done is Ok ==> final(self).entries() == old(self).entries().insert(key@, value@),
    ;

    /// The value under `key`, if there is one.
    fn get_val(&self, key: &str) -> (found: Result<Option<String>, StoreError>)
        ensures
            found matches Ok(value) ==> option_text(value) == stored(self.entries(), key@),
    ;

    /// Removes what is under `key`, if anything.
    fn delete_val(&mut self, key: &str) -> (done: Result<(), StoreError>)
        ensures
            done is Ok ==> final(self).entries() == old(self).entries().remove(key@),
    ;
}

/// The map that a row of key-value pairs stands for: a later pair takes
/// the place of an earlier one with the same key.
pub open spec fn map_of(pairs: Seq<(Seq<char>, Seq<char>)>) -> Map<Seq<char>, Seq<char>>
    decreases pairs.len(),
{
    if pairs.len() == 0 {
        Map::empty()
    } else {
        map_of(pairs.drop_last()).insert(pairs.last().0, pairs.last().1)
    }
}

/// The test for having another key than `key`.
pub open spec fn other_key(key: Seq<char>) -> spec_fn((Seq<char>, Seq<char>)) -> bool {
    |pair: (Seq<char>, Seq<char>)| pair.0 != key
}

/// Without the pairs of one key, the row stands for the map without
/// that key.
pub proof fn lemma_map_of_without(pairs: Seq<(Seq<char>, Seq<char>)>, key: Seq<char>)
    ensures
        map_of(pairs.filter(other_key(key))) == map_of(pairs).remove(key),
    decreases pairs.len(),
{
    reveal(Seq::filter);
    if pairs.len() == 0 {
        assert(map_of(pairs).remove(key) =~= Map::empty());
    } else {
        let rest = pairs.drop_last();
        let last = pairs.last();
        lemma_map_of_without(rest, key);
        let kept = rest.filter(other_key(key));
        if last.0 != key {
            assert(kept.push(last).drop_last() == kept);
            assert(map_of(kept.push(last)) == map_of(kept).insert(last.0, last.1));
            assert(map_of(rest).remove(key).insert(last.0, last.1) =~= map_of(rest).insert(
                last.0,
                last.1,
            ).remove(key));
        } else {
            assert(map_of(rest).remove(key) =~= map_of(rest).insert(last.0, last.1).remove(key));
        }
    }
}

/// A key that no pair has is not in the map.
pub proof fn lemma_map_of_misses(pairs: Seq<(Seq<char>, Seq<char>)>, key: Seq<char>)
    requires
        forall|i: int| 0 <= i < pairs.len() ==> (#[trigger] pairs[i]).0 != key,
    ensures
        !map_of(pairs).contains_key(key),
    decreases pairs.len(),
{
    if pairs.len() > 0 {
        let rest = pairs.drop_last();
        assert forall|i: int| 0 <= i < rest.len() implies (#[trigger] rest[i]).0 != key by {
            assert(rest[i] == pairs[i]);
        }
        lemma_map_of_misses(rest, key);
    }
}

/// The last pair with a key gives the key's value.
pub proof fn lemma_map_of_finds(pairs: Seq<(Seq<char>, Seq<char>)>, key: Seq<char>, at: int)
    requires
        0 <= at < pairs.len(),
        pairs[at].0 == key,
        forall|i: int| at < i < pairs.len() ==> (#[trigger] pairs[i]).0 != key,
    ensures
        map_of(pairs).contains_key(key),
        map_of(pairs)[key] == pairs[at].1,
    decreases pairs.len(),
{
    if at < pairs.len() - 1 {
        let rest = pairs.drop_last();
        assert(pairs.last().0 != key);
        assert(rest[at] == pairs[at]);
        assert forall|i: int| at < i < rest.len() implies (#[trigger] rest[i]).0 != key by {
            assert(rest[i] == pairs[i]);
        }
        lemma_map_of_finds(rest, key, at);
    }
}

/// A store in memory. Its keys are texts, of which the hash maps of the
/// standard library are not known to obey the key model that their
/// specification asks for; so the pairs stand in a row, one for each
/// key, and a key is looked up by going through the row.
#[derive(Debug)]
pub struct MemoryStore {
    /// The pairs in the order in which they were put.
    pub pairs: Vec<(String, String)>,
}

impl MemoryStore {
    /// The pairs as mathematical values.
    pub open spec fn pair_views(&self) -> Seq<(Seq<char>, Seq<char>)> {
        self.pairs@.map_values(|pair: (String, String)| (pair.0@, pair.1@))
    }

    /// A store that holds nothing.
    pub fn new() -> (store: Self)
        ensures
            store.entries() == Map::<Seq<char>, Seq<char>>::empty(),
    {
        let store = MemoryStore { pairs: Vec::new() };
        proof {
            assert(store.pair_views() =~= Seq::empty());
        }
        store
    }

    /// Drops every pair with the key `key`.
    fn forget(&mut self, key: &str)
        ensures
            final(self).entries() == old(self).entries().remove(key@),
    {
        let ghost all = self.pair_views();
        let ghost keep = other_key(key@);
        let mut kept: Vec<(String, String)> = Vec::new();
        let mut i: usize = 0;
        while i < self.pairs.len()
            invariant
                i <= self.pairs.len(),
                all == self.pair_views(),
                keep == other_key(key@),
                kept@.map_values(|pair: (String, String)| (pair.0@, pair.1@)) == all.take(
                    i as int,
                ).filter(keep),
            decreases self.pairs.len() - i,
        {
            proof {
                assert(all.take(i as int + 1) == all.take(i as int).push(all[i as int]));
                Seq::lemma_filter_push(all.take(i as int), all[i as int], keep);
            }
            let ghost before = kept@.map_values(|pair: (String, String)| (pair.0@, pair.1@));
            if !same_text(self.pairs[i].0.as_str(), key) {
                kept.push((self.pairs[i].0.clone(), self.pairs[i].1.clone()));
                proof {
                    assert(kept@.map_values(|pair: (String, String)| (pair.0@, pair.1@))
                        =~= before.push(all[i as int]));
                }
            }
            i = i + 1;
        }
        proof {
            assert(all.take(all.len() as int) == all);
            lemma_map_of_without(all, key@);
        }
        self.pairs = kept;
    }
}

impl KvWrapper for MemoryStore {
    open spec fn entries(&self) -> Map<Seq<char>, Seq<char>> {
        map_of(self.pair_views())
    }

    fn put_val(&mut self, key: &str, value: &str) -> (done: Result<(), StoreError>)
        ensures
            done is Ok,
    {
        self.forget(key);
        let ghost before = self.pair_views();
        self.pairs.push((String::from_str(key), String::from_str(value)));
        proof {
            assert(self.pair_views() =~= before.push((key@, value@)));
            assert(self.pair_views().drop_last() == before);
            assert(map_of(before).remove(key@).insert(key@, value@) =~= map_of(before).insert(
                key@,
                value@,
            ));
            assert(old(self).entries().remove(key@).insert(key@, value@) =~= old(
                self,
            ).entries().insert(key@, value@));
        }
        Ok(())
    }

    fn get_val(&self, key: &str) -> (found: Result<Option<String>, StoreError>)
        ensures
            found is Ok,
    {
        let ghost all = self.pair_views();
        let mut i: usize = self.pairs.len();
        while i > 0
            invariant
                i <= self.pairs.len(),
                all == self.pair_views(),
                forall|k: int| i <= k < all.len() ==> (#[trigger] all[k]).0 != key@,
            decreases i,
        {
            i = i - 1;
            if same_text(self.pairs[i].0.as_str(), key) {
                proof {
                    lemma_map_of_finds(all, key@, i as int);
                }
                return Ok(Some(self.pairs[i].1.clone()));
            }
        }
        proof {
            lemma_map_of_misses(all, key@);
        }
        Ok(None)
    }

    fn delete_val(&mut self, key: &str) -> (done: Result<(), StoreError>)
        ensures
            done is Ok,
    {
        self.forget(key);
        Ok(())
    }
}

} // verus!
