//! A cache of calculation results.
//!
//! Every result is kept with the time at which it entered the cache. That
//! time tells whether a result is too fresh to be calculated anew. The cache
//! never forgets an identity; a later result for it replaces the earlier one.

use crate::clock::Timestamp;
use vstd::hash_map::StringHashMap;
use vstd::prelude::*;

verus! {

/// One result as it is saved and loaded: the identity it belongs to, the
/// result, and the time at which it entered the cache.
#[derive(Clone, Debug, PartialEq, Eq)]
pub struct CacheEntry<R> {
    pub identity: String,
    pub result: R,
    pub completed_at: Timestamp,
}

impl<R> CacheEntry<R> {
    /// The identity as the cache's mapping knows it.
    pub open spec fn key(self) -> Seq<char> {
        self.identity@
    }

    /// What the cache's mapping holds for the identity.
    pub open spec fn value(self) -> (R, Timestamp) {
        (self.result, self.completed_at)
    }
}

/// The mapping that a list of saved entries stands for. Where an identity
/// occurs more than once, its last entry counts.
pub open spec fn entries_map<R>(entries: Seq<CacheEntry<R>>) -> Map<Seq<char>, (R, Timestamp)>
    decreases entries.len(),
{
    if entries.len() == 0 {
        Map::empty()
    } else {
        entries_map(entries.drop_last()).insert(entries.last().key(), entries.last().value())
    }
}

/// A cache for the calculation results, of whatever type `R` they are.
///
/// The entries lie in the order in which their identities first came in, and
/// `index` finds the place of each identity among them.
pub struct ProfileCache<R> {
    entries: Vec<CacheEntry<R>>,
    index: StringHashMap<usize>,
}

impl<R> View for ProfileCache<R> {
    type V = Map<Seq<char>, (R, Timestamp)>;

    /// The cache as a mapping from identity to result and completion time.
    closed spec fn view(&self) -> Self::V {
        Map::new(
            |k: Seq<char>| self.index@.contains_key(k),
            |k: Seq<char>| self.entries@[self.index@[k] as int].value(),
        )
    }
}

impl<R> ProfileCache<R> {
    /// The index and the entries agree: each entry is found under its
    /// identity, and each identity of the index leads to its entry.
    pub closed spec fn wf(&self) -> bool {
        &&& forall|i: int|
            0 <= i < self.entries@.len() ==> {
                &&& self.index@.contains_key(#[trigger] self.entries@[i].key())
                &&& self.index@[self.entries@[i].key()] == i
            }
        &&& forall|k: Seq<char>| #[trigger]
            self.index@.contains_key(k) ==> {
                &&& 0 <= self.index@[k] < self.entries@.len()
                &&& self.entries@[self.index@[k] as int].key() == k
            }
    }

    /// The entries in the order in which they are handed out for saving.
    pub closed spec fn saved(&self) -> Seq<CacheEntry<R>> {
        self.entries@
    }

    /// Create a new `ProfileCache`.
    ///
    /// With `Some(entries)` the cache starts with what the entries hold, an
    /// identity's last entry replacing its earlier ones; with `None` it
    /// starts empty.
    pub fn new(loaded: Option<Vec<CacheEntry<R>>>) -> (cache: Self)
        ensures
            cache.wf(),
            cache@ == match loaded {
                Some(entries) => entries_map(entries@),
                None => Map::empty(),
            },
    {
        let mut cache = ProfileCache { entries: Vec::new(), index: StringHashMap::new() };
        assert(cache@ =~= Map::empty());
        match loaded {
            Some(entries) => {
                let ghost all = entries@;
                for entry in it: entries
                    invariant
                        it.seq() == all,
                        cache.wf(),
                        cache@ == entries_map(all.take(it.index() as int)),
                {
                    proof {
                        let n = it.index() as int;
                        assert(all.take(n + 1).drop_last() =~= all.take(n));
                        assert(all.take(n + 1).last() == all[n]);
                    }
                    cache.put(entry);
                }
                assert(all.take(all.len() as int) =~= all);
            },
            None => {},
        }
        cache
    }

    /// Gets the result of `player` and the time at which it entered the
    /// cache.
    ///
    /// If no result is found, returns None.
    pub fn get(&self, player: String) -> (found: Option<(&R, Timestamp)>)
        requires
            self.wf(),
        ensures
            match found {
                Some((result, at)) => self@.contains_key(player@) && self@[player@] == (
                    *result,
                    at,
                ),
                None => !self@.contains_key(player@),
            },
    {
        self.peek(player.as_str())
    }

    /// The same as `get`, for a borrowed identity.
    pub fn peek(&self, player: &str) -> (found: Option<(&R, Timestamp)>)
        requires
            self.wf(),
        ensures
            match found {
                Some((result, at)) => self@.contains_key(player@) && self@[player@] == (
                    *result,
                    at,
                ),
                None => !self@.contains_key(player@),
            },
    {
        match self.index.get(player) {
            Some(place) => {
                let entry = &self.entries[*place];
                Some((&entry.result, entry.completed_at))
            },
            None => None,
        }
    }

    /// Associates the `result` with this `player`, and `now` as the time at
    /// which that was done. An earlier result of the player is replaced.
    pub fn set(&mut self, player: String, result: R, now: Timestamp)
        requires
            old(self).wf(),
        ensures
            final(self).wf(),
            final(self)@ == old(self)@.insert(player@, (result, now)),
    {
        self.put(CacheEntry { identity: player, result, completed_at: now });
    }

    /// The entries of the cache, one for each identity, for saving.
    /// Loading them into a new cache gives this cache again.
    pub fn entries(&self) -> (entries: &Vec<CacheEntry<R>>)
        requires
            self.wf(),
        ensures
            entries@ == self.saved(),
            entries_map(entries@) == self@,
            forall|i: int, j: int|
                0 <= i < j < entries@.len() ==> entries@[i].key() != entries@[j].key(),
    {
        proof {
            self.lemma_saved_entries_restore();
        }
        &self.entries
    }

    /// What is saved of a cache brings the cache back: the saved entries
    /// hold each identity once, and they stand for the very mapping that the
    /// cache is. A cache that is made from them is therefore the same
    /// mapping again, result by result and time by time.
    pub proof fn lemma_saved_entries_restore(&self)
        requires
            self.wf(),
        ensures
            entries_map(self.saved()) == self@,
            forall|i: int, j: int|
                0 <= i < j < self.saved().len() ==> self.saved()[i].key() != self.saved()[j].key(),
    {
        self.lemma_saved_prefix(self.entries@.len() as int);
        assert(self.entries@.take(self.entries@.len() as int) =~= self.entries@);
        assert(entries_map(self.entries@) =~= self@);
    }

    /// Stores one entry under its identity.
    fn put(&mut self, entry: CacheEntry<R>)
        requires
            old(self).wf(),
        ensures
            final(self).wf(),
            final(self)@ == old(self)@.insert(entry.key(), entry.value()),
    {
        let held: Option<usize> = match self.index.get(entry.identity.as_str()) {
            Some(place) => Some(*place),
            None => None,
        };
        match held {
            Some(place) => {
                self.entries[place] = entry;
            },
            None => {
                let place: usize = self.entries.len();
                self.index.insert(entry.identity.clone(), place);
                self.entries.push(entry);
            },
        }
        assert(final(self)@ =~= old(self)@.insert(entry.key(), entry.value()));
    }

    /// What the first `n` entries stand for is the cache's mapping, cut down
    /// to the identities whose entry is among them.
    proof fn lemma_saved_prefix(&self, n: int)
        requires
            self.wf(),
            0 <= n <= self.entries@.len(),
        ensures
            entries_map(self.entries@.take(n)) =~= Map::new(
                |k: Seq<char>| self.index@.contains_key(k) && self.index@[k] < n,
                |k: Seq<char>| self.entries@[self.index@[k] as int].value(),
            ),
        decreases n,
    {
        if n > 0 {
            self.lemma_saved_prefix(n - 1);
            assert(self.entries@.take(n).drop_last() =~= self.entries@.take(n - 1));
            assert(self.entries@.take(n).last() == self.entries@[n - 1]);
        }
    }
}

} // verus!
