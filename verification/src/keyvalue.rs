//! A store of numbers under text keys, which is what the presence store is
//! underneath: its contract, and one held in memory.

use vstd::prelude::*;
use vstd::string::*;
use crate::error::StoreError;

verus! {

/// A store of numbers under text keys.
///
/// The contracts speak of the entries that the store holds. A store that
/// keeps to them says so through `modelled`; of one that does not, which is
/// what an implementation outside this library is unless it says otherwise,
/// nothing is claimed.
pub trait KeyValueStorer {
    /// Whether this kind of store keeps the entries that `entries`
    /// describes.
    open spec fn modelled() -> bool {
        false
    }

    /// Whether the store can be reached: calls to a store that keeps to its
    /// model succeed exactly while it can.
    open spec fn reachable(&self) -> bool {
        false
    }

    /// The number under each key that has one.
    open spec fn entries(&self) -> Map<Seq<char>, i64> {
        Map::empty()
    }

    /// Puts `value` under `key`, in place of what was there. An error means
    /// that the entries are as they were.
    fn put(&mut self, key: &str, value: i64) -> (done: Result<(), StoreError>)
        ensures
            Self::modelled() ==> final(self).reachable() == old(self).reachable(),
            Self::modelled() ==> (done is Ok <==> old(self).reachable()),
            Self::modelled() && done is Ok ==> final(self).entries() == old(self).entries().insert(
                key@,
                value,
            ),
            Self::modelled() && done is Err ==> final(self).entries() == old(self).entries(),
    ;

    /// The number under `key`, or `None` where there is none. The entries
    /// are as they were.
    fn fetch(&mut self, key: &str) -> (found: Result<Option<i64>, StoreError>)
        ensures
            Self::modelled() ==> final(self).reachable() == old(self).reachable(),
            Self::modelled() ==> (found is Ok <==> old(self).reachable()),
            Self::modelled() ==> final(self).entries() == old(self).entries(),
            Self::modelled() ==> (found matches Ok(value) ==> value == entry_of(
                old(self).entries(),
                key@,
            )),
    ;

    /// Whether there is an entry under `key`. The entries are as they were.
    fn contains(&mut self, key: &str) -> (found: Result<bool, StoreError>)
        ensures
            Self::modelled() ==> final(self).reachable() == old(self).reachable(),
            Self::modelled() ==> (found is Ok <==> old(self).reachable()),
            Self::modelled() ==> final(self).entries() == old(self).entries(),
            Self::modelled() ==> (found matches Ok(there) ==> there == old(
                self,
            ).entries().contains_key(key@)),
    ;

    /// Removes the entry under `key`, if there is one. An error means that
    /// the entries are as they were.
    fn delete(&mut self, key: &str) -> (done: Result<(), StoreError>)
        ensures
            Self::modelled() ==> final(self).reachable() == old(self).reachable(),
            Self::modelled() ==> (done is Ok <==> old(self).reachable()),
            Self::modelled() && done is Ok ==> final(self).entries() == old(self).entries().remove(
                key@,
            ),
            Self::modelled() && done is Err ==> final(self).entries() == old(self).entries(),
    ;
}

/// The number that `entries` hold under `key`, if any.
pub open spec fn entry_of(entries: Map<Seq<char>, i64>, key: Seq<char>) -> Option<i64> {
    if entries.contains_key(key) {
        Some(entries[key])
    } else {
        None
    }
}

/// One entry of the store in memory.
pub struct Entry {
    key: String,
    value: i64,
}

/// What a run of entries holds: of two entries under one key the later one
/// counts.
pub closed spec fn held(entries: Seq<Entry>) -> Map<Seq<char>, i64>
    decreases entries.len(),
{
    if entries.len() == 0 {
        Map::empty()
    } else {
        held(entries.drop_last()).insert(entries.last().key@, entries.last().value)
    }
}

proof fn lemma_held_push(entries: Seq<Entry>, entry: Entry)
    ensures
        held(entries.push(entry)) == held(entries).insert(entry.key@, entry.value),
{
    assert(entries.push(entry).drop_last() =~= entries);
}

/// A key-value store held in memory, which can be switched off to stand
/// for a store that cannot be reached.
pub struct MemoryKeyValueStorer {
    entries: Vec<Entry>,
    reachable: bool,
}

impl MemoryKeyValueStorer {
    /// An empty store that can be reached.
    pub fn new() -> (store: Self)
        ensures
            store.entries() == Map::<Seq<char>, i64>::empty(),
            store.reachable(),
    {
        MemoryKeyValueStorer { entries: Vec::new(), reachable: true }
    }

    /// Makes every later call succeed, or fail with `StoreError::Connection`.
    pub fn set_reachable(&mut self, reachable: bool)
        ensures
            final(self).entries() == old(self).entries(),
            final(self).reachable() == reachable,
    {
        self.reachable = reachable;
    }

    /// The place of the entry under `key` that counts, if there is one.
    fn find(&self, key: &str) -> (place: Option<usize>)
        ensures
            place is Some <==> self.entries().contains_key(key@),
            place matches Some(i) ==> i < self.entries.len() && self.entries[i as int].value
                == self.entries()[key@],
    {
        let wanted = key.to_owned();
        let mut i: usize = self.entries.len();
        assert(self.entries@.subrange(0, i as int) =~= self.entries@);
        while i > 0
            invariant
                i <= self.entries.len(),
                wanted@ == key@,
                entry_of(held(self.entries@), key@) == entry_of(
                    held(self.entries@.subrange(0, i as int)),
                    key@,
                ),
            decreases i,
        {
            let ghost upto = self.entries@.subrange(0, i as int);
            assert(upto.drop_last() =~= self.entries@.subrange(0, i - 1));
            i = i - 1;
            if self.entries[i].key == wanted {
                return Some(i);
            }
        }
        None
    }

    /// Takes every entry under `key` out.
    fn drop_key(&mut self, key: &str)
        ensures
            final(self).entries() == old(self).entries().remove(key@),
            final(self).reachable == old(self).reachable,
    {
        let wanted = key.to_owned();
        let mut kept: Vec<Entry> = Vec::new();
        let mut i: usize = 0;
        while i < self.entries.len()
            invariant
                i <= self.entries.len(),
                wanted@ == key@,
                held(kept@) == held(self.entries@.subrange(0, i as int)).remove(key@),
            decreases self.entries.len() - i,
        {
            let ghost seen = self.entries@.subrange(0, i as int);
            let ghost before = kept@;
            proof {
                assert(self.entries@.subrange(0, i + 1) =~= seen.push(self.entries@[i as int]));
                lemma_held_push(seen, self.entries@[i as int]);
            }
            if !(self.entries[i].key == wanted) {
                let entry = Entry { key: self.entries[i].key.clone(), value: self.entries[i].value };
                kept.push(entry);
                proof {
                    lemma_held_push(before, entry);
                }
            }
            i = i + 1;
        }
        assert(self.entries@.subrange(0, i as int) =~= self.entries@);
        self.entries = kept;
    }
}

impl KeyValueStorer for MemoryKeyValueStorer {
    open spec fn modelled() -> bool {
        true
    }

    closed spec fn reachable(&self) -> bool {
        self.reachable
    }

    closed spec fn entries(&self) -> Map<Seq<char>, i64> {
        held(self.entries@)
    }

    fn put(&mut self, key: &str, value: i64) -> (done: Result<(), StoreError>)
        ensures
            done is Err ==> done == Err::<(), StoreError>(StoreError::Connection),
    {
        if !self.reachable {
            return Err(StoreError::Connection);
        }
        self.drop_key(key);
        let ghost before = self.entries@;
        let entry = Entry { key: key.to_owned(), value };
        self.entries.push(entry);
        proof {
            lemma_held_push(before, entry);
        }
        Ok(())
    }

    fn fetch(&mut self, key: &str) -> (found: Result<Option<i64>, StoreError>)
        ensures
            found is Err ==> found == Err::<Option<i64>, StoreError>(StoreError::Connection),
    {
        if !self.reachable {
            return Err(StoreError::Connection);
        }
        match self.find(key) {
            Some(place) => Ok(Some(self.entries[place].value)),
            None => Ok(None),
        }
    }

    fn contains(&mut self, key: &str) -> (found: Result<bool, StoreError>)
        ensures
            found is Err ==> found == Err::<bool, StoreError>(StoreError::Connection),
    {
        if !self.reachable {
            return Err(StoreError::Connection);
        }
        Ok(self.find(key).is_some())
    }

    fn delete(&mut self, key: &str) -> (done: Result<(), StoreError>)
        ensures
            done is Err ==> done == Err::<(), StoreError>(StoreError::Connection),
    {
        if !self.reachable {
            return Err(StoreError::Connection);
        }
        self.drop_key(key);
        Ok(())
    }
}

} // verus!
