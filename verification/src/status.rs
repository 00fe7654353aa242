//! Presence tracking: the key space of the presence store, the contract of a
//! store of heartbeats and login flags, and such a store on top of a
//! key-value store.

use vstd::prelude::*;
use vstd::string::*;
use crate::decimal::{append_i32, lemma_render_injective, render};
use crate::error::StoreError;
use crate::keyvalue::KeyValueStorer;

verus! {

/// The key under which the last heartbeat of `uid` is kept.
pub open spec fn activity_key_text(uid: i32) -> Seq<char> {
    "user_activity_"@ + render(uid as int)
}

/// The key whose presence marks a login of `uid` in progress.
pub open spec fn initializing_key_text(uid: i32) -> Seq<char> {
    "user_initializing_"@ + render(uid as int)
}

/// The key under which the last heartbeat of `uid` is kept.
pub fn activity_key(uid: i32) -> (key: String)
    ensures
        key@ == activity_key_text(uid),
{
    let mut key = String::from_str("user_activity_");
    append_i32(&mut key, uid);
    key
}

/// The key whose presence marks a login of `uid` in progress.
pub fn initializing_key(uid: i32) -> (key: String)
    ensures
        key@ == initializing_key_text(uid),
{
    let mut key = String::from_str("user_initializing_");
    append_i32(&mut key, uid);
    key
}

/// Two users never share a heartbeat key.
pub proof fn lemma_activity_keys_distinct(a: i32, b: i32)
    requires
        activity_key_text(a) == activity_key_text(b),
    ensures
        a == b,
{
    let prefix = "user_activity_"@;
    let n = prefix.len() as int;
    let ka = activity_key_text(a);
    let kb = activity_key_text(b);
    assert(ka.subrange(n, ka.len() as int) =~= render(a as int));
    assert(kb.subrange(n, kb.len() as int) =~= render(b as int));
    lemma_render_injective(a as int, b as int);
}

/// Two users never share a login-flag key.
pub proof fn lemma_initializing_keys_distinct(a: i32, b: i32)
    requires
        initializing_key_text(a) == initializing_key_text(b),
    ensures
        a == b,
{
    let prefix = "user_initializing_"@;
    let n = prefix.len() as int;
    let ka = initializing_key_text(a);
    let kb = initializing_key_text(b);
    assert(ka.subrange(n, ka.len() as int) =~= render(a as int));
    assert(kb.subrange(n, kb.len() as int) =~= render(b as int));
    lemma_render_injective(a as int, b as int);
}

/// A heartbeat key is never a login-flag key, whatever the users.
pub proof fn lemma_key_spaces_disjoint(a: i32, b: i32)
    ensures
        activity_key_text(a) != initializing_key_text(b),
{
    reveal_strlit("user_activity_");
    reveal_strlit("user_initializing_");
    assert(activity_key_text(a)[5] == 'a');
    assert(initializing_key_text(b)[5] == 'i');
}

/// Where the presence store is reached.
#[derive(Debug)]
pub struct RedisConnectionManager {
    addr: String,
}

impl RedisConnectionManager {
    /// The address that connections are opened to.
    pub closed spec fn address(&self) -> Seq<char> {
        self.addr@
    }

    /// A manager of connections to the store at `addr`.
    pub fn new(addr: &str) -> (manager: Self)
        ensures
            manager.address() == addr@,
    {
        RedisConnectionManager { addr: addr.to_owned() }
    }

    /// The address that connections are opened to.
    pub fn addr(&self) -> (addr: &str)
        ensures
            addr@ == self.address(),
    {
        self.addr.as_str()
    }
}

/// A store of presence: the last heartbeat of each user that is online, and
/// a flag for each user whose login is in progress.
///
/// The contracts speak of the records that the store holds. A store that
/// keeps to them says so through `modelled`; of one that does not, which is
/// what an implementation outside this library is unless it says otherwise,
/// nothing is claimed.
pub trait ConnStatusStorer {
    /// Whether this kind of store keeps the records that `heartbeats` and
    /// `initializing` describe.
    open spec fn modelled() -> bool {
        false
    }

    /// Whether the store can be reached: calls to a store that keeps to its
    /// model succeed exactly while it can.
    open spec fn reachable(&self) -> bool {
        false
    }

    /// The last heartbeat of every user that has a presence record.
    open spec fn heartbeats(&self) -> Map<i32, i64> {
        Map::empty()
    }

    /// The users whose login is in progress.
    open spec fn initializing(&self) -> Set<i32> {
        Set::empty()
    }

    /// Records `ts` as the last heartbeat of `uid`; the last write wins. An
    /// error means that the records are as they were.
    fn set(&mut self, uid: i32, ts: i64) -> (done: Result<(), StoreError>)
        ensures
            Self::modelled() ==> final(self).reachable() == old(self).reachable(),
            Self::modelled() ==> (done is Ok <==> old(self).reachable()),
            Self::modelled() ==> final(self).initializing() == old(self).initializing(),
            Self::modelled() && done is Ok ==> final(self).heartbeats() == old(
                self,
            ).heartbeats().insert(uid, ts),
            Self::modelled() && done is Err ==> final(self).heartbeats() == old(self).heartbeats(),
    ;

    /// The last heartbeat of `uid`, or `None` where there is no record. The
    /// records are as they were.
    fn get(&mut self, uid: i32) -> (found: Result<Option<i64>, StoreError>)
        ensures
            Self::modelled() ==> final(self).reachable() == old(self).reachable(),
            Self::modelled() ==> (found is Ok <==> old(self).reachable()),
            Self::modelled() ==> final(self).initializing() == old(self).initializing(),
            Self::modelled() ==> final(self).heartbeats() == old(self).heartbeats(),
            Self::modelled() ==> (found matches Ok(ts) ==> ts == heartbeat_of(
                old(self).heartbeats(),
                uid,
            )),
    ;

    /// Removes the presence record of `uid`. An error means that the
    /// records are as they were.
    fn unset(&mut self, uid: i32) -> (done: Result<(), StoreError>)
        ensures
            Self::modelled() ==> final(self).reachable() == old(self).reachable(),
            Self::modelled() ==> (done is Ok <==> old(self).reachable()),
            Self::modelled() ==> final(self).initializing() == old(self).initializing(),
            Self::modelled() && done is Ok ==> final(self).heartbeats() == old(
                self,
            ).heartbeats().remove(uid),
            Self::modelled() && done is Err ==> final(self).heartbeats() == old(self).heartbeats(),
    ;

    /// Marks a login of `uid` as in progress. An error means that the
    /// records are as they were.
    fn set_init(&mut self, uid: i32) -> (done: Result<(), StoreError>)
        ensures
            Self::modelled() ==> final(self).reachable() == old(self).reachable(),
            Self::modelled() ==> (done is Ok <==> old(self).reachable()),
            Self::modelled() ==> final(self).heartbeats() == old(self).heartbeats(),
            Self::modelled() && done is Ok ==> final(self).initializing() == old(
                self,
            ).initializing().insert(uid),
            Self::modelled() && done is Err ==> final(self).initializing() == old(
                self,
            ).initializing(),
    ;

    /// Whether a login of `uid` is in progress. The records are as they
    /// were.
    fn get_init(&mut self, uid: i32) -> (found: Result<bool, StoreError>)
        ensures
            Self::modelled() ==> final(self).reachable() == old(self).reachable(),
            Self::modelled() ==> (found is Ok <==> old(self).reachable()),
            Self::modelled() ==> final(self).initializing() == old(self).initializing(),
            Self::modelled() ==> final(self).heartbeats() == old(self).heartbeats(),
            Self::modelled() ==> (found matches Ok(flag) ==> flag == old(
                self,
            ).initializing().contains(uid)),
    ;

    /// Removes the mark of a login of `uid`. An error means that the
    /// records are as they were.
    fn unset_init(&mut self, uid: i32) -> (done: Result<(), StoreError>)
        ensures
            Self::modelled() ==> final(self).reachable() == old(self).reachable(),
            Self::modelled() ==> (done is Ok <==> old(self).reachable()),
            Self::modelled() ==> final(self).heartbeats() == old(self).heartbeats(),
            Self::modelled() && done is Ok ==> final(self).initializing() == old(
                self,
            ).initializing().remove(uid),
            Self::modelled() && done is Err ==> final(self).initializing() == old(
                self,
            ).initializing(),
    ;
}

/// The last heartbeat that `records` hold for `uid`, if any.
pub open spec fn heartbeat_of(records: Map<i32, i64>, uid: i32) -> Option<i64> {
    if records.contains_key(uid) {
        Some(records[uid])
    } else {
        None
    }
}

/// The heartbeats that the entries of a key-value store stand for: the
/// number under the heartbeat key of each user that has one.
pub open spec fn heartbeats_in(entries: Map<Seq<char>, i64>) -> Map<i32, i64> {
    Map::new(
        |uid: i32| entries.contains_key(activity_key_text(uid)),
        |uid: i32| entries[activity_key_text(uid)],
    )
}

/// The logins in progress that the entries of a key-value store stand for:
/// the users whose login-flag key has an entry.
pub open spec fn logins_in(entries: Map<Seq<char>, i64>) -> Set<i32> {
    Set::new(|uid: i32| entries.contains_key(initializing_key_text(uid)))
}

/// An entry under the heartbeat key of a user is the heartbeat of that
/// user and touches no other record.
pub proof fn lemma_heartbeat_entry(entries: Map<Seq<char>, i64>, uid: i32, ts: i64)
    ensures
        heartbeats_in(entries.insert(activity_key_text(uid), ts)) == heartbeats_in(entries).insert(
            uid,
            ts,
        ),
        heartbeats_in(entries.remove(activity_key_text(uid))) == heartbeats_in(entries).remove(uid),
        logins_in(entries.insert(activity_key_text(uid), ts)) == logins_in(entries),
        logins_in(entries.remove(activity_key_text(uid))) == logins_in(entries),
{
    let key = activity_key_text(uid);
    assert forall|other: i32| other != uid implies activity_key_text(other) != key by {
        if activity_key_text(other) == key {
            lemma_activity_keys_distinct(other, uid);
        }
    }
    assert forall|other: i32| initializing_key_text(other) != key by {
        lemma_key_spaces_disjoint(uid, other);
    }
}

/// An entry under the login-flag key of a user marks the login of that
/// user and touches no other record.
pub proof fn lemma_login_entry(entries: Map<Seq<char>, i64>, uid: i32, flag: i64)
    ensures
        logins_in(entries.insert(initializing_key_text(uid), flag)) == logins_in(entries).insert(
            uid,
        ),
        logins_in(entries.remove(initializing_key_text(uid))) == logins_in(entries).remove(uid),
        heartbeats_in(entries.insert(initializing_key_text(uid), flag)) == heartbeats_in(entries),
        heartbeats_in(entries.remove(initializing_key_text(uid))) == heartbeats_in(entries),
{
    let key = initializing_key_text(uid);
    assert forall|other: i32| other != uid implies initializing_key_text(other) != key by {
        if initializing_key_text(other) == key {
            lemma_initializing_keys_distinct(other, uid);
        }
    }
    assert forall|other: i32| activity_key_text(other) != key by {
        lemma_key_spaces_disjoint(other, uid);
    }
}

/// A presence store on top of a key-value store: a heartbeat is the entry
/// under the heartbeat key of its user, and a login in progress is an entry
/// under the login-flag key, with the number 1.
pub struct RedisConnStatusStorer<K: KeyValueStorer> {
    client: K,
}

impl<K: KeyValueStorer> RedisConnStatusStorer<K> {
    /// The key-value store underneath.
    pub closed spec fn store(&self) -> K {
        self.client
    }

    /// A presence store on top of `client`.
    pub fn new(client: K) -> (storer: Self)
        ensures
            storer.store() == client,
    {
        RedisConnStatusStorer { client }
    }

    /// The key-value store underneath, to look into or to act on.
    pub fn client(&mut self) -> (client: &mut K)
        ensures
            *client == old(self).store(),
            final(self).store() == *final(client),
    {
        &mut self.client
    }
}

impl<K: KeyValueStorer> ConnStatusStorer for RedisConnStatusStorer<K> {
    open spec fn modelled() -> bool {
        K::modelled()
    }

    open spec fn reachable(&self) -> bool {
        self.store().reachable()
    }

    open spec fn heartbeats(&self) -> Map<i32, i64> {
        heartbeats_in(self.store().entries())
    }

    open spec fn initializing(&self) -> Set<i32> {
        logins_in(self.store().entries())
    }

    fn set(&mut self, uid: i32, ts: i64) -> (done: Result<(), StoreError>)
        ensures
            K::modelled() && done is Ok ==> final(self).store().entries() == old(
                self,
            ).store().entries().insert(activity_key_text(uid), ts),
            K::modelled() && done is Err ==> final(self).store().entries() == old(
                self,
            ).store().entries(),
    {
        proof {
            lemma_heartbeat_entry(self.store().entries(), uid, ts);
        }
        let key = activity_key(uid);
        self.client.put(key.as_str(), ts)
    }

    fn get(&mut self, uid: i32) -> (found: Result<Option<i64>, StoreError>)
        ensures
            K::modelled() ==> final(self).store().entries() == old(self).store().entries(),
    {
        let key = activity_key(uid);
        self.client.fetch(key.as_str())
    }

    fn unset(&mut self, uid: i32) -> (done: Result<(), StoreError>)
        ensures
            K::modelled() && done is Ok ==> final(self).store().entries() == old(
                self,
            ).store().entries().remove(activity_key_text(uid)),
            K::modelled() && done is Err ==> final(self).store().entries() == old(
                self,
            ).store().entries(),
    {
        proof {
            lemma_heartbeat_entry(self.store().entries(), uid, 0);
        }
        let key = activity_key(uid);
        self.client.delete(key.as_str())
    }

    fn set_init(&mut self, uid: i32) -> (done: Result<(), StoreError>)
        ensures
            K::modelled() && done is Ok ==> final(self).store().entries() == old(
                self,
            ).store().entries().insert(initializing_key_text(uid), 1),
            K::modelled() && done is Err ==> final(self).store().entries() == old(
                self,
            ).store().entries(),
    {
        proof {
            lemma_login_entry(self.store().entries(), uid, 1);
        }
        let key = initializing_key(uid);
        self.client.put(key.as_str(), 1)
    }

    fn get_init(&mut self, uid: i32) -> (found: Result<bool, StoreError>)
        ensures
            K::modelled() ==> final(self).store().entries() == old(self).store().entries(),
    {
        let key = initializing_key(uid);
        self.client.contains(key.as_str())
    }

    fn unset_init(&mut self, uid: i32) -> (done: Result<(), StoreError>)
        ensures
            K::modelled() && done is Ok ==> final(self).store().entries() == old(
                self,
            ).store().entries().remove(initializing_key_text(uid)),
            K::modelled() && done is Err ==> final(self).store().entries() == old(
                self,
            ).store().entries(),
    {
        proof {
            lemma_login_entry(self.store().entries(), uid, 1);
        }
        let key = initializing_key(uid);
        self.client.delete(key.as_str())
    }
}

} // verus!
