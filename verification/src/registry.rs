//! The connection registry: for each user that is online, the one session
//! that messages for that user are pushed to.

use std::collections::HashMap;
use vstd::prelude::*;

verus! {

/// The session that `routes` name for `uid`, if any.
pub open spec fn route_of(routes: Map<i32, u64>, uid: i32) -> Option<u64> {
    if routes.contains_key(uid) {
        Some(routes[uid])
    } else {
        None
    }
}

/// The session that a registration of `session` for `uid` pushes aside:
/// the one that `routes` named for `uid`, unless it is `session` itself.
pub open spec fn superseded(routes: Map<i32, u64>, uid: i32, session: u64) -> Option<u64> {
    if routes.contains_key(uid) && routes[uid] != session {
        Some(routes[uid])
    } else {
        None
    }
}

/// The routes after `session` has given up `uid`: as before, unless the
/// route of `uid` led to `session`.
pub open spec fn released(routes: Map<i32, u64>, uid: i32, session: u64) -> Map<i32, u64> {
    if routes.contains_key(uid) && routes[uid] == session {
        routes.remove(uid)
    } else {
        routes
    }
}

/// Where to push the messages of the users that are online. A user has at
/// most one route: the registry is a map, and a registration replaces what
/// was there.
pub struct Registry {
    routes: HashMap<i32, u64>,
}

impl View for Registry {
    type V = Map<i32, u64>;

    closed spec fn view(&self) -> Map<i32, u64> {
        self.routes@
    }
}

impl Registry {
    /// A registry without routes.
    pub fn new() -> (registry: Self)
        ensures
            registry@ == Map::<i32, u64>::empty(),
    {
        Registry { routes: HashMap::new() }
    }

    /// Routes `uid` to `session`, and hands back the session that this
    /// pushes aside, for the caller to close.
    pub fn register(&mut self, uid: i32, session: u64) -> (prior: Option<u64>)
        ensures
            final(self)@ == old(self)@.insert(uid, session),
            prior == superseded(old(self)@, uid, session),
    {
        broadcast use vstd::std_specs::hash::group_hash_axioms;

        match self.routes.insert(uid, session) {
            Some(before) => {
                if before != session {
                    Some(before)
                } else {
                    None
                }
            },
            None => None,
        }
    }

    /// The session that `uid` is routed to, if there is one.
    pub fn lookup(&self, uid: i32) -> (session: Option<u64>)
        ensures
            session == route_of(self@, uid),
    {
        broadcast use vstd::std_specs::hash::group_hash_axioms;

        match self.routes.get(&uid) {
            Some(session) => Some(*session),
            None => None,
        }
    }

    /// Removes the route of `uid` if it leads to `session`, and says
    /// whether it did. A session that was pushed aside in the meantime
    /// removes nothing.
    pub fn unregister(&mut self, uid: i32, session: u64) -> (removed: bool)
        ensures
            removed == (route_of(old(self)@, uid) == Some(session)),
            final(self)@ == released(old(self)@, uid, session),
    {
        broadcast use vstd::std_specs::hash::group_hash_axioms;

        let current = self.lookup(uid);
        if current == Some(session) {
            self.routes.remove(&uid);
            true
        } else {
            false
        }
    }
}

/// Of two registrations for one user the later one holds the route, and
/// the earlier session is handed back to be closed.
pub proof fn lemma_later_registration_wins(routes: Map<i32, u64>, uid: i32, first: u64, second: u64)
    requires
        first != second,
    ensures
        route_of(routes.insert(uid, first).insert(uid, second), uid) == Some(second),
        superseded(routes.insert(uid, first), uid, second) == Some(first),
{
}

/// A session that was pushed aside cannot take the route of its successor
/// away.
pub proof fn lemma_stale_release_keeps_route(routes: Map<i32, u64>, uid: i32, stale: u64)
    requires
        route_of(routes, uid) != Some(stale),
    ensures
        released(routes, uid, stale) == routes,
{
}

/// A release touches no route but that of the user it names.
pub proof fn lemma_release_keeps_other_routes(
    routes: Map<i32, u64>,
    uid: i32,
    session: u64,
    other: i32,
)
    requires
        other != uid,
    ensures
        route_of(released(routes, uid, session), other) == route_of(routes, other),
{
}

} // verus!
