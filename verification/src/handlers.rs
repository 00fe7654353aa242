//! What a command does to the stores: a heartbeat recorded, a presence
//! record cleared, a message made durable before anyone is told of it.

use vstd::prelude::*;
use crate::error::StoreError;
use crate::message::{Message, MessageStorer};
use crate::registry::{route_of, Registry};
use crate::status::ConnStatusStorer;

verus! {

/// The seconds since the epoch on the machine's clock: the reading of
/// `std::time::SystemTime::now`, turned into a `chrono::DateTime<Utc>` by
/// chrono's conversion from `SystemTime` and read with
/// `DateTime::timestamp`. A clock that stands before the epoch gives a
/// negative number. Nothing is claimed of the number: two readings may
/// differ in either direction.
#[verifier::external_body]
pub(crate) fn unix_now() -> (now: i64) {
    chrono::DateTime::<chrono::Utc>::from(std::time::SystemTime::now()).timestamp()
}

/// Records `now` as the last heartbeat of `uid`.
pub fn record_heart_beat<S: ConnStatusStorer>(storer: &mut S, uid: i32, now: i64) -> (done: Result<
    (),
    StoreError,
>)
    ensures
        S::modelled() ==> final(storer).reachable() == old(storer).reachable(),
        S::modelled() ==> (done is Ok <==> old(storer).reachable()),
        S::modelled() ==> final(storer).initializing() == old(storer).initializing(),
        S::modelled() && done is Ok ==> final(storer).heartbeats() == old(
            storer,
        ).heartbeats().insert(uid, now),
        S::modelled() && done is Err ==> final(storer).heartbeats() == old(storer).heartbeats(),
{
    storer.set(uid, now)
}

/// Records the time on the machine's clock as the last heartbeat of `uid`:
/// after it, `uid` has a presence record, and every other record is as it
/// was.
pub fn handle_heart_beat<S: ConnStatusStorer>(storer: &mut S, uid: i32) -> (done: Result<
    (),
    StoreError,
>)
    ensures
        S::modelled() ==> final(storer).reachable() == old(storer).reachable(),
        S::modelled() ==> (done is Ok <==> old(storer).reachable()),
        S::modelled() ==> final(storer).initializing() == old(storer).initializing(),
        S::modelled() && done is Ok ==> exists|now: i64|
            final(storer).heartbeats() == old(storer).heartbeats().insert(uid, now),
        S::modelled() && done is Err ==> final(storer).heartbeats() == old(storer).heartbeats(),
{
    let now = unix_now();
    record_heart_beat(storer, uid, now)
}

/// Clears the presence record of `uid`: after it, `uid` has none, and
/// every other record is as it was.
pub fn handle_logout<S: ConnStatusStorer>(storer: &mut S, uid: i32) -> (done: Result<
    (),
    StoreError,
>)
    ensures
        S::modelled() ==> final(storer).reachable() == old(storer).reachable(),
        S::modelled() ==> (done is Ok <==> old(storer).reachable()),
        S::modelled() ==> final(storer).initializing() == old(storer).initializing(),
        S::modelled() && done is Ok ==> final(storer).heartbeats() == old(
            storer,
        ).heartbeats().remove(uid),
        S::modelled() && done is Err ==> final(storer).heartbeats() == old(storer).heartbeats(),
{
    storer.unset(uid)
}

/// Makes `message` durable and then looks its recipient up: the session to
/// push it to, or `None` where the recipient is offline and the message
/// waits in the backlog. Where the store fails, nothing was appended and no
/// session is named.
pub fn handler_send<M: MessageStorer>(
    message_storer: &mut M,
    registry: &Registry,
    message: Message,
) -> (route: Result<Option<u64>, StoreError>)
    ensures
        M::modelled() ==> final(message_storer).reachable() == old(message_storer).reachable(),
        M::modelled() ==> (route is Ok <==> old(message_storer).reachable()),
        M::modelled() && route is Ok ==> final(message_storer).log() == old(
            message_storer,
        ).log().push(message@),
        M::modelled() && route is Err ==> final(message_storer).log() == old(message_storer).log(),
        route matches Ok(session) ==> session == route_of(registry@, message.recipient),
{
    let recipient = message.recipient;
    match message_storer.store(message) {
        Ok(()) => Ok(registry.lookup(recipient)),
        Err(error) => Err(error),
    }
}

} // verus!
