//! The relay itself: the sessions of all connections, the registry that
//! routes to them, and the two stores, moved from state to state by the
//! commands that arrive.

use std::collections::HashMap;
use vstd::prelude::*;
use crate::command::{decode, decoded, Command, CommandModel};
use crate::decimal::{render, render_u64};
use crate::error::StoreError;
use crate::handlers::{handle_logout, handler_send, record_heart_beat, unix_now};
use crate::message::{acknowledged, models, pending, Message, MessageModel, MessageStorer};
use crate::registry::{route_of, Registry};
use crate::session::{admits, Session, SessionState};
use crate::status::ConnStatusStorer;

verus! {

/// What became of a frame, for the caller to act on: what to write to which
/// connection, and which connection to close.
#[derive(Debug)]
pub enum Outcome {
    /// The frame spelt no command. The client is sent the notice of an
    /// invalid command; nothing has changed and the connection stays open.
    Invalid,
    /// The command has no transition from the state that the session is
    /// in. Nothing has changed.
    Rejected,
    /// A store failed. The command is reported to the client as failed.
    Failed(StoreError),
    /// No identifier is left for a new message. Nothing has changed.
    Exhausted,
    /// The heartbeat was recorded.
    Refreshed,
    /// The login has begun: this backlog is written to the connection,
    /// oldest first, and then the login is completed.
    Flushing(Vec<Message>),
    /// The login is complete. The session named, if any, served the same
    /// user before and has been closed: its connection is to be dropped.
    Activated(Option<u64>),
    /// The message is durable. It is pushed to the session named, if any;
    /// otherwise it waits in the backlog of its recipient.
    Queued(Message, Option<u64>),
    /// The confirmation was recorded.
    Acknowledged,
    /// The session is closed: its connection is to be dropped.
    Closed,
}

/// The relay: every session, the routes to the users that are online, and
/// the stores of presence and of messages.
pub struct IM<S: ConnStatusStorer, M: MessageStorer> {
    status_storer: S,
    message_broker: M,
    registry: Registry,
    sessions: HashMap<u64, Session>,
    next_session: u64,
    next_message: u64,
}

/// The message that a session of `sender` creates at `now` under the
/// number `number`.
pub open spec fn created(
    number: u64,
    sender: i32,
    target: i32,
    content: Seq<char>,
    now: i64,
) -> MessageModel {
    MessageModel {
        message_id: render(number as int),
        sender,
        recipient: target,
        content,
        created_at: now,
        acknowledged: false,
    }
}

impl<S: ConnStatusStorer, M: MessageStorer> IM<S, M> {
    /// The presence store.
    pub closed spec fn presence(&self) -> S {
        self.status_storer
    }

    /// The message store.
    pub closed spec fn messages(&self) -> M {
        self.message_broker
    }

    /// The sessions that are open, by the handle of their connection.
    pub closed spec fn sessions(&self) -> Map<u64, Session> {
        self.sessions@
    }

    /// The session that each user who is online is routed to.
    pub closed spec fn routes(&self) -> Map<i32, u64> {
        self.registry@
    }

    /// The handle that the next connection gets.
    pub closed spec fn next_session(&self) -> u64 {
        self.next_session
    }

    /// The number that the next message gets.
    pub closed spec fn next_message(&self) -> u64 {
        self.next_message
    }

    /// Where the session of `conn` stands: a connection without a session
    /// is closed.
    pub open spec fn state_of(&self, conn: u64) -> SessionState {
        if self.sessions().contains_key(conn) {
            self.sessions()[conn].state
        } else {
            SessionState::Closed
        }
    }

    /// What holds of the relay at all times. Every open session is known by
    /// its own handle, which was handed out before. Every route leads to an
    /// open session that is active for the user routed, so no route
    /// dangles; and every active session has the route of its user, so no
    /// user is active on two sessions.
    pub open spec fn wf(&self) -> bool {
        &&& forall|c: u64| #[trigger]
            self.sessions().contains_key(c) ==> {
                &&& self.sessions()[c].handle == c
                &&& c < self.next_session()
                &&& self.sessions()[c].wf()
                &&& self.sessions()[c].state != SessionState::Closed
            }
        &&& forall|u: i32| #[trigger]
            self.routes().contains_key(u) ==> {
                &&& self.sessions().contains_key(self.routes()[u])
                &&& self.sessions()[self.routes()[u]].state == SessionState::Active
                &&& self.sessions()[self.routes()[u]].uid == Some(u)
            }
        &&& forall|c: u64| #[trigger]
            self.sessions().contains_key(c) && self.sessions()[c].state == SessionState::Active
                ==> route_of(self.routes(), self.sessions()[c].uid->0) == Some(c)
    }

    /// Whether `command` has a transition from where the session of `conn`
    /// stands.
    pub open spec fn admits(&self, conn: u64, command: CommandModel) -> bool {
        self.sessions().contains_key(conn) && admits(
            self.sessions()[conn].state,
            self.sessions()[conn].uid,
            command,
        )
    }

    /// Whether the sessions, the routes and the two counters of `self` and
    /// `other` are the same.
    pub open spec fn same_sessions(&self, other: &Self) -> bool {
        &&& self.sessions() == other.sessions()
        &&& self.routes() == other.routes()
        &&& self.next_session() == other.next_session()
        &&& self.next_message() == other.next_message()
    }

    /// Whether the presence stores of `self` and `other` hold the same, as
    /// far as they keep to their model.
    pub open spec fn same_presence(&self, other: &Self) -> bool {
        S::modelled() ==> {
            &&& self.presence().reachable() == other.presence().reachable()
            &&& self.presence().heartbeats() == other.presence().heartbeats()
            &&& self.presence().initializing() == other.presence().initializing()
        }
    }

    /// Whether the message stores of `self` and `other` hold the same, as
    /// far as they keep to their model.
    pub open spec fn same_messages(&self, other: &Self) -> bool {
        M::modelled() ==> {
            &&& self.messages().reachable() == other.messages().reachable()
            &&& self.messages().log() == other.messages().log()
        }
    }

    /// Whether nothing that the contracts speak of differs between `self`
    /// and `other`.
    pub open spec fn same(&self, other: &Self) -> bool {
        self.same_sessions(other) && self.same_presence(other) && self.same_messages(other)
    }

    /// What a heartbeat of `uid` at `now` does.
    pub open spec fn heart_beat_applied(&self, post: Self, uid: i32, now: i64, outcome: Outcome) -> bool {
        &&& outcome is Rejected || outcome is Failed || outcome is Refreshed
        &&& S::modelled() && outcome is Failed ==> !self.presence().reachable()
        &&& S::modelled() && outcome is Refreshed ==> self.presence().reachable()
        &&& outcome is Refreshed ==> {
            &&& post.same_sessions(self)
            &&& post.same_messages(self)
            &&& S::modelled() ==> {
                &&& post.presence().reachable() == self.presence().reachable()
                &&& post.presence().heartbeats() == self.presence().heartbeats().insert(uid, now)
                &&& post.presence().initializing() == self.presence().initializing()
            }
        }
    }

    /// What a login of `uid` over `conn` does: the backlog is read, the
    /// login is marked as in progress, and the session waits for the
    /// backlog to be written out.
    pub open spec fn login_applied(&self, post: Self, conn: u64, uid: i32, outcome: Outcome) -> bool {
        &&& outcome is Rejected || outcome is Failed || outcome is Flushing
        &&& M::modelled() && S::modelled() && outcome is Failed ==> !(
        self.messages().reachable() && self.presence().reachable())
        &&& M::modelled() && outcome is Flushing ==> self.messages().reachable()
        &&& S::modelled() && outcome is Flushing ==> self.presence().reachable()
        &&& outcome matches Outcome::Flushing(backlog) ==> {
            &&& post.sessions() == self.sessions().insert(
                conn,
                Session { handle: conn, uid: Some(uid), state: SessionState::Initializing },
            )
            &&& post.routes() == self.routes()
            &&& post.next_message() == self.next_message()
            &&& post.same_messages(self)
            &&& M::modelled() ==> models(backlog@) == pending(self.messages().log(), uid)
            &&& S::modelled() ==> {
                &&& post.presence().reachable() == self.presence().reachable()
                &&& post.presence().heartbeats() == self.presence().heartbeats()
                &&& post.presence().initializing() == self.presence().initializing().insert(uid)
            }
        }
    }

    /// What a logout of `uid` over `conn` does: the presence record and the
    /// route of the user are gone, and so is the session.
    pub open spec fn logout_applied(&self, post: Self, conn: u64, uid: i32, outcome: Outcome) -> bool {
        &&& outcome is Rejected || outcome is Failed || outcome is Closed
        &&& S::modelled() && outcome is Failed ==> !self.presence().reachable()
        &&& S::modelled() && outcome is Closed ==> self.presence().reachable()
        &&& outcome is Closed ==> {
            &&& post.sessions() == self.sessions().remove(conn)
            &&& post.routes() == self.routes().remove(uid)
            &&& post.next_message() == self.next_message()
            &&& post.same_messages(self)
            &&& S::modelled() ==> {
                &&& post.presence().reachable() == self.presence().reachable()
                &&& post.presence().heartbeats() == self.presence().heartbeats().remove(uid)
                &&& post.presence().initializing() == self.presence().initializing()
            }
        }
    }

    /// What sending `content` to `target` over `conn` at `now` does: a
    /// message under a fresh number is appended to the log, and only then
    /// is the session named that it is pushed to.
    pub open spec fn send_applied(
        &self,
        post: Self,
        conn: u64,
        target: i32,
        content: Seq<char>,
        now: i64,
        outcome: Outcome,
    ) -> bool {
        &&& outcome is Rejected || outcome is Failed || outcome is Exhausted || outcome is Queued
        &&& outcome is Exhausted <==> self.state_of(conn) == SessionState::Active
            && self.next_message() == u64::MAX
        &&& outcome is Exhausted ==> post.same(self)
        &&& M::modelled() && outcome is Failed ==> !self.messages().reachable()
        &&& M::modelled() && outcome is Queued ==> self.messages().reachable()
        &&& outcome matches Outcome::Queued(message, route) ==> {
            &&& message@ == created(
                self.next_message(),
                self.sessions()[conn].uid->0,
                target,
                content,
                now,
            )
            &&& route == route_of(self.routes(), target)
            &&& post.sessions() == self.sessions()
            &&& post.routes() == self.routes()
            &&& post.next_message() == self.next_message() + 1
            &&& post.same_presence(self)
            &&& M::modelled() ==> {
                &&& post.messages().reachable() == self.messages().reachable()
                &&& post.messages().log() == self.messages().log().push(message@)
            }
        }
    }

    /// What the confirmation of `msg_id` does.
    pub open spec fn acknowledge_applied(&self, post: Self, msg_id: Seq<char>, outcome: Outcome) -> bool {
        &&& outcome is Rejected || outcome is Failed || outcome is Acknowledged
        &&& M::modelled() && outcome is Failed ==> !self.messages().reachable()
        &&& M::modelled() && outcome is Acknowledged ==> self.messages().reachable()
        &&& outcome is Acknowledged ==> {
            &&& post.same_sessions(self)
            &&& post.same_presence(self)
            &&& M::modelled() ==> {
                &&& post.messages().reachable() == self.messages().reachable()
                &&& post.messages().log() == acknowledged(self.messages().log(), msg_id)
            }
        }
    }

    /// What `command`, arriving over `conn` at `now`, makes of the relay
    /// `self`: the relay `post` and the outcome `outcome`. A command without
    /// a transition from the state of its session is rejected, and a
    /// command during which a store fails is reported as failed; either way
    /// nothing has changed.
    pub open spec fn applied(
        &self,
        post: Self,
        conn: u64,
        command: CommandModel,
        now: i64,
        outcome: Outcome,
    ) -> bool {
        &&& post.next_session() == self.next_session()
        &&& outcome is Rejected <==> !self.admits(conn, command)
        &&& outcome is Rejected ==> post.same(self)
        &&& outcome is Failed ==> post.same(self)
        &&& match command {
            CommandModel::HeartBeat { uid } => self.heart_beat_applied(post, uid, now, outcome),
            CommandModel::Login { uid } => self.login_applied(post, conn, uid, outcome),
            CommandModel::Logout { uid } => self.logout_applied(post, conn, uid, outcome),
            CommandModel::Send { target, content } => self.send_applied(
                post,
                conn,
                target,
                content,
                now,
                outcome,
            ),
            CommandModel::Acknowledge { msg_id } => self.acknowledge_applied(post, msg_id, outcome),
        }
    }

    /// What the frame `frame`, arriving over `conn` at `now`, makes of the
    /// relay `self`. A frame that spells no command changes nothing, in
    /// whatever state its session is.
    pub open spec fn handled(
        &self,
        post: Self,
        conn: u64,
        frame: Seq<char>,
        now: i64,
        outcome: Outcome,
    ) -> bool {
        match decoded(frame) {
            Some(command) => !(outcome is Invalid) && self.applied(post, conn, command, now, outcome),
            None => outcome is Invalid && post.same(self),
        }
    }

    /// What the end of the backlog flush at `now` makes of the session of
    /// `conn`: the user has a presence record, the login is no longer in
    /// progress, and the session holds the route of its user. The session
    /// that held the route before is closed and named in the outcome. Where
    /// the store fails, the session goes on waiting and nothing has
    /// changed.
    pub open spec fn completed(&self, post: Self, conn: u64, now: i64, outcome: Outcome) -> bool {
        let uid = self.sessions()[conn].uid->0;
        let prior = route_of(self.routes(), uid);
        let kept = if prior is Some {
            self.sessions().remove(prior->0)
        } else {
            self.sessions()
        };
        &&& post.next_session() == self.next_session()
        &&& post.next_message() == self.next_message()
        &&& post.same_messages(self)
        &&& outcome is Rejected || outcome is Failed || outcome is Activated
        &&& outcome is Rejected <==> self.state_of(conn) != SessionState::Initializing
        &&& outcome is Rejected ==> post.same(self)
        &&& S::modelled() && outcome is Failed ==> !self.presence().reachable()
        &&& S::modelled() && outcome is Activated ==> self.presence().reachable()
        &&& outcome is Failed ==> post.same_sessions(self) && post.same_presence(self)
        &&& outcome matches Outcome::Activated(closed) ==> {
            &&& closed == prior
            &&& closed != Some(conn)
            &&& post.routes() == self.routes().insert(uid, conn)
            &&& post.sessions() == kept.insert(
                conn,
                Session { handle: conn, uid: Some(uid), state: SessionState::Active },
            )
            &&& S::modelled() ==> {
                &&& post.presence().reachable() == self.presence().reachable()
                &&& post.presence().heartbeats() == self.presence().heartbeats().insert(uid, now)
                &&& post.presence().initializing() == self.presence().initializing().remove(uid)
            }
        }
    }

    /// What the loss of the connection `conn` makes of the relay, whether
    /// the store could be told or not: the session is gone, and with it the
    /// route that led to it.
    pub open spec fn dropped(&self, post: Self, conn: u64) -> bool {
        &&& post.next_session() == self.next_session()
        &&& post.next_message() == self.next_message()
        &&& post.same_messages(self)
        &&& post.sessions() == self.sessions().remove(conn)
        &&& post.routes() == if self.state_of(conn) == SessionState::Active {
            self.routes().remove(self.sessions()[conn].uid->0)
        } else {
            self.routes()
        }
    }

    /// What the loss of the connection `conn` makes of the presence store.
    /// The record of a user that was active, or the mark of a login that
    /// was in progress, is cleared; where the store fails it stays, to
    /// expire there.
    pub open spec fn presence_dropped(&self, post: Self, conn: u64, cleared: Result<(), StoreError>) -> bool {
        let state = self.state_of(conn);
        let uid = self.sessions()[conn].uid->0;
        let asked = state == SessionState::Active || state == SessionState::Initializing;
        &&& !asked ==> cleared is Ok
        &&& S::modelled() ==> {
            &&& post.presence().reachable() == self.presence().reachable()
            &&& cleared is Ok <==> !asked || self.presence().reachable()
            &&& post.presence().heartbeats() == if state == SessionState::Active && cleared is Ok {
                self.presence().heartbeats().remove(uid)
            } else {
                self.presence().heartbeats()
            }
            &&& post.presence().initializing() == if state == SessionState::Initializing
                && cleared is Ok {
                self.presence().initializing().remove(uid)
            } else {
                self.presence().initializing()
            }
        }
    }

    /// A relay over the two stores, with no session and no route, that
    /// numbers its messages from zero.
    pub fn new(status_storer: S, message_broker: M) -> (relay: Self)
        ensures
            relay.wf(),
            relay.presence() == status_storer,
            relay.messages() == message_broker,
            relay.sessions() == Map::<u64, Session>::empty(),
            relay.routes() == Map::<i32, u64>::empty(),
            relay.next_session() == 0,
            relay.next_message() == 0,
    {
        Self::starting_at(status_storer, message_broker, 0)
    }

    /// A relay over the two stores, with no session and no route, that
    /// numbers its messages from `next_message`: the way to go on over a
    /// message store that holds the messages of an earlier run.
    pub fn starting_at(status_storer: S, message_broker: M, next_message: u64) -> (relay: Self)
        ensures
            relay.wf(),
            relay.presence() == status_storer,
            relay.messages() == message_broker,
            relay.sessions() == Map::<u64, Session>::empty(),
            relay.routes() == Map::<i32, u64>::empty(),
            relay.next_session() == 0,
            relay.next_message() == next_message,
    {
        IM {
            status_storer,
            message_broker,
            registry: Registry::new(),
            sessions: HashMap::new(),
            next_session: 0,
            next_message,
        }
    }

    /// Opens the session of a new connection and hands back its handle, or
    /// `None` where no handle is left; then nothing has changed.
    pub fn connect(&mut self) -> (handle: Option<u64>)
        requires
            old(self).wf(),
        ensures
            final(self).wf(),
            final(self).same_presence(old(self)),
            final(self).same_messages(old(self)),
            final(self).routes() == old(self).routes(),
            final(self).next_message() == old(self).next_message(),
            handle is Some <==> old(self).next_session() < u64::MAX,
            handle is None ==> final(self).same_sessions(old(self)),
            handle matches Some(conn) ==> {
                &&& conn == old(self).next_session()
                &&& final(self).next_session() == conn + 1
                &&& !old(self).sessions().contains_key(conn)
                &&& final(self).sessions() == old(self).sessions().insert(
                    conn,
                    Session { handle: conn, uid: None, state: SessionState::Unauthenticated },
                )
            },
    {
        broadcast use vstd::std_specs::hash::group_hash_axioms;

        if self.next_session == u64::MAX {
            return None;
        }
        let conn = self.next_session;
        self.sessions.insert(conn, Session::new(conn));
        self.next_session = conn + 1;
        Some(conn)
    }

    /// The presence store, to look into or to act on beside the relay.
    pub fn status_storer(&mut self) -> (storer: &mut S)
        ensures
            *storer == old(self).presence(),
            final(self).presence() == *final(storer),
            final(self).messages() == old(self).messages(),
            final(self).same_sessions(old(self)),
    {
        &mut self.status_storer
    }

    /// The message store, to look into or to act on beside the relay.
    pub fn message_broker(&mut self) -> (storer: &mut M)
        ensures
            *storer == old(self).messages(),
            final(self).messages() == *final(storer),
            final(self).presence() == old(self).presence(),
            final(self).same_sessions(old(self)),
    {
        &mut self.message_broker
    }

    /// The session of `conn`, while it is open.
    pub fn session(&self, conn: u64) -> (session: Option<Session>)
        ensures
            session == if self.sessions().contains_key(conn) {
                Some(self.sessions()[conn])
            } else {
                None
            },
    {
        broadcast use vstd::std_specs::hash::group_hash_axioms;

        match self.sessions.get(&conn) {
            Some(session) => Some(*session),
            None => None,
        }
    }

    /// Where the session of `conn` stands.
    pub fn state(&self, conn: u64) -> (state: SessionState)
        ensures
            state == self.state_of(conn),
    {
        match self.session(conn) {
            Some(session) => session.state,
            None => SessionState::Closed,
        }
    }

    /// The session that `uid` is routed to, if that user is online.
    pub fn lookup(&self, uid: i32) -> (session: Option<u64>)
        ensures
            session == route_of(self.routes(), uid),
    {
        self.registry.lookup(uid)
    }

    /// Carries out `command`, which arrived over `conn` at `now`.
    pub fn apply(&mut self, conn: u64, command: Command, now: i64) -> (outcome: Outcome)
        requires
            old(self).wf(),
        ensures
            final(self).wf(),
            !(outcome is Invalid),
            old(self).applied(*final(self), conn, command@, now, outcome),
    {
        broadcast use vstd::std_specs::hash::group_hash_axioms;

        let session = match self.session(conn) {
            Some(session) => session,
            None => {
                return Outcome::Rejected;
            },
        };
        match command {
            Command::HeartBeat { uid } => {
                if !(session.state == SessionState::Active && session.uid == Some(uid)) {
                    return Outcome::Rejected;
                }
                match record_heart_beat(&mut self.status_storer, uid, now) {
                    Ok(()) => Outcome::Refreshed,
                    Err(error) => Outcome::Failed(error),
                }
            },
            Command::Login { uid } => {
                let next = match session.begin_login(uid) {
                    Some(next) => next,
                    None => {
                        return Outcome::Rejected;
                    },
                };
                let backlog = match self.message_broker.load(uid) {
                    Ok(backlog) => backlog,
                    Err(error) => {
                        return Outcome::Failed(error);
                    },
                };
                match self.status_storer.set_init(uid) {
                    Ok(()) => {},
                    Err(error) => {
                        return Outcome::Failed(error);
                    },
                }
                self.sessions.insert(conn, next);
                Outcome::Flushing(backlog)
            },
            Command::Logout { uid } => {
                if !(session.state == SessionState::Active && session.uid == Some(uid)) {
                    return Outcome::Rejected;
                }
                match handle_logout(&mut self.status_storer, uid) {
                    Ok(()) => {},
                    Err(error) => {
                        return Outcome::Failed(error);
                    },
                }
                self.registry.unregister(uid, conn);
                self.sessions.remove(&conn);
                Outcome::Closed
            },
            Command::Send { target, content } => {
                let sender = match (session.state, session.uid) {
                    (SessionState::Active, Some(sender)) => sender,
                    _ => {
                        return Outcome::Rejected;
                    },
                };
                if self.next_message == u64::MAX {
                    return Outcome::Exhausted;
                }
                let message = Message {
                    message_id: render_u64(self.next_message),
                    sender,
                    recipient: target,
                    content,
                    created_at: now,
                    acknowledged: false,
                };
                match handler_send(&mut self.message_broker, &self.registry, message.duplicate()) {
                    Ok(route) => {
                        self.next_message = self.next_message + 1;
                        Outcome::Queued(message, route)
                    },
                    Err(error) => Outcome::Failed(error),
                }
            },
            Command::Acknowledge { msg_id } => {
                if session.state != SessionState::Active {
                    return Outcome::Rejected;
                }
                match self.message_broker.acknowledge(msg_id.as_str()) {
                    Ok(()) => Outcome::Acknowledged,
                    Err(error) => Outcome::Failed(error),
                }
            },
        }
    }

    /// Reads the frame that arrived over `conn` at `now` and carries out
    /// the command that it spells.
    pub fn handle_at(&mut self, conn: u64, frame: &str, now: i64) -> (outcome: Outcome)
        requires
            old(self).wf(),
        ensures
            final(self).wf(),
            old(self).handled(*final(self), conn, frame@, now, outcome),
    {
        match decode(frame) {
            Some(command) => self.apply(conn, command, now),
            None => Outcome::Invalid,
        }
    }

    /// Reads the frame that arrived over `conn` and carries out the command
    /// that it spells, at the time on the machine's clock.
    pub fn handle(&mut self, conn: u64, frame: &str) -> (outcome: Outcome)
        requires
            old(self).wf(),
        ensures
            final(self).wf(),
            exists|now: i64| old(self).handled(*final(self), conn, frame@, now, outcome),
    {
        let now = unix_now();
        self.handle_at(conn, frame, now)
    }

    /// Ends the login of the session of `conn`, once its backlog has been
    /// written out, at `now`.
    pub fn complete_login_at(&mut self, conn: u64, now: i64) -> (outcome: Outcome)
        requires
            old(self).wf(),
        ensures
            final(self).wf(),
            old(self).completed(*final(self), conn, now, outcome),
    {
        broadcast use vstd::std_specs::hash::group_hash_axioms;

        let session = match self.session(conn) {
            Some(session) => session,
            None => {
                return Outcome::Rejected;
            },
        };
        let (next, uid) = match (session.activate(), session.uid) {
            (Some(next), Some(uid)) => (next, uid),
            _ => {
                return Outcome::Rejected;
            },
        };
        match self.status_storer.set(uid, now) {
            Ok(()) => {},
            Err(error) => {
                return Outcome::Failed(error);
            },
        }
        match self.status_storer.unset_init(uid) {
            Ok(()) => {},
            Err(error) => {
                return Outcome::Failed(error);
            },
        }
        let prior = self.registry.register(uid, conn);
        match prior {
            Some(before) => {
                self.sessions.remove(&before);
            },
            None => {},
        }
        self.sessions.insert(conn, next);
        Outcome::Activated(prior)
    }

    /// Ends the login of the session of `conn`, once its backlog has been
    /// written out, at the time on the machine's clock.
    pub fn complete_login(&mut self, conn: u64) -> (outcome: Outcome)
        requires
            old(self).wf(),
        ensures
            final(self).wf(),
            exists|now: i64| old(self).completed(*final(self), conn, now, outcome),
    {
        let now = unix_now();
        self.complete_login_at(conn, now)
    }

    /// Closes the session of `conn` because its connection is gone, however
    /// it went. The session and its route are removed in any case; the
    /// result says whether the presence store could be told. A connection
    /// without a session changes nothing, so that the cleanup may run on
    /// every exit path.
    pub fn disconnect(&mut self, conn: u64) -> (cleared: Result<(), StoreError>)
        requires
            old(self).wf(),
        ensures
            final(self).wf(),
            old(self).dropped(*final(self), conn),
            old(self).presence_dropped(*final(self), conn, cleared),
    {
        broadcast use vstd::std_specs::hash::group_hash_axioms;

        let session = match self.session(conn) {
            Some(session) => session,
            None => {
                assert(self.sessions().remove(conn) =~= self.sessions());
                return Ok(());
            },
        };
        self.sessions.remove(&conn);
        match (session.state, session.uid) {
            (SessionState::Active, Some(uid)) => {
                self.registry.unregister(uid, conn);
                handle_logout(&mut self.status_storer, uid)
            },
            (SessionState::Initializing, Some(uid)) => self.status_storer.unset_init(uid),
            _ => Ok(()),
        }
    }
}

} // verus!
