//! The session of one connection and the states that it passes through.

use vstd::prelude::*;
use crate::command::CommandModel;

verus! {

/// Where a session stands. A session starts `Unauthenticated` and ends
/// `Closed`.
#[derive(Debug, Clone, Copy, PartialEq, Eq, Structural)]
pub enum SessionState {
    /// Connected; no user has logged in.
    Unauthenticated,
    /// A login is in progress: the backlog is being written out.
    Initializing,
    /// The user is online on this connection.
    Active,
    /// The connection is gone.
    Closed,
}

/// One connection: its handle, the user that logged in over it, and where
/// it stands.
#[derive(Debug, Clone, Copy)]
pub struct Session {
    /// The handle of the connection.
    pub handle: u64,
    /// The user that logged in, once one has.
    pub uid: Option<i32>,
    /// Where the session stands.
    pub state: SessionState,
}

/// Whether `command` has a transition from `state` for a session of `uid`.
/// A login starts from `Unauthenticated`; everything else is for the user
/// that is `Active` on the connection.
pub open spec fn admits(state: SessionState, uid: Option<i32>, command: CommandModel) -> bool {
    match command {
        CommandModel::Login { uid: _ } => state == SessionState::Unauthenticated,
        CommandModel::HeartBeat { uid: who } => state == SessionState::Active && uid == Some(who),
        CommandModel::Logout { uid: who } => state == SessionState::Active && uid == Some(who),
        CommandModel::Send { target: _, content: _ } => state == SessionState::Active,
        CommandModel::Acknowledge { msg_id: _ } => state == SessionState::Active,
    }
}

impl Session {
    /// A session knows its user exactly while a login is in progress or
    /// done.
    pub open spec fn wf(&self) -> bool {
        self.uid is Some <==> (self.state == SessionState::Initializing || self.state
            == SessionState::Active)
    }

    /// The session of a fresh connection.
    pub fn new(handle: u64) -> (session: Session)
        ensures
            session == (Session { handle, uid: None, state: SessionState::Unauthenticated }),
            session.wf(),
    {
        Session { handle, uid: None, state: SessionState::Unauthenticated }
    }

    /// The session once `uid` has begun to log in, which only a session
    /// that is `Unauthenticated` can.
    pub fn begin_login(self, uid: i32) -> (next: Option<Session>)
        ensures
            next == if self.state == SessionState::Unauthenticated {
                Some(Session { uid: Some(uid), state: SessionState::Initializing, ..self })
            } else {
                None
            },
            next matches Some(session) ==> session.wf(),
    {
        match self.state {
            SessionState::Unauthenticated => Some(
                Session { handle: self.handle, uid: Some(uid), state: SessionState::Initializing },
            ),
            _ => None,
        }
    }

    /// The session once the backlog has been written out, which only a
    /// session that is `Initializing` has to do.
    pub fn activate(self) -> (next: Option<Session>)
        ensures
            next == if self.state == SessionState::Initializing {
                Some(Session { state: SessionState::Active, ..self })
            } else {
                None
            },
            self.wf() ==> (next matches Some(session) ==> session.wf()),
    {
        match self.state {
            SessionState::Initializing => Some(
                Session { handle: self.handle, uid: self.uid, state: SessionState::Active },
            ),
            _ => None,
        }
    }
}

} // verus!
