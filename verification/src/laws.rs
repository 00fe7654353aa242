//! What holds of the relay across commands: presence after a heartbeat and
//! after a logout, the way of a message from a sender to a recipient who
//! was offline, and the one route of each user.

use vstd::prelude::*;
use crate::command::{decoded, CommandModel};
use crate::decimal::{lemma_render_injective, render};
use crate::im::{created, Outcome, IM};
use crate::message::{
    acknowledged, awaits, lemma_acknowledge_idempotent, lemma_acknowledge_keeps_others,
    lemma_pending_holds_what_waits, lemma_pending_push, models, pending, MessageModel,
    MessageStorer,
};
use crate::registry::route_of;
use crate::session::SessionState;
use crate::status::{heartbeat_of, ConnStatusStorer};

verus! {

/// After a heartbeat of a user has been recorded at some time, the presence
/// store gives that time as the user's last heartbeat.
pub proof fn lemma_heartbeat_is_recorded<S: ConnStatusStorer, M: MessageStorer>(
    pre: IM<S, M>,
    post: IM<S, M>,
    conn: u64,
    uid: i32,
    now: i64,
    outcome: Outcome,
)
    requires
        S::modelled(),
        pre.applied(post, conn, CommandModel::HeartBeat { uid }, now, outcome),
        outcome is Refreshed,
    ensures
        heartbeat_of(post.presence().heartbeats(), uid) == Some(now),
{
}

/// After a user has logged out, the presence store has no heartbeat of
/// that user, the registry has no route to that user, and the session is
/// closed.
pub proof fn lemma_logout_clears_presence_and_route<S: ConnStatusStorer, M: MessageStorer>(
    pre: IM<S, M>,
    post: IM<S, M>,
    conn: u64,
    uid: i32,
    now: i64,
    outcome: Outcome,
)
    requires
        pre.applied(post, conn, CommandModel::Logout { uid }, now, outcome),
        outcome is Closed,
    ensures
        S::modelled() ==> heartbeat_of(post.presence().heartbeats(), uid) is None,
        route_of(post.routes(), uid) is None,
        post.state_of(conn) == SessionState::Closed,
{
}

/// After a connection is gone, its session is closed and no route leads to
/// it, whether the presence store could be told or not.
pub proof fn lemma_no_route_to_a_dropped_session<S: ConnStatusStorer, M: MessageStorer>(
    pre: IM<S, M>,
    post: IM<S, M>,
    conn: u64,
    uid: i32,
)
    requires
        pre.wf(),
        pre.dropped(post, conn),
    ensures
        post.state_of(conn) == SessionState::Closed,
        route_of(post.routes(), uid) != Some(conn),
{
}

/// No route dangles: the session that a user is routed to is open and
/// active for that user.
pub proof fn lemma_routes_lead_to_active_sessions<S: ConnStatusStorer, M: MessageStorer>(
    relay: IM<S, M>,
    uid: i32,
    conn: u64,
)
    requires
        relay.wf(),
        route_of(relay.routes(), uid) == Some(conn),
    ensures
        relay.state_of(conn) == SessionState::Active,
        relay.sessions()[conn].uid == Some(uid),
{
}

/// No user is active on two sessions.
pub proof fn lemma_one_active_session_per_user<S: ConnStatusStorer, M: MessageStorer>(
    relay: IM<S, M>,
    first: u64,
    second: u64,
)
    requires
        relay.wf(),
        relay.state_of(first) == SessionState::Active,
        relay.state_of(second) == SessionState::Active,
        relay.sessions()[first].uid == relay.sessions()[second].uid,
    ensures
        first == second,
{
}

/// Of two sessions that complete a login of the same user one after the
/// other, the later one holds the route and is active, and the earlier one
/// is closed and named to the caller, whose connection is then dropped.
pub proof fn lemma_later_login_supersedes<S: ConnStatusStorer, M: MessageStorer>(
    pre: IM<S, M>,
    between: IM<S, M>,
    post: IM<S, M>,
    uid: i32,
    first: u64,
    second: u64,
    first_at: i64,
    second_at: i64,
    first_outcome: Outcome,
    second_outcome: Outcome,
)
    requires
        pre.wf(),
        between.wf(),
        first != second,
        pre.state_of(first) == SessionState::Initializing,
        pre.state_of(second) == SessionState::Initializing,
        pre.sessions()[first].uid == Some(uid),
        pre.sessions()[second].uid == Some(uid),
        pre.completed(between, first, first_at, first_outcome),
        between.completed(post, second, second_at, second_outcome),
        first_outcome is Activated,
        second_outcome is Activated,
    ensures
        second_outcome == Outcome::Activated(Some(first)),
        route_of(post.routes(), uid) == Some(second),
        post.state_of(second) == SessionState::Active,
        post.state_of(first) == SessionState::Closed,
{
}

/// A frame that spells no command leaves the session where it was: what
/// the session admitted before, it admits after.
pub proof fn lemma_invalid_frame_keeps_session<S: ConnStatusStorer, M: MessageStorer>(
    pre: IM<S, M>,
    post: IM<S, M>,
    conn: u64,
    frame: Seq<char>,
    now: i64,
    outcome: Outcome,
    next: CommandModel,
)
    requires
        decoded(frame) is None,
        pre.handled(post, conn, frame, now, outcome),
    ensures
        outcome is Invalid,
        post.state_of(conn) == pre.state_of(conn),
        post.admits(conn, next) == pre.admits(conn, next),
{
}

/// A message sent while its recipient was offline is the last of the
/// backlog that the recipient's next login is handed, content and all.
pub proof fn lemma_queued_message_is_flushed<S: ConnStatusStorer, M: MessageStorer>(
    pre: IM<S, M>,
    between: IM<S, M>,
    post: IM<S, M>,
    sender: u64,
    recipient: u64,
    target: i32,
    content: Seq<char>,
    sent_at: i64,
    login_at: i64,
    sent: Outcome,
    login: Outcome,
)
    requires
        M::modelled(),
        pre.applied(between, sender, CommandModel::Send { target, content }, sent_at, sent),
        between.applied(post, recipient, CommandModel::Login { uid: target }, login_at, login),
        sent is Queued,
        login is Flushing,
    ensures
        sent matches Outcome::Queued(message, route) && login matches Outcome::Flushing(backlog)
            && {
            &&& backlog@.len() > 0
            &&& backlog@.last()@ == message@
            &&& backlog@.last().content@ == content
        },
{
    let message = sent->Queued_0;
    let backlog = login->Flushing_0;
    lemma_pending_push(pre.messages().log(), message@, target);
    assert(models(backlog@).last() == message@);
}

/// A message that has been sent is in the log.
pub proof fn lemma_queued_message_is_logged<S: ConnStatusStorer, M: MessageStorer>(
    pre: IM<S, M>,
    post: IM<S, M>,
    conn: u64,
    target: i32,
    content: Seq<char>,
    now: i64,
    outcome: Outcome,
)
    requires
        M::modelled(),
        pre.applied(post, conn, CommandModel::Send { target, content }, now, outcome),
        outcome is Queued,
    ensures
        post.messages().log().contains(outcome->Queued_0@),
        awaits(outcome->Queued_0@, target),
        outcome->Queued_0.content@ == content,
{
    let log = post.messages().log();
    assert(log[log.len() - 1] == outcome->Queued_0@);
}

/// No command takes a message out of the log, and none changes a message
/// but the confirmation that names it: messages are never lost.
pub proof fn lemma_commands_keep_messages<S: ConnStatusStorer, M: MessageStorer>(
    pre: IM<S, M>,
    post: IM<S, M>,
    conn: u64,
    command: CommandModel,
    now: i64,
    outcome: Outcome,
    message: MessageModel,
)
    requires
        M::modelled(),
        pre.applied(post, conn, command, now, outcome),
        pre.messages().log().contains(message),
        command != (CommandModel::Acknowledge { msg_id: message.message_id }),
    ensures
        post.messages().log().contains(message),
{
    let log = pre.messages().log();
    let i = choose|i: int| 0 <= i < log.len() && log[i] == message;
    match command {
        CommandModel::Send { target, content } => {
            if outcome is Queued {
                assert(post.messages().log()[i] == message);
            }
        },
        CommandModel::Acknowledge { msg_id } => {
            if outcome is Acknowledged {
                lemma_acknowledge_keeps_others(log, msg_id, message);
            }
        },
        _ => {},
    }
}

/// The backlog that a login is handed holds every message of the log that
/// waits for the user, whenever it was sent, and no other.
pub proof fn lemma_login_flushes_what_waits<S: ConnStatusStorer, M: MessageStorer>(
    pre: IM<S, M>,
    post: IM<S, M>,
    conn: u64,
    uid: i32,
    now: i64,
    outcome: Outcome,
    message: MessageModel,
)
    requires
        M::modelled(),
        pre.applied(post, conn, CommandModel::Login { uid }, now, outcome),
        outcome is Flushing,
    ensures
        models(outcome->Flushing_0@).contains(message) <==> pre.messages().log().contains(message)
            && awaits(message, uid),
{
    lemma_pending_holds_what_waits(pre.messages().log(), message, uid);
}

/// Two messages sent one after the other to a recipient who is offline
/// come out of the backlog in that order at the recipient's next login,
/// behind what waited there before.
pub proof fn lemma_backlog_in_sending_order<S: ConnStatusStorer, M: MessageStorer>(
    pre: IM<S, M>,
    after_first: IM<S, M>,
    after_second: IM<S, M>,
    post: IM<S, M>,
    first_sender: u64,
    second_sender: u64,
    recipient: u64,
    target: i32,
    first_content: Seq<char>,
    second_content: Seq<char>,
    first_at: i64,
    second_at: i64,
    login_at: i64,
    first: Outcome,
    second: Outcome,
    login: Outcome,
)
    requires
        M::modelled(),
        pre.applied(
            after_first,
            first_sender,
            CommandModel::Send { target, content: first_content },
            first_at,
            first,
        ),
        after_first.applied(
            after_second,
            second_sender,
            CommandModel::Send { target, content: second_content },
            second_at,
            second,
        ),
        after_second.applied(post, recipient, CommandModel::Login { uid: target }, login_at, login),
        first is Queued,
        second is Queued,
        login is Flushing,
    ensures
        models(login->Flushing_0@) == pending(pre.messages().log(), target).push(
            first->Queued_0@,
        ).push(second->Queued_0@),
        first->Queued_0.content@ == first_content,
        second->Queued_0.content@ == second_content,
{
    let log = pre.messages().log();
    lemma_pending_push(log, first->Queued_0@, target);
    lemma_pending_push(log.push(first->Queued_0@), second->Queued_0@, target);
}

/// Confirming a message twice leaves the log as confirming it once does,
/// and neither confirmation is an error.
pub proof fn lemma_second_confirmation_changes_nothing<S: ConnStatusStorer, M: MessageStorer>(
    pre: IM<S, M>,
    between: IM<S, M>,
    post: IM<S, M>,
    first_conn: u64,
    second_conn: u64,
    msg_id: Seq<char>,
    first_at: i64,
    second_at: i64,
    first: Outcome,
    second: Outcome,
)
    requires
        M::modelled(),
        pre.applied(between, first_conn, CommandModel::Acknowledge { msg_id }, first_at, first),
        between.applied(post, second_conn, CommandModel::Acknowledge { msg_id }, second_at, second),
        first is Acknowledged,
        second is Acknowledged,
    ensures
        post.messages().log() == between.messages().log(),
        post.messages().log() == acknowledged(pre.messages().log(), msg_id),
{
    lemma_acknowledge_idempotent(pre.messages().log(), msg_id);
}

/// Whether no message of `log` bears the identifier of a number from
/// `next` on.
pub open spec fn unused_from(log: Seq<MessageModel>, next: int) -> bool {
    forall|i: int, number: int|
        0 <= i < log.len() && next <= number ==> (#[trigger] log[i]).message_id != #[trigger] render(
            number,
        )
}

/// A message that the relay creates bears an identifier that no message of
/// the log bears, as long as the log holds no identifier of a number that
/// the relay has yet to hand out; and the log with that message appended
/// holds none either.
pub proof fn lemma_created_identifier_is_fresh(
    log: Seq<MessageModel>,
    number: u64,
    sender: i32,
    target: i32,
    content: Seq<char>,
    now: i64,
)
    requires
        unused_from(log, number as int),
    ensures
        forall|i: int|
            0 <= i < log.len() ==> (#[trigger] log[i]).message_id != created(
                number,
                sender,
                target,
                content,
                now,
            ).message_id,
        unused_from(log.push(created(number, sender, target, content, now)), number + 1),
{
    let message = created(number, sender, target, content, now);
    let longer = log.push(message);
    assert forall|i: int, other: int| 0 <= i < longer.len() && number + 1 <= other implies (
    #[trigger] longer[i]).message_id != #[trigger] render(other) by {
        if i == log.len() && render(number as int) == render(other) {
            lemma_render_injective(number as int, other);
        }
    }
}

/// No command brings an identifier into the log that the relay has yet to
/// hand out: from a log without such identifiers on, every message that
/// the relay creates bears an identifier that no message of the log bears.
pub proof fn lemma_relay_keeps_identifiers_fresh<S: ConnStatusStorer, M: MessageStorer>(
    pre: IM<S, M>,
    post: IM<S, M>,
    conn: u64,
    command: CommandModel,
    now: i64,
    outcome: Outcome,
)
    requires
        M::modelled(),
        pre.applied(post, conn, command, now, outcome),
        unused_from(pre.messages().log(), pre.next_message() as int),
    ensures
        unused_from(post.messages().log(), post.next_message() as int),
        outcome matches Outcome::Queued(message, route) ==> forall|i: int|
            0 <= i < pre.messages().log().len() ==> (#[trigger] pre.messages().log()[i]).message_id
                != message.message_id@,
{
    let log = pre.messages().log();
    match command {
        CommandModel::Send { target, content } => {
            if outcome is Queued {
                let sender = pre.sessions()[conn].uid->0;
                lemma_created_identifier_is_fresh(
                    log,
                    pre.next_message(),
                    sender,
                    target,
                    content,
                    now,
                );
            }
        },
        CommandModel::Acknowledge { msg_id } => {
            if outcome is Acknowledged {
                let after = acknowledged(log, msg_id);
                assert forall|i: int| 0 <= i < after.len() implies (#[trigger] after[i]).message_id
                    == log[i].message_id by {}
            }
        },
        _ => {},
    }
}

/// Whether the messages of `log` bear the numbers from zero on, in the
/// order of the log.
pub open spec fn numbered(log: Seq<MessageModel>) -> bool {
    forall|i: int| 0 <= i < log.len() ==> (#[trigger] log[i]).message_id == render(i)
}

/// A log whose messages are numbered from zero holds no identifier of a
/// number from its length on: a relay that starts numbering at the length
/// of such a log hands out identifiers that no message bears.
pub proof fn lemma_numbered_log_is_fresh(log: Seq<MessageModel>)
    requires
        numbered(log),
    ensures
        unused_from(log, log.len() as int),
{
    assert forall|i: int, number: int| 0 <= i < log.len() && log.len() <= number implies (
    #[trigger] log[i]).message_id != #[trigger] render(number) by {
        if render(i) == render(number) {
            lemma_render_injective(i, number);
        }
    }
}

/// A relay that numbers from the length of a numbered log keeps the log
/// numbered and its counter at the length of the log.
pub proof fn lemma_relay_keeps_log_numbered<S: ConnStatusStorer, M: MessageStorer>(
    pre: IM<S, M>,
    post: IM<S, M>,
    conn: u64,
    command: CommandModel,
    now: i64,
    outcome: Outcome,
)
    requires
        M::modelled(),
        pre.applied(post, conn, command, now, outcome),
        numbered(pre.messages().log()),
        pre.next_message() == pre.messages().log().len(),
    ensures
        numbered(post.messages().log()),
        post.next_message() == post.messages().log().len(),
{
    let log = pre.messages().log();
    match command {
        CommandModel::Acknowledge { msg_id } => {
            if outcome is Acknowledged {
                let after = acknowledged(log, msg_id);
                assert forall|i: int| 0 <= i < after.len() implies (#[trigger] after[i]).message_id
                    == log[i].message_id by {}
            }
        },
        _ => {},
    }
}

} // verus!
