//! The durable message log: what a message is, what the backlog of a
//! recipient is, and the contract of a store of messages.

use vstd::prelude::*;
use vstd::string::*;
use crate::error::StoreError;

verus! {

/// A message as the contracts see it.
pub struct MessageModel {
    /// The unit of acknowledgment and deduplication.
    pub message_id: Seq<char>,
    /// Who sent it.
    pub sender: i32,
    /// Whom it is for.
    pub recipient: i32,
    /// The payload.
    pub content: Seq<char>,
    /// When it was created, in seconds since the epoch.
    pub created_at: i64,
    /// Whether the recipient has confirmed it.
    pub acknowledged: bool,
}

/// A message on its way from one user to another.
#[derive(Debug)]
pub struct Message {
    /// The unit of acknowledgment and deduplication.
    pub message_id: String,
    /// Who sent it.
    pub sender: i32,
    /// Whom it is for.
    pub recipient: i32,
    /// The payload.
    pub content: String,
    /// When it was created, in seconds since the epoch.
    pub created_at: i64,
    /// Whether the recipient has confirmed it.
    pub acknowledged: bool,
}

impl View for Message {
    type V = MessageModel;

    open spec fn view(&self) -> MessageModel {
        MessageModel {
            message_id: self.message_id@,
            sender: self.sender,
            recipient: self.recipient,
            content: self.content@,
            created_at: self.created_at,
            acknowledged: self.acknowledged,
        }
    }
}

impl Message {
    /// A second copy of the message.
    pub fn duplicate(&self) -> (copy: Message)
        ensures
            copy@ == self@,
    {
        Message {
            message_id: self.message_id.clone(),
            sender: self.sender,
            recipient: self.recipient,
            content: self.content.clone(),
            created_at: self.created_at,
            acknowledged: self.acknowledged,
        }
    }
}

/// The models of a run of messages, in the same order.
pub open spec fn models(messages: Seq<Message>) -> Seq<MessageModel> {
    Seq::new(messages.len(), |i: int| messages[i]@)
}

/// Whether `message` still waits for `uid` to confirm it.
pub open spec fn awaits(message: MessageModel, uid: i32) -> bool {
    message.recipient == uid && !message.acknowledged
}

/// The backlog of `uid`: what the log holds for that recipient and has not
/// seen confirmed, in the order in which it was appended.
pub open spec fn pending(log: Seq<MessageModel>, uid: i32) -> Seq<MessageModel> {
    log.filter(|m: MessageModel| awaits(m, uid))
}

/// `message` with its confirmation recorded.
pub open spec fn confirmed(message: MessageModel) -> MessageModel {
    MessageModel { acknowledged: true, ..message }
}

/// The log after the messages named `message_id` have been confirmed: every
/// other message, and the order, stay as they were.
pub open spec fn acknowledged(log: Seq<MessageModel>, message_id: Seq<char>) -> Seq<MessageModel> {
    Seq::new(
        log.len(),
        |i: int|
            if log[i].message_id == message_id {
                confirmed(log[i])
            } else {
                log[i]
            },
    )
}

/// Appending one message lengthens the backlog of its recipient by that
/// message, if it is unconfirmed, and leaves every other backlog as it was.
pub proof fn lemma_pending_push(log: Seq<MessageModel>, message: MessageModel, uid: i32)
    ensures
        pending(log.push(message), uid) == if awaits(message, uid) {
            pending(log, uid).push(message)
        } else {
            pending(log, uid)
        },
{
    reveal(Seq::filter);
    assert(log.push(message).drop_last() =~= log);
}

/// Confirming a message twice leaves the log as confirming it once does.
pub proof fn lemma_acknowledge_idempotent(log: Seq<MessageModel>, message_id: Seq<char>)
    ensures
        acknowledged(acknowledged(log, message_id), message_id) == acknowledged(log, message_id),
{
}

/// Confirming an identifier that no message bears changes nothing.
pub proof fn lemma_acknowledge_unknown(log: Seq<MessageModel>, message_id: Seq<char>)
    requires
        forall|i: int| 0 <= i < log.len() ==> (#[trigger] log[i]).message_id != message_id,
    ensures
        acknowledged(log, message_id) == log,
{
}

/// Confirming a message that is confirmed already changes nothing.
pub proof fn lemma_acknowledge_again(log: Seq<MessageModel>, message_id: Seq<char>)
    requires
        forall|i: int|
            0 <= i < log.len() && (#[trigger] log[i]).message_id == message_id
                ==> log[i].acknowledged,
    ensures
        acknowledged(log, message_id) == log,
{
}

/// Two messages appended one after the other for the same recipient come
/// out of the backlog in that order, behind what waited before them.
pub proof fn lemma_backlog_keeps_order(
    log: Seq<MessageModel>,
    first: MessageModel,
    second: MessageModel,
    uid: i32,
)
    requires
        awaits(first, uid),
        awaits(second, uid),
    ensures
        pending(log.push(first).push(second), uid) == pending(log, uid).push(first).push(second),
{
    lemma_pending_push(log, first, uid);
    lemma_pending_push(log.push(first), second, uid);
}

/// A message appended for a recipient is the last of the backlog that the
/// recipient is handed next.
pub proof fn lemma_appended_message_is_pending(log: Seq<MessageModel>, message: MessageModel)
    requires
        !message.acknowledged,
    ensures
        pending(log.push(message), message.recipient).len() > 0,
        pending(log.push(message), message.recipient).last() == message,
{
    lemma_pending_push(log, message, message.recipient);
}

/// Every message of the log that its recipient has not confirmed is in the
/// backlog of that recipient, and nothing else is.
pub proof fn lemma_pending_holds_what_waits(log: Seq<MessageModel>, message: MessageModel, uid: i32)
    ensures
        pending(log, uid).contains(message) <==> log.contains(message) && awaits(message, uid),
{
    let waits = |m: MessageModel| awaits(m, uid);
    if log.contains(message) && awaits(message, uid) {
        let i = choose|i: int| 0 <= i < log.len() && log[i] == message;
        log.lemma_filter_contains(waits, i);
    }
    if pending(log, uid).contains(message) {
        let j = choose|j: int| 0 <= j < pending(log, uid).len() && pending(log, uid)[j] == message;
        log.lemma_filter_pred(waits, j);
        log.lemma_filter_contains_rev(waits, message);
    }
}

/// A confirmation leaves every message that bears another identifier in
/// the log, as it was.
pub proof fn lemma_acknowledge_keeps_others(
    log: Seq<MessageModel>,
    message_id: Seq<char>,
    message: MessageModel,
)
    requires
        log.contains(message),
        message.message_id != message_id,
    ensures
        acknowledged(log, message_id).contains(message),
{
    let i = choose|i: int| 0 <= i < log.len() && log[i] == message;
    assert(acknowledged(log, message_id)[i] == message);
}

/// A message that was confirmed is in the backlog of no one.
pub proof fn lemma_acknowledged_leaves_backlog(
    log: Seq<MessageModel>,
    message_id: Seq<char>,
    message: MessageModel,
    uid: i32,
)
    requires
        message.message_id == message_id,
    ensures
        !pending(acknowledged(log, message_id), uid).contains(message),
{
    let after = acknowledged(log, message_id);
    lemma_pending_holds_what_waits(after, message, uid);
}

/// A store of messages: an append-only log, read back per recipient.
///
/// The contracts speak of the log that the store holds. A store that keeps
/// to them says so through `modelled`; of one that does not, which is what
/// an implementation outside this library is unless it says otherwise,
/// nothing is claimed.
pub trait MessageStorer {
    /// Whether this kind of store keeps the log that `log` describes.
    open spec fn modelled() -> bool {
        false
    }

    /// Whether the store can be reached: calls to a store that keeps to its
    /// model succeed exactly while it can.
    open spec fn reachable(&self) -> bool {
        false
    }

    /// Every message ever stored, in the order of storing.
    open spec fn log(&self) -> Seq<MessageModel> {
        Seq::empty()
    }

    /// Persists one message behind all that the log holds. An error means
    /// that the log is as it was.
    fn store(&mut self, message: Message) -> (stored: Result<(), StoreError>)
        ensures
            Self::modelled() ==> final(self).reachable() == old(self).reachable(),
            Self::modelled() ==> (stored is Ok <==> old(self).reachable()),
            Self::modelled() && stored is Ok ==> final(self).log() == old(self).log().push(
                message@,
            ),
            Self::modelled() && stored is Err ==> final(self).log() == old(self).log(),
    ;

    /// The backlog of `uid`, oldest first. The log is as it was.
    fn load(&mut self, uid: i32) -> (loaded: Result<Vec<Message>, StoreError>)
        ensures
            Self::modelled() ==> final(self).reachable() == old(self).reachable(),
            Self::modelled() ==> (loaded is Ok <==> old(self).reachable()),
            Self::modelled() ==> final(self).log() == old(self).log(),
            Self::modelled() ==> (loaded matches Ok(backlog) ==> models(backlog@) == pending(
                old(self).log(),
                uid,
            )),
    ;

    /// Records that the messages named `message_id` were confirmed. An
    /// identifier that is unknown, or confirmed already, is no error.
    fn acknowledge(&mut self, message_id: &str) -> (marked: Result<(), StoreError>)
        ensures
            Self::modelled() ==> final(self).reachable() == old(self).reachable(),
            Self::modelled() ==> (marked is Ok <==> old(self).reachable()),
            Self::modelled() && marked is Ok ==> final(self).log() == acknowledged(
                old(self).log(),
                message_id@,
            ),
            Self::modelled() && marked is Err ==> final(self).log() == old(self).log(),
    ;
}

} // verus!
