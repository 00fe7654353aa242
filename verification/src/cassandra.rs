//! The message store as a table of rows, one for each message: the
//! contract of such a table, one held in memory, and the message store on
//! top of it.

use vstd::prelude::*;
use vstd::string::*;
use crate::error::StoreError;
use crate::message::{
    acknowledged, lemma_pending_push, models, pending, Message, MessageModel, MessageStorer,
};

verus! {

/// The rows of `uid`, in the order of the table, confirmed or not.
pub open spec fn selected(rows: Seq<MessageModel>, uid: i32) -> Seq<MessageModel> {
    rows.filter(|row: MessageModel| row.recipient == uid)
}

/// The rows that have not been confirmed, in their order.
pub open spec fn unconfirmed(rows: Seq<MessageModel>) -> Seq<MessageModel> {
    rows.filter(|row: MessageModel| !row.acknowledged)
}

/// Appending a row lengthens what is selected for its recipient by that
/// row, and leaves what is selected for anyone else as it was.
pub proof fn lemma_selected_push(rows: Seq<MessageModel>, row: MessageModel, uid: i32)
    ensures
        selected(rows.push(row), uid) == if row.recipient == uid {
            selected(rows, uid).push(row)
        } else {
            selected(rows, uid)
        },
{
    reveal(Seq::filter);
    assert(rows.push(row).drop_last() =~= rows);
}

/// Appending a row lengthens the unconfirmed rows by that row, unless it
/// is confirmed.
pub proof fn lemma_unconfirmed_push(rows: Seq<MessageModel>, row: MessageModel)
    ensures
        unconfirmed(rows.push(row)) == if row.acknowledged {
            unconfirmed(rows)
        } else {
            unconfirmed(rows).push(row)
        },
{
    reveal(Seq::filter);
    assert(rows.push(row).drop_last() =~= rows);
}

/// The backlog of a recipient is what is left of the recipient's rows once
/// the confirmed ones are taken out.
pub proof fn lemma_pending_of_selected(rows: Seq<MessageModel>, uid: i32)
    ensures
        pending(rows, uid) == unconfirmed(selected(rows, uid)),
    decreases rows.len(),
{
    reveal(Seq::filter);
    if rows.len() > 0 {
        let rest = rows.drop_last();
        let row = rows.last();
        lemma_pending_of_selected(rest, uid);
        assert(rows =~= rest.push(row));
        lemma_pending_push(rest, row, uid);
        lemma_selected_push(rest, row, uid);
        if row.recipient == uid {
            lemma_unconfirmed_push(selected(rest, uid), row);
        }
    }
}

/// A table of messages, one row for each: appended to, read back per
/// recipient, and marked by identifier.
///
/// The contracts speak of the rows that the table holds. A table that
/// keeps to them says so through `modelled`; of one that does not, which is
/// what an implementation outside this library is unless it says otherwise,
/// nothing is claimed.
pub trait RowStorer {
    /// Whether this kind of table keeps the rows that `rows` describes.
    open spec fn modelled() -> bool {
        false
    }

    /// Whether the table can be reached: calls to a table that keeps to its
    /// model succeed exactly while it can.
    open spec fn reachable(&self) -> bool {
        false
    }

    /// Every row ever inserted, in the order of inserting.
    open spec fn rows(&self) -> Seq<MessageModel> {
        Seq::empty()
    }

    /// Inserts `row` behind all others. An error means that the rows are
    /// as they were.
    fn insert(&mut self, row: Message) -> (done: Result<(), StoreError>)
        ensures
            Self::modelled() ==> final(self).reachable() == old(self).reachable(),
            Self::modelled() ==> (done is Ok <==> old(self).reachable()),
            Self::modelled() && done is Ok ==> final(self).rows() == old(self).rows().push(row@),
            Self::modelled() && done is Err ==> final(self).rows() == old(self).rows(),
    ;

    /// The rows of `uid`, oldest first, confirmed or not. The rows are as
    /// they were.
    fn select(&mut self, uid: i32) -> (found: Result<Vec<Message>, StoreError>)
        ensures
            Self::modelled() ==> final(self).reachable() == old(self).reachable(),
            Self::modelled() ==> (found is Ok <==> old(self).reachable()),
            Self::modelled() ==> final(self).rows() == old(self).rows(),
            Self::modelled() ==> (found matches Ok(rows) ==> models(rows@) == selected(
                old(self).rows(),
                uid,
            )),
    ;

    /// Marks the rows that bear `message_id` as confirmed; where no row
    /// bears it, or the rows that do are marked already, nothing changes.
    /// An error means that the rows are as they were.
    fn mark(&mut self, message_id: &str) -> (done: Result<(), StoreError>)
        ensures
            Self::modelled() ==> final(self).reachable() == old(self).reachable(),
            Self::modelled() ==> (done is Ok <==> old(self).reachable()),
            Self::modelled() && done is Ok ==> final(self).rows() == acknowledged(
                old(self).rows(),
                message_id@,
            ),
            Self::modelled() && done is Err ==> final(self).rows() == old(self).rows(),
    ;
}

/// A table held in memory, which can be switched off to stand for one that
/// cannot be reached.
pub struct MemoryRowStorer {
    rows: Vec<Message>,
    reachable: bool,
}

impl MemoryRowStorer {
    /// An empty table that can be reached.
    pub fn new() -> (table: Self)
        ensures
            table.rows() == Seq::<MessageModel>::empty(),
            table.reachable(),
    {
        MemoryRowStorer { rows: Vec::new(), reachable: true }
    }

    /// Makes every later call succeed, or fail with `StoreError::Connection`.
    pub fn set_reachable(&mut self, reachable: bool)
        ensures
            final(self).rows() == old(self).rows(),
            final(self).reachable() == reachable,
    {
        self.reachable = reachable;
    }

    /// How many rows the table holds.
    pub fn len(&self) -> (n: usize)
        ensures
            n == self.rows().len(),
    {
        self.rows.len()
    }

    /// The row at `index` of the table.
    pub fn get(&self, index: usize) -> (row: Option<Message>)
        ensures
            index < self.rows().len() ==> row is Some && row->0@ == self.rows()[index as int],
            index >= self.rows().len() ==> row is None,
    {
        if index < self.rows.len() {
            Some(self.rows[index].duplicate())
        } else {
            None
        }
    }
}

impl RowStorer for MemoryRowStorer {
    open spec fn modelled() -> bool {
        true
    }

    closed spec fn reachable(&self) -> bool {
        self.reachable
    }

    closed spec fn rows(&self) -> Seq<MessageModel> {
        models(self.rows@)
    }

    fn insert(&mut self, row: Message) -> (done: Result<(), StoreError>)
        ensures
            done is Err ==> done == Err::<(), StoreError>(StoreError::Connection),
    {
        if !self.reachable {
            return Err(StoreError::Connection);
        }
        self.rows.push(row);
        Ok(())
    }

    fn select(&mut self, uid: i32) -> (found: Result<Vec<Message>, StoreError>)
        ensures
            found is Err ==> found == Err::<Vec<Message>, StoreError>(StoreError::Connection),
    {
        if !self.reachable {
            return Err(StoreError::Connection);
        }
        let mut found: Vec<Message> = Vec::new();
        let mut i: usize = 0;
        proof {
            reveal(Seq::filter);
        }
        while i < self.rows.len()
            invariant
                i <= self.rows.len(),
                self.rows() == models(self.rows@),
                models(found@) == selected(self.rows().subrange(0, i as int), uid),
            decreases self.rows.len() - i,
        {
            let ghost seen = self.rows().subrange(0, i as int);
            if self.rows[i].recipient == uid {
                found.push(self.rows[i].duplicate());
            }
            proof {
                lemma_selected_push(seen, self.rows()[i as int], uid);
                assert(self.rows().subrange(0, i + 1) =~= seen.push(self.rows()[i as int]));
            }
            i = i + 1;
        }
        assert(self.rows().subrange(0, i as int) =~= self.rows());
        Ok(found)
    }

    fn mark(&mut self, message_id: &str) -> (done: Result<(), StoreError>)
        ensures
            done is Err ==> done == Err::<(), StoreError>(StoreError::Connection),
    {
        if !self.reachable {
            return Err(StoreError::Connection);
        }
        let wanted = message_id.to_owned();
        let mut i: usize = 0;
        while i < self.rows.len()
            invariant
                i <= self.rows.len(),
                wanted@ == message_id@,
                self.reachable == old(self).reachable,
                self.rows.len() == old(self).rows.len(),
                forall|j: int|
                    0 <= j < i ==> (#[trigger] self.rows[j])@ == acknowledged(
                        old(self).rows(),
                        message_id@,
                    )[j],
                forall|j: int|
                    i <= j < self.rows.len() ==> (#[trigger] self.rows[j])@ == old(self).rows()[j],
            decreases self.rows.len() - i,
        {
            if self.rows[i].message_id == wanted {
                self.rows[i].acknowledged = true;
            }
            i = i + 1;
        }
        Ok(())
    }
}

/// The message store on top of a table of rows. The log is the table: a
/// message is stored as one row, a confirmation marks the rows that bear
/// the identifier, and the backlog of a recipient is what is left of the
/// recipient's rows once the confirmed ones are taken out.
pub struct CassandraStorer<R: RowStorer> {
    sess: R,
}

impl<R: RowStorer> CassandraStorer<R> {
    /// The table underneath.
    pub closed spec fn table(&self) -> R {
        self.sess
    }

    /// A message store on top of `sess`.
    pub fn new(sess: R) -> (storer: Self)
        ensures
            storer.table() == sess,
    {
        CassandraStorer { sess }
    }

    /// The table underneath, to look into or to act on.
    pub fn session(&mut self) -> (sess: &mut R)
        ensures
            *sess == old(self).table(),
            final(self).table() == *final(sess),
    {
        &mut self.sess
    }
}

impl<R: RowStorer> MessageStorer for CassandraStorer<R> {
    open spec fn modelled() -> bool {
        R::modelled()
    }

    open spec fn reachable(&self) -> bool {
        self.table().reachable()
    }

    open spec fn log(&self) -> Seq<MessageModel> {
        self.table().rows()
    }

    fn store(&mut self, message: Message) -> (stored: Result<(), StoreError>) {
        self.sess.insert(message)
    }

    fn load(&mut self, uid: i32) -> (loaded: Result<Vec<Message>, StoreError>) {
        let rows = match self.sess.select(uid) {
            Ok(rows) => rows,
            Err(error) => {
                return Err(error);
            },
        };
        let mut backlog: Vec<Message> = Vec::new();
        let mut i: usize = 0;
        proof {
            reveal(Seq::filter);
        }
        while i < rows.len()
            invariant
                i <= rows.len(),
                models(backlog@) == unconfirmed(models(rows@).subrange(0, i as int)),
            decreases rows.len() - i,
        {
            let ghost seen = models(rows@).subrange(0, i as int);
            if !rows[i].acknowledged {
                backlog.push(rows[i].duplicate());
            }
            proof {
                lemma_unconfirmed_push(seen, rows[i as int]@);
                assert(models(rows@).subrange(0, i + 1) =~= seen.push(rows[i as int]@));
            }
            i = i + 1;
        }
        proof {
            assert(models(rows@).subrange(0, i as int) =~= models(rows@));
            lemma_pending_of_selected(old(self).table().rows(), uid);
        }
        Ok(backlog)
    }

    fn acknowledge(&mut self, message_id: &str) -> (marked: Result<(), StoreError>) {
        self.sess.mark(message_id)
    }
}

/// The statement that appends one message to the table.
pub fn insert_statement() -> (cql: &'static str)
    ensures
        cql@
            == "INSERT INTO with_baby.messages (message_id, sender, uid, content, created_at, acknowledged) VALUES (?, ?, ?, ?, ?, ?)"@,
{
    "INSERT INTO with_baby.messages (message_id, sender, uid, content, created_at, acknowledged) VALUES (?, ?, ?, ?, ?, ?)"
}

/// The statement that reads the rows of one recipient.
pub fn select_statement() -> (cql: &'static str)
    ensures
        cql@
            == "SELECT message_id, sender, content, created_at, acknowledged FROM with_baby.messages WHERE uid = ?"@,
{
    "SELECT message_id, sender, content, created_at, acknowledged FROM with_baby.messages WHERE uid = ?"
}

/// The statement that marks the row of one message as confirmed, and
/// leaves the table alone where there is no such row.
pub fn mark_statement() -> (cql: &'static str)
    ensures
        cql@ == "UPDATE with_baby.messages SET acknowledged = true WHERE message_id = ? IF EXISTS"@,
{
    "UPDATE with_baby.messages SET acknowledged = true WHERE message_id = ? IF EXISTS"
}

/// The statement that counts the rows of the table.
pub fn count_statement() -> (cql: &'static str)
    ensures
        cql@ == "SELECT COUNT(*) FROM with_baby.messages"@,
{
    "SELECT COUNT(*) FROM with_baby.messages"
}

/// Where the message store is reached.
#[derive(Debug)]
pub struct CassandraConnectionManager {
    addr: String,
}

impl CassandraConnectionManager {
    /// The contact points that sessions are opened to.
    pub closed spec fn address(&self) -> Seq<char> {
        self.addr@
    }

    /// A manager of sessions with the cluster at `addr`.
    pub fn new(addr: &str) -> (manager: Self)
        ensures
            manager.address() == addr@,
    {
        CassandraConnectionManager { addr: addr.to_owned() }
    }

    /// The contact points that sessions are opened to.
    pub fn addr(&self) -> (addr: &str)
        ensures
            addr@ == self.address(),
    {
        self.addr.as_str()
    }

    /// Whether a session that reports `available_connections` open
    /// connections to the cluster can still be handed out: one with none
    /// left cannot.
    pub fn is_valid(&self, available_connections: u64) -> (valid: Result<(), StoreError>)
        ensures
            valid is Ok <==> available_connections != 0,
            valid is Err ==> valid == Err::<(), StoreError>(StoreError::Connection),
    {
        if available_connections == 0 {
            return Err(StoreError::Connection);
        }
        Ok(())
    }
}

} // verus!
