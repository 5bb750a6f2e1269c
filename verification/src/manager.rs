use crate::connection::SimpleConnection;
use crate::connection::StatementLog;
use crate::error::DatabaseErrorKind;
use crate::error::Error;
use crate::error::triggers_compensating_rollback;
use crate::sql::begin_sql;
use crate::sql::begin_stmt;
use crate::sql::commit_sql;
use crate::sql::commit_stmt;
use crate::sql::rollback_sql;
use crate::sql::rollback_stmt;
use vstd::prelude::*;

verus! {

/// What one `begin` does to a depth-`d0` manager and a channel with history
/// `l0`: the begin statement for `d0` is issued; on success the depth rises
/// by one, on failure it is unchanged and the channel's error is returned.
pub open spec fn begin_transition(
    d0: nat,
    l0: StatementLog,
    d1: nat,
    l1: StatementLog,
    r: Result<(), Error>,
) -> bool {
    &&& l1 == l0.push((begin_stmt(d0), r))
    &&& (r is Ok ==> d1 == d0 + 1)
    &&& (r is Err ==> d1 == d0)
}

/// What one `rollback` does to a depth-`d0` manager and a channel with
/// history `l0`: the rollback statement for `d0` is issued; on success the
/// depth falls by one, on failure it is unchanged and the channel's error is
/// returned.
pub open spec fn rollback_transition(
    d0: nat,
    l0: StatementLog,
    d1: nat,
    l1: StatementLog,
    r: Result<(), Error>,
) -> bool {
    &&& l1 == l0.push((rollback_stmt(d0), r))
    &&& (r is Ok ==> d1 == d0 - 1)
    &&& (r is Err ==> d1 == d0)
}

/// What one `commit` does to a depth-`d0` manager and a channel with history
/// `l0`. Above depth one, the most recent savepoint is released: on success
/// the depth falls by one, on failure it is unchanged. At depth one, `COMMIT`
/// is issued; if it fails with one of the classes after which the backend
/// guarantees a `ROLLBACK` to succeed, a compensating `ROLLBACK` follows and
/// the depth falls to zero whatever that rollback returned — the caller gets
/// the original commit error when the rollback succeeded, and the rollback's
/// own error (the connection is then broken and must not be reused) when it
/// did not. Any other commit failure leaves the depth unchanged and is
/// returned as it came.
pub open spec fn commit_transition(
    d0: nat,
    l0: StatementLog,
    d1: nat,
    l1: StatementLog,
    r: Result<(), Error>,
) -> bool {
    if d0 > 1 {
        &&& l1 == l0.push((commit_stmt(d0), r))
        &&& (r is Ok ==> d1 == d0 - 1)
        &&& (r is Err ==> d1 == d0)
    } else {
        &&& l0.len() < l1.len()
        &&& ({
            let cr = l1[l0.len() as int].1;
            let rr = l1.last().1;
            &&& l1[l0.len() as int].0 == commit_stmt(d0)
            &&& (cr is Ok ==> {
                &&& l1 == l0.push((commit_stmt(d0), cr))
                &&& r is Ok
                &&& d1 == 0
            })
            &&& (cr matches Err(ce) && !triggers_compensating_rollback(ce) ==> {
                &&& l1 == l0.push((commit_stmt(d0), cr))
                &&& r == cr
                &&& d1 == d0
            })
            &&& (cr matches Err(ce) && triggers_compensating_rollback(ce) ==> {
                &&& l1 == l0.push((commit_stmt(d0), cr)).push((rollback_stmt(1), rr))
                &&& d1 == 0
                &&& r == (if rr is Ok {
                    cr
                } else {
                    rr
                })
            })
        })
    }
}

/// Manages the internal transaction state for a connection.
///
/// There is one implementation per backend family, selected when the
/// connection is built; the contract here is the part every backend shares,
/// the depth discipline. Which SQL an implementation issues is its own,
/// stronger contract — see `AnsiTransactionManager`.
pub trait TransactionManager<Conn: SimpleConnection>: Sized {
    /// The number of currently-open nested transaction levels on the owning
    /// connection: zero outside a transaction, one for an open top-level
    /// transaction, each further level an open savepoint.
    spec fn spec_depth(&self) -> nat;

    /// Begin a new transaction, or a savepoint when one is already open.
    /// Increments the depth by one exactly when the statement succeeded.
    fn begin_transaction(&mut self, conn: &mut Conn) -> (r: Result<(), Error>)
        requires
            old(self).spec_depth() < u32::MAX,
            old(conn).wf(),
        ensures
            final(conn).wf(),
            r is Ok ==> final(self).spec_depth() == old(self).spec_depth() + 1,
            r is Err ==> final(self).spec_depth() == old(self).spec_depth(),
    ;

    /// Roll back the innermost transaction or savepoint. Decrements the depth
    /// by one exactly when the statement succeeded.
    fn rollback_transaction(&mut self, conn: &mut Conn) -> (r: Result<(), Error>)
        requires
            old(self).spec_depth() >= 1,
            old(conn).wf(),
        ensures
            final(conn).wf(),
            r is Ok ==> final(self).spec_depth() == old(self).spec_depth() - 1,
            r is Err ==> final(self).spec_depth() == old(self).spec_depth(),
    ;

    /// Commit the innermost transaction or savepoint. Decrements the depth by
    /// one on success; a failed commit may still have closed the transaction
    /// (see the implementation's recovery contract), so after a failure the
    /// depth is only known to have fallen by at most one.
    fn commit_transaction(&mut self, conn: &mut Conn) -> (r: Result<(), Error>)
        requires
            old(self).spec_depth() >= 1,
            old(conn).wf(),
        ensures
            final(conn).wf(),
            r is Ok ==> final(self).spec_depth() == old(self).spec_depth() - 1,
            final(self).spec_depth() == old(self).spec_depth() || final(self).spec_depth()
                == old(self).spec_depth() - 1,
    ;

    /// The current transaction depth; no side effects, never fails. Callers
    /// use it to refuse operations that need a fully top-level context.
    fn get_transaction_depth(&self) -> (d: u32)
        ensures
            d == self.spec_depth(),
    ;
}

/// A `TransactionManager` for backends that use ANSI standard syntax for
/// savepoints, such as SQLite and PostgreSQL.
pub struct AnsiTransactionManager {
    transaction_depth: u32,
}

impl AnsiTransactionManager {
    /// The transaction depth this manager tracks for its connection.
    pub closed spec fn depth_spec(&self) -> nat {
        self.transaction_depth as nat
    }

    /// Create a new transaction manager, outside any transaction.
    pub fn new() -> (m: Self)
        ensures
            m.depth_spec() == 0,
    {
        AnsiTransactionManager::default()
    }

    /// Applies `by` to the depth exactly when the statement result `query` is
    /// success, and hands `query` through unchanged: the server-side state
    /// advances only with a successful statement, and so does the counter.
    fn change_transaction_depth(&mut self, by: i32, query: Result<(), Error>) -> (r: Result<
        (),
        Error,
    >)
        requires
            0 <= old(self).depth_spec() + by,
            old(self).depth_spec() + by <= u32::MAX,
        ensures
            query is Ok ==> final(self).depth_spec() == old(self).depth_spec() + by,
            query is Err ==> final(self).depth_spec() == old(self).depth_spec(),
            r == query,
    {
        if query.is_ok() {
            let widened: i64 = self.transaction_depth as i64 + by as i64;
            self.transaction_depth = widened as u32;
        }
        query
    }

    /// Begin a transaction with custom SQL, used to set things such as
    /// isolation levels or access modes. Only valid outside a transaction:
    /// at depth zero the supplied SQL is issued as a batch statement and, on
    /// success, the depth becomes one; at any other depth nothing is issued
    /// and `AlreadyInTransaction` is returned.
    pub fn begin_transaction_sql<Conn: SimpleConnection>(
        &mut self,
        conn: &mut Conn,
        sql: &str,
    ) -> (r: Result<(), Error>)
        requires
            old(conn).wf(),
        ensures
            final(conn).wf(),
            old(self).depth_spec() == 0 ==> final(conn).log() == old(conn).log().push((sql@, r)),
            old(self).depth_spec() == 0 && r is Ok ==> final(self).depth_spec() == 1,
            old(self).depth_spec() == 0 && r is Err ==> final(self).depth_spec() == 0,
            old(self).depth_spec() == 0 ==> (r matches Err(e) ==> e is DatabaseError),
            old(self).depth_spec() != 0 ==> final(conn).log() == old(conn).log(),
            old(self).depth_spec() != 0 ==> final(self).depth_spec() == old(self).depth_spec(),
            old(self).depth_spec() != 0 ==> r == Err::<(), Error>(Error::AlreadyInTransaction),
    {
        if self.transaction_depth == 0 {
            let r = conn.batch_execute(sql);
            self.change_transaction_depth(1, r)
        } else {
            Err(Error::AlreadyInTransaction)
        }
    }
}

impl Default for AnsiTransactionManager {
    /// A fresh manager, outside any transaction.
    fn default() -> (m: Self)
        ensures
            m.depth_spec() == 0,
    {
        AnsiTransactionManager { transaction_depth: 0 }
    }
}

impl<Conn: SimpleConnection> TransactionManager<Conn> for AnsiTransactionManager {
    open spec fn spec_depth(&self) -> nat {
        self.depth_spec()
    }

    fn begin_transaction(&mut self, conn: &mut Conn) -> (r: Result<(), Error>)
        ensures
            begin_transition(
                old(self).depth_spec(),
                old(conn).log(),
                final(self).depth_spec(),
                final(conn).log(),
                r,
            ),
            r matches Err(e) ==> e is DatabaseError,
    {
        let depth: u32 = self.transaction_depth;
        let sql = begin_sql(depth);
        let r = conn.batch_execute(sql.as_str());
        self.change_transaction_depth(1, r)
    }

    fn rollback_transaction(&mut self, conn: &mut Conn) -> (r: Result<(), Error>)
        ensures
            rollback_transition(
                old(self).depth_spec(),
                old(conn).log(),
                final(self).depth_spec(),
                final(conn).log(),
                r,
            ),
            r matches Err(e) ==> e is DatabaseError,
    {
        let depth: u32 = self.transaction_depth;
        let sql = rollback_sql(depth);
        let r = conn.batch_execute(sql.as_str());
        self.change_transaction_depth(-1, r)
    }

    fn commit_transaction(&mut self, conn: &mut Conn) -> (r: Result<(), Error>)
        ensures
            commit_transition(
                old(self).depth_spec(),
                old(conn).log(),
                final(self).depth_spec(),
                final(conn).log(),
                r,
            ),
            r matches Err(e) ==> e is DatabaseError,
    {
        let depth: u32 = self.transaction_depth;
        let sql = commit_sql(depth);
        if depth <= 1 {
            let cr = conn.batch_execute(sql.as_str());
            let recover: bool = match &cr {
                Err(Error::DatabaseError(DatabaseErrorKind::SerializationFailure, _)) => true,
                Err(Error::DatabaseError(DatabaseErrorKind::ReadOnlyTransaction, _)) => true,
                _ => false,
            };
            if recover {
                let rr = conn.batch_execute(rollback_sql(1).as_str());
                self.transaction_depth = 0;
                match rr {
                    Ok(()) => cr,
                    Err(re) => Err(re),
                }
            } else {
                self.change_transaction_depth(-1, cr)
            }
        } else {
            let r = conn.batch_execute(sql.as_str());
            self.change_transaction_depth(-1, r)
        }
    }

    fn get_transaction_depth(&self) -> (d: u32) {
        self.transaction_depth
    }
}

} // verus!
