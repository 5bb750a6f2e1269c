use vstd::prelude::*;

verus! {

/// Classification of an error reported by the statement channel. The manager
/// pattern-matches only on `SerializationFailure` and `ReadOnlyTransaction`;
/// every other database error travels under `Other` and gets no special
/// handling.
#[derive(Clone, Copy, Debug, PartialEq, Eq, Structural)]
pub enum DatabaseErrorKind {
    /// A conflict under serializable isolation; the backend guarantees the
    /// transaction was not committed.
    SerializationFailure,
    /// A write attempted inside a transaction marked read-only; the backend
    /// guarantees the transaction was not committed.
    ReadOnlyTransaction,
    /// Any other database error; propagated unchanged.
    Other,
}

/// An error surfaced by a transaction-manager operation: raised locally
/// (`AlreadyInTransaction`, never reported by a backend) or reported by the
/// statement channel together with its classification and message.
#[derive(Debug, PartialEq, Eq)]
pub enum Error {
    /// A transaction was already open where none may be.
    AlreadyInTransaction,
    /// An error the statement channel classified and reported.
    DatabaseError(DatabaseErrorKind, String),
}

/// Whether a failed `COMMIT` obliges the manager to issue a compensating
/// `ROLLBACK`: true exactly for the classes of failure after which the backend
/// guarantees that nothing was committed and that a `ROLLBACK` leaves the
/// connection clean.
pub open spec fn triggers_compensating_rollback(e: Error) -> bool {
    match e {
        Error::DatabaseError(k, _) => k is SerializationFailure || k is ReadOnlyTransaction,
        Error::AlreadyInTransaction => false,
    }
}

} // verus!
