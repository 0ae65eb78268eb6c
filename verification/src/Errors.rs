use vstd::prelude::*;

verus! {

/// The kinds of database error a failed query can end in.
#[derive(Clone, Copy, Debug, PartialEq, Eq, Structural)]
pub enum DbErrorKind {
    /// A string with an interior nul byte was sent.
    InvalidCString,
    /// The database refused the query.
    DatabaseError,
    /// No row matched.
    NotFound,
    /// The transaction was rolled back on request.
    RollbackTransaction,
    /// A transaction was begun inside another.
    AlreadyInTransaction,
    /// Any other kind: building, serialising or deserialising the query.
    Other,
}

/// An error to answer a request to place a bet with: a message and an HTTP
/// status.
pub struct bet_make_error {
    pub msg: &'static str,
    pub code: u16,
}

impl bet_make_error {
    /// The message and status each kind of database error is answered with.
    pub open spec fn answer(kind: DbErrorKind) -> (Seq<char>, u16) {
        match kind {
            DbErrorKind::InvalidCString => ("InvalidCString"@, 500),
            DbErrorKind::DatabaseError => ("InternalServerError(DB)"@, 500),
            DbErrorKind::NotFound => ("NotFound"@, 404),
            DbErrorKind::RollbackTransaction => ("TransactionErr"@, 500),
            DbErrorKind::AlreadyInTransaction => ("TransactionErr"@, 500),
            DbErrorKind::Other => ("SerDe error"@, 500),
        }
    }

    /// The answer to a database error: 404 "NotFound" where no row matched,
    /// and 500 with a message naming the kind of error otherwise.
    pub fn from(kind: DbErrorKind) -> (e: bet_make_error)
        ensures
            (e.msg@, e.code) == Self::answer(kind),
            kind == DbErrorKind::NotFound ==> (e.msg@ == "NotFound"@ && e.code == 404),
            kind == DbErrorKind::InvalidCString ==> (e.msg@ == "InvalidCString"@ && e.code == 500),
            kind == DbErrorKind::DatabaseError ==> (e.msg@ == "InternalServerError(DB)"@ && e.code
                == 500),
            (kind == DbErrorKind::RollbackTransaction || kind == DbErrorKind::AlreadyInTransaction)
                ==> (e.msg@ == "TransactionErr"@ && e.code == 500),
            kind == DbErrorKind::Other ==> (e.msg@ == "SerDe error"@ && e.code == 500),
            kind != DbErrorKind::NotFound ==> e.code == 500,
    {
        match kind {
            DbErrorKind::InvalidCString => bet_make_error { msg: "InvalidCString", code: 500 },
            DbErrorKind::DatabaseError => bet_make_error { msg: "InternalServerError(DB)", code: 500 },
            DbErrorKind::NotFound => bet_make_error { msg: "NotFound", code: 404 },
            DbErrorKind::RollbackTransaction => bet_make_error { msg: "TransactionErr", code: 500 },
            DbErrorKind::AlreadyInTransaction => bet_make_error { msg: "TransactionErr", code: 500 },
            DbErrorKind::Other => bet_make_error { msg: "SerDe error", code: 500 },
        }
    }
}

} // verus!
