use vstd::prelude::*;

verus! {

/// What went wrong in a database transaction, as the pool reports it.
#[derive(Clone, Copy, Debug, PartialEq, Eq, Structural)]
pub enum TxFailure {
    /// No connection could be checked out of the pool.
    Checkout,
    /// The transaction body failed with a query error.
    Query,
}

/// The error a handler sees when a transaction does not complete.
#[derive(Debug)]
pub struct PoolError {
    pub msg: &'static str,
}

impl PoolError {
    /// The message a failed transaction is reported with.
    pub open spec fn message_of(failure: TxFailure) -> Seq<char> {
        match failure {
            TxFailure::Checkout => "Pool error"@,
            TxFailure::Query => "Diesel error"@,
        }
    }

    /// Turns the pool's failure into the error handlers receive.
    pub fn from_failure(failure: TxFailure) -> (e: PoolError)
        ensures
            e.msg@ == Self::message_of(failure),
            failure == TxFailure::Checkout ==> e.msg@ == "Pool error"@,
            failure == TxFailure::Query ==> e.msg@ == "Diesel error"@,
    {
        match failure {
            TxFailure::Checkout => PoolError { msg: "Pool error" },
            TxFailure::Query => PoolError { msg: "Diesel error" },
        }
    }
}

} // verus!
