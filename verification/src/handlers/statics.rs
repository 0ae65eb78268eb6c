use vstd::prelude::*;

use crate::reply::{Body, Reply};

verus! {

/// Why a static file could not be read.
#[derive(Clone, Copy, Debug, PartialEq, Eq, Structural)]
pub enum ReadFailure {
    /// There is no such file.
    NotFound,
    /// Any other failure.
    Other,
}

/// The reply to a request for a static file: 200 with its text, 404 where
/// there is no such file, 500 where it could not be read otherwise.
pub fn static_srv(read: Result<String, ReadFailure>) -> (r: Reply<String>)
    ensures
        r.has_valid_status(),
        match read {
            Ok(text) => r.status == 200 && r.body == Body::Data(text),
            Err(ReadFailure::NotFound) => r.is_empty_with(404),
            Err(ReadFailure::Other) => r.is_empty_with(500),
        },
{
    match read {
        Ok(text) => Reply { status: 200, body: Body::Data(text) },
        Err(ReadFailure::NotFound) => Reply::empty(404),
        Err(ReadFailure::Other) => Reply::empty(500),
    }
}

} // verus!
