use vstd::prelude::*;

use crate::pool::PoolError;
use crate::reply::{Body, Reply};

verus! {

/// The reply to a request for a horse by its id: 200 with what the query
/// reported, or 500 with an empty body where it failed.
pub fn horse_info(outcome: Result<usize, PoolError>) -> (r: Reply<usize>)
    ensures
        r.has_valid_status(),
        match outcome {
            Ok(n) => r.status == 200 && r.body == Body::<usize>::Data(n),
            Err(_) => r.is_empty_with(500),
        },
{
    match outcome {
        Ok(n) => Reply { status: 200, body: Body::Data(n) },
        Err(_) => Reply::empty(500),
    }
}

/// The message `horse_coef_rate` gives for each way it can fail.
pub open spec fn horse_coef_failure<R>(rates: Result<Vec<Option<R>>, PoolError>) -> Seq<char> {
    match rates {
        Ok(v) => if v@.len() == 1 {
            "winrate not set"@
        } else {
            "more than one horse_infose for given ID"@
        },
        Err(_) => "Internal error"@,
    }
}

/// The win rate a horse's odds are computed from, out of the win rates found
/// for its id: the one rate where exactly one horse was found and its rate is
/// set; otherwise a message saying why there is none.
pub fn horse_coef_rate<R>(rates: Result<Vec<Option<R>>, PoolError>) -> (r: Result<R, &'static str>)
    ensures
        match r {
            Ok(rate) => rates is Ok && rates->Ok_0@.len() == 1 && rates->Ok_0@[0] == Some(rate),
            Err(msg) => msg@ == horse_coef_failure(rates) && !(rates is Ok && rates->Ok_0@.len() == 1
                && rates->Ok_0@[0] is Some),
        },
        (rates is Ok && rates->Ok_0@.len() == 1 && rates->Ok_0@[0] is Some) ==> r == Ok::<
            R,
            &'static str,
        >(rates->Ok_0@[0]->Some_0),
        (rates is Ok && rates->Ok_0@.len() == 1 && rates->Ok_0@[0] is None) ==> (r is Err
            && r->Err_0@ == "winrate not set"@),
        (rates is Ok && rates->Ok_0@.len() != 1) ==> (r is Err && r->Err_0@
            == "more than one horse_infose for given ID"@),
        rates is Err ==> (r is Err && r->Err_0@ == "Internal error"@),
{
    match rates {
        Ok(v) => {
            if v.len() == 1 {
                let mut v = v;
                match v.pop() {
                    Some(Some(rate)) => Ok(rate),
                    _ => Err("winrate not set"),
                }
            } else {
                Err("more than one horse_infose for given ID")
            }
        },
        Err(_) => Err("Internal error"),
    }
}

} // verus!
