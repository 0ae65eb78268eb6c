use vstd::prelude::*;

use crate::pool::PoolError;
use crate::reply::{Body, Reply};

verus! {

/// The rows a query gave, or none where it failed.
pub open spec fn rows_or_none<T>(rows: Result<Vec<T>, PoolError>) -> Seq<T> {
    match rows {
        Ok(v) => v@,
        Err(_) => Seq::empty(),
    }
}

/// The reply to a request for a bet by its id: always 200, with the bets found,
/// none where the query failed.
pub fn bet_about<T>(bets: Result<Vec<T>, PoolError>) -> (r: Reply<Vec<T>>)
    ensures
        r.has_valid_status(),
        r.status == 200,
        r.body matches Body::Data(v) && v@ == rows_or_none(bets),
        bets is Ok ==> r.body == Body::Data(bets->Ok_0),
        bets is Err ==> (r.body is Data && r.body->Data_0@.len() == 0),
{
    match bets {
        Ok(v) => Reply { status: 200, body: Body::Data(v) },
        Err(_) => Reply { status: 200, body: Body::Data(Vec::new()) },
    }
}

/// The reply to a request for the ids of a user's bets: 404 with an empty body
/// where none were found (or the query failed), else 200 with the ids.
pub fn bet_of(ids: Result<Vec<i32>, PoolError>) -> (r: Reply<Vec<i32>>)
    ensures
        r.has_valid_status(),
        if rows_or_none(ids).len() == 0 {
            r.is_empty_with(404)
        } else {
            r.status == 200 && (r.body matches Body::Data(v) && v@ == rows_or_none(ids))
        },
        (ids is Ok && ids->Ok_0@.len() > 0) ==> (r.status == 200 && r.body == Body::Data(
            ids->Ok_0,
        )),
        (ids is Ok && ids->Ok_0@.len() == 0) ==> r.is_empty_with(404),
        ids is Err ==> r.is_empty_with(404),
{
    let v = match ids {
        Ok(v) => v,
        Err(_) => Vec::new(),
    };
    if v.len() == 0 {
        Reply::empty(404)
    } else {
        Reply { status: 200, body: Body::Data(v) }
    }
}

/// The account that places a bet, from the ids found for the login and password
/// hash of the request (none where the query failed): the one id found, else
/// the reply 404 (none found) or 500 (more than one), with an empty body.
pub fn bet_make_account(ids: Result<Vec<i32>, PoolError>) -> (r: Result<i32, Reply<()>>)
    ensures
        match r {
            Ok(id) => rows_or_none(ids).len() == 1 && id == rows_or_none(ids)[0],
            Err(reply) => reply.has_valid_status() && if rows_or_none(ids).len() == 0 {
                reply.is_empty_with(404)
            } else {
                rows_or_none(ids).len() > 1 && reply.is_empty_with(500)
            },
        },
        (ids is Ok && ids->Ok_0@.len() == 1) ==> r == Ok::<i32, Reply<()>>(ids->Ok_0@[0]),
        (ids is Ok && ids->Ok_0@.len() == 0) ==> (r is Err && r->Err_0.is_empty_with(404)),
        (ids is Ok && ids->Ok_0@.len() > 1) ==> (r is Err && r->Err_0.is_empty_with(500)),
        ids is Err ==> (r is Err && r->Err_0.is_empty_with(404)),
{
    let v = match ids {
        Ok(v) => v,
        Err(_) => Vec::new(),
    };
    if v.len() == 0 {
        Err(Reply::empty(404))
    } else if v.len() == 1 {
        Ok(v[0])
    } else {
        Err(Reply::empty(500))
    }
}

/// A successful query's rows are all the rows it returned, in order; a failed
/// query gives none.
pub proof fn lemma_rows_are_all_returned<T>(v: Vec<T>, e: PoolError)
    ensures
        rows_or_none(Ok::<Vec<T>, PoolError>(v)) == v@,
        rows_or_none(Err::<Vec<T>, PoolError>(e)).len() == 0,
{
}

/// Listing a user's bets gives every id the query returned, none dropped or
/// added, whenever it returned any.
pub proof fn lemma_bet_of_lists_every_id(ids: Vec<i32>, r: Reply<Vec<i32>>)
    requires
        if rows_or_none(Ok::<Vec<i32>, PoolError>(ids)).len() == 0 {
            r.is_empty_with(404)
        } else {
            r.status == 200 && (r.body matches Body::Data(v) && v@ == rows_or_none(
                Ok::<Vec<i32>, PoolError>(ids),
            ))
        },
        ids@.len() > 0,
    ensures
        r.status == 200,
        r.body is Data,
        r.body->Data_0@ == ids@,
        r.body->Data_0@.len() == ids@.len(),
{
}

/// What the transaction that places a bet does once it has read the balance.
#[derive(Clone, Copy, Debug, PartialEq, Eq, Structural)]
pub enum BetPlan {
    /// Set the balance to the stake less the balance read, and record a bet
    /// of the stake by `who` on horse `on_winner` in run `on_run`.
    Debit { who: i32, on_run: i32, on_winner: i32 },
    /// The balance does not cover the stake: write nothing.
    Insufficient,
    /// Not exactly one balance was read: write nothing.
    Anomalous,
}

/// Decides the transaction that places a bet, from how many balances were read
/// for the account and whether the one balance read covers the stake (is not
/// below it).
pub fn bet_make_plan(
    who: i32,
    on_run: i32,
    on_winner: i32,
    balance_rows: usize,
    covers_stake: bool,
) -> (p: BetPlan)
    ensures
        p == (if balance_rows != 1 {
            BetPlan::Anomalous
        } else if !covers_stake {
            BetPlan::Insufficient
        } else {
            BetPlan::Debit { who, on_run, on_winner }
        }),
        p is Debit <==> (balance_rows == 1 && covers_stake),
{
    if balance_rows == 1 {
        if !covers_stake {
            BetPlan::Insufficient
        } else {
            BetPlan::Debit { who, on_run, on_winner }
        }
    } else {
        BetPlan::Anomalous
    }
}

/// The reply to a request to place a bet once its transaction has ended: 200
/// whatever the transaction decided, with an empty body where it completed and
/// the text "ISE" where it failed.
pub fn bet_make_reply(tx: Result<(), PoolError>) -> (r: Reply<()>)
    ensures
        r.has_valid_status(),
        match tx {
            Ok(()) => r.is_empty_with(200),
            Err(_) => r.is_text_with(200, "ISE"@),
        },
{
    match tx {
        Ok(()) => Reply::empty(200),
        Err(_) => Reply { status: 200, body: Body::Text("ISE") },
    }
}

} // verus!
