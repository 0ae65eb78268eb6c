use vstd::prelude::*;

use crate::ORM::{user_type_of_code, Run, UserData, UserType};
use crate::pool::PoolError;
use crate::reply::{Body, Reply};

verus! {

/// The run a request for details names, where it holds a competitor list:
/// `Some((list key, run))` where exactly one run has the id and it names a
/// competitor list, else `None`.
pub fn run_about_target(runs: Vec<Run>) -> (r: Option<(i32, Run)>)
    ensures
        r == (if runs@.len() == 1 && runs@[0].CompetLFK is Some {
            Some((runs@[0].CompetLFK->Some_0, runs@[0]))
        } else {
            None
        }),
{
    let mut runs = runs;
    if runs.len() == 1 {
        match runs.pop() {
            Some(el) => match el.CompetLFK {
                Some(fk) => Some((fk, el)),
                None => None,
            },
            None => None,
        }
    } else {
        None
    }
}

/// The reply to a request for the details of a run: 200 with the run and its
/// competitors (id and win rate of each) where the run was found with a
/// competitor list, 500 with an empty body otherwise.
pub fn run_about<R>(found: Result<Option<(Vec<(i32, Option<R>)>, Run)>, PoolError>) -> (r: Reply<
    (Vec<(i32, Option<R>)>, Run),
>)
    ensures
        r.has_valid_status(),
        match found {
            Ok(Some(x)) => r.status == 200 && r.body == Body::Data(x),
            _ => r.is_empty_with(500),
        },
{
    match found {
        Ok(Some(x)) => Reply { status: 200, body: Body::Data(x) },
        Ok(None) => Reply::empty(500),
        Err(_) => Reply::empty(500),
    }
}

/// The reply to a request for the runs with no winner yet: 200 with the runs,
/// or 500 with an empty body where the query failed.
pub fn runs_pending(runs: Result<Vec<Run>, PoolError>) -> (r: Reply<Vec<Run>>)
    ensures
        r.has_valid_status(),
        match runs {
            Ok(v) => r.status == 200 && r.body == Body::Data(v),
            Err(_) => r.is_empty_with(500),
        },
{
    match runs {
        Ok(v) => Reply { status: 200, body: Body::Data(v) },
        Err(_) => Reply::empty(500),
    }
}

/// The reply to a request for the runs with no winner yet that a user has bet
/// on: 200 with the runs, 404 with the empty list where there are none, 500
/// with an empty body where the query failed.
pub fn runs_pending_of(runs: Result<Vec<Run>, PoolError>) -> (r: Reply<Vec<Run>>)
    ensures
        r.has_valid_status(),
        match runs {
            Ok(v) => if v@.len() > 0 {
                r.status == 200 && r.body == Body::Data(v)
            } else {
                r.status == 404 && (r.body matches Body::Data(e) && e@.len() == 0)
            },
            Err(_) => r.is_empty_with(500),
        },
{
    match runs {
        Ok(v) => {
            if v.len() > 0 {
                Reply { status: 200, body: Body::Data(v) }
            } else {
                Reply { status: 404, body: Body::Data(Vec::new()) }
            }
        },
        Err(_) => Reply::empty(500),
    }
}

/// How the registration of a run goes on once the requester has been looked up
/// by login and password hash: `None` where it goes on to write the run, else
/// the status it is refused with. Only the one administrator found (stored
/// code 1) may register a run, and only one whose winner is among its
/// competitors; guests (3) and users (2) are forbidden, an unknown or missing
/// code or more than one match is a server error, and no match is 404.
pub open spec fn register_gate<B>(
    users: Result<Vec<UserData<B>>, PoolError>,
    winner: i32,
    competitors: Seq<i32>,
) -> Option<u16> {
    match users {
        Err(_) => Some(500),
        Ok(v) => if v@.len() == 0 {
            Some(404)
        } else if v@.len() == 1 {
            match v@[0].UserType {
                Some(code) => if code == 3 || code == 2 {
                    Some(403)
                } else if code == 1 {
                    if competitors.contains(winner) {
                        None
                    } else {
                        Some(400)
                    }
                } else {
                    Some(500)
                },
                None => Some(500),
            }
        } else {
            Some(500)
        },
    }
}

/// Whether the winner of a run is among its competitors.
pub fn winner_among(winner: i32, competitors: &Vec<i32>) -> (r: bool)
    ensures
        r == competitors@.contains(winner),
{
    let n = competitors.len();
    let mut i: usize = 0;
    while i < n
        invariant
            n == competitors@.len(),
            0 <= i <= n,
            forall|j: int| 0 <= j < i ==> competitors@[j] != winner,
        decreases n - i,
    {
        if competitors[i] == winner {
            assert(competitors@[i as int] == winner);
            return true;
        }
        i = i + 1;
    }
    false
}

/// Decides, from the accounts found for the login and password hash of a
/// request to register a run, whether the run is written (`Ok`) or which reply
/// the request gets: 404 with the text "No such user" where no account
/// matched, otherwise the status of `register_gate` with an empty body.
pub fn run_register_gate<B>(
    users: Result<Vec<UserData<B>>, PoolError>,
    winner: i32,
    competitors: &Vec<i32>,
) -> (r: Result<(), Reply<()>>)
    ensures
        match r {
            Ok(()) => register_gate(users, winner, competitors@) is None,
            Err(reply) => {
                &&& register_gate(users, winner, competitors@) == Some(reply.status)
                &&& reply.has_valid_status()
                &&& if reply.status == 404 {
                    reply.is_text_with(404, "No such user"@)
                } else {
                    reply.body is Empty
                }
            },
        },
        r is Ok <==> (users is Ok && users->Ok_0@.len() == 1 && users->Ok_0@[0].UserType == Some(
            1i32,
        ) && competitors@.contains(winner)),
        users is Err ==> (r is Err && r->Err_0.is_empty_with(500)),
        (users is Ok && users->Ok_0@.len() == 0) ==> (r is Err && r->Err_0.is_text_with(
            404,
            "No such user"@,
        )),
        (users is Ok && users->Ok_0@.len() > 1) ==> (r is Err && r->Err_0.is_empty_with(500)),
        (users is Ok && users->Ok_0@.len() == 1 && (users->Ok_0@[0].UserType == Some(2i32)
            || users->Ok_0@[0].UserType == Some(3i32))) ==> (r is Err && r->Err_0.is_empty_with(
            403,
        )),
        (users is Ok && users->Ok_0@.len() == 1 && users->Ok_0@[0].UserType == Some(1i32)
            && !competitors@.contains(winner)) ==> (r is Err && r->Err_0.is_empty_with(400)),
        (users is Ok && users->Ok_0@.len() == 1 && users->Ok_0@[0].UserType != Some(1i32)
            && users->Ok_0@[0].UserType != Some(2i32) && users->Ok_0@[0].UserType != Some(3i32))
            ==> (r is Err && r->Err_0.is_empty_with(500)),
{
    match users {
        Err(_) => Err(Reply::empty(500)),
        Ok(v) => {
            if v.len() == 0 {
                Err(Reply { status: 404, body: Body::Text("No such user") })
            } else if v.len() == 1 {
                match v[0].UserType {
                    Some(3) => Err(Reply::empty(403)),
                    Some(2) => Err(Reply::empty(403)),
                    Some(1) => {
                        if winner_among(winner, competitors) {
                            Ok(())
                        } else {
                            Err(Reply::empty(400))
                        }
                    },
                    Some(_) => Err(Reply::empty(500)),
                    None => Err(Reply::empty(500)),
                }
            } else {
                Err(Reply::empty(500))
            }
        },
    }
}

/// Whether every competitor of a run to be registered is a known horse, given
/// how many of them the horse table holds: the run is written only then.
pub fn all_competitors_known(horse_count: usize, competitors: &Vec<i32>) -> (r: bool)
    ensures
        r == (horse_count == competitors@.len()),
{
    horse_count == competitors.len()
}

/// The competitor list of a newly written run: one row (run id, horse id) per
/// competitor, in the order given. The run id is read back as a count of rows
/// and is taken modulo 2^32, as a signed number.
pub fn competitor_rows(run_id: usize, competitors: &Vec<i32>) -> (rows: Vec<(i32, i32)>)
    ensures
        rows@.len() == competitors@.len(),
        forall|i: int|
            0 <= i < rows@.len() ==> #[trigger] rows@[i] == (run_id as i32, competitors@[i]),
{
    let id: i32 = run_id as i32;
    let mut rows: Vec<(i32, i32)> = Vec::new();
    let n = competitors.len();
    let mut i: usize = 0;
    while i < n
        invariant
            n == competitors@.len(),
            0 <= i <= n,
            id == run_id as i32,
            rows@.len() == i,
            forall|j: int| 0 <= j < i ==> #[trigger] rows@[j] == (id, competitors@[j]),
        decreases n - i,
    {
        rows.push((id, competitors[i]));
        i = i + 1;
    }
    rows
}

/// The reply to a request to register a run once its transaction has ended:
/// `Ok(true)` where the run and its competitor list were written (200),
/// `Ok(false)` where a competitor is not a known horse (500), and 500 with the
/// pool's message where the transaction failed.
pub fn run_register_reply(tx: Result<bool, PoolError>) -> (r: Reply<()>)
    ensures
        r.has_valid_status(),
        match tx {
            Ok(true) => r.is_empty_with(200),
            Ok(false) => r.is_empty_with(500),
            Err(e) => r.is_text_with(500, e.msg@),
        },
{
    match tx {
        Ok(true) => Reply::empty(200),
        Ok(false) => Reply::empty(500),
        Err(e) => Reply { status: 500, body: Body::Text(e.msg) },
    }
}

/// Only an administrator registers runs: where the registration goes on, the
/// requester is the one account found, its stored code reads as an
/// administrator, and the winner is among the competitors.
pub proof fn lemma_only_admins_register<B>(
    users: Result<Vec<UserData<B>>, PoolError>,
    winner: i32,
    competitors: Seq<i32>,
)
    requires
        register_gate(users, winner, competitors) is None,
    ensures
        users is Ok,
        users->Ok_0@.len() == 1,
        users->Ok_0@[0].UserType is Some,
        user_type_of_code(users->Ok_0@[0].UserType->Some_0 as int) == Some(UserType::Admin),
        competitors.contains(winner),
{
}

/// An administrator registers runs: where the one account found reads as an
/// administrator (stored code 1) and the winner is among the competitors, the
/// registration goes on, whatever the number of competitors.
pub proof fn lemma_admin_with_winner_registers<B>(
    users: Result<Vec<UserData<B>>, PoolError>,
    winner: i32,
    competitors: Seq<i32>,
)
    requires
        users is Ok,
        users->Ok_0@.len() == 1,
        users->Ok_0@[0].UserType == Some(1i32),
        competitors.contains(winner),
    ensures
        register_gate(users, winner, competitors) is None,
{
}

/// The registration goes on exactly for the one administrator found with a
/// winner among the competitors.
pub proof fn lemma_register_goes_on_iff<B>(
    users: Result<Vec<UserData<B>>, PoolError>,
    winner: i32,
    competitors: Seq<i32>,
)
    ensures
        register_gate(users, winner, competitors) is None <==> (users is Ok && users->Ok_0@.len()
            == 1 && users->Ok_0@[0].UserType == Some(1i32) && competitors.contains(winner)),
{
}

/// A run is refused with 400 exactly when an administrator names a winner that
/// is not among the competitors.
pub proof fn lemma_register_bad_request<B>(
    users: Result<Vec<UserData<B>>, PoolError>,
    winner: i32,
    competitors: Seq<i32>,
)
    ensures
        register_gate(users, winner, competitors) == Some(400u16) <==> (users matches Ok(v)
            && v@.len() == 1 && v@[0].UserType == Some(1i32) && !competitors.contains(winner)),
{
}

} // verus!
