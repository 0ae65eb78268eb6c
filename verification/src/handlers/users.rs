use vstd::prelude::*;

use crate::ORM::{user_type_of_code, UserData, UserType};
use crate::pool::PoolError;
use crate::reply::{Body, Reply};

verus! {

/// What others are shown of an account. `B` is the type the balance is kept in.
pub struct Profile<B> {
    /// The kind of the account, in words.
    pub user_type: &'static str,
    /// The account's description.
    pub about: Option<String>,
    /// Credits and balance, where the account shows them.
    pub finances: Option<(Option<i32>, B)>,
}

/// The words a stored account code is shown as.
pub open spec fn user_type_words(code: Option<i32>) -> Seq<char> {
    match code {
        Some(c) => if c == 1 {
            "Admin"@
        } else if c == 2 {
            "User"@
        } else if c == 3 {
            "Guest"@
        } else {
            "No such kind"@
        },
        None => "NULL"@,
    }
}

/// The kind of an account in words: "Admin", "User" or "Guest" for the codes
/// 1, 2 and 3, "No such kind" for any other code and "NULL" for none.
pub fn user_type_label(code: Option<i32>) -> (s: &'static str)
    ensures
        s@ == user_type_words(code),
        code == Some(1i32) ==> s@ == "Admin"@,
        code == Some(2i32) ==> s@ == "User"@,
        code == Some(3i32) ==> s@ == "Guest"@,
        (code is Some && code != Some(1i32) && code != Some(2i32) && code != Some(3i32)) ==> s@
            == "No such kind"@,
        code is None ==> s@ == "NULL"@,
{
    match code {
        Some(1) => "Admin",
        Some(2) => "User",
        Some(3) => "Guest",
        Some(_) => "No such kind",
        None => "NULL",
    }
}

/// Whether `r` is the reply to a profile request that found `users`: where
/// exactly one account was found, 403 if it shows nothing (profile setting 0),
/// 200 with its kind and description (setting 1), 200 with its kind,
/// description, credits and balance (setting 2), 500 for any other setting;
/// 404 where none was found; 500 where more than one was found or the query
/// failed. Every body but the 200 ones is empty.
pub open spec fn usr_about_answers<B>(users: Result<Vec<UserData<B>>, PoolError>, r: Reply<Profile<B>>) -> bool {
    match users {
        Ok(v) => if v@.len() == 1 {
            let u = v@[0];
            if u.PublicProfile == 0 {
                r.is_empty_with(403)
            } else if u.PublicProfile == 1 || u.PublicProfile == 2 {
                &&& r.status == 200
                &&& r.body is Data
                &&& r.body->Data_0.user_type@ == user_type_words(u.UserType)
                &&& r.body->Data_0.about == u.AssocInf
                &&& if u.PublicProfile == 2 {
                    r.body->Data_0.finances == Some((u.Credits, u.Balance))
                } else {
                    r.body->Data_0.finances is None
                }
            } else {
                r.is_empty_with(500)
            }
        } else if v@.len() == 0 {
            r.is_empty_with(404)
        } else {
            r.is_empty_with(500)
        },
        Err(_) => r.is_empty_with(500),
    }
}

/// The reply to a request for an account's public profile, from the accounts
/// found by login: where exactly one was found, 403 if it shows nothing
/// (profile setting 0), 200 with its kind and description (setting 1), 200 with
/// its kind, description, credits and balance (setting 2), 500 for any other
/// setting; 404 where none was found; 500 where more than one was found or the
/// query failed. Every body but the 200 ones is empty.
pub fn usr_about<B>(users: Result<Vec<UserData<B>>, PoolError>) -> (r: Reply<Profile<B>>)
    ensures
        r.has_valid_status(),
        usr_about_answers(users, r),
        (users is Ok && users->Ok_0@.len() == 1 && (users->Ok_0@[0].PublicProfile == 1
            || users->Ok_0@[0].PublicProfile == 2)) ==> ({
            &&& r.status == 200
            &&& r.body is Data
            &&& r.body->Data_0.user_type@ == user_type_words(users->Ok_0@[0].UserType)
            &&& r.body->Data_0.about == users->Ok_0@[0].AssocInf
        }),
        (users is Ok && users->Ok_0@.len() == 1 && users->Ok_0@[0].PublicProfile == 2) ==> (
        r.body is Data && r.body->Data_0.finances == Some(
            (users->Ok_0@[0].Credits, users->Ok_0@[0].Balance),
        )),
        (users is Ok && users->Ok_0@.len() == 1 && users->Ok_0@[0].PublicProfile == 1) ==> (
        r.body is Data && r.body->Data_0.finances is None),
        (users is Ok && users->Ok_0@.len() == 1 && users->Ok_0@[0].PublicProfile == 0) ==> r.is_empty_with(403),
        (users is Ok && users->Ok_0@.len() == 1 && users->Ok_0@[0].PublicProfile != 0
            && users->Ok_0@[0].PublicProfile != 1 && users->Ok_0@[0].PublicProfile != 2) ==> r.is_empty_with(500),
        (users is Ok && users->Ok_0@.len() == 0) ==> r.is_empty_with(404),
        (users is Ok && users->Ok_0@.len() > 1) ==> r.is_empty_with(500),
        users is Err ==> r.is_empty_with(500),
{
    match users {
        Ok(v) => {
            if v.len() == 1 {
                let mut v = v;
                let u = v.pop().unwrap();
                if u.PublicProfile == 0 {
                    Reply::empty(403)
                } else if u.PublicProfile == 1 || u.PublicProfile == 2 {
                    let ut = user_type_label(u.UserType);
                    let finances = if u.PublicProfile == 2 {
                        Some((u.Credits, u.Balance))
                    } else {
                        None
                    };
                    Reply {
                        status: 200,
                        body: Body::Data(Profile { user_type: ut, about: u.AssocInf, finances }),
                    }
                } else {
                    Reply::empty(500)
                }
            } else if v.len() == 0 {
                Reply::empty(404)
            } else {
                Reply::empty(500)
            }
        },
        Err(_) => Reply::empty(500),
    }
}

/// The reply to a login, from the ids found for the login and password hash:
/// 200 with the ids where exactly one was found, 403 where none was, 500 where
/// more than one was (all with an empty body), and 500 with the text
/// "DB error" where the query failed.
pub fn usr_login(ids: Result<Vec<i32>, PoolError>) -> (r: Reply<Vec<i32>>)
    ensures
        r.has_valid_status(),
        match ids {
            Ok(v) => if v@.len() == 0 {
                r.is_empty_with(403)
            } else if v@.len() == 1 {
                r.status == 200 && r.body == Body::Data(v)
            } else {
                r.is_empty_with(500)
            },
            Err(_) => r.is_text_with(500, "DB error"@),
        },
{
    match ids {
        Ok(v) => {
            if v.len() == 0 {
                Reply::empty(403)
            } else if v.len() == 1 {
                Reply { status: 200, body: Body::Data(v) }
            } else {
                Reply::empty(500)
            }
        },
        Err(_) => Reply { status: 500, body: Body::Text("DB error") },
    }
}

/// An account shows its credits and balance to others only where its profile
/// setting is 2: with any other setting, or any other outcome of the lookup,
/// the reply holds no finances.
pub proof fn lemma_finances_only_when_public<B>(
    users: Result<Vec<UserData<B>>, PoolError>,
    r: Reply<Profile<B>>,
)
    requires
        usr_about_answers(users, r),
    ensures
        (r.body matches Body::Data(p) && p.finances is Some) ==> (users is Ok
            && users->Ok_0@.len() == 1 && users->Ok_0@[0].PublicProfile == 2),
        (users is Ok && users->Ok_0@.len() == 1 && users->Ok_0@[0].PublicProfile == 0) ==> r.body is Empty,
{
}

/// An account whose profile setting is 2 shows its credits and balance,
/// whatever its kind: the reply is 200 and holds exactly that account's credits
/// and balance.
pub proof fn lemma_public_profile_shows_finances<B>(
    users: Result<Vec<UserData<B>>, PoolError>,
    r: Reply<Profile<B>>,
)
    requires
        usr_about_answers(users, r),
        users is Ok,
        users->Ok_0@.len() == 1,
        users->Ok_0@[0].PublicProfile == 2,
    ensures
        r.status == 200,
        r.body is Data,
        r.body->Data_0.finances == Some((users->Ok_0@[0].Credits, users->Ok_0@[0].Balance)),
{
}

/// A shown profile holds the account's description, and the full profile
/// (setting 2) shows everything the limited one (setting 1) shows: for two
/// accounts that differ only in their setting, the kind and description are
/// the same in both replies, and only the full one adds the finances.
pub proof fn lemma_full_profile_extends_limited<B>(
    limited: Result<Vec<UserData<B>>, PoolError>,
    r1: Reply<Profile<B>>,
    full: Result<Vec<UserData<B>>, PoolError>,
    r2: Reply<Profile<B>>,
)
    requires
        usr_about_answers(limited, r1),
        usr_about_answers(full, r2),
        limited is Ok,
        full is Ok,
        limited->Ok_0@.len() == 1,
        full->Ok_0@.len() == 1,
        limited->Ok_0@[0].PublicProfile == 1,
        full->Ok_0@[0].PublicProfile == 2,
        limited->Ok_0@[0].UserType == full->Ok_0@[0].UserType,
        limited->Ok_0@[0].AssocInf == full->Ok_0@[0].AssocInf,
    ensures
        r1.status == 200 && r2.status == 200,
        r1.body is Data && r2.body is Data,
        r1.body->Data_0.user_type@ == r2.body->Data_0.user_type@,
        r1.body->Data_0.about == limited->Ok_0@[0].AssocInf,
        r2.body->Data_0.about == full->Ok_0@[0].AssocInf,
        r1.body->Data_0.about == r2.body->Data_0.about,
        r1.body->Data_0.finances is None,
        r2.body->Data_0.finances == Some((full->Ok_0@[0].Credits, full->Ok_0@[0].Balance)),
{
}

/// The words an account code is shown as agree with the kind the code is read
/// as: a code is shown as "Admin", "User" or "Guest" exactly when it reads as
/// that kind.
pub proof fn lemma_labels_agree_with_codes(code: i32)
    ensures
        (user_type_words(Some(code)) == "Admin"@) <==> user_type_of_code(code as int) == Some(UserType::Admin),
        (user_type_words(Some(code)) == "User"@) <==> user_type_of_code(code as int) == Some(UserType::User),
        (user_type_words(Some(code)) == "Guest"@) <==> user_type_of_code(code as int) == Some(UserType::Guest),
        code == 1 ==> user_type_words(Some(code)) == "Admin"@,
        code == 2 ==> user_type_words(Some(code)) == "User"@,
        code == 3 ==> user_type_words(Some(code)) == "Guest"@,
        (code < 1 || code > 3) ==> user_type_words(Some(code)) == "No such kind"@,
        user_type_words(None) == "NULL"@,
{
    reveal_strlit("Admin");
    reveal_strlit("User");
    reveal_strlit("Guest");
    reveal_strlit("No such kind");
    reveal_strlit("NULL");
    assert("Admin"@.len() == 5 && "Guest"@.len() == 5 && "User"@.len() == 4 && "NULL"@.len() == 4
        && "No such kind"@.len() == 12);
    assert("Admin"@[0] != "Guest"@[0] && "User"@[0] != "NULL"@[0]);
}

} // verus!
