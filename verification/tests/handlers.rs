use race_bets::handlers::bet::{bet_about, bet_make_account, bet_make_plan, bet_make_reply, bet_of, BetPlan};
use race_bets::handlers::horses::{horse_coef_rate, horse_info};
use race_bets::handlers::run::{
    all_competitors_known, competitor_rows, run_about, run_about_target, run_register_gate,
    run_register_reply, runs_pending, runs_pending_of, winner_among,
};
use race_bets::handlers::statics::{static_srv, ReadFailure};
use race_bets::handlers::users::{user_type_label, usr_about, usr_login};
use race_bets::reply::{unimplemented, Body, Reply};
use race_bets::ORM::{Run, UserData};
use race_bets::PoolError;

fn failed() -> PoolError {
    PoolError { msg: "Diesel error" }
}

fn user(code: Option<i32>, profile: i32) -> UserData<f64> {
    UserData {
        ID: 7,
        Login: Some(String::from("ann")),
        Passwh: Some(vec![1, 2, 3]),
        UserType: code,
        Credits: Some(40),
        Balance: 12.5,
        AssocInf: Some(String::from("likes greys")),
        PublicProfile: profile,
    }
}

fn run(id: i32, list: Option<i32>) -> Run {
    Run {
        ID: id,
        Date: chrono::NaiveDate::from_ymd_opt(2020, 5, 17),
        Place: Some(String::from("Ascot")),
        Winner: None,
        CompetLFK: list,
    }
}

fn is_empty<T>(r: &Reply<T>, status: u16) -> bool {
    r.status == status && matches!(r.body, Body::Empty)
}

fn is_text<T>(r: &Reply<T>, status: u16, text: &str) -> bool {
    r.status == status && matches!(r.body, Body::Text(t) if t == text)
}

#[test]
fn unimplemented_is_501() {
    let r: Reply<()> = unimplemented();
    assert!(is_text(&r, 501, "Unimplemented"));
}

#[test]
fn bet_about_lists_found_bets() {
    let r = bet_about(Ok(vec![3, 4]));
    assert_eq!(r.status, 200);
    assert!(matches!(r.body, Body::Data(ref v) if *v == vec![3, 4]));
}

#[test]
fn bet_about_failed_query_gives_empty_list() {
    let r: Reply<Vec<i32>> = bet_about(Err(failed()));
    assert_eq!(r.status, 200);
    assert!(matches!(r.body, Body::Data(ref v) if v.is_empty()));
}

#[test]
fn bet_of_none_is_404() {
    assert!(is_empty(&bet_of(Ok(vec![])), 404));
    assert!(is_empty(&bet_of(Err(failed())), 404));
}

#[test]
fn bet_of_some_is_200() {
    let r = bet_of(Ok(vec![11, 12]));
    assert_eq!(r.status, 200);
    assert!(matches!(r.body, Body::Data(ref v) if *v == vec![11, 12]));
}

#[test]
fn bet_make_account_cases() {
    assert_eq!(bet_make_account(Ok(vec![5])).ok(), Some(5));
    assert!(is_empty(&bet_make_account(Ok(vec![])).unwrap_err(), 404));
    assert!(is_empty(&bet_make_account(Err(failed())).unwrap_err(), 404));
    assert!(is_empty(&bet_make_account(Ok(vec![5, 6])).unwrap_err(), 500));
}

#[test]
fn bet_make_plan_cases() {
    assert_eq!(bet_make_plan(5, 2, 9, 1, true), BetPlan::Debit { who: 5, on_run: 2, on_winner: 9 });
    assert_eq!(bet_make_plan(5, 2, 9, 1, false), BetPlan::Insufficient);
    assert_eq!(bet_make_plan(5, 2, 9, 0, true), BetPlan::Anomalous);
    assert_eq!(bet_make_plan(5, 2, 9, 2, true), BetPlan::Anomalous);
}

#[test]
fn bet_make_reply_is_always_200() {
    assert!(is_empty(&bet_make_reply(Ok(())), 200));
    assert!(is_text(&bet_make_reply(Err(failed())), 200, "ISE"));
}

#[test]
fn horse_info_cases() {
    let r = horse_info(Ok(1));
    assert_eq!(r.status, 200);
    assert!(matches!(r.body, Body::Data(1)));
    assert!(is_empty(&horse_info(Err(failed())), 500));
}

#[test]
fn horse_coef_rate_cases() {
    assert_eq!(horse_coef_rate(Ok(vec![Some(0.25)])), Ok(0.25));
    assert_eq!(horse_coef_rate::<f64>(Ok(vec![None])), Err("winrate not set"));
    assert_eq!(horse_coef_rate::<f64>(Ok(vec![])), Err("more than one horse_infose for given ID"));
    assert_eq!(
        horse_coef_rate(Ok(vec![Some(0.1), Some(0.2)])),
        Err("more than one horse_infose for given ID")
    );
    assert_eq!(horse_coef_rate::<f64>(Err(failed())), Err("Internal error"));
}

#[test]
fn run_about_target_needs_one_run_with_a_list() {
    let (key, r) = run_about_target(vec![run(3, Some(8))]).unwrap();
    assert_eq!(key, 8);
    assert_eq!(r.ID, 3);
    assert!(run_about_target(vec![run(3, None)]).is_none());
    assert!(run_about_target(vec![]).is_none());
    assert!(run_about_target(vec![run(3, Some(8)), run(4, Some(9))]).is_none());
}

#[test]
fn run_about_cases() {
    let r = run_about(Ok(Some((vec![(1, Some(0.5)), (2, None)], run(3, Some(8))))));
    assert_eq!(r.status, 200);
    assert!(matches!(r.body, Body::Data((ref list, ref el)) if list.len() == 2 && el.ID == 3));
    assert!(is_empty(&run_about::<f64>(Ok(None)), 500));
    assert!(is_empty(&run_about::<f64>(Err(failed())), 500));
}

#[test]
fn runs_pending_cases() {
    let r = runs_pending(Ok(vec![run(1, None)]));
    assert_eq!(r.status, 200);
    assert!(is_empty(&runs_pending(Err(failed())), 500));
}

#[test]
fn runs_pending_of_cases() {
    let r = runs_pending_of(Ok(vec![run(1, None), run(2, None)]));
    assert_eq!(r.status, 200);
    assert!(matches!(r.body, Body::Data(ref v) if v.len() == 2));
    let r = runs_pending_of(Ok(vec![]));
    assert_eq!(r.status, 404);
    assert!(matches!(r.body, Body::Data(ref v) if v.is_empty()));
    assert!(is_empty(&runs_pending_of(Err(failed())), 500));
}

#[test]
fn winner_among_cases() {
    assert!(winner_among(4, &vec![1, 4, 9]));
    assert!(!winner_among(5, &vec![1, 4, 9]));
    assert!(!winner_among(5, &vec![]));
}

#[test]
fn run_register_gate_admin_with_winner_goes_on() {
    assert!(run_register_gate(Ok(vec![user(Some(1), 0)]), 4, &vec![1, 4]).is_ok());
}

#[test]
fn run_register_gate_refusals() {
    let c = vec![1, 4];
    assert!(is_empty(&run_register_gate(Ok(vec![user(Some(1), 0)]), 5, &c).unwrap_err(), 400));
    assert!(is_empty(&run_register_gate(Ok(vec![user(Some(2), 0)]), 4, &c).unwrap_err(), 403));
    assert!(is_empty(&run_register_gate(Ok(vec![user(Some(3), 0)]), 4, &c).unwrap_err(), 403));
    assert!(is_empty(&run_register_gate(Ok(vec![user(Some(0), 0)]), 4, &c).unwrap_err(), 500));
    assert!(is_empty(&run_register_gate(Ok(vec![user(None, 0)]), 4, &c).unwrap_err(), 500));
    assert!(is_text(&run_register_gate::<f64>(Ok(vec![]), 4, &c).unwrap_err(), 404, "No such user"));
    assert!(is_empty(
        &run_register_gate(Ok(vec![user(Some(1), 0), user(Some(1), 0)]), 4, &c).unwrap_err(),
        500
    ));
    assert!(is_empty(&run_register_gate::<f64>(Err(failed()), 4, &c).unwrap_err(), 500));
}

#[test]
fn competitors_known_only_when_all_counted() {
    assert!(all_competitors_known(3, &vec![1, 2, 3]));
    assert!(!all_competitors_known(2, &vec![1, 2, 3]));
}

#[test]
fn competitor_rows_pair_run_with_each_horse() {
    assert_eq!(competitor_rows(12, &vec![4, 8, 6]), vec![(12, 4), (12, 8), (12, 6)]);
    assert_eq!(competitor_rows(12, &vec![]), vec![]);
}

#[test]
fn competitor_rows_take_the_id_as_a_signed_32_bit_number() {
    assert_eq!(competitor_rows((1usize << 32) + 5, &vec![1]), vec![(5, 1)]);
}

#[test]
fn run_register_reply_cases() {
    assert!(is_empty(&run_register_reply(Ok(true)), 200));
    assert!(is_empty(&run_register_reply(Ok(false)), 500));
    assert!(is_text(&run_register_reply(Err(PoolError { msg: "Pool error" })), 500, "Pool error"));
}

#[test]
fn user_type_labels() {
    assert_eq!(user_type_label(Some(1)), "Admin");
    assert_eq!(user_type_label(Some(2)), "User");
    assert_eq!(user_type_label(Some(3)), "Guest");
    assert_eq!(user_type_label(Some(4)), "No such kind");
    assert_eq!(user_type_label(None), "NULL");
}

#[test]
fn usr_about_hidden_profile_is_403() {
    assert!(is_empty(&usr_about(Ok(vec![user(Some(2), 0)])), 403));
}

#[test]
fn usr_about_limited_profile_hides_finances() {
    let r = usr_about(Ok(vec![user(Some(2), 1)]));
    assert_eq!(r.status, 200);
    match r.body {
        Body::Data(p) => {
            assert_eq!(p.user_type, "User");
            assert_eq!(p.about, Some(String::from("likes greys")));
            assert!(p.finances.is_none());
        }
        _ => panic!("expected a profile"),
    }
}

#[test]
fn usr_about_full_profile_shows_finances() {
    let r = usr_about(Ok(vec![user(Some(1), 2)]));
    assert_eq!(r.status, 200);
    match r.body {
        Body::Data(p) => {
            assert_eq!(p.user_type, "Admin");
            assert_eq!(p.finances, Some((Some(40), 12.5)));
        }
        _ => panic!("expected a profile"),
    }
}

#[test]
fn usr_about_other_outcomes() {
    assert!(is_empty(&usr_about(Ok(vec![user(Some(1), 3)])), 500));
    assert!(is_empty(&usr_about(Ok(vec![user(Some(1), -1)])), 500));
    assert!(is_empty(&usr_about::<f64>(Ok(vec![])), 404));
    assert!(is_empty(&usr_about(Ok(vec![user(Some(1), 1), user(Some(1), 1)])), 500));
    assert!(is_empty(&usr_about::<f64>(Err(failed())), 500));
}

#[test]
fn usr_login_cases() {
    let r = usr_login(Ok(vec![7]));
    assert_eq!(r.status, 200);
    assert!(matches!(r.body, Body::Data(ref v) if *v == vec![7]));
    assert!(is_empty(&usr_login(Ok(vec![])), 403));
    assert!(is_empty(&usr_login(Ok(vec![7, 8])), 500));
    assert!(is_text(&usr_login(Err(failed())), 500, "DB error"));
}

#[test]
fn static_srv_cases() {
    let r = static_srv(Ok(String::from("<html>")));
    assert_eq!(r.status, 200);
    assert!(matches!(r.body, Body::Data(ref t) if t == "<html>"));
    assert!(is_empty(&static_srv(Err(ReadFailure::NotFound)), 404));
    assert!(is_empty(&static_srv(Err(ReadFailure::Other)), 500));
}
