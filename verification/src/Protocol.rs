use vstd::prelude::*;

verus! {

/// A request to place a bet. `M` is the type money is sent in.
pub struct BetMakePayload<M> {
    pub login: String,
    pub passwh: Vec<u8>,
    pub on_id_run: i32,
    pub money: M,
    pub on_id_horse: i32,
}

/// A request to register a run that has been held.
pub struct RunRegisterPayload {
    pub login: String,
    pub passwh: Vec<u8>,
    pub date: chrono::NaiveDate,
    pub place: String,
    pub winner: i32,
    pub competitors: Vec<i32>,
}

/// A request to open an account.
pub struct UserRegisterPayload {
    pub login: String,
    pub passwh: Vec<u8>,
    pub credits: u64,
    pub about: String,
    pub public: bool,
}

/// A request to log in.
pub struct UserLoginPayload {
    pub login: String,
    pub passwh: Vec<u8>,
}

} // verus!
