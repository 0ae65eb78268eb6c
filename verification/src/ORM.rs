use vstd::prelude::*;

verus! {

#[verifier::external_type_specification]
#[verifier::external_body]
pub struct ExNaiveDate(chrono::NaiveDate);

/// A race: where and when it ran, which horse won, and the key of its competitor list.
pub struct Run {
    pub ID: i32,
    pub Date: Option<chrono::NaiveDate>,
    pub Place: Option<String>,
    pub Winner: Option<i32>,
    pub CompetLFK: Option<i32>,
}

/// The kind of an account.
#[derive(Clone, Copy, Debug, PartialEq, Eq, Structural)]
pub enum UserType {
    Admin,
    User,
    Guest,
}

/// Which kind of account a stored code stands for: 1 is an administrator,
/// 2 an ordinary user, 3 a guest; every other code stands for none.
pub open spec fn user_type_of_code(code: int) -> Option<UserType> {
    if code == 1 {
        Some(UserType::Admin)
    } else if code == 2 {
        Some(UserType::User)
    } else if code == 3 {
        Some(UserType::Guest)
    } else {
        None
    }
}

impl Default for UserType {
    /// An account is a guest unless something says otherwise.
    fn default() -> (t: Self)
        ensures
            t == UserType::Guest,
    {
        UserType::Guest
    }
}

impl UserType {
    /// The number the kind is declared with: administrator 2, user 1, guest 0.
    pub open spec fn spec_code(self) -> i32 {
        match self {
            UserType::Admin => 2,
            UserType::User => 1,
            UserType::Guest => 0,
        }
    }

    /// The number the kind is declared with.
    pub fn code(self) -> (c: i32)
        ensures
            c == self.spec_code(),
            self == UserType::Admin ==> c == 2,
            self == UserType::User ==> c == 1,
            self == UserType::Guest ==> c == 0,
    {
        match self {
            UserType::Admin => 2,
            UserType::User => 1,
            UserType::Guest => 0,
        }
    }

    /// Reads a kind of account from the code stored with it; an unknown code is
    /// handed back as the error.
    pub fn from_code(code: i32) -> (r: Result<UserType, i32>)
        ensures
            match r {
                Ok(t) => user_type_of_code(code as int) == Some(t),
                Err(x) => x == code && user_type_of_code(code as int) is None,
            },
            code == 1 ==> r == Ok::<UserType, i32>(UserType::Admin),
            code == 2 ==> r == Ok::<UserType, i32>(UserType::User),
            code == 3 ==> r == Ok::<UserType, i32>(UserType::Guest),
            (code < 1 || code > 3) ==> r == Err::<UserType, i32>(code),
    {
        match code {
            1 => Ok(UserType::Admin),
            2 => Ok(UserType::User),
            3 => Ok(UserType::Guest),
            x => Err(x),
        }
    }
}

/// An account as stored. `B` is the type the balance is kept in.
/// `PublicProfile` says how much of the account others may see:
/// 0 nothing, 1 its kind and description, 2 also its credits and balance.
pub struct UserData<B> {
    pub ID: i32,
    pub Login: Option<String>,
    pub Passwh: Option<Vec<u8>>,
    pub UserType: Option<i32>,
    pub Credits: Option<i32>,
    pub Balance: B,
    pub AssocInf: Option<String>,
    pub PublicProfile: i32,
}

/// The owner of horses.
pub struct Owners {
    pub ID: i32,
    pub Name: Option<String>,
    pub Surname: Option<String>,
    pub Age: Option<i32>,
    pub UUID: Option<i32>,
}

/// A horse. `R` is the type its win rate is kept in.
pub struct Horses<R> {
    pub ID: i32,
    pub Name: Option<String>,
    pub Owner: Option<i32>,
    pub Age: Option<i32>,
    pub WinRate: Option<R>,
    pub RunsDone: i32,
}

/// A bet: who placed it, how much, on which run and which horse, at what rate.
/// `F` is the type money and rates are kept in.
pub struct Bet<F> {
    pub ID: i32,
    pub Who: Option<i32>,
    pub Value: Option<F>,
    pub on_run: Option<i32>,
    pub on_winner: Option<i32>,
    pub win_rate: Option<F>,
}

/// One horse entered in one run.
pub struct CompetList {
    pub Run_compet: i32,
    pub HorseID: i32,
}

/// Where a payment stands.
#[derive(Clone, Copy, Debug, PartialEq, Eq, Structural)]
pub enum PaymentState {
    Pending,
    Rejected,
    Done,
}

/// Which payment state a stored code stands for: 1 pending, 2 rejected, 3 done.
pub open spec fn payment_state_of_code(code: int) -> Option<PaymentState> {
    if code == 1 {
        Some(PaymentState::Pending)
    } else if code == 2 {
        Some(PaymentState::Rejected)
    } else if code == 3 {
        Some(PaymentState::Done)
    } else {
        None
    }
}

impl PaymentState {
    /// The number the state is declared with: pending 1, rejected 2, done 3.
    pub open spec fn spec_code(self) -> i32 {
        match self {
            PaymentState::Pending => 1,
            PaymentState::Rejected => 2,
            PaymentState::Done => 3,
        }
    }

    /// The number the state is declared with.
    pub fn code(self) -> (c: i32)
        ensures
            c == self.spec_code(),
            self == PaymentState::Pending ==> c == 1,
            self == PaymentState::Rejected ==> c == 2,
            self == PaymentState::Done ==> c == 3,
    {
        match self {
            PaymentState::Pending => 1,
            PaymentState::Rejected => 2,
            PaymentState::Done => 3,
        }
    }

    /// Reads a payment state from the code stored with it; an unknown code is
    /// handed back as the error.
    pub fn from_code(code: i32) -> (r: Result<PaymentState, i32>)
        ensures
            match r {
                Ok(s) => payment_state_of_code(code as int) == Some(s),
                Err(x) => x == code && payment_state_of_code(code as int) is None,
            },
            code == 1 ==> r == Ok::<PaymentState, i32>(PaymentState::Pending),
            code == 2 ==> r == Ok::<PaymentState, i32>(PaymentState::Rejected),
            code == 3 ==> r == Ok::<PaymentState, i32>(PaymentState::Done),
            (code < 1 || code > 3) ==> r == Err::<PaymentState, i32>(code),
    {
        match code {
            1 => Ok(PaymentState::Pending),
            2 => Ok(PaymentState::Rejected),
            3 => Ok(PaymentState::Done),
            x => Err(x),
        }
    }
}

/// A payment to or from the other side of an account.
pub struct Payments {
    ID: i32,
    Other_side: Option<i32>,
    Value: Option<i32>,
    Outcoming: Option<bool>,
    State: Option<PaymentState>,
}

impl Payments {
    pub closed spec fn parts(self) -> (i32, Option<i32>, Option<i32>, Option<bool>, Option<PaymentState>) {
        (self.ID, self.Other_side, self.Value, self.Outcoming, self.State)
    }

    /// A payment with the given fields, in their stored order.
    pub fn new(
        ID: i32,
        Other_side: Option<i32>,
        Value: Option<i32>,
        Outcoming: Option<bool>,
        State: Option<PaymentState>,
    ) -> (p: Payments)
        ensures
            p.parts() == (ID, Other_side, Value, Outcoming, State),
    {
        Payments { ID, Other_side, Value, Outcoming, State }
    }

    /// The fields of the payment, in their stored order.
    pub fn into_parts(self) -> (r: (i32, Option<i32>, Option<i32>, Option<bool>, Option<PaymentState>))
        ensures
            r == self.parts(),
    {
        (self.ID, self.Other_side, self.Value, self.Outcoming, self.State)
    }
}

/// Laws of the stored codes.
///
/// Decoding the number a payment state is declared with gives that state back.
pub proof fn lemma_payment_state_code_roundtrip(s: PaymentState)
    ensures
        payment_state_of_code(s.spec_code() as int) == Some(s),
{
}

/// Every payment state a code decodes to is declared with that code.
pub proof fn lemma_payment_state_code_unique(code: int)
    ensures
        payment_state_of_code(code) matches Some(s) ==> s.spec_code() == code,
{
}

} // verus!
