//! The requests that the pages of the tally list make, served from a ledger.
use vstd::prelude::*;

use crate::error::LedgerError;
use crate::grace::{in_grace, within_grace_period};
use crate::ledger::{limit_of, Ledger};
use crate::model::LedgerState;
use crate::money::{money_text, Money, DECIMAL_SEPARATOR};
use crate::transaction::{DatabaseId, Transaction, TransactionType};
use crate::user::{holds_card, User, UserId};

verus! {

/// Why no user could be taken from a route.
#[derive(Debug, PartialEq, Eq)]
pub enum GetUserError {
    NoUserInURL,
    /// The id in the route is not an integer; holds the parser's message.
    InvalidUserInURL(String),
    /// Loading the user failed; holds the reason.
    UserLoad(String),
    UserNotPresentError(UserId),
}

pub open spec fn is_digit(c: char) -> bool {
    '0' <= c && c <= '9'
}

/// The value of a string of decimal digits.
pub open spec fn digits_value(s: Seq<char>) -> int
    decreases s.len(),
{
    if s.len() == 0 {
        0
    } else {
        digits_value(s.drop_last()) * 10 + (s.last() as u32 - '0' as u32)
    }
}

/// The integer that `s` writes: an optional `+` or `-`, then one digit or more.
pub open spec fn integer_text(s: Seq<char>) -> Option<int> {
    let negative = s.len() > 0 && s[0] == '-';
    let body = if s.len() > 0 && (s[0] == '-' || s[0] == '+') {
        s.drop_first()
    } else {
        s
    };
    if body.len() > 0 && forall|i: int| 0 <= i < body.len() ==> is_digit(#[trigger] body[i]) {
        Some(if negative { -digits_value(body) } else { digits_value(body) })
    } else {
        None
    }
}

/// Relies on `str::parse::<i64>`: it accepts exactly an optional sign and
/// decimal digits whose value fits; the error is kept as its message.
#[verifier::external_body]
fn parse_i64(s: &str) -> (r: Result<i64, String>)
    ensures
        r is Ok <==> (integer_text(s@) is Some && i64::MIN <= integer_text(s@)->0 <= i64::MAX),
        r is Ok ==> r->Ok_0 == integer_text(s@)->0,
{
    match s.parse::<i64>() {
        Ok(v) => Ok(v),
        Err(e) => Err(e.to_string()),
    }
}

/// The user id named by a route's `id` parameter.
pub fn get_user_id(id_param: Option<&str>) -> (r: Result<UserId, GetUserError>)
    ensures
        match id_param {
            None => r == Err::<UserId, GetUserError>(GetUserError::NoUserInURL),
            Some(s) => match integer_text(s@) {
                Some(v) if i64::MIN <= v <= i64::MAX => r == Ok::<UserId, GetUserError>(UserId(v as i64)),
                _ => r is Err && r->Err_0 is InvalidUserInURL,
            },
        },
{
    match id_param {
        None => Err(GetUserError::NoUserInURL),
        Some(s) => match parse_i64(s) {
            Ok(v) => Ok(UserId(v)),
            Err(msg) => Err(GetUserError::InvalidUserInURL(msg)),
        },
    }
}

/// The user that a route names; an error in the route is passed on.
pub fn get_user(ledger: &Ledger, user_id: Result<UserId, GetUserError>) -> (r: Result<&User, GetUserError>)
    requires
        ledger.wf(),
    ensures
        match user_id {
            Err(e) => r == Err::<&User, GetUserError>(e),
            Ok(UserId(id)) => if ledger@.has_user(id) {
                r is Ok && *r->Ok_0 == ledger@.user(id)
            } else {
                r == Err::<&User, GetUserError>(GetUserError::UserNotPresentError(UserId(id)))
            },
        },
{
    match user_id {
        Err(e) => Err(e),
        Ok(UserId(id)) => match ledger.get_user(id) {
            Some(u) => Ok(u),
            None => Err(GetUserError::UserNotPresentError(UserId(id))),
        },
    }
}

/// All users, ordered by id.
pub fn get_all_users(ledger: &Ledger) -> (r: &Vec<User>)
    ensures
        r@ == ledger@.users,
{
    ledger.users()
}

/// The user whose card carries `barcode_string`; an empty scan finds nobody.
pub fn get_user_by_barcode(ledger: &Ledger, barcode_string: String) -> (r: Option<&User>)
    requires
        ledger.wf(),
    ensures
        match r {
            Some(u) => barcode_string@.len() > 0 && ledger@.has_user(u.id) && *u == ledger@.user(u.id)
                && holds_card(*u, barcode_string@),
            None => barcode_string@.len() == 0 || forall|j: int|
                0 <= j < ledger@.users.len() ==> !holds_card(#[trigger] ledger@.users[j], barcode_string@),
        },
{
    ledger.get_by_card_number(&barcode_string)
}

/// Sets nickname and card number of a user from the settings page.
pub fn update_user(ledger: &mut Ledger, id: DatabaseId, nickname: String, card_number: String) -> (r: Result<
    (),
    LedgerError,
>)
    requires
        old(ledger).wf(),
    ensures
        final(ledger).wf(),
        (final(ledger)@, r) == old(ledger)@.update_user(id, nickname, card_number),
{
    ledger.update_user(id, nickname, card_number)
}

/// The most recent `limit` entries of a user, newest first.
pub fn get_user_transactions(ledger: &Ledger, user_id: DatabaseId, limit: i64) -> (r: Vec<Transaction>)
    requires
        ledger.wf(),
    ensures
        r@ == LedgerState::recent(ledger@.transactions, user_id, limit_of(limit)),
{
    ledger.get_user_transactions(user_id, limit)
}

/// Undoes a transaction of a user, checked against the grace period at `now`.
pub fn undo_transaction(ledger: &mut Ledger, user_id: DatabaseId, transaction_id: DatabaseId, now: i64) -> (r:
    Result<Transaction, LedgerError>)
    requires
        old(ledger).wf(),
    ensures
        final(ledger).wf(),
        (final(ledger)@, r) == old(ledger)@.undo(user_id, transaction_id, now),
{
    ledger.undo(user_id, transaction_id, now)
}

/// What a row of the transaction list shows.
#[derive(Debug)]
pub struct TransactionRow {
    pub transaction_id: DatabaseId,
    /// The amount, for deposits and withdrawals only.
    pub amount: Option<String>,
    /// Whether the amount is shown as a credit (zero or more).
    pub credit: bool,
    /// Whether an undo button is offered; otherwise the time is shown.
    pub undo_offered: bool,
    pub timestamp: i64,
}

/// Decides how `transaction` is listed at `now`.
pub fn format_transaction(transaction: &Transaction, now: i64) -> (r: TransactionRow)
    ensures
        r.transaction_id == transaction.id,
        r.timestamp == transaction.timestamp,
        r.credit == (transaction.money >= 0),
        r.undo_offered == in_grace(transaction.timestamp as int, now as int),
        match transaction.t_type {
            TransactionType::Deposit | TransactionType::Withdraw => r.amount is Some && r.amount->0@
                == money_text(transaction.money as int, DECIMAL_SEPARATOR),
            _ => r.amount is None,
        },
{
    let amount = match transaction.t_type {
        TransactionType::Deposit | TransactionType::Withdraw => Some(
            Money::new(transaction.money).format(DECIMAL_SEPARATOR),
        ),
        _ => None,
    };
    TransactionRow {
        transaction_id: transaction.id,
        amount,
        credit: transaction.money >= 0,
        undo_offered: within_grace_period(transaction.timestamp, now),
        timestamp: transaction.timestamp,
    }
}

/// The keys that a barcode scanner types, which ends each code with Enter.
pub struct ScanInput {
    /// The keys since the last Enter.
    pub buffer: String,
}

impl ScanInput {
    pub fn new() -> (r: ScanInput)
        ensures
            r.buffer@ == Seq::<char>::empty(),
    {
        ScanInput { buffer: String::new() }
    }

    /// Takes one key press. Enter hands out the code typed since the last
    /// Enter, if there is one, and starts over; any other key is kept.
    pub fn press(&mut self, key: &str) -> (r: Option<String>)
        ensures
            key@ == "Enter"@ ==> {
                &&& final(self).buffer@.len() == 0
                &&& old(self).buffer@.len() == 0 ==> r is None
                &&& old(self).buffer@.len() > 0 ==> r is Some && r->0@ == old(self).buffer@
            },
            key@ != "Enter"@ ==> r is None && final(self).buffer@ == old(self).buffer@ + key@,
    {
        let pressed = key.to_owned();
        let enter = String::from_str("Enter");
        if pressed.eq(&enter) {
            let mut code = String::new();
            std::mem::swap(&mut self.buffer, &mut code);
            if code.as_str().is_empty() {
                None
            } else {
                Some(code)
            }
        } else {
            self.buffer.append(key);
            None
        }
    }
}

} // verus!
