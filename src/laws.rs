//! Properties that hold of every ledger, stated over the model and proved.
use vstd::prelude::*;

use crate::error::LedgerError;
use crate::grace::{in_grace, GRACE_PERIOD_SECONDS};
use crate::model::{
    balance_of, distinct_ids, history, history_sum, lemma_create_user_inv, lemma_history_distinct,
    lemma_history_members, lemma_newest_first_members, lemma_newest_first_sorted, newer, lemma_deposit_inv, lemma_purchase_inv, lemma_transfer_inv,
    lemma_undo_inv, lemma_update_user_inv, lemma_withdraw_inv, with_undone, LedgerState,
};
use crate::money::fits_i64;
use crate::transaction::{DatabaseId, TransactionType};
use crate::user::holds_card;

verus! {

/// One request to the ledger, with the arguments of the method that serves it.
pub enum Operation {
    Deposit { user_id: DatabaseId, amount: i64, now: i64 },
    Withdraw { user_id: DatabaseId, amount: i64, now: i64 },
    Purchase { user_id: DatabaseId, article_id: DatabaseId, quantity: i64, now: i64 },
    Transfer { sender_id: DatabaseId, receiver_id: DatabaseId, amount: i64, now: i64 },
    Undo { user_id: DatabaseId, transaction_id: DatabaseId, now: i64 },
    CreateUser { nickname: String },
    AddArticle { name: String, price: i64 },
    UpdateUser { id: DatabaseId, nickname: String, card_number: String },
    SetCardNumber { id: DatabaseId, card_number: String },
}

/// The ledger after `op`, whether it succeeded or failed.
pub open spec fn apply(s: LedgerState, op: Operation) -> LedgerState {
    match op {
        Operation::Deposit { user_id, amount, now } => s.deposit(user_id, amount, now).0,
        Operation::Withdraw { user_id, amount, now } => s.withdraw(user_id, amount, now).0,
        Operation::Purchase { user_id, article_id, quantity, now } => s.purchase(
            user_id,
            article_id,
            quantity,
            now,
        ).0,
        Operation::Transfer { sender_id, receiver_id, amount, now } => s.transfer(
            sender_id,
            receiver_id,
            amount,
            now,
        ).0,
        Operation::Undo { user_id, transaction_id, now } => s.undo(user_id, transaction_id, now).0,
        Operation::CreateUser { nickname } => s.create_user(nickname).0,
        Operation::AddArticle { name, price } => s.add_article(name, price).0,
        Operation::UpdateUser { id, nickname, card_number } => s.update_user(id, nickname, card_number).0,
        Operation::SetCardNumber { id, card_number } => s.set_card_number(id, card_number).0,
    }
}

/// The ledger after `ops`, in order.
pub open spec fn run(s: LedgerState, ops: Seq<Operation>) -> LedgerState
    decreases ops.len(),
{
    if ops.len() == 0 {
        s
    } else {
        apply(run(s, ops.drop_last()), ops.last())
    }
}

/// Each user's cached balance is the sum of its entries that are not undone,
/// and also the sum of all its entries: an undone entry and the compensation
/// that reverses it cancel out.
pub open spec fn balances_match_history(s: LedgerState) -> bool {
    forall|i: int|
        0 <= i < s.users.len() ==> {
            &&& (#[trigger] s.users[i]).balance == balance_of(s.transactions, s.users[i].id)
            &&& s.users[i].balance == history_sum(s.transactions, s.users[i].id)
        }
}

/// Every operation, successful or not, keeps the ledger consistent.
pub proof fn law_operation_keeps_ledger_consistent(s: LedgerState, op: Operation)
    requires
        s.inv(),
    ensures
        apply(s, op).inv(),
{
    match op {
        Operation::Deposit { user_id, amount, now } => lemma_deposit_inv(s, user_id, amount, now),
        Operation::Withdraw { user_id, amount, now } => lemma_withdraw_inv(s, user_id, amount, now),
        Operation::Purchase { user_id, article_id, quantity, now } => lemma_purchase_inv(
            s,
            user_id,
            article_id,
            quantity,
            now,
        ),
        Operation::Transfer { sender_id, receiver_id, amount, now } => lemma_transfer_inv(
            s,
            sender_id,
            receiver_id,
            amount,
            now,
        ),
        Operation::Undo { user_id, transaction_id, now } => lemma_undo_inv(s, user_id, transaction_id, now),
        Operation::CreateUser { nickname } => lemma_create_user_inv(s, nickname),
        Operation::AddArticle { name, price } => {},
        Operation::UpdateUser { id, nickname, card_number } => lemma_update_user_inv(
            s,
            id,
            nickname,
            card_number,
        ),
        Operation::SetCardNumber { id, card_number } => lemma_update_user_inv(
            s,
            id,
            s.user(id).nickname,
            card_number,
        ),
    }
}

/// After any sequence of operations on a new ledger, every user's balance
/// equals the sum of `money` over that user's entries that are not undone,
/// and equally the sum over all of that user's entries.
pub proof fn law_balance_matches_history(ops: Seq<Operation>)
    ensures
        run(LedgerState::empty(), ops).inv(),
        balances_match_history(run(LedgerState::empty(), ops)),
    decreases ops.len(),
{
    if ops.len() > 0 {
        law_balance_matches_history(ops.drop_last());
        law_operation_keeps_ledger_consistent(run(LedgerState::empty(), ops.drop_last()), ops.last());
    }
    let s = run(LedgerState::empty(), ops);
    assert forall|i: int| 0 <= i < s.users.len() implies {
        &&& (#[trigger] s.users[i]).balance == balance_of(s.transactions, s.users[i].id)
        &&& s.users[i].balance == history_sum(s.transactions, s.users[i].id)
    } by {
        assert(s.users[i].id == i + 1);
    }
}

/// A failed transfer changes nothing: neither side's entries nor balances.
pub proof fn law_failed_transfer_changes_nothing(
    s: LedgerState,
    sender_id: DatabaseId,
    receiver_id: DatabaseId,
    amount: i64,
    now: i64,
)
    ensures
        s.transfer(sender_id, receiver_id, amount, now).1 is Err ==> s.transfer(
            sender_id,
            receiver_id,
            amount,
            now,
        ).0 == s,
{
}

/// Undoing a deposit within the grace period restores the user's balance (and
/// every other user's) and leaves exactly two entries for the event: the
/// deposit, flagged undone, and its compensation with the negated amount.
pub proof fn law_undo_restores_deposit(
    s: LedgerState,
    user_id: DatabaseId,
    amount: i64,
    now: i64,
    later: i64,
)
    requires
        s.inv(),
        s.deposit(user_id, amount, now).1 is Ok,
        in_grace(now as int, later as int),
        s.has_room(2),
    ensures
        ({
            let (s1, d) = s.deposit(user_id, amount, now);
            let (s2, r) = s1.undo(user_id, d->Ok_0.id, later);
            let n = s.transactions.len();
            &&& r is Ok
            &&& s2.users == s.users
            &&& s2.transactions.len() == n + 2
            &&& s2.transactions.subrange(0, n as int) == s.transactions
            &&& s2.transactions[n as int] == with_undone(d->Ok_0)
            &&& s2.transactions[n + 1int] == r->Ok_0
            &&& r->Ok_0.money == -amount
            &&& r->Ok_0.t_type == TransactionType::Deposit
            &&& r->Ok_0.reverses == Some(d->Ok_0.id)
            &&& r->Ok_0.undone
        }),
{
    let (s1, d) = s.deposit(user_id, amount, now);
    let t = d->Ok_0;
    lemma_deposit_inv(s, user_id, amount, now);
    assert(s1.transaction(t.id) == t);
    let (s2, r) = s1.undo(user_id, t.id, later);
    let n = s.transactions.len();
    assert(s2.users =~= s.users);
    assert(s2.transactions.subrange(0, n as int) =~= s.transactions);
}

/// Undoing a transfer within the grace period reverses both legs together and
/// restores both balances (and every other user's).
pub proof fn law_undo_restores_transfer(
    s: LedgerState,
    sender_id: DatabaseId,
    receiver_id: DatabaseId,
    amount: i64,
    now: i64,
    later: i64,
)
    requires
        s.inv(),
        s.transfer(sender_id, receiver_id, amount, now).1 is Ok,
        in_grace(now as int, later as int),
        s.has_room(4),
    ensures
        ({
            let (s1, t) = s.transfer(sender_id, receiver_id, amount, now);
            let sent = t->Ok_0;
            let (s2, r) = s1.undo(sender_id, sent.id, later);
            &&& r is Ok
            &&& s2.users == s.users
            &&& s2.transaction(sent.id).undone
            &&& s2.transaction(sent.paired_id->0).undone
            &&& s2.transactions.len() == s.transactions.len() + 4
        }),
{
    let (s1, t) = s.transfer(sender_id, receiver_id, amount, now);
    let sent = t->Ok_0;
    lemma_transfer_inv(s, sender_id, receiver_id, amount, now);
    let n = s.next_id();
    assert(s1.transaction(n) == sent);
    assert(s1.transaction((n + 1) as i64).paired_id == Some(n));
    let (s2, r) = s1.undo(sender_id, sent.id, later);
    assert(s2.users =~= s.users);
}

/// Undo of an entry older than the grace period fails and changes nothing.
pub proof fn law_undo_after_grace_fails(s: LedgerState, user_id: DatabaseId, transaction_id: DatabaseId, now: i64)
    requires
        s.has_transaction(transaction_id),
        s.transaction(transaction_id).user_id == user_id,
        !s.transaction(transaction_id).undone,
        now - s.transaction(transaction_id).timestamp > GRACE_PERIOD_SECONDS,
    ensures
        s.undo(user_id, transaction_id, now) == (s, Err::<crate::transaction::Transaction, LedgerError>(
            LedgerError::GracePeriodExpired,
        )),
{
}

/// The first undo of a live entry within the grace period succeeds and flags
/// the entry undone, unless the reversal would overflow or no id is left; a
/// transfer leg needs its other leg in place, live and pointing back to it.
pub proof fn law_first_undo_succeeds(s: LedgerState, user_id: DatabaseId, transaction_id: DatabaseId, now: i64)
    requires
        s.inv(),
        s.has_transaction(transaction_id),
        s.transaction(transaction_id).user_id == user_id,
        !s.transaction(transaction_id).undone,
        in_grace(s.transaction(transaction_id).timestamp as int, now as int),
        s.reversible(transaction_id),
        s.has_room(2),
        s.transaction(transaction_id).paired_id matches Some(p) ==> {
            &&& s.has_transaction(p)
            &&& p != transaction_id
            &&& s.transaction(p).paired_id == Some(transaction_id)
            &&& s.transaction(p).user_id != user_id
            &&& !s.transaction(p).undone
            &&& s.reversible(p)
        },
    ensures
        s.undo(user_id, transaction_id, now).1 is Ok,
        s.undo(user_id, transaction_id, now).0.transaction(transaction_id).undone,
{
}

/// A second undo of the same entry fails with `AlreadyUndone` and changes nothing.
pub proof fn law_no_double_undo(
    s: LedgerState,
    user_id: DatabaseId,
    transaction_id: DatabaseId,
    now: i64,
    later: i64,
)
    requires
        s.undo(user_id, transaction_id, now).1 is Ok,
    ensures
        ({
            let s1 = s.undo(user_id, transaction_id, now).0;
            s1.undo(user_id, transaction_id, later) == (s1, Err::<
                crate::transaction::Transaction,
                LedgerError,
            >(LedgerError::AlreadyUndone))
        }),
{
}

/// A card number held by one user cannot be given to another; once the holder
/// clears it (an empty card number), the other user can take it.
pub proof fn law_card_number_unique(
    s: LedgerState,
    holder: DatabaseId,
    other: DatabaseId,
    code: String,
    empty: String,
)
    requires
        s.inv(),
        s.has_user(holder),
        s.has_user(other),
        holder != other,
        code@.len() > 0,
        holds_card(s.user(holder), code@),
        empty@.len() == 0,
    ensures
        s.set_card_number(other, code) == (s, Err::<(), LedgerError>(LedgerError::CardNumberInUse)),
        s.set_card_number(holder, empty).1 is Ok,
        s.set_card_number(holder, empty).0.set_card_number(other, code).1 is Ok,
        holds_card(s.set_card_number(holder, empty).0.set_card_number(other, code).0.user(other), code@),
{
    assert(s.card_taken(other, code@));
    let s1 = s.set_card_number(holder, empty).0;
    if s1.card_taken(other, code@) {
        let j = choose|j: int| 0 <= j < s1.users.len() && j != other - 1 && holds_card(s1.users[j], code@);
        assert(s.users[j] == s1.users[j]);
        assert(holds_card(s.users[j], code@));
        assert(j == holder - 1);
    }
}

/// Withdrawing more than the balance succeeds: the balance simply goes below zero.
pub proof fn law_negative_balance_permitted(s: LedgerState, user_id: DatabaseId, amount: i64, now: i64)
    requires
        s.has_user(user_id),
        amount > 0,
        fits_i64(s.user(user_id).balance - amount),
        s.has_room(1),
    ensures
        s.withdraw(user_id, amount, now).1 is Ok,
        s.withdraw(user_id, amount, now).0.user(user_id).balance == s.user(user_id).balance - amount,
{
}

/// A user's recent transactions are that user's own, listed strictly newest
/// first: by timestamp, and by id between equal timestamps.
pub proof fn law_recent_newest_first(s: LedgerState, user_id: DatabaseId, limit: nat)
    requires
        s.inv(),
    ensures
        forall|j: int|
            0 <= j < LedgerState::recent(s.transactions, user_id, limit).len() ==> (#[trigger] LedgerState::recent(
                s.transactions,
                user_id,
                limit,
            )[j]).user_id == user_id,
        forall|j: int, k: int|
            0 <= j < k < LedgerState::recent(s.transactions, user_id, limit).len() ==> newer(
                #[trigger] LedgerState::recent(s.transactions, user_id, limit)[j],
                #[trigger] LedgerState::recent(s.transactions, user_id, limit)[k],
            ),
{
    let txs = s.transactions;
    assert(distinct_ids(txs)) by {
        assert forall|a: int, b: int| 0 <= a < txs.len() && 0 <= b < txs.len() && a != b implies txs[a].id
            != txs[b].id by {
            assert(txs[a].id == a + 1 && txs[b].id == b + 1);
        }
    }
    let h = history(txs, user_id);
    lemma_history_distinct(txs, user_id);
    lemma_history_members(txs, user_id);
    lemma_newest_first_sorted(h, limit);
    lemma_newest_first_members(h, limit);
    let r = LedgerState::recent(txs, user_id, limit);
    assert forall|j: int| 0 <= j < r.len() implies (#[trigger] r[j]).user_id == user_id by {
        let m = choose|m: int| 0 <= m < h.len() && h[m] == r[j];
        assert(h[m].user_id == user_id);
    }
}

} // verus!
