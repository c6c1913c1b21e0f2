use vstd::prelude::*;

use crate::error::LedgerError;
use crate::grace::in_grace;
use crate::money::fits_i64;
use crate::transaction::{DatabaseId, Transaction, TransactionType};
use crate::user::{holds_card, Article, User};

verus! {

/// What the ledger holds, as mathematical values.
pub struct LedgerState {
    /// The user with id `i + 1` stands at index `i`.
    pub users: Seq<User>,
    /// The whole history, in creation order; the entry with id `i + 1` stands at index `i`.
    pub transactions: Seq<Transaction>,
    pub articles: Seq<Article>,
}

/// What `t` adds to the balance of user `uid`.
pub open spec fn contribution(t: Transaction, uid: DatabaseId) -> int {
    if t.user_id == uid && !t.undone {
        t.money as int
    } else {
        0
    }
}

/// The sum of `money` over the entries of `uid` in `txs` that are not undone.
pub open spec fn balance_of(txs: Seq<Transaction>, uid: DatabaseId) -> int
    decreases txs.len(),
{
    if txs.len() == 0 {
        0
    } else {
        balance_of(txs.drop_last(), uid) + contribution(txs.last(), uid)
    }
}

/// What `t` adds to the sum over all entries of user `uid`.
pub open spec fn own_money(t: Transaction, uid: DatabaseId) -> int {
    if t.user_id == uid {
        t.money as int
    } else {
        0
    }
}

/// The sum of `money` over all entries of `uid` in `txs`, undone or not.
pub open spec fn history_sum(txs: Seq<Transaction>, uid: DatabaseId) -> int
    decreases txs.len(),
{
    if txs.len() == 0 {
        0
    } else {
        history_sum(txs.drop_last(), uid) + own_money(txs.last(), uid)
    }
}

/// The entries of `uid` in `txs`, in creation order.
pub open spec fn history(txs: Seq<Transaction>, uid: DatabaseId) -> Seq<Transaction>
    decreases txs.len(),
{
    if txs.len() == 0 {
        seq![]
    } else if txs.last().user_id == uid {
        history(txs.drop_last(), uid).push(txs.last())
    } else {
        history(txs.drop_last(), uid)
    }
}

/// Whether `a` is newer than `b`: a later timestamp, or the same one and a larger id.
pub open spec fn newer(a: Transaction, b: Transaction) -> bool {
    a.timestamp > b.timestamp || (a.timestamp == b.timestamp && a.id > b.id)
}

/// The position of the newest entry of `s` (the first of equals).
pub open spec fn newest_index(s: Seq<Transaction>) -> int
    decreases s.len(),
{
    if s.len() <= 1 {
        0
    } else {
        let i = newest_index(s.drop_last());
        if newer(s.last(), s[i]) {
            s.len() - 1
        } else {
            i
        }
    }
}

/// The `limit` newest entries of `s`, newest first.
pub open spec fn newest_first(s: Seq<Transaction>, limit: nat) -> Seq<Transaction>
    decreases limit,
{
    if limit == 0 || s.len() == 0 {
        seq![]
    } else {
        let i = newest_index(s);
        seq![s[i]] + newest_first(s.remove(i), (limit - 1) as nat)
    }
}

pub proof fn lemma_newest_index_bounds(s: Seq<Transaction>)
    requires
        s.len() > 0,
    ensures
        0 <= newest_index(s) < s.len(),
    decreases s.len(),
{
    if s.len() > 1 {
        lemma_newest_index_bounds(s.drop_last());
    }
}

pub open spec fn user_with_balance(u: User, balance: int) -> User {
    User { id: u.id, nickname: u.nickname, card_number: u.card_number, balance: balance as i64 }
}

pub open spec fn with_undone(t: Transaction) -> Transaction {
    Transaction {
        id: t.id,
        user_id: t.user_id,
        t_type: t.t_type,
        money: t.money,
        counterparty_id: t.counterparty_id,
        paired_id: t.paired_id,
        reverses: t.reverses,
        timestamp: t.timestamp,
        undone: true,
    }
}

/// The card number as stored: an empty one is stored as absent.
pub open spec fn stored_card(code: String) -> Option<String> {
    if code@.len() == 0 {
        None
    } else {
        Some(code)
    }
}

impl LedgerState {
    pub open spec fn empty() -> LedgerState {
        LedgerState { users: seq![], transactions: seq![], articles: seq![] }
    }

    pub open spec fn has_user(self, uid: DatabaseId) -> bool {
        1 <= uid <= self.users.len()
    }

    pub open spec fn user(self, uid: DatabaseId) -> User {
        self.users[uid - 1]
    }

    pub open spec fn has_article(self, aid: DatabaseId) -> bool {
        1 <= aid <= self.articles.len()
    }

    pub open spec fn article(self, aid: DatabaseId) -> Article {
        self.articles[aid - 1]
    }

    pub open spec fn has_transaction(self, tid: DatabaseId) -> bool {
        1 <= tid <= self.transactions.len()
    }

    pub open spec fn transaction(self, tid: DatabaseId) -> Transaction {
        self.transactions[tid - 1]
    }

    /// Whether `k` more entries can still get an id.
    pub open spec fn has_room(self, k: int) -> bool {
        self.transactions.len() + k <= i64::MAX
    }

    pub open spec fn next_id(self) -> DatabaseId {
        (self.transactions.len() + 1) as i64
    }

    /// Whether another user than `uid` holds the card number `code`.
    pub open spec fn card_taken(self, uid: DatabaseId, code: Seq<char>) -> bool {
        exists|j: int| 0 <= j < self.users.len() && j != uid - 1 && holds_card(self.users[j], code)
    }

    pub open spec fn inv(self) -> bool {
        &&& self.users.len() <= i64::MAX
        &&& self.transactions.len() <= i64::MAX
        &&& self.articles.len() <= i64::MAX
        &&& forall|i: int| 0 <= i < self.users.len() ==> #[trigger] self.users[i].id == i + 1
        &&& forall|i: int|
            0 <= i < self.users.len() ==> {
                &&& (#[trigger] self.users[i]).balance == balance_of(self.transactions, (i + 1) as i64)
                &&& self.users[i].balance == history_sum(self.transactions, (i + 1) as i64)
            }
        &&& forall|i: int|
            0 <= i < self.users.len() && (#[trigger] self.users[i]).card_number is Some
                ==> self.users[i].card_number->0@.len() > 0
        &&& forall|i: int, j: int|
            0 <= i < self.users.len() && 0 <= j < self.users.len() && i != j
                && (#[trigger] self.users[i]).card_number is Some
                && (#[trigger] self.users[j]).card_number is Some
                ==> self.users[i].card_number->0@ != self.users[j].card_number->0@
        &&& forall|i: int|
            0 <= i < self.transactions.len() ==> {
                &&& (#[trigger] self.transactions[i]).id == i + 1
                &&& 1 <= self.transactions[i].user_id <= self.users.len()
            }
        &&& forall|i: int| 0 <= i < self.articles.len() ==> #[trigger] self.articles[i].id == i + 1
    }

    /// Writes `t` and moves its owner's cached balance by `t.money`.
    pub open spec fn append(self, t: Transaction) -> LedgerState {
        LedgerState {
            users: self.users.update(
                t.user_id - 1,
                user_with_balance(self.user(t.user_id), self.user(t.user_id).balance + t.money),
            ),
            transactions: self.transactions.push(t),
            articles: self.articles,
        }
    }

    /// A new live entry of user `uid`.
    pub open spec fn entry(
        self,
        uid: DatabaseId,
        t_type: TransactionType,
        money: int,
        counterparty_id: Option<DatabaseId>,
        paired_id: Option<DatabaseId>,
        now: i64,
    ) -> Transaction {
        Transaction {
            id: self.next_id(),
            user_id: uid,
            t_type,
            money: money as i64,
            counterparty_id,
            paired_id,
            reverses: None,
            timestamp: now,
            undone: false,
        }
    }

    /// Writes one live entry for `uid`, or fails with nothing written.
    pub open spec fn post(
        self,
        uid: DatabaseId,
        t_type: TransactionType,
        money: int,
        counterparty_id: Option<DatabaseId>,
        now: i64,
    ) -> (LedgerState, Result<Transaction, LedgerError>) {
        if !self.has_user(uid) {
            (self, Err(LedgerError::UserNotFound))
        } else if !fits_i64(self.user(uid).balance + money) {
            (self, Err(LedgerError::AmountOverflow))
        } else if !self.has_room(1) {
            (self, Err(LedgerError::StorageFailure))
        } else {
            let t = self.entry(uid, t_type, money, counterparty_id, None, now);
            (self.append(t), Ok(t))
        }
    }

    pub open spec fn deposit(self, uid: DatabaseId, amount: i64, now: i64) -> (
        LedgerState,
        Result<Transaction, LedgerError>,
    ) {
        if amount <= 0 {
            (self, Err(LedgerError::InvalidAmount))
        } else {
            self.post(uid, TransactionType::Deposit, amount as int, None, now)
        }
    }

    pub open spec fn withdraw(self, uid: DatabaseId, amount: i64, now: i64) -> (
        LedgerState,
        Result<Transaction, LedgerError>,
    ) {
        if amount <= 0 {
            (self, Err(LedgerError::InvalidAmount))
        } else {
            self.post(uid, TransactionType::Withdraw, -amount, None, now)
        }
    }

    pub open spec fn purchase(self, uid: DatabaseId, aid: DatabaseId, quantity: i64, now: i64) -> (
        LedgerState,
        Result<Transaction, LedgerError>,
    ) {
        if !self.has_user(uid) {
            (self, Err(LedgerError::UserNotFound))
        } else if !self.has_article(aid) {
            (self, Err(LedgerError::ArticleNotFound))
        } else if !fits_i64(self.article(aid).price * quantity) || !fits_i64(
            -(self.article(aid).price * quantity),
        ) {
            (self, Err(LedgerError::AmountOverflow))
        } else {
            self.post(
                uid,
                TransactionType::Purchase,
                -(self.article(aid).price * quantity),
                Some(aid),
                now,
            )
        }
    }

    /// Both legs carry the same (sender-side) timestamp and name each other.
    pub open spec fn transfer(self, from: DatabaseId, to: DatabaseId, amount: i64, now: i64) -> (
        LedgerState,
        Result<Transaction, LedgerError>,
    ) {
        if amount <= 0 {
            (self, Err(LedgerError::InvalidAmount))
        } else if from == to {
            (self, Err(LedgerError::SelfTransfer))
        } else if !self.has_user(from) || !self.has_user(to) {
            (self, Err(LedgerError::UserNotFound))
        } else if !fits_i64(self.user(from).balance - amount) || !fits_i64(
            self.user(to).balance + amount,
        ) {
            (self, Err(LedgerError::AmountOverflow))
        } else if !self.has_room(2) {
            (self, Err(LedgerError::StorageFailure))
        } else {
            let n = self.next_id();
            let sent = self.entry(
                from,
                TransactionType::TransferSent,
                -amount,
                Some(to),
                Some((n + 1) as i64),
                now,
            );
            let s1 = self.append(sent);
            let received = s1.entry(
                to,
                TransactionType::TransferReceived,
                amount as int,
                Some(from),
                Some(n),
                now,
            );
            (s1.append(received), Ok(sent))
        }
    }

    pub open spec fn mark_undone(self, tid: DatabaseId) -> LedgerState {
        LedgerState {
            transactions: self.transactions.update(tid - 1, with_undone(self.transaction(tid))),
            ..self
        }
    }

    /// The entry that reverses `tid`: same owner, kind and counterparty, negated money.
    pub open spec fn compensation(self, tid: DatabaseId, paired_id: Option<DatabaseId>, now: i64) -> Transaction {
        let t = self.transaction(tid);
        Transaction {
            id: self.next_id(),
            user_id: t.user_id,
            t_type: t.t_type,
            money: (-t.money) as i64,
            counterparty_id: t.counterparty_id,
            paired_id,
            reverses: Some(tid),
            timestamp: now,
            undone: true,
        }
    }

    /// Flags `tid` as undone and writes its compensation.
    pub open spec fn reverse(self, tid: DatabaseId, paired_id: Option<DatabaseId>, now: i64) -> LedgerState {
        self.mark_undone(tid).append(self.compensation(tid, paired_id, now))
    }

    /// Whether `tid` can be reversed alone without leaving the range of `i64`.
    pub open spec fn reversible(self, tid: DatabaseId) -> bool {
        let t = self.transaction(tid);
        t.money != i64::MIN && fits_i64(self.user(t.user_id).balance - t.money)
    }

    pub open spec fn undo(self, uid: DatabaseId, tid: DatabaseId, now: i64) -> (
        LedgerState,
        Result<Transaction, LedgerError>,
    ) {
        if !self.has_transaction(tid) || self.transaction(tid).user_id != uid {
            (self, Err(LedgerError::TransactionNotFound))
        } else if self.transaction(tid).undone {
            (self, Err(LedgerError::AlreadyUndone))
        } else if !in_grace(self.transaction(tid).timestamp as int, now as int) {
            (self, Err(LedgerError::GracePeriodExpired))
        } else {
            match self.transaction(tid).paired_id {
                None => {
                    if !self.reversible(tid) {
                        (self, Err(LedgerError::AmountOverflow))
                    } else if !self.has_room(1) {
                        (self, Err(LedgerError::StorageFailure))
                    } else {
                        (self.reverse(tid, None, now), Ok(self.compensation(tid, None, now)))
                    }
                },
                Some(p) => {
                    if !self.has_transaction(p) || p == tid || self.transaction(p).paired_id != Some(
                        tid,
                    ) || self.transaction(p).user_id == uid {
                        (self, Err(LedgerError::TransactionNotFound))
                    } else if self.transaction(p).undone {
                        (self, Err(LedgerError::AlreadyUndone))
                    } else if !self.reversible(tid) || !self.reversible(p) {
                        (self, Err(LedgerError::AmountOverflow))
                    } else if !self.has_room(2) {
                        (self, Err(LedgerError::StorageFailure))
                    } else {
                        let n = self.next_id();
                        let s1 = self.reverse(tid, Some((n + 1) as i64), now);
                        (s1.reverse(p, Some(n), now), Ok(self.compensation(tid, Some((n + 1) as i64), now)))
                    }
                },
            }
        }
    }

    pub open spec fn create_user(self, nickname: String) -> (LedgerState, Result<DatabaseId, LedgerError>) {
        if self.users.len() >= i64::MAX {
            (self, Err(LedgerError::StorageFailure))
        } else {
            let id = (self.users.len() + 1) as i64;
            (
                LedgerState {
                    users: self.users.push(User { id, nickname, card_number: None, balance: 0 }),
                    ..self
                },
                Ok(id),
            )
        }
    }

    pub open spec fn add_article(self, name: String, price: i64) -> (LedgerState, Result<DatabaseId, LedgerError>) {
        if self.articles.len() >= i64::MAX {
            (self, Err(LedgerError::StorageFailure))
        } else {
            let id = (self.articles.len() + 1) as i64;
            (LedgerState { articles: self.articles.push(Article { id, name, price }), ..self }, Ok(id))
        }
    }

    /// Sets nickname and card number of `uid` together.
    pub open spec fn update_user(self, uid: DatabaseId, nickname: String, card_number: String) -> (
        LedgerState,
        Result<(), LedgerError>,
    ) {
        if !self.has_user(uid) {
            (self, Err(LedgerError::UserNotFound))
        } else if card_number@.len() > 0 && self.card_taken(uid, card_number@) {
            (self, Err(LedgerError::CardNumberInUse))
        } else {
            let u = self.user(uid);
            (
                LedgerState {
                    users: self.users.update(
                        uid - 1,
                        User {
                            id: u.id,
                            nickname,
                            card_number: stored_card(card_number),
                            balance: u.balance,
                        },
                    ),
                    ..self
                },
                Ok(()),
            )
        }
    }

    /// Sets the card number of `uid`, keeping the nickname.
    pub open spec fn set_card_number(self, uid: DatabaseId, card_number: String) -> (
        LedgerState,
        Result<(), LedgerError>,
    ) {
        self.update_user(uid, self.user(uid).nickname, card_number)
    }

    /// Up to `limit` entries of `uid`, newest first.
    pub open spec fn recent(txs: Seq<Transaction>, uid: DatabaseId, limit: nat) -> Seq<Transaction> {
        newest_first(history(txs, uid), limit)
    }
}

pub proof fn lemma_balance_push(txs: Seq<Transaction>, t: Transaction, uid: DatabaseId)
    ensures
        balance_of(txs.push(t), uid) == balance_of(txs, uid) + contribution(t, uid),
{
    assert(txs.push(t).drop_last() =~= txs);
}

pub proof fn lemma_balance_update(txs: Seq<Transaction>, k: int, t: Transaction, uid: DatabaseId)
    requires
        0 <= k < txs.len(),
    ensures
        balance_of(txs.update(k, t), uid) == balance_of(txs, uid) - contribution(txs[k], uid)
            + contribution(t, uid),
    decreases txs.len(),
{
    let u = txs.update(k, t);
    if k == txs.len() - 1 {
        assert(u.drop_last() =~= txs.drop_last());
    } else {
        assert(u.drop_last() =~= txs.drop_last().update(k, t));
        lemma_balance_update(txs.drop_last(), k, t, uid);
    }
}

pub proof fn lemma_balance_absent(txs: Seq<Transaction>, uid: DatabaseId)
    requires
        forall|i: int| 0 <= i < txs.len() ==> (#[trigger] txs[i]).user_id != uid,
    ensures
        balance_of(txs, uid) == 0,
    decreases txs.len(),
{
    if txs.len() > 0 {
        lemma_balance_absent(txs.drop_last(), uid);
    }
}

pub proof fn lemma_history_push(txs: Seq<Transaction>, t: Transaction, uid: DatabaseId)
    ensures
        history_sum(txs.push(t), uid) == history_sum(txs, uid) + own_money(t, uid),
{
    assert(txs.push(t).drop_last() =~= txs);
}

pub proof fn lemma_history_update(txs: Seq<Transaction>, k: int, t: Transaction, uid: DatabaseId)
    requires
        0 <= k < txs.len(),
    ensures
        history_sum(txs.update(k, t), uid) == history_sum(txs, uid) - own_money(txs[k], uid)
            + own_money(t, uid),
    decreases txs.len(),
{
    let u = txs.update(k, t);
    if k == txs.len() - 1 {
        assert(u.drop_last() =~= txs.drop_last());
    } else {
        assert(u.drop_last() =~= txs.drop_last().update(k, t));
        lemma_history_update(txs.drop_last(), k, t, uid);
    }
}

pub proof fn lemma_history_absent(txs: Seq<Transaction>, uid: DatabaseId)
    requires
        forall|i: int| 0 <= i < txs.len() ==> (#[trigger] txs[i]).user_id != uid,
    ensures
        history_sum(txs, uid) == 0,
    decreases txs.len(),
{
    if txs.len() > 0 {
        lemma_history_absent(txs.drop_last(), uid);
    }
}

/// Writing a live entry keeps the ledger consistent.
pub proof fn lemma_append_live(s: LedgerState, t: Transaction)
    requires
        s.inv(),
        s.has_room(1),
        t.id == s.next_id(),
        s.has_user(t.user_id),
        !t.undone,
        fits_i64(s.user(t.user_id).balance + t.money),
    ensures
        s.append(t).inv(),
{
    let s2 = s.append(t);
    assert forall|i: int| 0 <= i < s2.users.len() implies {
        &&& (#[trigger] s2.users[i]).balance == balance_of(s2.transactions, (i + 1) as i64)
        &&& s2.users[i].balance == history_sum(s2.transactions, (i + 1) as i64)
    } by {
        lemma_balance_push(s.transactions, t, (i + 1) as i64);
        lemma_history_push(s.transactions, t, (i + 1) as i64);
    }
    assert forall|i: int| 0 <= i < s2.transactions.len() implies {
        &&& (#[trigger] s2.transactions[i]).id == i + 1
        &&& 1 <= s2.transactions[i].user_id <= s2.users.len()
    } by {
        if i < s.transactions.len() {
            assert(s2.transactions[i] == s.transactions[i]);
        }
    }
}

/// Reversing a live entry keeps the ledger consistent.
pub proof fn lemma_reverse(s: LedgerState, tid: DatabaseId, paired_id: Option<DatabaseId>, now: i64)
    requires
        s.inv(),
        s.has_room(1),
        s.has_transaction(tid),
        !s.transaction(tid).undone,
        s.reversible(tid),
    ensures
        s.reverse(tid, paired_id, now).inv(),
{
    let t = s.transaction(tid);
    let m = s.mark_undone(tid);
    let c = s.compensation(tid, paired_id, now);
    let s2 = m.append(c);
    assert forall|i: int| 0 <= i < s2.users.len() implies {
        &&& (#[trigger] s2.users[i]).balance == balance_of(s2.transactions, (i + 1) as i64)
        &&& s2.users[i].balance == history_sum(s2.transactions, (i + 1) as i64)
    } by {
        lemma_balance_update(s.transactions, tid - 1, with_undone(t), (i + 1) as i64);
        lemma_balance_push(m.transactions, c, (i + 1) as i64);
        lemma_history_update(s.transactions, tid - 1, with_undone(t), (i + 1) as i64);
        lemma_history_push(m.transactions, c, (i + 1) as i64);
    }
    assert forall|i: int| 0 <= i < s2.transactions.len() implies {
        &&& (#[trigger] s2.transactions[i]).id == i + 1
        &&& 1 <= s2.transactions[i].user_id <= s2.users.len()
    } by {
        if i < s.transactions.len() {
            assert(s2.transactions[i] == m.transactions[i]);
        }
    }
}

pub proof fn lemma_post_inv(
    s: LedgerState,
    uid: DatabaseId,
    t_type: TransactionType,
    money: int,
    counterparty_id: Option<DatabaseId>,
    now: i64,
)
    requires
        s.inv(),
        fits_i64(money),
    ensures
        s.post(uid, t_type, money, counterparty_id, now).0.inv(),
{
    if s.has_user(uid) && fits_i64(s.user(uid).balance + money) && s.has_room(1) {
        lemma_append_live(s, s.entry(uid, t_type, money, counterparty_id, None, now));
    }
}

pub proof fn lemma_deposit_inv(s: LedgerState, uid: DatabaseId, amount: i64, now: i64)
    requires
        s.inv(),
    ensures
        s.deposit(uid, amount, now).0.inv(),
{
    lemma_post_inv(s, uid, TransactionType::Deposit, amount as int, None, now);
}

pub proof fn lemma_withdraw_inv(s: LedgerState, uid: DatabaseId, amount: i64, now: i64)
    requires
        s.inv(),
    ensures
        s.withdraw(uid, amount, now).0.inv(),
{
    if amount > 0 {
        lemma_post_inv(s, uid, TransactionType::Withdraw, -amount, None, now);
    }
}

pub proof fn lemma_purchase_inv(s: LedgerState, uid: DatabaseId, aid: DatabaseId, quantity: i64, now: i64)
    requires
        s.inv(),
    ensures
        s.purchase(uid, aid, quantity, now).0.inv(),
{
    if s.has_user(uid) && s.has_article(aid) {
        let cost = s.article(aid).price * quantity;
        if fits_i64(cost) && fits_i64(-cost) {
            lemma_post_inv(s, uid, TransactionType::Purchase, -cost, Some(aid), now);
        }
    }
}

pub proof fn lemma_transfer_inv(s: LedgerState, from: DatabaseId, to: DatabaseId, amount: i64, now: i64)
    requires
        s.inv(),
    ensures
        s.transfer(from, to, amount, now).0.inv(),
{
    if amount > 0 && from != to && s.has_user(from) && s.has_user(to) && fits_i64(
        s.user(from).balance - amount,
    ) && fits_i64(s.user(to).balance + amount) && s.has_room(2) {
        let n = s.next_id();
        let sent = s.entry(from, TransactionType::TransferSent, -amount, Some(to), Some((n + 1) as i64), now);
        lemma_append_live(s, sent);
        let s1 = s.append(sent);
        assert(s1.user(to) == s.user(to));
        let received = s1.entry(to, TransactionType::TransferReceived, amount as int, Some(from), Some(n), now);
        lemma_append_live(s1, received);
    }
}

pub proof fn lemma_undo_inv(s: LedgerState, uid: DatabaseId, tid: DatabaseId, now: i64)
    requires
        s.inv(),
    ensures
        s.undo(uid, tid, now).0.inv(),
{
    if s.has_transaction(tid) && s.transaction(tid).user_id == uid && !s.transaction(tid).undone
        && in_grace(s.transaction(tid).timestamp as int, now as int) {
        match s.transaction(tid).paired_id {
            None => {
                if s.reversible(tid) && s.has_room(1) {
                    lemma_reverse(s, tid, None, now);
                }
            },
            Some(p) => {
                if s.has_transaction(p) && p != tid && s.transaction(p).paired_id == Some(tid)
                    && s.transaction(p).user_id != uid && !s.transaction(p).undone && s.reversible(tid)
                    && s.reversible(p) && s.has_room(2) {
                    let n = s.next_id();
                    lemma_reverse(s, tid, Some((n + 1) as i64), now);
                    let s1 = s.reverse(tid, Some((n + 1) as i64), now);
                    assert(s1.transaction(p) == s.transaction(p));
                    assert(s1.user(s.transaction(p).user_id) == s.user(s.transaction(p).user_id));
                    lemma_reverse(s1, p, Some(n), now);
                }
            },
        }
    }
}

pub proof fn lemma_create_user_inv(s: LedgerState, nickname: String)
    requires
        s.inv(),
    ensures
        s.create_user(nickname).0.inv(),
{
    if s.users.len() < i64::MAX {
        lemma_balance_absent(s.transactions, (s.users.len() + 1) as i64);
        lemma_history_absent(s.transactions, (s.users.len() + 1) as i64);
    }
}

pub proof fn lemma_update_user_inv(s: LedgerState, uid: DatabaseId, nickname: String, card_number: String)
    requires
        s.inv(),
    ensures
        s.update_user(uid, nickname, card_number).0.inv(),
{
}

/// No two entries of `s` share an id.
pub open spec fn distinct_ids(s: Seq<Transaction>) -> bool {
    forall|a: int, b: int| 0 <= a < s.len() && 0 <= b < s.len() && a != b ==> s[a].id != s[b].id
}

/// No entry of `s` is newer than the one at `newest_index(s)`.
pub proof fn lemma_newest_is_max(s: Seq<Transaction>)
    requires
        s.len() > 0,
    ensures
        forall|k: int| 0 <= k < s.len() ==> !newer(#[trigger] s[k], s[newest_index(s)]),
    decreases s.len(),
{
    if s.len() > 1 {
        let d = s.drop_last();
        lemma_newest_is_max(d);
        lemma_newest_index_bounds(d);
        assert forall|k: int| 0 <= k < s.len() implies !newer(#[trigger] s[k], s[newest_index(s)]) by {
            if k < s.len() - 1 {
                assert(s[k] == d[k]);
            }
        }
    }
}

pub proof fn lemma_remove_index(s: Seq<Transaction>, i: int, m: int)
    requires
        0 <= i < s.len(),
        0 <= m < s.len() - 1,
    ensures
        s.remove(i)[m] == s[if m < i { m } else { m + 1 }],
{
}

/// Every entry that `newest_first` lists comes from `s`, at a position of its own.
pub proof fn lemma_newest_first_members(s: Seq<Transaction>, limit: nat)
    ensures
        forall|j: int|
            0 <= j < newest_first(s, limit).len() ==> exists|m: int|
                0 <= m < s.len() && s[m] == #[trigger] newest_first(s, limit)[j],
    decreases limit,
{
    if limit > 0 && s.len() > 0 {
        let i = newest_index(s);
        lemma_newest_index_bounds(s);
        let rest = s.remove(i);
        lemma_newest_first_members(rest, (limit - 1) as nat);
        let r = newest_first(s, limit);
        assert forall|j: int| 0 <= j < r.len() implies exists|m: int|
            0 <= m < s.len() && s[m] == #[trigger] r[j] by {
            if j == 0 {
                assert(s[i] == r[0]);
            } else {
                assert(r[j] == newest_first(rest, (limit - 1) as nat)[j - 1]);
                let m1 = choose|m1: int|
                    0 <= m1 < rest.len() && rest[m1] == newest_first(rest, (limit - 1) as nat)[j - 1];
                lemma_remove_index(s, i, m1);
                let m = if m1 < i { m1 } else { m1 + 1 };
                assert(s[m] == r[j]);
            }
        }
    }
}

/// With distinct ids, `newest_first` lists every entry strictly newer than the next.
pub proof fn lemma_newest_first_sorted(s: Seq<Transaction>, limit: nat)
    requires
        distinct_ids(s),
    ensures
        forall|j: int, k: int|
            0 <= j < k < newest_first(s, limit).len() ==> newer(
                #[trigger] newest_first(s, limit)[j],
                #[trigger] newest_first(s, limit)[k],
            ),
    decreases limit,
{
    if limit > 0 && s.len() > 0 {
        let i = newest_index(s);
        lemma_newest_index_bounds(s);
        lemma_newest_is_max(s);
        let rest = s.remove(i);
        let l1 = (limit - 1) as nat;
        assert forall|a: int, b: int| 0 <= a < rest.len() && 0 <= b < rest.len() && a != b implies rest[a].id
            != rest[b].id by {
            lemma_remove_index(s, i, a);
            lemma_remove_index(s, i, b);
        }
        lemma_newest_first_sorted(rest, l1);
        lemma_newest_first_members(rest, l1);
        let r = newest_first(s, limit);
        assert forall|j: int, k: int| 0 <= j < k < r.len() implies newer(#[trigger] r[j], #[trigger] r[k]) by {
            assert(r[k] == newest_first(rest, l1)[k - 1]);
            if j == 0 {
                let m1 = choose|m1: int| 0 <= m1 < rest.len() && rest[m1] == newest_first(rest, l1)[k - 1];
                lemma_remove_index(s, i, m1);
                let m = if m1 < i { m1 } else { m1 + 1 };
                assert(!newer(s[m], s[i]));
                assert(s[m].id != s[i].id);
            } else {
                assert(r[j] == newest_first(rest, l1)[j - 1]);
            }
        }
    }
}

/// The history of `uid` holds only entries of `uid`, each taken from `txs`.
pub proof fn lemma_history_members(txs: Seq<Transaction>, uid: DatabaseId)
    ensures
        forall|j: int|
            0 <= j < history(txs, uid).len() ==> (#[trigger] history(txs, uid)[j]).user_id == uid
                && exists|m: int| 0 <= m < txs.len() && txs[m] == history(txs, uid)[j],
    decreases txs.len(),
{
    if txs.len() > 0 {
        let d = txs.drop_last();
        lemma_history_members(d, uid);
        let h = history(txs, uid);
        assert forall|j: int| 0 <= j < h.len() implies (#[trigger] h[j]).user_id == uid && exists|m: int|
            0 <= m < txs.len() && txs[m] == h[j] by {
            if j < history(d, uid).len() {
                assert(h[j] == history(d, uid)[j]);
                let m = choose|m: int| 0 <= m < d.len() && d[m] == history(d, uid)[j];
                assert(txs[m] == h[j]);
            } else {
                assert(txs[txs.len() - 1] == h[j]);
            }
        }
    }
}

/// Taking the history of one user keeps ids distinct.
pub proof fn lemma_history_distinct(txs: Seq<Transaction>, uid: DatabaseId)
    requires
        distinct_ids(txs),
    ensures
        distinct_ids(history(txs, uid)),
    decreases txs.len(),
{
    if txs.len() > 0 {
        let d = txs.drop_last();
        assert(distinct_ids(d)) by {
            assert forall|a: int, b: int| 0 <= a < d.len() && 0 <= b < d.len() && a != b implies d[a].id
                != d[b].id by {
                assert(d[a] == txs[a] && d[b] == txs[b]);
            }
        }
        lemma_history_distinct(d, uid);
        lemma_history_members(d, uid);
        let hd = history(d, uid);
        if txs.last().user_id == uid {
            let h = history(txs, uid);
            assert forall|a: int, b: int| 0 <= a < h.len() && 0 <= b < h.len() && a != b implies h[a].id
                != h[b].id by {
                if a < hd.len() && b < hd.len() {
                    assert(h[a] == hd[a] && h[b] == hd[b]);
                } else if a < hd.len() {
                    let m = choose|m: int| 0 <= m < d.len() && d[m] == hd[a];
                    assert(h[a] == hd[a]);
                    assert(txs[m] == d[m]);
                } else {
                    let m = choose|m: int| 0 <= m < d.len() && d[m] == hd[b];
                    assert(h[b] == hd[b]);
                    assert(txs[m] == d[m]);
                }
            }
        }
    }
}

} // verus!
