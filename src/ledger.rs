use vstd::prelude::*;

use crate::error::LedgerError;
use crate::grace::within_grace_period;
use crate::model::{
    history, lemma_append_live, lemma_create_user_inv, lemma_newest_index_bounds, lemma_reverse,
    lemma_transfer_inv, newest_first, newest_index, with_undone, LedgerState,
};
use crate::money::fits_i64;
use crate::transaction::{DatabaseId, Transaction, TransactionType};
use crate::user::{holds_card, Article, User};

verus! {

/// The ledger: users, articles and the append-only history of transactions.
///
/// Every operation validates before it writes, so a failed operation leaves the
/// ledger exactly as it was. Callers that share a ledger serialise on it.
pub struct Ledger {
    users: Vec<User>,
    transactions: Vec<Transaction>,
    articles: Vec<Article>,
}

impl View for Ledger {
    type V = LedgerState;

    closed spec fn view(&self) -> LedgerState {
        LedgerState {
            users: self.users@,
            transactions: self.transactions@,
            articles: self.articles@,
        }
    }
}

impl Ledger {
    pub open spec fn wf(&self) -> bool {
        self@.inv()
    }

    pub fn new() -> (r: Ledger)
        ensures
            r.wf(),
            r@ == LedgerState::empty(),
    {
        let r = Ledger { users: Vec::new(), transactions: Vec::new(), articles: Vec::new() };
        assert(r@ =~= LedgerState::empty());
        r
    }

    fn user_index(&self, uid: DatabaseId) -> (k: usize)
        requires
            self@.has_user(uid),
        ensures
            k == uid - 1,
    {
        assert(uid - 1 < self.users.len());
        (uid - 1) as usize
    }

    fn transaction_index(&self, tid: DatabaseId) -> (k: usize)
        requires
            self@.has_transaction(tid),
        ensures
            k == tid - 1,
    {
        assert(tid - 1 < self.transactions.len());
        (tid - 1) as usize
    }

    fn has_user(&self, uid: DatabaseId) -> (r: bool)
        requires
            self.wf(),
        ensures
            r == self@.has_user(uid),
    {
        uid >= 1 && (uid as u64) <= (self.users.len() as u64)
    }

    fn has_transaction(&self, tid: DatabaseId) -> (r: bool)
        requires
            self.wf(),
        ensures
            r == self@.has_transaction(tid),
    {
        tid >= 1 && (tid as u64) <= (self.transactions.len() as u64)
    }

    fn has_room(&self, k: u64) -> (r: bool)
        requires
            self.wf(),
            k <= 2,
        ensures
            r == self@.has_room(k as int),
    {
        (self.transactions.len() as u64) + k <= (i64::MAX as u64)
    }

    fn next_id(&self) -> (r: DatabaseId)
        requires
            self.wf(),
            self@.has_room(1),
        ensures
            r == self@.next_id(),
    {
        (self.transactions.len() as i64) + 1
    }

    fn balance_of_user(&self, uid: DatabaseId) -> (r: i64)
        requires
            self.wf(),
            self@.has_user(uid),
        ensures
            r == self@.user(uid).balance,
    {
        self.users[self.user_index(uid)].balance
    }

    /// Writes `t` and moves its owner's cached balance.
    fn append(&mut self, t: Transaction)
        requires
            old(self)@.has_user(t.user_id),
            fits_i64(old(self)@.user(t.user_id).balance + t.money),
        ensures
            final(self)@ == old(self)@.append(t),
    {
        let k = self.user_index(t.user_id);
        let b = self.users[k].balance;
        self.users[k].balance = b + t.money;
        self.transactions.push(t);
        assert(final(self)@.users =~= old(self)@.append(t).users);
    }

    /// Writes one live entry for `uid`, or fails with nothing written.
    fn post(
        &mut self,
        uid: DatabaseId,
        t_type: TransactionType,
        money: i64,
        counterparty_id: Option<DatabaseId>,
        now: i64,
    ) -> (r: Result<Transaction, LedgerError>)
        requires
            old(self).wf(),
        ensures
            final(self).wf(),
            (final(self)@, r) == old(self)@.post(uid, t_type, money as int, counterparty_id, now),
    {
        if !self.has_user(uid) {
            return Err(LedgerError::UserNotFound);
        }
        if self.balance_of_user(uid).checked_add(money).is_none() {
            return Err(LedgerError::AmountOverflow);
        }
        if !self.has_room(1) {
            return Err(LedgerError::StorageFailure);
        }
        let t = Transaction {
            id: self.next_id(),
            user_id: uid,
            t_type,
            money,
            counterparty_id,
            paired_id: None,
            reverses: None,
            timestamp: now,
            undone: false,
        };
        proof {
            lemma_append_live(self@, t);
        }
        self.append(t);
        Ok(t)
    }

    /// Credits `amount` cents to `user_id`.
    pub fn deposit(&mut self, user_id: DatabaseId, amount: i64, now: i64) -> (r: Result<
        Transaction,
        LedgerError,
    >)
        requires
            old(self).wf(),
        ensures
            final(self).wf(),
            (final(self)@, r) == old(self)@.deposit(user_id, amount, now),
    {
        if amount <= 0 {
            return Err(LedgerError::InvalidAmount);
        }
        self.post(user_id, TransactionType::Deposit, amount, None, now)
    }

    /// Debits `amount` cents from `user_id`; the balance may go below zero.
    pub fn withdraw(&mut self, user_id: DatabaseId, amount: i64, now: i64) -> (r: Result<
        Transaction,
        LedgerError,
    >)
        requires
            old(self).wf(),
        ensures
            final(self).wf(),
            (final(self)@, r) == old(self)@.withdraw(user_id, amount, now),
    {
        if amount <= 0 {
            return Err(LedgerError::InvalidAmount);
        }
        self.post(user_id, TransactionType::Withdraw, -amount, None, now)
    }

    /// Debits `quantity` times the current price of `article_id` from `user_id`.
    pub fn purchase(&mut self, user_id: DatabaseId, article_id: DatabaseId, quantity: i64, now: i64) -> (r:
        Result<Transaction, LedgerError>)
        requires
            old(self).wf(),
        ensures
            final(self).wf(),
            (final(self)@, r) == old(self)@.purchase(user_id, article_id, quantity, now),
    {
        if !self.has_user(user_id) {
            return Err(LedgerError::UserNotFound);
        }
        if !(article_id >= 1 && (article_id as u64) <= (self.articles.len() as u64)) {
            return Err(LedgerError::ArticleNotFound);
        }
        let price = self.articles[(article_id - 1) as usize].price;
        let cost = match price.checked_mul(quantity) {
            Some(c) => c,
            None => {
                return Err(LedgerError::AmountOverflow);
            },
        };
        if cost == i64::MIN {
            return Err(LedgerError::AmountOverflow);
        }
        self.post(user_id, TransactionType::Purchase, -cost, Some(article_id), now)
    }

    /// Moves `amount` cents from `sender_id` to `receiver_id`: two entries, one
    /// for each side, written together or not at all.
    pub fn transfer(&mut self, sender_id: DatabaseId, receiver_id: DatabaseId, amount: i64, now: i64) -> (r:
        Result<Transaction, LedgerError>)
        requires
            old(self).wf(),
        ensures
            final(self).wf(),
            (final(self)@, r) == old(self)@.transfer(sender_id, receiver_id, amount, now),
    {
        if amount <= 0 {
            return Err(LedgerError::InvalidAmount);
        }
        if sender_id == receiver_id {
            return Err(LedgerError::SelfTransfer);
        }
        if !self.has_user(sender_id) || !self.has_user(receiver_id) {
            return Err(LedgerError::UserNotFound);
        }
        if self.balance_of_user(sender_id).checked_sub(amount).is_none()
            || self.balance_of_user(receiver_id).checked_add(amount).is_none() {
            return Err(LedgerError::AmountOverflow);
        }
        if !self.has_room(2) {
            return Err(LedgerError::StorageFailure);
        }
        proof {
            lemma_transfer_inv(self@, sender_id, receiver_id, amount, now);
        }
        let n = self.next_id();
        let sent = Transaction {
            id: n,
            user_id: sender_id,
            t_type: TransactionType::TransferSent,
            money: -amount,
            counterparty_id: Some(receiver_id),
            paired_id: Some(n + 1),
            reverses: None,
            timestamp: now,
            undone: false,
        };
        self.append(sent);
        let received = Transaction {
            id: n + 1,
            user_id: receiver_id,
            t_type: TransactionType::TransferReceived,
            money: amount,
            counterparty_id: Some(sender_id),
            paired_id: Some(n),
            reverses: None,
            timestamp: now,
            undone: false,
        };
        self.append(received);
        Ok(sent)
    }

    /// Flags `tid` as undone and writes its compensation; returns the compensation.
    fn reverse(&mut self, tid: DatabaseId, paired_id: Option<DatabaseId>, now: i64) -> (r: Transaction)
        requires
            old(self).wf(),
            old(self)@.has_room(1),
            old(self)@.has_transaction(tid),
            !old(self)@.transaction(tid).undone,
            old(self)@.reversible(tid),
        ensures
            final(self).wf(),
            final(self)@ == old(self)@.reverse(tid, paired_id, now),
            r == old(self)@.compensation(tid, paired_id, now),
    {
        proof {
            lemma_reverse(self@, tid, paired_id, now);
        }
        let k = self.transaction_index(tid);
        let t = self.transactions[k];
        let c = Transaction {
            id: self.next_id(),
            user_id: t.user_id,
            t_type: t.t_type,
            money: -t.money,
            counterparty_id: t.counterparty_id,
            paired_id,
            reverses: Some(tid),
            timestamp: now,
            undone: true,
        };
        self.transactions.set(k, with_undone_exec(t));
        assert(self@ == old(self)@.mark_undone(tid));
        self.append(c);
        c
    }

    /// Reverses `transaction_id` of `user_id` while it is within the grace
    /// period; a transfer leg is reversed together with its other leg.
    /// Returns the compensating entry of `transaction_id`.
    pub fn undo(&mut self, user_id: DatabaseId, transaction_id: DatabaseId, now: i64) -> (r: Result<
        Transaction,
        LedgerError,
    >)
        requires
            old(self).wf(),
        ensures
            final(self).wf(),
            (final(self)@, r) == old(self)@.undo(user_id, transaction_id, now),
    {
        if !self.has_transaction(transaction_id) {
            return Err(LedgerError::TransactionNotFound);
        }
        let t = self.transactions[self.transaction_index(transaction_id)];
        if t.user_id != user_id {
            return Err(LedgerError::TransactionNotFound);
        }
        if t.undone {
            return Err(LedgerError::AlreadyUndone);
        }
        if !within_grace_period(t.timestamp, now) {
            return Err(LedgerError::GracePeriodExpired);
        }
        match t.paired_id {
            None => {
                if !self.reversible(transaction_id) {
                    return Err(LedgerError::AmountOverflow);
                }
                if !self.has_room(1) {
                    return Err(LedgerError::StorageFailure);
                }
                Ok(self.reverse(transaction_id, None, now))
            },
            Some(p) => {
                if !self.has_transaction(p) || p == transaction_id {
                    return Err(LedgerError::TransactionNotFound);
                }
                let q = self.transactions[self.transaction_index(p)];
                if q.paired_id != Some(transaction_id) || q.user_id == user_id {
                    return Err(LedgerError::TransactionNotFound);
                }
                if q.undone {
                    return Err(LedgerError::AlreadyUndone);
                }
                if !self.reversible(transaction_id) || !self.reversible(p) {
                    return Err(LedgerError::AmountOverflow);
                }
                if !self.has_room(2) {
                    return Err(LedgerError::StorageFailure);
                }
                let n = self.next_id();
                let c = self.reverse(transaction_id, Some(n + 1), now);
                let ghost s1 = self@;
                assert(s1.transaction(p) == old(self)@.transaction(p));
                assert(s1.user(q.user_id) == old(self)@.user(q.user_id));
                self.reverse(p, Some(n), now);
                Ok(c)
            },
        }
    }

    fn reversible(&self, tid: DatabaseId) -> (r: bool)
        requires
            self.wf(),
            self@.has_transaction(tid),
        ensures
            r == self@.reversible(tid),
    {
        let t = self.transactions[self.transaction_index(tid)];
        t.money != i64::MIN && self.balance_of_user(t.user_id).checked_sub(t.money).is_some()
    }

    /// Adds a user with a zero balance and no card number; returns the new id.
    pub fn create_user(&mut self, nickname: String) -> (r: Result<DatabaseId, LedgerError>)
        requires
            old(self).wf(),
        ensures
            final(self).wf(),
            (final(self)@, r) == old(self)@.create_user(nickname),
    {
        if (self.users.len() as u64) >= (i64::MAX as u64) {
            return Err(LedgerError::StorageFailure);
        }
        let id = (self.users.len() as i64) + 1;
        proof {
            lemma_create_user_inv(self@, nickname);
        }
        self.users.push(User { id, nickname, card_number: None, balance: 0 });
        Ok(id)
    }

    /// Adds an article with its unit price; returns the new id.
    pub fn add_article(&mut self, name: String, price: i64) -> (r: Result<DatabaseId, LedgerError>)
        requires
            old(self).wf(),
        ensures
            final(self).wf(),
            (final(self)@, r) == old(self)@.add_article(name, price),
    {
        if (self.articles.len() as u64) >= (i64::MAX as u64) {
            return Err(LedgerError::StorageFailure);
        }
        let id = (self.articles.len() as i64) + 1;
        self.articles.push(Article { id, name, price });
        Ok(id)
    }

    /// Whether a user other than `uid` holds the card number `code`.
    fn card_taken(&self, uid: DatabaseId, code: &String) -> (r: bool)
        requires
            self.wf(),
        ensures
            r == self@.card_taken(uid, code@),
    {
        let mut i: usize = 0;
        while i < self.users.len()
            invariant
                self.wf(),
                i <= self@.users.len(),
                forall|j: int| 0 <= j < i && j != uid - 1 ==> !holds_card(#[trigger] self@.users[j], code@),
            decreases self@.users.len() - i,
        {
            if (i as i64) + 1 != uid {
                match &self.users[i].card_number {
                    Some(c) => {
                        if c.eq(code) {
                            assert(holds_card(self@.users[i as int], code@));
                            return true;
                        }
                    },
                    None => {},
                }
            }
            i = i + 1;
        }
        false
    }

    /// Sets the card number of `id`, and its nickname where one is given.
    fn write_user(&mut self, id: DatabaseId, nickname: Option<String>, card_number: String) -> (r: Result<
        (),
        LedgerError,
    >)
        requires
            old(self).wf(),
        ensures
            final(self).wf(),
            (final(self)@, r) == old(self)@.update_user(
                id,
                match nickname {
                    Some(n) => n,
                    None => old(self)@.user(id).nickname,
                },
                card_number,
            ),
    {
        if !self.has_user(id) {
            return Err(LedgerError::UserNotFound);
        }
        let empty = card_number.as_str().is_empty();
        if !empty && self.card_taken(id, &card_number) {
            return Err(LedgerError::CardNumberInUse);
        }
        let ghost before = self@;
        let ghost card = card_number;
        let ghost given = nickname;
        let ghost nick = match given {
            Some(n) => n,
            None => before.user(id).nickname,
        };
        let k = self.user_index(id);
        let stored = if empty {
            None
        } else {
            Some(card_number)
        };
        match nickname {
            Some(n) => {
                self.users[k].nickname = n;
            },
            None => {},
        }
        self.users[k].card_number = stored;
        assert(self@.users[k as int] == before.update_user(id, nick, card).0.users[k as int]);
        assert(self@.users =~= before.update_user(id, nick, card).0.users);
        Ok(())
    }

    /// Sets nickname and card number of `id` in one step. An empty card
    /// number clears it; one that another user holds fails with `CardNumberInUse`.
    pub fn update_user(&mut self, id: DatabaseId, nickname: String, card_number: String) -> (r: Result<
        (),
        LedgerError,
    >)
        requires
            old(self).wf(),
        ensures
            final(self).wf(),
            (final(self)@, r) == old(self)@.update_user(id, nickname, card_number),
    {
        self.write_user(id, Some(nickname), card_number)
    }

    /// Sets the card number of `id`, keeping its nickname.
    pub fn set_card_number(&mut self, id: DatabaseId, card_number: String) -> (r: Result<
        (),
        LedgerError,
    >)
        requires
            old(self).wf(),
        ensures
            final(self).wf(),
            (final(self)@, r) == old(self)@.set_card_number(id, card_number),
    {
        self.write_user(id, None, card_number)
    }

    /// The user that holds the card number `code`; `None` for an empty code.
    pub fn get_by_card_number(&self, code: &String) -> (r: Option<&User>)
        requires
            self.wf(),
        ensures
            match r {
                Some(u) => code@.len() > 0 && self@.has_user(u.id) && *u == self@.user(u.id)
                    && holds_card(*u, code@),
                None => code@.len() == 0 || forall|j: int|
                    0 <= j < self@.users.len() ==> !holds_card(#[trigger] self@.users[j], code@),
            },
    {
        if code.as_str().is_empty() {
            return None;
        }
        let mut i: usize = 0;
        while i < self.users.len()
            invariant
                self.wf(),
                i <= self@.users.len(),
                forall|j: int| 0 <= j < i ==> !holds_card(#[trigger] self@.users[j], code@),
            decreases self@.users.len() - i,
        {
            match &self.users[i].card_number {
                Some(c) => {
                    if c.eq(code) {
                        return Some(&self.users[i]);
                    }
                },
                None => {},
            }
            i = i + 1;
        }
        None
    }

    pub fn get_user(&self, id: DatabaseId) -> (r: Option<&User>)
        requires
            self.wf(),
        ensures
            match r {
                Some(u) => self@.has_user(id) && *u == self@.user(id),
                None => !self@.has_user(id),
            },
    {
        if self.has_user(id) {
            Some(&self.users[self.user_index(id)])
        } else {
            None
        }
    }

    /// All users, ordered by id.
    pub fn users(&self) -> (r: &Vec<User>)
        ensures
            r@ == self@.users,
    {
        &self.users
    }

    pub fn get_article(&self, id: DatabaseId) -> (r: Option<&Article>)
        requires
            self.wf(),
        ensures
            match r {
                Some(a) => self@.has_article(id) && *a == self@.article(id),
                None => !self@.has_article(id),
            },
    {
        if id >= 1 && (id as u64) <= (self.articles.len() as u64) {
            Some(&self.articles[(id - 1) as usize])
        } else {
            None
        }
    }

    pub fn get_transaction(&self, id: DatabaseId) -> (r: Option<Transaction>)
        requires
            self.wf(),
        ensures
            match r {
                Some(t) => self@.has_transaction(id) && t == self@.transaction(id),
                None => !self@.has_transaction(id),
            },
    {
        if self.has_transaction(id) {
            Some(self.transactions[self.transaction_index(id)])
        } else {
            None
        }
    }

    /// The most recent `limit` entries of `user_id`, newest first: by
    /// timestamp, and by id between equal timestamps.
    pub fn get_user_transactions(&self, user_id: DatabaseId, limit: i64) -> (r: Vec<Transaction>)
        requires
            self.wf(),
        ensures
            r@ == LedgerState::recent(self@.transactions, user_id, limit_of(limit)),
    {
        let mut r: Vec<Transaction> = Vec::new();
        if limit <= 0 {
            return r;
        }
        let ghost txs = self@.transactions;
        let mut pool: Vec<Transaction> = Vec::new();
        let mut i: usize = 0;
        while i < self.transactions.len()
            invariant
                txs == self@.transactions,
                i <= txs.len(),
                pool@ == history(txs.subrange(0, i as int), user_id),
            decreases txs.len() - i,
        {
            assert(txs.subrange(0, i + 1).drop_last() =~= txs.subrange(0, i as int));
            let t = self.transactions[i];
            if t.user_id == user_id {
                pool.push(t);
            }
            i = i + 1;
        }
        assert(txs.subrange(0, txs.len() as int) =~= txs);
        let ghost whole = pool@;
        assert(r@ + newest_first(whole, limit as nat) =~= newest_first(whole, limit as nat));
        while (r.len() as u64) < (limit as u64) && pool.len() > 0
            invariant
                limit > 0,
                r.len() <= limit,
                r@ + newest_first(pool@, (limit - r.len()) as nat) == newest_first(whole, limit as nat),
            decreases pool@.len(),
        {
            proof {
                lemma_newest_index_bounds(pool@);
            }
            let ghost before = pool@;
            let ghost left = (limit - r.len()) as nat;
            let ghost r0 = r@;
            let k = newest_position(&pool);
            let t = pool.remove(k);
            r.push(t);
            assert(r0 + (seq![t] + newest_first(pool@, (left - 1) as nat)) =~= r@ + newest_first(
                pool@,
                (left - 1) as nat,
            ));
        }
        assert(newest_first(pool@, (limit - r.len()) as nat) =~= seq![]);
        assert(r@ =~= r@ + seq![]);
        r
    }
}

/// The position of the newest entry of `pool`.
fn newest_position(pool: &Vec<Transaction>) -> (k: usize)
    requires
        pool@.len() > 0,
    ensures
        k == newest_index(pool@),
{
    let mut best: usize = 0;
    let mut j: usize = 1;
    assert(pool@.subrange(0, 1).len() == 1);
    while j < pool.len()
        invariant
            1 <= j <= pool@.len(),
            best == newest_index(pool@.subrange(0, j as int)),
        decreases pool@.len() - j,
    {
        proof {
            lemma_newest_index_bounds(pool@.subrange(0, j as int));
            assert(pool@.subrange(0, j + 1).drop_last() =~= pool@.subrange(0, j as int));
        }
        let t = pool[j];
        let b = pool[best];
        if t.timestamp > b.timestamp || (t.timestamp == b.timestamp && t.id > b.id) {
            best = j;
        }
        j = j + 1;
    }
    assert(pool@.subrange(0, pool@.len() as int) =~= pool@);
    best
}

pub open spec fn limit_of(limit: i64) -> nat {
    if limit <= 0 {
        0
    } else {
        limit as nat
    }
}

fn with_undone_exec(t: Transaction) -> (r: Transaction)
    ensures
        r == with_undone(t),
{
    Transaction { undone: true, ..t }
}

} // verus!
