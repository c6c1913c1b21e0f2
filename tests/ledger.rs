use strichliste::grace::GRACE_PERIOD_SECONDS;
use strichliste::ledger::Ledger;
use strichliste::{LedgerError, Transaction, TransactionType};

const T0: i64 = 1_700_000_000;

fn ledger_with(names: &[&str]) -> (Ledger, Vec<i64>) {
    let mut ledger = Ledger::new();
    let ids = names
        .iter()
        .map(|n| ledger.create_user(n.to_string()).unwrap())
        .collect();
    (ledger, ids)
}

fn balance(ledger: &Ledger, id: i64) -> i64 {
    ledger.get_user(id).unwrap().balance
}

fn history(ledger: &Ledger, id: i64) -> Vec<Transaction> {
    ledger.get_user_transactions(id, i64::MAX)
}

fn live_sum(ledger: &Ledger, id: i64) -> i64 {
    history(ledger, id).iter().filter(|t| !t.undone).map(|t| t.money).sum()
}

#[test]
fn deposit_credits_balance() {
    let (mut l, ids) = ledger_with(&["a"]);
    let t = l.deposit(ids[0], 1000, T0).unwrap();
    assert_eq!(t.money, 1000);
    assert_eq!(t.t_type, TransactionType::Deposit);
    assert_eq!(t.id, 1);
    assert_eq!(balance(&l, ids[0]), 1000);
}

#[test]
fn deposit_rejects_non_positive_amount() {
    let (mut l, ids) = ledger_with(&["a"]);
    assert_eq!(l.deposit(ids[0], 0, T0), Err(LedgerError::InvalidAmount));
    assert_eq!(l.deposit(ids[0], -5, T0), Err(LedgerError::InvalidAmount));
    assert_eq!(l.withdraw(ids[0], 0, T0), Err(LedgerError::InvalidAmount));
    assert!(history(&l, ids[0]).is_empty());
}

#[test]
fn unknown_user_is_reported() {
    let (mut l, _) = ledger_with(&["a"]);
    assert_eq!(l.deposit(7, 10, T0), Err(LedgerError::UserNotFound));
    assert_eq!(l.withdraw(0, 10, T0), Err(LedgerError::UserNotFound));
}

#[test]
fn balance_overflow_is_an_error() {
    let (mut l, ids) = ledger_with(&["a"]);
    l.deposit(ids[0], i64::MAX, T0).unwrap();
    assert_eq!(l.deposit(ids[0], 1, T0), Err(LedgerError::AmountOverflow));
    assert_eq!(balance(&l, ids[0]), i64::MAX);
}

#[test]
fn withdraw_below_zero_is_permitted() {
    let (mut l, ids) = ledger_with(&["u"]);
    assert_eq!(balance(&l, ids[0]), 0);
    let t = l.withdraw(ids[0], 10000, T0).unwrap();
    assert_eq!(t.money, -10000);
    assert_eq!(balance(&l, ids[0]), -10000);
}

#[test]
fn transfer_writes_both_legs() {
    let (mut l, ids) = ledger_with(&["a", "b"]);
    let sent = l.transfer(ids[0], ids[1], 250, T0).unwrap();
    assert_eq!(sent.t_type, TransactionType::TransferSent);
    assert_eq!(sent.money, -250);
    assert_eq!(sent.counterparty_id, Some(ids[1]));
    let received = l.get_transaction(sent.paired_id.unwrap()).unwrap();
    assert_eq!(received.t_type, TransactionType::TransferReceived);
    assert_eq!(received.money, 250);
    assert_eq!(received.user_id, ids[1]);
    assert_eq!(received.paired_id, Some(sent.id));
    assert_eq!(received.timestamp, sent.timestamp);
    assert_eq!(balance(&l, ids[0]), -250);
    assert_eq!(balance(&l, ids[1]), 250);
}

#[test]
fn failed_transfer_changes_nothing() {
    let (mut l, ids) = ledger_with(&["a", "b"]);
    l.deposit(ids[0], 100, T0).unwrap();
    l.deposit(ids[1], i64::MAX - 10, T0).unwrap();
    let before_a = history(&l, ids[0]);
    let before_b = history(&l, ids[1]);
    assert_eq!(l.transfer(ids[0], 9, 50, T0), Err(LedgerError::UserNotFound));
    assert_eq!(l.transfer(ids[0], ids[0], 50, T0), Err(LedgerError::SelfTransfer));
    assert_eq!(l.transfer(ids[0], ids[1], 0, T0), Err(LedgerError::InvalidAmount));
    assert_eq!(l.transfer(ids[0], ids[1], 50, T0), Err(LedgerError::AmountOverflow));
    assert_eq!(history(&l, ids[0]), before_a);
    assert_eq!(history(&l, ids[1]), before_b);
    assert_eq!(balance(&l, ids[0]), 100);
    assert_eq!(balance(&l, ids[1]), i64::MAX - 10);
}

#[test]
fn undo_deposit_restores_balance() {
    let (mut l, ids) = ledger_with(&["u"]);
    l.deposit(ids[0], 300, T0).unwrap();
    let before = balance(&l, ids[0]);
    let d = l.deposit(ids[0], 500, T0 + 1).unwrap();
    let c = l.undo(ids[0], d.id, T0 + 60).unwrap();
    assert_eq!(balance(&l, ids[0]), before);
    assert_eq!(c.money, -500);
    assert_eq!(c.t_type, TransactionType::Deposit);
    assert_eq!(c.reverses, Some(d.id));
    let h = history(&l, ids[0]);
    let event: Vec<&Transaction> = h.iter().filter(|t| t.id == d.id || t.reverses == Some(d.id)).collect();
    assert_eq!(event.len(), 2);
    assert!(l.get_transaction(d.id).unwrap().undone);
}

#[test]
fn undo_after_grace_period_fails() {
    let (mut l, ids) = ledger_with(&["u"]);
    let d = l.deposit(ids[0], 500, T0).unwrap();
    let before = history(&l, ids[0]);
    assert_eq!(
        l.undo(ids[0], d.id, T0 + GRACE_PERIOD_SECONDS + 1),
        Err(LedgerError::GracePeriodExpired)
    );
    assert_eq!(history(&l, ids[0]), before);
    assert!(!l.get_transaction(d.id).unwrap().undone);
    assert_eq!(balance(&l, ids[0]), 500);
}

#[test]
fn undo_at_the_end_of_grace_period_succeeds() {
    let (mut l, ids) = ledger_with(&["u"]);
    let d = l.deposit(ids[0], 500, T0).unwrap();
    assert!(l.undo(ids[0], d.id, T0 + GRACE_PERIOD_SECONDS).is_ok());
    assert_eq!(balance(&l, ids[0]), 0);
}

#[test]
fn second_undo_fails() {
    let (mut l, ids) = ledger_with(&["u"]);
    let d = l.withdraw(ids[0], 200, T0).unwrap();
    assert!(l.undo(ids[0], d.id, T0 + 5).is_ok());
    assert_eq!(l.undo(ids[0], d.id, T0 + 6), Err(LedgerError::AlreadyUndone));
    assert_eq!(balance(&l, ids[0]), 0);
}

#[test]
fn undo_of_foreign_or_missing_transaction_fails() {
    let (mut l, ids) = ledger_with(&["a", "b"]);
    let d = l.deposit(ids[0], 200, T0).unwrap();
    assert_eq!(l.undo(ids[1], d.id, T0), Err(LedgerError::TransactionNotFound));
    assert_eq!(l.undo(ids[0], 99, T0), Err(LedgerError::TransactionNotFound));
}

#[test]
fn compensation_cannot_be_undone() {
    let (mut l, ids) = ledger_with(&["u"]);
    let d = l.deposit(ids[0], 200, T0).unwrap();
    let c = l.undo(ids[0], d.id, T0).unwrap();
    assert_eq!(l.undo(ids[0], c.id, T0), Err(LedgerError::AlreadyUndone));
}

#[test]
fn transfer_and_undo_scenario() {
    let (mut l, ids) = ledger_with(&["a", "b"]);
    let (a, b) = (ids[0], ids[1]);
    assert_eq!(balance(&l, a), 0);
    l.deposit(a, 1000, T0).unwrap();
    assert_eq!(balance(&l, a), 1000);
    let sent = l.transfer(a, b, 400, T0 + 10).unwrap();
    assert_eq!(balance(&l, a), 600);
    assert_eq!(balance(&l, b), 400);
    l.undo(a, sent.id, T0 + 30).unwrap();
    assert_eq!(balance(&l, a), 1000);
    assert_eq!(balance(&l, b), 0);
    assert!(l.get_transaction(sent.id).unwrap().undone);
    assert!(l.get_transaction(sent.paired_id.unwrap()).unwrap().undone);
}

#[test]
fn undo_from_receiving_side_reverses_both_legs() {
    let (mut l, ids) = ledger_with(&["a", "b"]);
    let sent = l.transfer(ids[0], ids[1], 70, T0).unwrap();
    let received = sent.paired_id.unwrap();
    assert_eq!(l.undo(ids[0], received, T0), Err(LedgerError::TransactionNotFound));
    let c = l.undo(ids[1], received, T0 + 1).unwrap();
    assert_eq!(c.money, -70);
    assert_eq!(c.t_type, TransactionType::TransferReceived);
    assert_eq!(balance(&l, ids[0]), 0);
    assert_eq!(balance(&l, ids[1]), 0);
    assert_eq!(l.undo(ids[0], sent.id, T0 + 2), Err(LedgerError::AlreadyUndone));
}

#[test]
fn purchase_charges_price_times_quantity() {
    let (mut l, ids) = ledger_with(&["u"]);
    let mate = l.add_article("Mate".to_string(), 150).unwrap();
    let t = l.purchase(ids[0], mate, 3, T0).unwrap();
    assert_eq!(t.money, -450);
    assert_eq!(t.t_type, TransactionType::Purchase);
    assert_eq!(t.counterparty_id, Some(mate));
    assert_eq!(balance(&l, ids[0]), -450);
    assert_eq!(l.purchase(ids[0], 42, 1, T0), Err(LedgerError::ArticleNotFound));
    let none = l.purchase(ids[0], mate, 0, T0).unwrap();
    assert_eq!(none.money, 0);
    assert_eq!(balance(&l, ids[0]), -450);
    let dear = l.add_article("Gold".to_string(), i64::MAX).unwrap();
    assert_eq!(l.purchase(ids[0], dear, 2, T0), Err(LedgerError::AmountOverflow));
    let c = l.undo(ids[0], t.id, T0 + 1).unwrap();
    assert_eq!(c.money, 450);
    assert_eq!(balance(&l, ids[0]), 0);
}

#[test]
fn purchase_of_negative_quantity_credits() {
    let (mut l, ids) = ledger_with(&["u"]);
    let article = l.add_article("Deposit bottle".to_string(), 100).unwrap();
    let t = l.purchase(ids[0], article, -1, T0).unwrap();
    assert_eq!(t.money, 100);
    assert_eq!(balance(&l, ids[0]), 100);
}

#[test]
fn balance_matches_history_after_many_operations() {
    let (mut l, ids) = ledger_with(&["a", "b", "c"]);
    let beer = l.add_article("Beer".to_string(), 120).unwrap();
    l.deposit(ids[0], 2000, T0).unwrap();
    l.withdraw(ids[1], 350, T0 + 1).unwrap();
    let s = l.transfer(ids[0], ids[2], 700, T0 + 2).unwrap();
    l.purchase(ids[2], beer, 2, T0 + 3).unwrap();
    let p = l.purchase(ids[1], beer, 1, T0 + 4).unwrap();
    l.undo(ids[2], s.paired_id.unwrap(), T0 + 5).unwrap();
    l.undo(ids[1], p.id, T0 + 6).unwrap();
    let _ = l.undo(ids[1], p.id, T0 + 7);
    let _ = l.transfer(ids[1], 17, 5, T0 + 8);
    for id in ids {
        assert_eq!(balance(&l, id), live_sum(&l, id));
        let all: i64 = history(&l, id).iter().map(|t| t.money).sum();
        assert_eq!(balance(&l, id), all);
    }
}

#[test]
fn recent_transactions_are_newest_first_and_limited() {
    let (mut l, ids) = ledger_with(&["a", "b"]);
    for k in 1..=5 {
        l.deposit(ids[0], k, T0 + k).unwrap();
        l.deposit(ids[1], 100 + k, T0 + k).unwrap();
    }
    let r = l.get_user_transactions(ids[0], 3);
    let money: Vec<i64> = r.iter().map(|t| t.money).collect();
    assert_eq!(money, vec![5, 4, 3]);
    assert!(r.iter().all(|t| t.user_id == ids[0]));
    assert!(l.get_user_transactions(ids[0], 0).is_empty());
    assert!(l.get_user_transactions(ids[0], -1).is_empty());
    assert_eq!(l.get_user_transactions(ids[1], 100).len(), 5);
}

#[test]
fn entries_carry_the_time_given() {
    let (mut l, ids) = ledger_with(&["a"]);
    let late = l.deposit(ids[0], 1, T0 + 100).unwrap();
    let early = l.deposit(ids[0], 2, T0).unwrap();
    assert_eq!(late.timestamp, T0 + 100);
    assert_eq!(early.timestamp, T0);
    let c = l.undo(ids[0], late.id, T0 + 50).unwrap();
    assert_eq!(c.timestamp, T0 + 50);
    let order: Vec<i64> = l.get_user_transactions(ids[0], 10).iter().map(|t| t.id).collect();
    assert_eq!(order, vec![late.id, c.id, early.id]);
}

#[test]
fn equal_timestamps_list_larger_id_first() {
    let (mut l, ids) = ledger_with(&["a"]);
    let first = l.deposit(ids[0], 1, T0).unwrap();
    let second = l.deposit(ids[0], 2, T0).unwrap();
    let third = l.deposit(ids[0], 3, T0 - 10).unwrap();
    let order: Vec<i64> = l.get_user_transactions(ids[0], 2).iter().map(|t| t.id).collect();
    assert_eq!(order, vec![second.id, first.id]);
    assert_eq!(l.get_user_transactions(ids[0], 5).last().unwrap().id, third.id);
}

#[test]
fn card_number_is_unique() {
    let (mut l, ids) = ledger_with(&["a", "b"]);
    let (a, b) = (ids[0], ids[1]);
    l.set_card_number(a, "12345".to_string()).unwrap();
    assert_eq!(l.set_card_number(b, "12345".to_string()), Err(LedgerError::CardNumberInUse));
    assert_eq!(l.get_user(b).unwrap().card_number, None);
    l.set_card_number(a, String::new()).unwrap();
    assert_eq!(l.get_user(a).unwrap().card_number, None);
    assert_eq!(l.set_card_number(b, "12345".to_string()), Ok(()));
    assert_eq!(l.get_by_card_number(&"12345".to_string()).unwrap().id, b);
}

#[test]
fn reassigning_own_card_number_succeeds() {
    let (mut l, ids) = ledger_with(&["a"]);
    l.set_card_number(ids[0], "777".to_string()).unwrap();
    assert_eq!(l.set_card_number(ids[0], "777".to_string()), Ok(()));
    assert_eq!(l.set_card_number(5, "1".to_string()), Err(LedgerError::UserNotFound));
}

#[test]
fn update_user_sets_both_fields() {
    let (mut l, ids) = ledger_with(&["a", "b"]);
    l.set_card_number(ids[1], "99".to_string()).unwrap();
    assert_eq!(
        l.update_user(ids[0], "Alice".to_string(), "99".to_string()),
        Err(LedgerError::CardNumberInUse)
    );
    assert_eq!(l.get_user(ids[0]).unwrap().nickname, "a");
    l.update_user(ids[0], "Alice".to_string(), "42".to_string()).unwrap();
    let u = l.get_user(ids[0]).unwrap();
    assert_eq!(u.nickname, "Alice");
    assert_eq!(u.card_number, Some("42".to_string()));
}
