use strichliste::grace::within_grace_period;
use strichliste::ledger::Ledger;
use strichliste::routes::{
    format_transaction, get_all_users, get_user, get_user_by_barcode, get_user_id,
    get_user_transactions, undo_transaction, update_user, GetUserError, ScanInput,
};
use strichliste::{LedgerError, UserId};

#[test]
fn user_id_from_route() {
    assert_eq!(get_user_id(Some("42")), Ok(UserId(42)));
    assert_eq!(get_user_id(Some("+7")), Ok(UserId(7)));
    assert_eq!(get_user_id(Some("-3")), Ok(UserId(-3)));
    assert_eq!(get_user_id(None), Err(GetUserError::NoUserInURL));
    assert!(matches!(get_user_id(Some("4x")), Err(GetUserError::InvalidUserInURL(_))));
    assert!(matches!(get_user_id(Some("")), Err(GetUserError::InvalidUserInURL(_))));
    assert!(matches!(
        get_user_id(Some("9223372036854775808")),
        Err(GetUserError::InvalidUserInURL(_))
    ));
}

#[test]
fn user_from_route() {
    let mut l = Ledger::new();
    let id = l.create_user("a".to_string()).unwrap();
    assert_eq!(get_user(&l, Ok(UserId(id))).unwrap().nickname, "a");
    assert_eq!(
        get_user(&l, Ok(UserId(5))).unwrap_err(),
        GetUserError::UserNotPresentError(UserId(5))
    );
    assert_eq!(
        get_user(&l, Err(GetUserError::NoUserInURL)).unwrap_err(),
        GetUserError::NoUserInURL
    );
}

#[test]
fn barcode_lookup() {
    let mut l = Ledger::new();
    let a = l.create_user("a".to_string()).unwrap();
    l.create_user("b".to_string()).unwrap();
    update_user(&mut l, a, "a".to_string(), "4006381333931".to_string()).unwrap();
    assert_eq!(get_user_by_barcode(&l, "4006381333931".to_string()).unwrap().id, a);
    assert!(get_user_by_barcode(&l, "000".to_string()).is_none());
    assert!(get_user_by_barcode(&l, String::new()).is_none());
    assert_eq!(get_all_users(&l).len(), 2);
}

#[test]
fn undo_transaction_request() {
    let mut l = Ledger::new();
    let a = l.create_user("a".to_string()).unwrap();
    let t = l.deposit(a, 100, 1000).unwrap();
    assert_eq!(get_user_transactions(&l, a, 10).len(), 1);
    assert!(undo_transaction(&mut l, a, t.id, 1050).is_ok());
    assert_eq!(undo_transaction(&mut l, a, t.id, 1060), Err(LedgerError::AlreadyUndone));
    assert_eq!(get_user_transactions(&l, a, 10).len(), 2);
    assert_eq!(l.get_user(a).unwrap().balance, 0);
}

#[test]
fn transaction_rows() {
    let mut l = Ledger::new();
    let a = l.create_user("a".to_string()).unwrap();
    let b = l.create_user("b".to_string()).unwrap();
    let w = l.withdraw(a, 1250, 1000).unwrap();
    let row = format_transaction(&w, 1100);
    assert_eq!(row.amount, Some("-12,50".to_string()));
    assert!(!row.credit);
    assert!(row.undo_offered);
    assert_eq!(row.transaction_id, w.id);
    assert!(!format_transaction(&w, 1121).undo_offered);
    let s = l.transfer(a, b, 5, 1000).unwrap();
    assert_eq!(format_transaction(&s, 1000).amount, None);
}

#[test]
fn grace_window() {
    assert!(within_grace_period(100, 220));
    assert!(!within_grace_period(100, 221));
    assert!(within_grace_period(100, 50));
    assert!(!within_grace_period(i64::MIN, i64::MAX));
}

#[test]
fn scanner_input() {
    let mut s = ScanInput::new();
    assert_eq!(s.press("Enter"), None);
    assert_eq!(s.press("1"), None);
    assert_eq!(s.press("2"), None);
    assert_eq!(s.press("Enter"), Some("12".to_string()));
    assert_eq!(s.buffer, "");
    assert_eq!(s.press("Enter"), None);
}
