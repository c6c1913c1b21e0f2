use vstd::prelude::*;

use crate::transaction::DatabaseId;

verus! {

/// A member of the tally list.
#[derive(Debug)]
pub struct User {
    pub id: DatabaseId,
    pub nickname: String,
    /// Scanned to find the user; never empty, and held by one user at most.
    pub card_number: Option<String>,
    /// Cached sum of the user's entries that are not undone, in cents.
    pub balance: i64,
}

/// An article that users can buy.
#[derive(Debug)]
pub struct Article {
    pub id: DatabaseId,
    pub name: String,
    /// Current unit price, in cents.
    pub price: i64,
}

/// A user id as it appears in a route.
#[derive(Clone, Copy, Debug, PartialEq, Eq, Structural)]
pub struct UserId(pub DatabaseId);

/// Whether `u` holds the card number `code`.
pub open spec fn holds_card(u: User, code: Seq<char>) -> bool {
    u.card_number is Some && u.card_number->0@ == code
}

} // verus!
