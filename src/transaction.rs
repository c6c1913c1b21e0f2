use vstd::prelude::*;

verus! {

pub type DatabaseId = i64;

/// What a ledger entry records.
#[derive(Clone, Copy, Debug, PartialEq, Eq, Structural)]
pub enum TransactionType {
    Deposit,
    Withdraw,
    Purchase,
    TransferSent,
    TransferReceived,
}

/// One entry of a user's ledger. All fields but `undone` are fixed once written.
#[derive(Clone, Copy, Debug)]
pub struct Transaction {
    pub id: DatabaseId,
    /// The user whose balance this entry moves.
    pub user_id: DatabaseId,
    pub t_type: TransactionType,
    /// The signed change to the owner's balance, in cents.
    pub money: i64,
    /// The other user of a transfer, or the article of a purchase.
    pub counterparty_id: Option<DatabaseId>,
    /// The other leg of a transfer, or the compensation paired with it.
    pub paired_id: Option<DatabaseId>,
    /// For a compensating entry: the entry that it reverses.
    pub reverses: Option<DatabaseId>,
    /// Creation time, in seconds.
    pub timestamp: i64,
    /// Set on a reversed entry and on the compensating entry that reverses it.
    pub undone: bool,
}

impl PartialEq for Transaction {
    /// Two entries are the same entry when their ids agree.
    fn eq(&self, other: &Transaction) -> (r: bool) {
        self.id == other.id
    }
}

impl vstd::std_specs::cmp::PartialEqSpecImpl for Transaction {
    open spec fn obeys_eq_spec() -> bool {
        true
    }

    open spec fn eq_spec(&self, other: &Transaction) -> bool {
        self.id == other.id
    }
}

impl PartialOrd for Transaction {
    /// Entries are ordered by id, which is their order of creation.
    fn partial_cmp(&self, other: &Transaction) -> (r: Option<core::cmp::Ordering>) {
        if self.id < other.id {
            Some(core::cmp::Ordering::Less)
        } else if self.id == other.id {
            Some(core::cmp::Ordering::Equal)
        } else {
            Some(core::cmp::Ordering::Greater)
        }
    }
}

impl vstd::std_specs::cmp::PartialOrdSpecImpl for Transaction {
    open spec fn obeys_partial_cmp_spec() -> bool {
        true
    }

    open spec fn partial_cmp_spec(&self, other: &Transaction) -> Option<core::cmp::Ordering> {
        if self.id < other.id {
            Some(core::cmp::Ordering::Less)
        } else if self.id == other.id {
            Some(core::cmp::Ordering::Equal)
        } else {
            Some(core::cmp::Ordering::Greater)
        }
    }
}

} // verus!
