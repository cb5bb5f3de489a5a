//! The records of a statement.

use vstd::prelude::*;
use vstd::string::*;
use crate::calendar::StatementDate;

verus! {

/// What a transaction did to the account.
#[derive(Clone, Copy, Debug, PartialEq, Eq, Structural)]
pub enum TransactionKind {
    /// Money or units came in.
    Purchase,
    /// Money or units went out.
    Withdrawal,
    /// Interest was credited.
    Interest,
    /// Anything else.
    Other,
}

/// The kind that the tag `tag` names.
pub open spec fn kind_of_tag(tag: Seq<char>) -> TransactionKind {
    if tag == "PURCHASE"@ {
        TransactionKind::Purchase
    } else if tag == "WITHDRAWAL"@ {
        TransactionKind::Withdrawal
    } else if tag == "INTEREST"@ {
        TransactionKind::Interest
    } else {
        TransactionKind::Other
    }
}

impl TransactionKind {
    /// The kind named by a record's type tag: `PURCHASE`, `WITHDRAWAL` and
    /// `INTEREST` name their kinds, every other tag is `Other`.
    pub fn from_tag(tag: &str) -> (k: TransactionKind)
        ensures
            k == kind_of_tag(tag@),
    {
        let t = String::from_str(tag);
        if t == String::from_str("PURCHASE") {
            TransactionKind::Purchase
        } else if t == String::from_str("WITHDRAWAL") {
            TransactionKind::Withdrawal
        } else if t == String::from_str("INTEREST") {
            TransactionKind::Interest
        } else {
            TransactionKind::Other
        }
    }
}

/// One record of a statement.  Money and units are whole thousandths.
#[derive(Debug)]
pub struct Transaction {
    /// The record's number.
    pub trans_id: i64,
    /// When it took place.
    pub trans_date: StatementDate,
    /// What it did.
    pub kind: TransactionKind,
    /// The amount moved.
    pub amount: i64,
    /// The balance after it.
    pub running_balance: i64,
    /// The units held after it.
    pub running_shares: i64,
    /// The tax withheld.
    pub taxamt: i64,
    /// What it adds to the deposits.
    pub p_amount: i64,
    /// What it adds to the withdrawals.
    pub w_amount: i64,
    /// What it adds to the interest.
    pub i_amount: i64,
    /// The units moved, in a unit-fund statement.
    pub shares: Option<i64>,
    /// The price of one unit, in a unit-fund statement.
    pub price: Option<i64>,
    /// How it was paid.
    pub mop: String,
    /// Free text.
    pub descript: String,
}

/// A record as the contracts see it.
pub ghost struct TransactionView {
    pub trans_id: int,
    pub trans_date: int,
    pub kind: TransactionKind,
    pub amount: int,
    pub running_balance: int,
    pub running_shares: int,
    pub taxamt: int,
    pub p_amount: int,
    pub w_amount: int,
    pub i_amount: int,
    pub shares: Option<int>,
    pub price: Option<int>,
    pub mop: Seq<char>,
    pub descript: Seq<char>,
}

/// An optional machine integer as an optional integer.
pub open spec fn option_int(v: Option<i64>) -> Option<int> {
    match v {
        Some(x) => Some(x as int),
        None => None,
    }
}

impl View for Transaction {
    type V = TransactionView;

    open spec fn view(&self) -> TransactionView {
        TransactionView {
            trans_id: self.trans_id as int,
            trans_date: self.trans_date.secs(),
            kind: self.kind,
            amount: self.amount as int,
            running_balance: self.running_balance as int,
            running_shares: self.running_shares as int,
            taxamt: self.taxamt as int,
            p_amount: self.p_amount as int,
            w_amount: self.w_amount as int,
            i_amount: self.i_amount as int,
            shares: option_int(self.shares),
            price: option_int(self.price),
            mop: self.mop@,
            descript: self.descript@,
        }
    }
}

impl Clone for Transaction {
    fn clone(&self) -> (r: Self)
        ensures
            r == *self,
    {
        Transaction {
            trans_id: self.trans_id,
            trans_date: self.trans_date,
            kind: self.kind,
            amount: self.amount,
            running_balance: self.running_balance,
            running_shares: self.running_shares,
            taxamt: self.taxamt,
            p_amount: self.p_amount,
            w_amount: self.w_amount,
            i_amount: self.i_amount,
            shares: self.shares,
            price: self.price,
            mop: self.mop.clone(),
            descript: self.descript.clone(),
        }
    }
}

/// The views of the records of `v`, in order.
pub open spec fn views(v: Seq<Transaction>) -> Seq<TransactionView> {
    v.map_values(|t: Transaction| t@)
}

} // verus!
