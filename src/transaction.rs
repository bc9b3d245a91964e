//! Dated movements of money between two optional accounts, and their table rows.

use crate::account::AccountSnapshot;
use crate::money::{money_text, Money};
use vstd::prelude::*;
use vstd::string::*;

verus! {

/// Represents one concrete instance of a transaction: `amount` moved from `source` to
/// `dest`. A missing source is money that comes from outside the ledger (income); a missing
/// destination is money that leaves it (an expense).
pub struct TransactionInstance {
    pub date: String,
    pub name: String,
    pub amount: Money,
    pub source: Option<AccountSnapshot>,
    pub dest: Option<AccountSnapshot>,
}

/// The name column of an endpoint: the account's name, or empty where there is none.
pub open spec fn endpoint_name(e: Option<AccountSnapshot>) -> Seq<char> {
    match e {
        Some(s) => s.0@,
        None => Seq::empty(),
    }
}

/// The balance column of an endpoint: its amount as display text, or empty where there is
/// none.
pub open spec fn endpoint_balance(e: Option<AccountSnapshot>) -> Seq<char> {
    match e {
        Some(s) => money_text(s.1.0 as int),
        None => Seq::empty(),
    }
}

/// The name text of an optional endpoint.
fn name_cell(e: &Option<AccountSnapshot>) -> (r: String)
    ensures
        r@ == endpoint_name(*e),
{
    match e {
        Some(s) => s.0.clone(),
        None => String::new(),
    }
}

/// The balance text of an optional endpoint.
fn balance_cell(e: &Option<AccountSnapshot>) -> (r: String)
    ensures
        r@ == endpoint_balance(*e),
{
    match e {
        Some(s) => s.1.to_string(),
        None => String::new(),
    }
}

impl TransactionInstance {
    /// The seven columns of the transaction's table row: date, name, amount, source name,
    /// source balance, destination name, destination balance.
    pub open spec fn row(&self) -> Seq<Seq<char>> {
        seq![
            self.date@,
            self.name@,
            money_text(self.amount.0 as int),
            endpoint_name(self.source),
            endpoint_balance(self.source),
            endpoint_name(self.dest),
            endpoint_balance(self.dest),
        ]
    }

    /// Create a new TransactionInstance with an empty date.
    pub fn new(
        name: &str,
        amount: i64,
        source: Option<AccountSnapshot>,
        dest: Option<AccountSnapshot>,
    ) -> (r: TransactionInstance)
        ensures
            r.date@ == Seq::<char>::empty(),
            r.name@ == name@,
            r.amount == Money(amount),
            r.source == source,
            r.dest == dest,
    {
        TransactionInstance {
            date: String::new(),
            name: String::from_str(name),
            amount: Money(amount),
            source,
            dest,
        }
    }

    /// The same transaction under the name `name`.
    pub fn name(self, name: &str) -> (r: TransactionInstance)
        ensures
            r.name@ == name@,
            r.date == self.date,
            r.amount == self.amount,
            r.source == self.source,
            r.dest == self.dest,
    {
        TransactionInstance { name: String::from_str(name), ..self }
    }

    /// The same transaction moving `amount` minor units.
    pub fn amount(self, amount: i64) -> (r: TransactionInstance)
        ensures
            r.amount == Money(amount),
            r.date == self.date,
            r.name == self.name,
            r.source == self.source,
            r.dest == self.dest,
    {
        TransactionInstance { amount: Money(amount), ..self }
    }

    /// The same transaction drawing on `source`.
    pub fn source(self, source: AccountSnapshot) -> (r: TransactionInstance)
        ensures
            r.source == Some(source),
            r.date == self.date,
            r.name == self.name,
            r.amount == self.amount,
            r.dest == self.dest,
    {
        TransactionInstance { source: Some(source), ..self }
    }

    /// The same transaction paying into `dest`.
    pub fn dest(self, dest: AccountSnapshot) -> (r: TransactionInstance)
        ensures
            r.dest == Some(dest),
            r.date == self.date,
            r.name == self.name,
            r.amount == self.amount,
            r.source == self.source,
    {
        TransactionInstance { dest: Some(dest), ..self }
    }

    /// Format a transaction instance as a series of strings: the seven columns of `row`.
    pub fn fmt_table(&self) -> (r: Vec<String>)
        ensures
            r.deep_view() == self.row(),
    {
        let mut r: Vec<String> = Vec::new();
        r.push(self.date.clone());
        r.push(self.name.clone());
        r.push(self.amount.to_string());
        r.push(name_cell(&self.source));
        r.push(balance_cell(&self.source));
        r.push(name_cell(&self.dest));
        r.push(balance_cell(&self.dest));
        assert(r.deep_view() =~= self.row());
        r
    }
}

impl Default for TransactionInstance {
    /// A transaction with no date, no name, a zero amount and neither endpoint.
    fn default() -> (r: TransactionInstance)
        ensures
            r.date@ == Seq::<char>::empty(),
            r.name@ == Seq::<char>::empty(),
            r.amount == Money(0),
            r.source is None,
            r.dest is None,
    {
        TransactionInstance {
            date: String::new(),
            name: String::new(),
            amount: Money(0),
            source: None,
            dest: None,
        }
    }
}

/// A table row keeps its columns in one order, and an absent endpoint leaves exactly its
/// own two columns empty: no other column moves or changes.
pub proof fn lemma_row_layout(t: &TransactionInstance)
    ensures
        t.row().len() == 7,
        t.row()[0] == t.date@,
        t.row()[1] == t.name@,
        t.row()[2] == money_text(t.amount.0 as int),
        t.source matches Some(s) ==> t.row()[3] == s.0@ && t.row()[4] == money_text(
            s.1.0 as int,
        ),
        t.source is None ==> t.row()[3] == Seq::<char>::empty() && t.row()[4]
            == Seq::<char>::empty(),
        t.dest matches Some(d) ==> t.row()[5] == d.0@ && t.row()[6] == money_text(
            d.1.0 as int,
        ),
        t.dest is None ==> t.row()[5] == Seq::<char>::empty() && t.row()[6]
            == Seq::<char>::empty(),
{
}

} // verus!
