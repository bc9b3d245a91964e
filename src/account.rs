//! Accounts that hold money (credit) or debt (debit), and snapshots of their value.

use crate::money::{abs, checked_result, fits_minor, trunc_div, Money, MoneyError};
use vstd::prelude::*;
use vstd::string::*;

verus! {

/// Millionths in one whole: the unit of `Rate`.
pub const RATE_SCALE: i64 = 1_000_000;

/// A monthly simple-interest rate in millionths: `Rate(20_000)` is two percent a month.
#[derive(Clone, Copy, Debug, PartialEq, Eq, Structural)]
pub struct Rate(pub i32);

/// Whether an account holds an asset or a liability.
#[derive(Clone, Copy, Debug, PartialEq, Eq, Structural)]
enum AcctType {
    /// Holds money; holds reduce what is available.
    Credit,
    /// Holds debt; holds add to what is owed.
    Debit,
}

/// Represents an account - holding either money or debt.
pub struct Account {
    pub name: String,
    balance: Money,
    holds: Money,
    rate: Rate,
    typ: AcctType,
}

/// The value of an account at one moment: its name and an amount. It keeps no link back to
/// the account it was taken from.
pub struct AccountSnapshot(pub String, pub Money);

impl Account {
    /// The account's name.
    pub closed spec fn spec_name(&self) -> Seq<char> {
        self.name@
    }

    /// The recorded balance, in minor units.
    pub closed spec fn spec_balance(&self) -> int {
        self.balance.0 as int
    }

    /// The amount on hold, in minor units.
    pub closed spec fn spec_holds(&self) -> int {
        self.holds.0 as int
    }

    /// The monthly rate, in millionths.
    pub closed spec fn spec_rate(&self) -> int {
        self.rate.0 as int
    }

    /// True for a debit (liability) account, false for a credit (asset) account.
    pub closed spec fn spec_is_debit(&self) -> bool {
        self.typ == AcctType::Debit
    }

    /// The current value in exact arithmetic: holds are taken off an asset and added to a
    /// liability.
    pub open spec fn current_value(&self) -> int {
        if self.spec_is_debit() {
            self.spec_balance() + self.spec_holds()
        } else {
            self.spec_balance() - self.spec_holds()
        }
    }

    /// The value after `n` months of simple interest in exact arithmetic, rounded toward zero
    /// to whole minor units.
    pub open spec fn future_value(&self, n: nat) -> int {
        trunc_div(self.current_value() * (RATE_SCALE + n * self.spec_rate()), RATE_SCALE as int)
    }

    /// Create a new Account. `negative` makes it a debit (liability) account. No value is
    /// checked: negative balances, holds and rates are all accepted.
    pub fn new(name: &str, balance: Money, holds: Money, rate: Rate, negative: bool) -> (r:
        Account)
        ensures
            r.spec_name() == name@,
            r.spec_balance() == balance.0,
            r.spec_holds() == holds.0,
            r.spec_rate() == rate.0,
            r.spec_is_debit() == negative,
    {
        let typ = if negative {
            AcctType::Debit
        } else {
            AcctType::Credit
        };
        Account { name: String::from_str(name), balance, holds, rate, typ }
    }

    /// Get the current balance of an account: `balance - holds` for a credit account,
    /// `balance + holds` for a debit one. `Overflow` where that leaves the range of `Money`.
    pub fn current(&self) -> (r: Result<Money, MoneyError>)
        ensures
            r == checked_result(self.current_value()),
    {
        match self.typ {
            AcctType::Credit => self.balance.sub(self.holds.0),
            AcctType::Debit => self.balance.add(self.holds.0),
        }
    }

    /// Get the balance of an account with `n_months` of simple interest applied once:
    /// `current() * (1 + n_months * rate)`, with the fraction of a minor unit dropped
    /// (rounded toward zero). `Overflow` where the current value or the result leaves the
    /// range of `Money`.
    pub fn future(&self, n_months: u64) -> (r: Result<Money, MoneyError>)
        ensures
            fits_minor(self.current_value()) && fits_minor(self.future_value(n_months as nat))
                ==> r == Ok::<Money, MoneyError>(
                Money(self.future_value(n_months as nat) as i64),
            ),
            !(fits_minor(self.current_value()) && fits_minor(self.future_value(n_months as nat)))
                ==> r == Err::<Money, MoneyError>(MoneyError::Overflow),
    {
        let c = match self.current() {
            Ok(c) => c,
            Err(e) => return Err(e),
        };
        let n = n_months as i128;
        let rate = self.rate.0 as i128;
        proof {
            lemma_interest_bound(n as int, rate as int);
        }
        let factor: i128 = RATE_SCALE as i128 + n * rate;
        let ghost exact = self.current_value() * factor;
        assert(factor == RATE_SCALE + n_months as nat * self.spec_rate());
        proof {
            lemma_scaled_down(exact);
        }
        match (c.0 as i128).checked_mul(factor) {
            Some(p) => {
                let q = match p.checked_div(RATE_SCALE as i128) {
                    Some(q) => q,
                    None => return Err(MoneyError::Overflow),
                };
                if i64::MIN as i128 <= q && q <= i64::MAX as i128 {
                    Ok(Money(q as i64))
                } else {
                    Err(MoneyError::Overflow)
                }
            },
            None => Err(MoneyError::Overflow),
        }
    }

    /// An `AccountSnapshot` of the account's name and current value.
    pub fn take_snapshot(&self) -> (r: Result<AccountSnapshot, MoneyError>)
        ensures
            fits_minor(self.current_value()) ==> (r matches Ok(s) && s.0@ == self.spec_name()
                && s.1 == Money(self.current_value() as i64)),
            !fits_minor(self.current_value()) ==> r == Err::<AccountSnapshot, MoneyError>(
                MoneyError::Overflow,
            ),
    {
        match self.current() {
            Ok(c) => Ok(AccountSnapshot(self.name.clone(), c)),
            Err(e) => Err(e),
        }
    }
}

/// A month count times a rate in millionths stays far inside the range of `i128`.
proof fn lemma_interest_bound(n: int, rate: int)
    requires
        0 <= n <= u64::MAX,
        i32::MIN <= rate <= i32::MAX,
    ensures
        -0x1_0000_0000_0000_0000_0000_0000 <= n * rate <= 0x1_0000_0000_0000_0000_0000_0000,
{
    assert(-0x1_0000_0000_0000_0000_0000_0000 <= n * rate <= 0x1_0000_0000_0000_0000_0000_0000)
        by (nonlinear_arith)
        requires
            0 <= n <= 0x1_0000_0000_0000_0000,
            -0x1_0000_0000 <= rate <= 0x1_0000_0000,
    ;
}

/// A product beyond the range of `i128` is, once scaled down by `RATE_SCALE`, still beyond
/// the range of `Money`.
proof fn lemma_scaled_down(x: int)
    ensures
        !(i128::MIN <= x <= i128::MAX) ==> !fits_minor(trunc_div(x, RATE_SCALE as int)),
{
    vstd::arithmetic::div_mod::lemma_fundamental_div_mod(abs(x), RATE_SCALE as int);
    vstd::arithmetic::div_mod::lemma_mod_pos_bound(abs(x), RATE_SCALE as int);
}

/// Projecting zero months ahead gives the current value exactly, whatever the rate and the
/// kind of account: no interest accrues and nothing is lost to rounding.
pub proof fn lemma_future_zero_is_current(a: &Account)
    ensures
        a.future_value(0) == a.current_value(),
{
    let c = a.current_value();
    assert(c * (RATE_SCALE + 0 * a.spec_rate()) == c * RATE_SCALE);
    vstd::arithmetic::div_mod::lemma_div_by_multiple(abs(c), RATE_SCALE as int);
    assert(abs(c * RATE_SCALE) == abs(c) * RATE_SCALE);
}

impl AccountSnapshot {
    /// A snapshot of the name `name` and `value` minor units.
    pub fn new(name: &str, value: i64) -> (r: AccountSnapshot)
        ensures
            r.0@ == name@,
            r.1 == Money(value),
    {
        AccountSnapshot(String::from_str(name), Money(value))
    }
}

impl PartialEq for AccountSnapshot {
    /// Equal when both the names and the amounts are.
    fn eq(&self, other: &AccountSnapshot) -> (r: bool)
        ensures
            r == (self.0@ == other.0@ && self.1 == other.1),
    {
        self.0 == other.0 && self.1.0 == other.1.0
    }
}

impl vstd::std_specs::cmp::PartialEqSpecImpl for AccountSnapshot {
    open spec fn obeys_eq_spec() -> bool {
        true
    }

    open spec fn eq_spec(&self, other: &AccountSnapshot) -> bool {
        self.0@ == other.0@ && self.1 == other.1
    }
}

} // verus!
