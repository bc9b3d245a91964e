use budgt::{Account, AccountSnapshot, Money, MoneyError, Rate};

#[test]
fn credit_account_current_subtracts_holds() {
    let a = Account::new("cool account", Money(12345), Money(575), Rate(0), false);
    assert_eq!(a.current(), Ok(Money(11770)));
    assert_eq!(a.current().unwrap().to_string(), "  117.70");
    assert_eq!(a.name, "cool account");
}

#[test]
fn debit_account_current_adds_holds() {
    let a = Account::new("card", Money(12345), Money(575), Rate(0), true);
    assert_eq!(a.current(), Ok(Money(12920)));
}

#[test]
fn negative_values_are_accepted() {
    let a = Account::new("odd", Money(-100), Money(-50), Rate(-1000), false);
    assert_eq!(a.current(), Ok(Money(-50)));
}

#[test]
fn current_reports_overflow() {
    let a = Account::new("big", Money(i64::MAX), Money(1), Rate(0), true);
    assert_eq!(a.current(), Err(MoneyError::Overflow));
    assert_eq!(a.future(0), Err(MoneyError::Overflow));
    assert!(a.take_snapshot().is_err());
    let b = Account::new("low", Money(i64::MIN), Money(1), Rate(0), false);
    assert_eq!(b.current(), Err(MoneyError::Overflow));
}

#[test]
fn future_applies_simple_interest_once() {
    let a = Account::new("loan", Money(10000), Money(0), Rate(20000), true);
    assert_eq!(a.current(), Ok(Money(10000)));
    assert_eq!(a.future(3), Ok(Money(10600)));
    assert_eq!(a.future(3).unwrap().to_string(), "  106.00");
    assert_eq!(a.future(12), Ok(Money(12400)));
}

#[test]
fn future_of_zero_months_is_current() {
    for (bal, holds, rate, debit) in [
        (12345i64, 575i64, 20000i32, false),
        (-999, 1, 333333, true),
        (7, 0, i32::MIN, false),
        (i64::MAX, 0, i32::MAX, true),
    ] {
        let a = Account::new("x", Money(bal), Money(holds), Rate(rate), debit);
        assert_eq!(a.future(0), a.current());
    }
}

#[test]
fn future_truncates_toward_zero() {
    // 101 * 1.15 = 116.15
    let a = Account::new("a", Money(101), Money(0), Rate(50000), false);
    assert_eq!(a.future(3), Ok(Money(116)));
    // -101 * 1.15 = -116.15
    let b = Account::new("b", Money(-101), Money(0), Rate(50000), false);
    assert_eq!(b.future(3), Ok(Money(-116)));
    // 1 * (1 + 1 * 0.999999) = 1.999999
    let c = Account::new("c", Money(1), Money(0), Rate(999999), false);
    assert_eq!(c.future(1), Ok(Money(1)));
}

#[test]
fn future_with_negative_rate_shrinks() {
    let a = Account::new("a", Money(10000), Money(0), Rate(-100000), false);
    assert_eq!(a.future(2), Ok(Money(8000)));
    assert_eq!(a.future(10), Ok(Money(0)));
    assert_eq!(a.future(11), Ok(Money(-1000)));
}

#[test]
fn future_reports_overflow() {
    let a = Account::new("a", Money(i64::MAX), Money(0), Rate(1), false);
    assert_eq!(a.future(1), Err(MoneyError::Overflow));
    let b = Account::new("b", Money(i64::MIN), Money(0), Rate(i32::MAX), false);
    assert_eq!(b.future(u64::MAX), Err(MoneyError::Overflow));
    let c = Account::new("c", Money(0), Money(0), Rate(i32::MAX), false);
    assert_eq!(c.future(u64::MAX), Ok(Money(0)));
    let d = Account::new("d", Money(1), Money(0), Rate(i32::MAX), false);
    assert_eq!(d.future(u64::MAX), Err(MoneyError::Overflow));
}

#[test]
fn snapshot_holds_name_and_current_value() {
    let a = Account::new("savings", Money(5000), Money(125), Rate(0), false);
    let s = a.take_snapshot().unwrap();
    assert_eq!(s.0, "savings");
    assert_eq!(s.1, Money(4875));
    assert!(s == AccountSnapshot::new("savings", 4875));
    assert!(s != AccountSnapshot::new("savings", 4876));
    assert!(s != AccountSnapshot::new("saving", 4875));
}
