use budgt::{AccountSnapshot, Money, TransactionInstance};

#[test]
fn fmt_table_with_both_endpoints() {
    let t = TransactionInstance::new(
        "foo",
        1000,
        Some(AccountSnapshot("bar".to_string(), Money(12345))),
        Some(AccountSnapshot("baz".to_string(), Money(20231))),
    );
    assert_eq!(
        t.fmt_table(),
        vec!["", "foo", "   10.00", "bar", "  123.45", "baz", "  202.31"]
    );
}

#[test]
fn fmt_table_without_dest() {
    let t = TransactionInstance::new(
        "foo",
        1000,
        Some(AccountSnapshot("bar".to_string(), Money(12345))),
        None,
    );
    assert_eq!(t.fmt_table(), vec!["", "foo", "   10.00", "bar", "  123.45", "", ""]);
}

#[test]
fn fmt_table_without_source() {
    let t = TransactionInstance::new(
        "foo",
        1000,
        None,
        Some(AccountSnapshot("baz".to_string(), Money(3099))),
    );
    assert_eq!(t.fmt_table(), vec!["", "foo", "   10.00", "", "", "baz", "   30.99"]);
}

#[test]
fn fmt_table_without_endpoints() {
    let t = TransactionInstance::new("FreeBSD", 1200, None, None);
    assert_eq!(t.fmt_table(), vec!["", "FreeBSD", "   12.00", "", "", "", ""]);
}

#[test]
fn builders_set_one_field_each() {
    let t = TransactionInstance::default()
        .name("foo")
        .amount(12345)
        .source(AccountSnapshot("bar".to_string(), Money(1000)))
        .dest(AccountSnapshot::new("baz", 35502));
    assert_eq!(t.name, "foo");
    assert_eq!(t.amount, Money(12345));
    assert_eq!(t.date, "");
    assert_eq!(
        t.fmt_table(),
        vec!["", "foo", "  123.45", "bar", "   10.00", "baz", "  355.02"]
    );
}

#[test]
fn default_transaction_is_blank() {
    let t = TransactionInstance::default();
    assert_eq!(t.fmt_table(), vec!["", "", "    0.00", "", "", "", ""]);
}

#[test]
fn fmt_table_negative_balance() {
    let t = TransactionInstance::default()
        .name("fee")
        .amount(-5)
        .source(AccountSnapshot::new("card", -12345));
    assert_eq!(t.fmt_table(), vec!["", "fee", "   -0.05", "card", " -123.45", "", ""]);
}
