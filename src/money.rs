//! Fixed-point currency amounts held as a whole number of minor units (cents).

use vstd::prelude::*;
use vstd::string::*;

verus! {

/// Why a money operation could not produce a value.
#[derive(Clone, Copy, Debug, PartialEq, Eq, Structural)]
pub enum MoneyError {
    /// The source integer lies outside the range of minor units.
    OutOfRange,
    /// The divisor of a division or remainder was zero.
    DivisionByZero,
    /// The exact result does not fit in the range of minor units.
    Overflow,
}

/// True when `v` can be held as a number of minor units.
pub open spec fn fits_minor(v: int) -> bool {
    i64::MIN <= v <= i64::MAX
}

/// The outcome of an operation whose exact result is `v`.
pub open spec fn checked_result(v: int) -> Result<Money, MoneyError> {
    if fits_minor(v) {
        Ok(Money(v as i64))
    } else {
        Err(MoneyError::Overflow)
    }
}

/// The magnitude of `v`.
pub open spec fn abs(v: int) -> int {
    if v < 0 {
        -v
    } else {
        v
    }
}

/// Division of `a` by `b` that rounds toward zero, as integer division does on machine
/// integers.
pub open spec fn trunc_div(a: int, b: int) -> int {
    if (a < 0) == (b < 0) {
        abs(a) / abs(b)
    } else {
        -(abs(a) / abs(b))
    }
}

/// The remainder that goes with `trunc_div`: it has the sign of `a`.
pub open spec fn trunc_rem(a: int, b: int) -> int {
    a - b * trunc_div(a, b)
}

/// The character of the decimal digit `d`, for `0 <= d < 10`.
pub open spec fn digit_char(d: int) -> char {
    ((d + 48) as u8) as char
}

/// The decimal numeral of `n`, without leading zeros.
pub open spec fn decimal(n: nat) -> Seq<char>
    decreases n,
{
    if n < 10 {
        seq![digit_char(n as int)]
    } else {
        decimal(n / 10).push(digit_char((n % 10) as int))
    }
}

/// `s` preceded by as many spaces as it takes to be at least `width` long.
pub open spec fn pad_left(s: Seq<char>, width: nat) -> Seq<char> {
    if s.len() >= width {
        s
    } else {
        Seq::new((width - s.len()) as nat, |i: int| ' ') + s
    }
}

/// The major part of `c` minor units: whole currency units of the magnitude, preceded by a
/// minus sign when `c` is negative.
pub open spec fn major_text(c: int) -> Seq<char> {
    if c < 0 {
        seq!['-'] + decimal((abs(c) / 100) as nat)
    } else {
        decimal((c / 100) as nat)
    }
}

/// The display text of `c` minor units: the major part right-aligned in five columns, a
/// point, and the two digits of the minor part of the magnitude.
pub open spec fn money_text(c: int) -> Seq<char> {
    pad_left(major_text(c), 5) + seq!['.', digit_char(abs(c) % 100 / 10), digit_char(abs(c) % 10)]
}

/// Relies on `String::push`: the character is appended at the end.
#[verifier::external_body]
fn push_char(s: &mut String, c: char)
    ensures
        final(s)@ == old(s)@.push(c),
{
    s.push(c)
}

/// The character of the decimal digit `d`.
fn digit(d: u64) -> (c: char)
    requires
        d < 10,
    ensures
        c == digit_char(d as int),
{
    (d as u8 + 48u8) as char
}

/// Appends the decimal numeral of `n` to `s`.
fn push_decimal(s: &mut String, n: u64)
    ensures
        final(s)@ == old(s)@ + decimal(n as nat),
    decreases n,
{
    let ghost start = s@;
    if n >= 10 {
        push_decimal(s, n / 10);
    }
    push_char(s, digit(n % 10));
    assert(s@ =~= start + decimal(n as nat));
}

/// The remainder of truncating division is the remainder of the magnitudes, with the
/// sign of the dividend.
proof fn lemma_trunc_rem(a: int, b: int)
    requires
        b != 0,
    ensures
        0 <= abs(a) % abs(b) < abs(b),
        trunc_rem(a, b) == if a < 0 {
            -(abs(a) % abs(b))
        } else {
            abs(a) % abs(b)
        },
{
    vstd::arithmetic::div_mod::lemma_fundamental_div_mod(abs(a), abs(b));
    vstd::arithmetic::div_mod::lemma_mod_pos_bound(abs(a), abs(b));
    assert(b * trunc_div(a, b) == if a < 0 {
        -(abs(b) * (abs(a) / abs(b)))
    } else {
        abs(b) * (abs(a) / abs(b))
    }) by (nonlinear_arith)
        requires
            trunc_div(a, b) == if (a < 0) == (b < 0) {
                abs(a) / abs(b)
            } else {
                -(abs(a) / abs(b))
            },
            abs(b) == if b < 0 {
                -b
            } else {
                b
            },
    ;
}

/// A currency amount as a signed number of minor units (one unit is one cent).
#[derive(Clone, Copy, Debug, Default, PartialEq, Eq, PartialOrd, Ord, Hash, Structural)]
pub struct Money(pub i64);

impl Money {
    /// The amount of `v` minor units, or `OutOfRange` where `v` has no such amount.
    pub fn from_i128(v: i128) -> (r: Result<Money, MoneyError>)
        ensures
            fits_minor(v as int) ==> r == Ok::<Money, MoneyError>(Money(v as i64)),
            !fits_minor(v as int) ==> r == Err::<Money, MoneyError>(MoneyError::OutOfRange),
    {
        if i64::MIN as i128 <= v && v <= i64::MAX as i128 {
            Ok(Money(v as i64))
        } else {
            Err(MoneyError::OutOfRange)
        }
    }

    /// The number of minor units held.
    pub fn minor_units(&self) -> (r: i64)
        ensures
            r == self.0,
    {
        self.0
    }

    /// The display text: at least five columns for the sign and whole units, a point, and
    /// two digits of cents (`"  117.70"`, `"   -0.05"`).
    pub fn to_string(&self) -> (r: String)
        ensures
            r@ == money_text(self.0 as int),
    {
        let magnitude: u64 = if self.0 < 0 {
            (0i128 - self.0 as i128) as u64
        } else {
            self.0 as u64
        };
        let mut major = String::new();
        if self.0 < 0 {
            push_char(&mut major, '-');
        }
        push_decimal(&mut major, magnitude / 100);
        assert(major@ =~= major_text(self.0 as int));
        let len = major.as_str().unicode_len();
        let mut r = String::new();
        let mut k: usize = len;
        while k < 5
            invariant
                len <= k <= if len < 5 {
                    5
                } else {
                    len
                },
                r@ =~= Seq::new((k - len) as nat, |i: int| ' '),
            decreases 5 - k,
        {
            push_char(&mut r, ' ');
            k = k + 1;
        }
        r.append(major.as_str());
        assert(r@ =~= pad_left(major_text(self.0 as int), 5));
        push_char(&mut r, '.');
        push_char(&mut r, digit(magnitude % 100 / 10));
        push_char(&mut r, digit(magnitude % 10));
        assert(r@ =~= money_text(self.0 as int));
        r
    }

    /// Adds `rhs` minor units.
    pub fn add(self, rhs: i64) -> (r: Result<Money, MoneyError>)
        ensures
            r == checked_result(self.0 + rhs),
    {
        match self.0.checked_add(rhs) {
            Some(v) => Ok(Money(v)),
            None => Err(MoneyError::Overflow),
        }
    }

    /// Subtracts `rhs` minor units.
    pub fn sub(self, rhs: i64) -> (r: Result<Money, MoneyError>)
        ensures
            r == checked_result(self.0 - rhs),
    {
        match self.0.checked_sub(rhs) {
            Some(v) => Ok(Money(v)),
            None => Err(MoneyError::Overflow),
        }
    }

    /// Multiplies by the plain integer `rhs` (a factor, not a second amount).
    pub fn mul(self, rhs: i64) -> (r: Result<Money, MoneyError>)
        ensures
            r == checked_result(self.0 * rhs),
    {
        match self.0.checked_mul(rhs) {
            Some(v) => Ok(Money(v)),
            None => Err(MoneyError::Overflow),
        }
    }

    /// Divides by `rhs`, rounding toward zero.
    pub fn div(self, rhs: i64) -> (r: Result<Money, MoneyError>)
        ensures
            rhs == 0 ==> r == Err::<Money, MoneyError>(MoneyError::DivisionByZero),
            rhs != 0 ==> r == checked_result(trunc_div(self.0 as int, rhs as int)),
    {
        if rhs == 0 {
            return Err(MoneyError::DivisionByZero);
        }
        match self.0.checked_div(rhs) {
            Some(v) => Ok(Money(v)),
            None => Err(MoneyError::Overflow),
        }
    }

    /// The remainder of division by `rhs`; it carries the sign of `self`.
    pub fn rem(self, rhs: i64) -> (r: Result<Money, MoneyError>)
        ensures
            rhs == 0 ==> r == Err::<Money, MoneyError>(MoneyError::DivisionByZero),
            rhs != 0 ==> r == Ok::<Money, MoneyError>(
                Money(trunc_rem(self.0 as int, rhs as int) as i64),
            ),
            rhs != 0 ==> fits_minor(trunc_rem(self.0 as int, rhs as int)),
    {
        if rhs == 0 {
            return Err(MoneyError::DivisionByZero);
        }
        if rhs == -1 {
            // Every integer is a multiple of -1; this also avoids the one overflowing case.
            return Ok(Money(0));
        }
        proof {
            lemma_trunc_rem(self.0 as int, rhs as int);
        }
        match self.0.checked_rem(rhs) {
            Some(v) => Ok(Money(v)),
            None => Err(MoneyError::Overflow),
        }
    }
}

impl From<i64> for Money {
    /// The amount of exactly `v` minor units.
    fn from(v: i64) -> (r: Money)
        ensures
            r.0 == v,
    {
        Money(v as i64)
    }
}

impl vstd::std_specs::convert::FromSpecImpl<i64> for Money {
    open spec fn obeys_from_spec() -> bool {
        true
    }

    open spec fn from_spec(v: i64) -> Money {
        Money(v as i64)
    }
}

impl From<i32> for Money {
    /// The amount of exactly `v` minor units.
    fn from(v: i32) -> (r: Money)
        ensures
            r.0 == v,
    {
        Money(v as i64)
    }
}

impl vstd::std_specs::convert::FromSpecImpl<i32> for Money {
    open spec fn obeys_from_spec() -> bool {
        true
    }

    open spec fn from_spec(v: i32) -> Money {
        Money(v as i64)
    }
}

impl From<u32> for Money {
    /// The amount of exactly `v` minor units.
    fn from(v: u32) -> (r: Money)
        ensures
            r.0 == v,
    {
        Money(v as i64)
    }
}

impl vstd::std_specs::convert::FromSpecImpl<u32> for Money {
    open spec fn obeys_from_spec() -> bool {
        true
    }

    open spec fn from_spec(v: u32) -> Money {
        Money(v as i64)
    }
}

} // verus!
