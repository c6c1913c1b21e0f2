use vstd::prelude::*;

use crate::error::LedgerError;

verus! {

/// A signed amount of minor currency units (cents).
#[derive(Clone, Copy, Debug, PartialEq, Eq, Structural)]
pub struct Money {
    pub value: i64,
}

pub open spec fn fits_i64(v: int) -> bool {
    i64::MIN <= v <= i64::MAX
}

/// The money value `v`, or `AmountOverflow` where it does not fit.
pub open spec fn checked_money(v: int) -> Result<Money, LedgerError> {
    if fits_i64(v) {
        Ok(Money { value: v as i64 })
    } else {
        Err(LedgerError::AmountOverflow)
    }
}

pub open spec fn abs(v: int) -> nat {
    if v < 0 {
        (-v) as nat
    } else {
        v as nat
    }
}

pub open spec fn digit_char(d: nat) -> char {
    if d == 0 {
        '0'
    } else if d == 1 {
        '1'
    } else if d == 2 {
        '2'
    } else if d == 3 {
        '3'
    } else if d == 4 {
        '4'
    } else if d == 5 {
        '5'
    } else if d == 6 {
        '6'
    } else if d == 7 {
        '7'
    } else if d == 8 {
        '8'
    } else {
        '9'
    }
}

/// The decimal digits of `n`, most significant first, without leading zeros.
pub open spec fn decimal(n: nat) -> Seq<char>
    decreases n,
{
    if n < 10 {
        seq![digit_char(n)]
    } else {
        decimal(n / 10).push(digit_char(n % 10))
    }
}

/// Major units, the separator, then exactly two digits of minor units.
pub open spec fn unsigned_text(a: nat, separator: char) -> Seq<char> {
    decimal(a / 100) + seq![separator, digit_char((a % 100) / 10), digit_char(a % 10)]
}

/// `v` as text: a `-` before negative values only.
pub open spec fn money_text(v: int, separator: char) -> Seq<char> {
    if v < 0 {
        seq!['-'] + unsigned_text(abs(v), separator)
    } else {
        unsigned_text(abs(v), separator)
    }
}

/// `v` as text with an explicit sign: `+` for zero and above, `-` below.
pub open spec fn signed_diff_text(v: int, separator: char) -> Seq<char> {
    seq![if v < 0 { '-' } else { '+' }] + unsigned_text(abs(v), separator)
}

pub const EURO_SIGN: char = '\u{20ac}';

pub const DECIMAL_SEPARATOR: char = ',';

/// Relies on `String::push`: it appends one character at the end.
#[verifier::external_body]
fn push_char(s: &mut String, c: char)
    ensures
        final(s)@ == old(s)@.push(c),
{
    s.push(c);
}

fn digit(d: u64) -> (c: char)
    requires
        d < 10,
    ensures
        c == digit_char(d as nat),
{
    if d == 0 {
        '0'
    } else if d == 1 {
        '1'
    } else if d == 2 {
        '2'
    } else if d == 3 {
        '3'
    } else if d == 4 {
        '4'
    } else if d == 5 {
        '5'
    } else if d == 6 {
        '6'
    } else if d == 7 {
        '7'
    } else if d == 8 {
        '8'
    } else {
        '9'
    }
}

fn push_decimal(s: &mut String, n: u64)
    ensures
        final(s)@ == old(s)@ + decimal(n as nat),
    decreases n,
{
    if n >= 10 {
        push_decimal(s, n / 10);
        push_char(s, digit(n % 10));
        assert(final(s)@ =~= old(s)@ + decimal(n as nat));
    } else {
        push_char(s, digit(n));
        assert(final(s)@ =~= old(s)@ + decimal(n as nat));
    }
}

fn push_unsigned(s: &mut String, a: u64, separator: char)
    ensures
        final(s)@ == old(s)@ + unsigned_text(a as nat, separator),
{
    push_decimal(s, a / 100);
    push_char(s, separator);
    push_char(s, digit((a % 100) / 10));
    push_char(s, digit(a % 10));
    assert(final(s)@ =~= old(s)@ + unsigned_text(a as nat, separator));
}

fn magnitude(v: i64) -> (a: u64)
    ensures
        a as nat == abs(v as int),
{
    if v < 0 {
        (0i128 - (v as i128)) as u64
    } else {
        v as u64
    }
}

impl Money {
    pub fn new(value: i64) -> (r: Money)
        ensures
            r.value == value,
    {
        Money { value }
    }

    /// Exact sum; `AmountOverflow` where it leaves the range of `i64`.
    pub fn add(self, other: Money) -> (r: Result<Money, LedgerError>)
        ensures
            r == checked_money(self.value + other.value),
    {
        match self.value.checked_add(other.value) {
            Some(v) => Ok(Money { value: v }),
            None => Err(LedgerError::AmountOverflow),
        }
    }

    /// Exact difference; `AmountOverflow` where it leaves the range of `i64`.
    pub fn subtract(self, other: Money) -> (r: Result<Money, LedgerError>)
        ensures
            r == checked_money(self.value - other.value),
    {
        match self.value.checked_sub(other.value) {
            Some(v) => Ok(Money { value: v }),
            None => Err(LedgerError::AmountOverflow),
        }
    }

    /// Major and minor units joined by `separator`, `-` before a negative value.
    pub fn format(&self, separator: char) -> (r: String)
        ensures
            r@ == money_text(self.value as int, separator),
    {
        let mut s = String::new();
        if self.value < 0 {
            push_char(&mut s, '-');
        }
        push_unsigned(&mut s, magnitude(self.value), separator);
        proof {
            assert(s@ =~= money_text(self.value as int, separator));
        }
        s
    }

    /// Like `format`, with an explicit sign always in front.
    pub fn format_signed_diff(&self, separator: char) -> (r: String)
        ensures
            r@ == signed_diff_text(self.value as int, separator),
    {
        let mut s = String::new();
        push_char(&mut s, if self.value < 0 { '-' } else { '+' });
        push_unsigned(&mut s, magnitude(self.value), separator);
        proof {
            assert(s@ =~= signed_diff_text(self.value as int, separator));
        }
        s
    }

    /// A balance change in euros: signed, comma-separated, with the euro sign.
    pub fn format_eur_diff_value(value: i64) -> (r: String)
        ensures
            r@ == signed_diff_text(value as int, DECIMAL_SEPARATOR).push(EURO_SIGN),
    {
        let mut s = Money::new(value).format_signed_diff(DECIMAL_SEPARATOR);
        push_char(&mut s, EURO_SIGN);
        s
    }
}

} // verus!
