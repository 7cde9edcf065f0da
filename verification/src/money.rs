//! Amounts of money, kept as whole cents, written out for people.

use vstd::prelude::*;

verus! {

/// The character of the decimal digit `d`.
pub open spec fn digit_char(d: nat) -> char
    recommends
        d < 10,
{
    ('0' as int + d) as char
}

/// `n` in base ten, without leading zeros.
pub open spec fn decimal_digits(n: nat) -> Seq<char>
    decreases n,
{
    if n < 10 {
        seq![digit_char(n)]
    } else {
        decimal_digits(n / 10).push(digit_char(n % 10))
    }
}

/// `n` in base ten with a comma before every group of three digits,
/// counted from the right.
pub open spec fn grouped(n: nat) -> Seq<char>
    decreases n,
{
    if n < 1000 {
        decimal_digits(n)
    } else {
        grouped(n / 1000) + seq![
            ',',
            digit_char(n % 1000 / 100),
            digit_char(n % 100 / 10),
            digit_char(n % 10),
        ]
    }
}

/// An amount of cents as dollars and cents: the dollars grouped by
/// thousands, a point, and two digits of cents.
pub open spec fn dollars_cents(cents: nat) -> Seq<char> {
    grouped(cents / 100) + seq!['.', digit_char(cents % 100 / 10), digit_char(cents % 10)]
}

/// Calls `thousands::Separable::separate_with_commas` on an unsigned
/// integer. Trusted: the result is the number in base ten with a comma
/// inserted every three digits from the right.
#[verifier::external_body]
pub(crate) fn separate_with_commas(n: u64) -> (s: String)
    ensures
        s@ == grouped(n as nat),
{
    thousands::Separable::separate_with_commas(&n)
}

/// The character of a decimal digit.
pub fn digit_to_char(d: u8) -> (c: char)
    requires
        d < 10,
    ensures
        c == digit_char(d as nat),
{
    (48u8 + d) as char
}

/// Writes an amount of cents as dollars and cents, as in `1,234.56`.
pub fn pretty_dollars_cents(cents: u64) -> (s: String)
    ensures
        s@ == dollars_cents(cents as nat),
{
    let mut s = separate_with_commas(cents / 100);
    s.push('.');
    s.push(digit_to_char((cents % 100 / 10) as u8));
    s.push(digit_to_char((cents % 10) as u8));
    assert(s@ =~= dollars_cents(cents as nat));
    s
}

} // verus!
