//! Decimal rendering of the integer types that appear in diagnostics and in
//! connection strings, with its specification.

use vstd::prelude::*;

verus! {

/// The character for a single decimal digit.
pub open spec fn digit_char(d: nat) -> char {
    ((48 + d) as u8) as char
}

/// The decimal digits of a natural number, most significant first, with no
/// leading zeros (a single `'0'` for zero).
pub open spec fn dec_digits(n: nat) -> Seq<char>
    decreases n,
{
    if n < 10 {
        seq![digit_char(n)]
    } else {
        dec_digits(n / 10).push(digit_char(n % 10))
    }
}

/// The decimal rendering of an integer: a leading `'-'` for negatives.
pub open spec fn dec_int(n: int) -> Seq<char> {
    if n >= 0 {
        dec_digits(n as nat)
    } else {
        seq!['-'] + dec_digits((-n) as nat)
    }
}

/// Relies on u32's `Display` implementation: the decimal digits of the
/// value, no sign, no leading zeros.
#[verifier::external_body]
pub fn u32_string(n: u32) -> (r: String)
    ensures
        r@ == dec_digits(n as nat),
{
    n.to_string()
}

/// Relies on i32's `Display` implementation: the decimal digits of the
/// value, with a leading `'-'` for negatives.
#[verifier::external_body]
pub fn i32_string(n: i32) -> (r: String)
    ensures
        r@ == dec_int(n as int),
{
    n.to_string()
}

/// Relies on u64's `Display` implementation: the decimal digits of the
/// value, no sign, no leading zeros.
#[verifier::external_body]
pub fn u64_string(n: u64) -> (r: String)
    ensures
        r@ == dec_digits(n as nat),
{
    n.to_string()
}

} // verus!
