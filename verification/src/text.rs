//! Decimal rendering of integers and quoting of string literals, for the
//! textual form of the instruction stream.

use vstd::prelude::*;

verus! {

/// The character for a single decimal digit.
pub open spec fn digit_char(d: nat) -> char
    recommends
        d < 10,
{
    (('0' as u8) + d) as char
}

/// Decimal digits of `n`, most significant first, with no sign and no
/// leading zeros (a single `'0'` for zero).
pub open spec fn dec_digits(n: nat) -> Seq<char>
    decreases n,
{
    if n < 10 {
        seq![digit_char(n)]
    } else {
        dec_digits(n / 10).push(digit_char(n % 10))
    }
}

/// Decimal representation of `n`: digits, with a leading `'-'` when negative.
pub open spec fn dec_rep(n: int) -> Seq<char> {
    if n < 0 {
        seq!['-'] + dec_digits((-n) as nat)
    } else {
        dec_digits(n as nat)
    }
}

/// Relies on `std::fmt::Display` for `i64` (via `format!`): the documented
/// output is the decimal digits of the value with a leading `-` if negative.
#[verifier::external_body]
pub fn i64_to_decimal(n: i64) -> (r: String)
    ensures
        r@ == dec_rep(n as int),
{
    format!("{}", n)
}

/// Relies on `std::fmt::Display` for `u64` (via `format!`): the documented
/// output is the decimal digits of the value.
#[verifier::external_body]
pub fn u64_to_decimal(n: u64) -> (r: String)
    ensures
        r@ == dec_rep(n as int),
{
    format!("{}", n)
}

/// What `std::fmt::Debug` for `str` prints: the string between double
/// quotes with escape sequences. It depends on the characters alone.
pub uninterp spec fn str_debug_of(s: Seq<char>) -> Seq<char>;

/// Relies on `std::fmt::Debug` for `str` (via `format!`): a double-quoted,
/// escaped rendering of the string, a function of its characters alone.
#[verifier::external_body]
pub fn str_to_debug(s: &str) -> (r: String)
    ensures
        r@ == str_debug_of(s@),
{
    format!("{:?}", s)
}

} // verus!
