//! Numbers written out for messages.

use vstd::prelude::*;

verus! {

/// The character for one decimal digit.
pub open spec fn digit(d: nat) -> char {
    if d == 0 {
        '0'
    } else if d == 1 {
        '1'
    } else if d == 2 {
        '2'
    } else if d == 3 {
        '3'
    } else if d == 4 {
        '4'
    } else if d == 5 {
        '5'
    } else if d == 6 {
        '6'
    } else if d == 7 {
        '7'
    } else if d == 8 {
        '8'
    } else {
        '9'
    }
}

/// A number in decimal, without sign, padding or leading zeros.
pub open spec fn decimal(n: nat) -> Seq<char>
    decreases n,
{
    if n < 10 {
        seq![digit(n)]
    } else {
        decimal(n / 10).push(digit(n % 10))
    }
}

/// `usize::to_string`, taken on trust: the standard library formats an
/// unsigned integer as its decimal digits, most significant first, with
/// nothing before or after them.
#[verifier::external_body]
pub(crate) fn decimal_string(n: usize) -> (text: String)
    ensures
        text@ == decimal(n as nat),
{
    n.to_string()
}

} // verus!
