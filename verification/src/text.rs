//! Decimal text of integers.

use vstd::prelude::*;

verus! {

/// The character of the decimal digit `d`.
pub open spec fn digit_char(d: int) -> char {
    (d + 48) as char
}

/// The decimal digits of `n`, most significant first, without leading zeros.
pub open spec fn decimal_digits(n: nat) -> Seq<char>
    decreases n,
{
    if n < 10 {
        seq![digit_char(n as int)]
    } else {
        decimal_digits(n / 10).push(digit_char((n % 10) as int))
    }
}

/// The decimal text of `n`: its digits, after a minus sign when negative.
pub open spec fn decimal_text(n: int) -> Seq<char> {
    if n < 0 {
        seq!['-'] + decimal_digits((-n) as nat)
    } else {
        decimal_digits(n as nat)
    }
}

/// `ToString::to_string` on a `u32`: its `Display` form, the decimal digits
/// without leading zeros.
#[verifier::external_body]
pub(crate) fn u32_text(n: u32) -> (s: String)
    ensures
        s@ == decimal_text(n as int),
{
    n.to_string()
}

/// `ToString::to_string` on an `i32`: its `Display` form, the decimal digits
/// without leading zeros, after a minus sign when negative.
#[verifier::external_body]
pub(crate) fn i32_text(n: i32) -> (s: String)
    ensures
        s@ == decimal_text(n as int),
{
    n.to_string()
}

} // verus!
