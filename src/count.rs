//! Attempt counts as decimal text.

use vstd::prelude::*;

verus! {

/// Whether `c` is an ASCII decimal digit.
pub open spec fn is_digit(c: char) -> bool {
    '0' <= c && c <= '9'
}

/// The value of a string of decimal digits, most significant first.
pub open spec fn digits_value(s: Seq<char>) -> nat
    decreases s.len(),
{
    if s.len() == 0 {
        0
    } else {
        digits_value(s.drop_last()) * 10 + (s.last() as nat - '0' as nat) as nat
    }
}

/// The count that a text denotes: an optional `+` followed by at least one
/// decimal digit, whose value fits in a `u32`.
pub open spec fn count_of_text(s: Seq<char>) -> Option<u32> {
    let d = if s.len() > 0 && s[0] == '+' { s.drop_first() } else { s };
    if d.len() > 0 && (forall|i: int| 0 <= i < d.len() ==> is_digit(#[trigger] d[i]))
        && digits_value(d) <= u32::MAX as nat {
        Some(digits_value(d) as u32)
    } else {
        None
    }
}

/// The digit character for `d < 10`.
pub open spec fn digit_char(d: nat) -> char {
    ('0' as nat + d) as char
}

/// The decimal text of `n`, without leading zeros.
pub open spec fn decimal_text(n: nat) -> Seq<char>
    decreases n,
{
    if n < 10 {
        seq![digit_char(n)]
    } else {
        decimal_text(n / 10).push(digit_char(n % 10))
    }
}

/// Relies on `u32`'s `Display`: its decimal digits without leading zeros.
#[verifier::external_body]
pub(crate) fn count_to_text(n: u32) -> (r: String)
    ensures
        r@ == decimal_text(n as nat),
{
    n.to_string()
}

} // verus!
