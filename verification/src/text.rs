//! Decimal notation of numbers, as the tool shows them.
use vstd::prelude::*;
use vstd::string::*;

verus! {

/// The character of a decimal digit.
pub open spec fn digit_char(d: nat) -> char {
    if d == 0 { '0' }
    else if d == 1 { '1' }
    else if d == 2 { '2' }
    else if d == 3 { '3' }
    else if d == 4 { '4' }
    else if d == 5 { '5' }
    else if d == 6 { '6' }
    else if d == 7 { '7' }
    else if d == 8 { '8' }
    else { '9' }
}

/// Decimal notation of a number, without leading zeros.
pub open spec fn decimal(n: nat) -> Seq<char>
    decreases n,
{
    if n < 10 {
        seq![digit_char(n)]
    } else {
        decimal(n / 10).push(digit_char(n % 10))
    }
}

/// `ToString::to_string` on a `u32` (std): its decimal notation.
#[verifier::external_body]
pub(crate) fn u32_to_string(n: u32) -> (s: String)
    ensures
        s@ == decimal(n as nat),
{
    n.to_string()
}

/// Decimal notation padded with a leading zero to at least two digits.
pub open spec fn two_digits(n: nat) -> Seq<char> {
    if n < 10 {
        "0"@ + decimal(n)
    } else {
        decimal(n)
    }
}

/// Decimal notation of a number, padded to at least two digits.
pub fn u32_two_digits(n: u32) -> (s: String)
    ensures
        s@ == two_digits(n as nat),
{
    let digits = u32_to_string(n);
    if n < 10 {
        let mut s = String::from_str("0");
        s.append(digits.as_str());
        s
    } else {
        digits
    }
}

} // verus!
