use vstd::prelude::*;

verus! {

/// The decimal digit `d` as a character.
pub open spec fn digit(d: nat) -> char {
    seq!['0', '1', '2', '3', '4', '5', '6', '7', '8', '9'][d as int]
}

/// The decimal representation of `n`, without leading zeros.
pub open spec fn decimal(n: nat) -> Seq<char>
    decreases n,
{
    if n < 10 {
        seq![digit(n)]
    } else {
        decimal(n / 10).push(digit(n % 10))
    }
}

/// Relies on std's `ToString` for `u64` (its `Display`): the decimal digits of `n`.
#[verifier::external_body]
fn decimal_string(n: u64) -> (r: String)
    ensures
        r@ == decimal(n as nat),
{
    n.to_string()
}

/// `prefix` followed by the decimal digits of `n`.
pub fn numbered(prefix: &str, n: u64) -> (r: String)
    ensures
        r@ == prefix@ + decimal(n as nat),
{
    let digits = decimal_string(n);
    String::from_str(prefix).concat(digits.as_str())
}

/// `prefix`, the decimal digits of `n`, then `suffix`.
pub fn numbered_between(prefix: &str, n: u64, suffix: &str) -> (r: String)
    ensures
        r@ == prefix@ + decimal(n as nat) + suffix@,
{
    numbered(prefix, n).concat(suffix)
}

} // verus!
