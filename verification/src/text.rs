//! Numbers as text, and the characters that are safe in a URL.

use vstd::prelude::*;

verus! {

/// The decimal digit for a number below ten.
pub open spec fn digit(n: int) -> char {
    seq!['0', '1', '2', '3', '4', '5', '6', '7', '8', '9'][n]
}

/// The decimal text of a number, without sign or leading zeros.
pub open spec fn decimal(n: nat) -> Seq<char>
    decreases n,
{
    if n < 10 {
        seq![digit(n as int)]
    } else {
        decimal(n / 10).push(digit((n % 10) as int))
    }
}

/// `u64::to_string`: the number in decimal, as `Display` for `u64` prints it.
#[verifier::external_body]
pub(crate) fn decimal_text(n: u64) -> (text: String)
    ensures
        text@ == decimal(n as nat),
{
    n.to_string()
}

/// Whether a character may stand in a URL path segment as it is: here, a
/// lower-case hexadecimal digit, a decimal digit or a hyphen.
pub open spec fn url_safe(c: char) -> bool {
    ('0' <= c && c <= '9') || ('a' <= c && c <= 'f') || c == '-'
}

/// Every character of `text` is URL-safe.
pub open spec fn all_url_safe(text: Seq<char>) -> bool {
    forall|i: int| 0 <= i < text.len() ==> url_safe(#[trigger] text[i])
}

/// The decimal text of a number is made of digits only.
pub proof fn lemma_decimal_url_safe(n: nat)
    ensures
        decimal(n).len() > 0,
        all_url_safe(decimal(n)),
    decreases n,
{
    if n >= 10 {
        lemma_decimal_url_safe(n / 10);
    }
}

} // verus!
