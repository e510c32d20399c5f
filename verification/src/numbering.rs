//! Random account numbers: a prefix, a currency code and nine random
//! digits.
use crate::text::{all_digits, lemma_padded_digits_shape, padded_decimal, padded_digits};
use vstd::prelude::*;

verus! {

/// `rand::random::<u64>()`: any value may come back.
#[verifier::external_body]
pub(crate) fn random_u64() -> (r: u64) {
    rand::random::<u64>()
}

/// The number `prefix`, `currency` then `random`'s lowest nine digits,
/// zero padded.
pub open spec fn numbered(prefix: Seq<char>, currency: Seq<char>, random: nat) -> Seq<char> {
    prefix + currency + padded_digits(random % 1_000_000_000, 9)
}

/// Joins a prefix, a currency code and nine digits of `random`.
pub fn number_from_parts(prefix: &str, currency: &str, random: u64) -> (r: String)
    ensures
        r@ == numbered(prefix@, currency@, random as nat),
{
    let digits = padded_decimal(random % 1_000_000_000, 9);
    let mut r = String::from_str(prefix);
    r.append(currency);
    r.append(digits.as_str());
    r
}

/// A number made of digit-only parts is made of digits, and nine longer
/// than its prefix and currency code.
pub proof fn lemma_numbered_shape(prefix: Seq<char>, currency: Seq<char>, random: nat)
    requires
        all_digits(prefix),
        all_digits(currency),
    ensures
        all_digits(numbered(prefix, currency, random)),
        numbered(prefix, currency, random).len() == prefix.len() + currency.len() + 9,
{
    lemma_padded_digits_shape(random % 1_000_000_000, 9);
    let d = padded_digits(random % 1_000_000_000, 9);
    let s = prefix + currency + d;
    assert forall|i: int| 0 <= i < s.len() implies '0' <= #[trigger] s[i] <= '9' by {
        if i < prefix.len() {
            assert(s[i] == prefix[i]);
        } else if i < prefix.len() + currency.len() {
            assert(s[i] == currency[i - prefix.len()]);
        } else {
            assert(s[i] == d[i - prefix.len() - currency.len()]);
        }
    }
}

} // verus!
