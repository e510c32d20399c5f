//! Validation of incoming requests: the error a service answers and the
//! parsing of numeric request fields.
use crate::decimal::{decimal_from_str, Amount};
use crate::text::all_digits;
use vstd::prelude::*;

verus! {

/// Why a request is refused, by the status a service answers with.
#[derive(Debug, Clone, Copy, PartialEq, Eq)]
pub enum RequestError {
    InvalidArgument(&'static str),
    NotFound(&'static str),
    Internal(&'static str),
}

/// The number a run of decimal digits writes, most significant first.
pub open spec fn decimal_value(s: Seq<char>) -> int
    decreases s.len(),
{
    if s.len() == 0 {
        0
    } else {
        decimal_value(s.drop_last()) * 10 + (s.last() as int - '0' as int)
    }
}

/// The digits of an unsigned number's text: all but one leading `+`.
pub open spec fn unsigned_digits(text: Seq<char>) -> Seq<char> {
    if text.len() > 0 && text[0] == '+' {
        text.drop_first()
    } else {
        text
    }
}

/// What `u32::from_str` gives for a text: an optional `+`, then one or more
/// ASCII digits whose value is at most `u32::MAX`.
pub open spec fn u32_from_str(text: Seq<char>) -> Option<u32> {
    let d = unsigned_digits(text);
    if d.len() == 0 || !all_digits(d) || decimal_value(d) > u32::MAX {
        None
    } else {
        Some(decimal_value(d) as u32)
    }
}

/// A prefix of a run of digits writes a number no larger than the whole.
proof fn lemma_prefix_value(s: Seq<char>, k: int)
    requires
        0 <= k <= s.len(),
        all_digits(s),
    ensures
        0 <= decimal_value(s.take(k)) <= decimal_value(s),
    decreases s.len(),
{
    if k < s.len() {
        let init = s.drop_last();
        assert(all_digits(init)) by {
            assert forall|i: int| 0 <= i < init.len() implies '0' <= #[trigger] init[i] <= '9' by {
                assert(init[i] == s[i]);
            }
        }
        lemma_prefix_value(init, k);
        lemma_prefix_value(init, init.len() as int);
        assert(init.take(k) =~= s.take(k));
        assert(init.take(init.len() as int) =~= init);
        assert('0' <= s[s.len() - 1] <= '9');
    } else {
        assert(s.take(k) =~= s);
        if s.len() > 0 {
            let init = s.drop_last();
            assert(all_digits(init)) by {
                assert forall|i: int| 0 <= i < init.len() implies '0' <= #[trigger] init[i] <= '9' by {
                    assert(init[i] == s[i]);
                }
            }
            lemma_prefix_value(init, init.len() as int);
            assert(init.take(init.len() as int) =~= init);
            assert('0' <= s[s.len() - 1] <= '9');
        }
    }
}

/// Parses a whole number of months, days or the like, as `str::parse::<u32>`
/// does.
pub fn parse_u32(text: &str) -> (r: Option<u32>)
    ensures
        r == u32_from_str(text@),
{
    let n = text.unicode_len();
    let mut start: usize = 0;
    if n > 0 && text.get_char(0) == '+' {
        start = 1;
    }
    let ghost d = unsigned_digits(text@);
    proof {
        assert(d =~= text@.skip(start as int));
    }
    if start == n {
        return None;
    }
    let mut i: usize = start;
    let mut value: u64 = 0;
    proof {
        assert(d.take(0) =~= Seq::<char>::empty());
    }
    while i < n
        invariant
            start <= i <= n,
            n == text@.len(),
            d =~= text@.skip(start as int),
            d == unsigned_digits(text@),
            all_digits(d.take(i - start)),
            value == decimal_value(d.take(i - start)),
            value <= u32::MAX,
        decreases n - i,
    {
        let c = text.get_char(i);
        assert(d[i - start] == c);
        if !('0' <= c && c <= '9') {
            proof {
                assert(!('0' <= d[i - start] <= '9'));
                assert(!all_digits(d));
            }
            return None;
        }
        let digit = (c as u32 - '0' as u32) as u64;
        proof {
            assert(d.take(i + 1 - start).drop_last() =~= d.take(i - start));
            assert(d.take(i + 1 - start).last() == c);
            assert(all_digits(d.take(i + 1 - start))) by {
                assert forall|j: int| 0 <= j < i + 1 - start implies '0' <= #[trigger] d.take(i + 1 - start)[j] <= '9' by {
                    if j < i - start {
                        assert(d.take(i + 1 - start)[j] == d.take(i - start)[j]);
                    }
                }
            }
        }
        value = value * 10 + digit;
        if value > 4294967295 {
            proof {
                if all_digits(d) {
                    lemma_prefix_value(d, i + 1 - start);
                }
            }
            return None;
        }
        i = i + 1;
    }
    proof {
        assert(d.take(n - start) =~= d);
    }
    Some(value as u32)
}

/// A decimal request field, or the refusal with `message`.
pub open spec fn amount_field(text: Seq<char>, message: &'static str) -> Result<Amount, RequestError> {
    match decimal_from_str(text) {
        Some(a) => Ok(a),
        None => Err(RequestError::InvalidArgument(message)),
    }
}

/// Parses a decimal request field; a text that does not parse is refused
/// as an invalid argument with `message`.
pub fn parse_amount_field(text: &str, message: &'static str) -> (r: Result<Amount, RequestError>)
    ensures
        r == amount_field(text@, message),
        r matches Ok(a) ==> a.wf(),
{
    match Amount::parse(text) {
        Some(a) => Ok(a),
        None => Err(RequestError::InvalidArgument(message)),
    }
}

/// A positive decimal request field: refused with `message` when it does
/// not parse and with "amount must be positive" when it is not above zero.
pub open spec fn positive_amount_field(text: Seq<char>, message: &'static str) -> Result<Amount, RequestError> {
    match decimal_from_str(text) {
        Some(a) => if a.units() <= 0 {
            Err(RequestError::InvalidArgument("amount must be positive"))
        } else {
            Ok(a)
        },
        None => Err(RequestError::InvalidArgument(message)),
    }
}

/// Parses an amount that must be above zero.
pub fn parse_positive_amount(text: &str, message: &'static str) -> (r: Result<Amount, RequestError>)
    ensures
        r == positive_amount_field(text@, message),
        r matches Ok(a) ==> a.wf() && a.units() > 0,
{
    let a = parse_amount_field(text, message)?;
    if !Amount::zero().less_than(&a) {
        return Err(RequestError::InvalidArgument("amount must be positive"));
    }
    Ok(a)
}

} // verus!
