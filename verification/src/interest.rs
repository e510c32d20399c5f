//! Daily interest accrual, shared by deposits and loans.
use crate::decimal::{
    add_fits, decimal_checked_add, decimal_checked_div, decimal_checked_mul, lemma_pow10_positive, pow10, rounded,
    Amount, MAX_MAGNITUDE,
};
use vstd::prelude::*;

verus! {

/// One day's interest on `principal` at `annual_rate` percent a year, on a
/// 365-day year, rounded to two places, and the interest total after adding
/// it to `current`; `None` where a decimal operation overflows.
pub open spec fn daily_accrual_spec(principal: Amount, current: Amount, annual_rate: Amount) -> Option<(Amount, Amount)> {
    match decimal_checked_div(annual_rate, Amount::spec_of(100, 0)) {
        None => None,
        Some(per_unit) => match decimal_checked_div(per_unit, Amount::spec_of(365, 0)) {
            None => None,
            Some(daily_rate) => match decimal_checked_mul(principal, daily_rate) {
                None => None,
                Some(raw) => {
                    let accrued = rounded(raw, 2);
                    match decimal_checked_add(current, accrued) {
                        None => None,
                        Some(total) => Some((accrued, total)),
                    }
                },
            },
        },
    }
}

/// Adding zero to a well-formed amount fits.
pub proof fn lemma_add_zero_fits(a: Amount)
    requires
        a.wf(),
    ensures
        add_fits(a, Amount::spec_of(0, 0)),
        Amount::spec_of(0, 0).units() == 0,
{
    let z = Amount::spec_of(0, 0);
    assert(z.signed() == 0);
    assert(z.units() == 0) by {
        assert(0 * pow10(28) == 0);
    }
    let p = pow10((28 - a.scale) as nat) as int;
    lemma_pow10_positive((28 - a.scale) as nat);
    let s = a.signed();
    let m = MAX_MAGNITUDE as int;
    assert(-m <= s <= m);
    assert(-m * p <= s * p <= m * p) by (nonlinear_arith)
        requires
            -m <= s <= m,
            p > 0,
    ;
}

/// One day's interest before rounding: `principal * (rate / 100 / 365)`,
/// as the decimal operations give it.
pub open spec fn one_day_interest(principal: Amount, annual_rate: Amount) -> Amount {
    decimal_checked_mul(
        principal,
        decimal_checked_div(decimal_checked_div(annual_rate, Amount::spec_of(100, 0))->0, Amount::spec_of(365, 0))->0,
    )->0
}

/// One day's interest: `principal * (annual_rate / 100 / 365)` rounded to
/// two places, added to the interest accrued so far.  Returns the accrued
/// amount and the new total, or `None` where a decimal operation overflows.
pub fn daily_accrual(principal: Amount, current: Amount, annual_rate: Amount) -> (r: Option<(Amount, Amount)>)
    requires
        principal.wf(),
        current.wf(),
        annual_rate.wf(),
    ensures
        r == daily_accrual_spec(principal, current, annual_rate),
        r matches Some(x) ==> x.0 == rounded(one_day_interest(principal, annual_rate), 2),
        r matches Some(x) ==> x.0.wf() && x.1.wf() && x.0.scale <= 2,
        r matches Some(x) ==> (add_fits(current, x.0) ==> x.1.units() == current.units() + x.0.units()),
        r matches Some(x) ==> (principal.magnitude == 0 ==> x.0 == Amount::spec_of(0, 0) && x.1.units()
            == current.units()),
{
    let hundred = Amount::new(100, 0);
    let days = Amount::new(365, 0);
    let per_unit = annual_rate.checked_div(&hundred)?;
    let daily_rate = per_unit.checked_div(&days)?;
    let raw = principal.checked_mul(&daily_rate)?;
    let accrued = raw.round_dp(2);
    assert(accrued.wf()) by {
        if raw.scale > 2 {
            let p = pow10((raw.scale - 2) as nat);
            lemma_pow10_positive((raw.scale - 2) as nat);
            assert(raw.magnitude as nat / p <= raw.magnitude) by (nonlinear_arith)
                requires
                    p > 0,
            ;
            if p == 1 {
                assert(raw.scale - 2 == 0);
            } else {
                assert(raw.magnitude as nat / p < raw.magnitude || raw.magnitude == 0) by (nonlinear_arith)
                    requires
                        p > 1,
                ;
            }
        }
    }
    proof {
        if principal.magnitude == 0 {
            lemma_add_zero_fits(current);
        }
    }
    let total = current.checked_add(&accrued)?;
    Some((accrued, total))
}

} // verus!
