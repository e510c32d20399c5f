//! Decimal amounts.  An [`Amount`] holds, as plain values, what a
//! `rust_decimal::Decimal` holds: a 96-bit magnitude, a sign and a scale
//! (the number of digits after the decimal point).  Arithmetic, parsing and
//! printing are done by `rust_decimal` itself, through the wrappers below.
use rust_decimal::Decimal;
use std::str::FromStr;
use vstd::prelude::*;

verus! {

/// Largest magnitude a decimal holds: 2^96 - 1.
pub const MAX_MAGNITUDE: u128 = 79228162514264337593543950335;

/// Largest scale a decimal holds.
pub const MAX_SCALE: u32 = 28;

/// 10 to the power `n`.
pub open spec fn pow10(n: nat) -> nat
    decreases n,
{
    if n == 0 {
        1
    } else {
        10 * pow10((n - 1) as nat)
    }
}

/// A decimal number: `(-1)^negative * magnitude / 10^scale`.  A zero may
/// carry a sign, as a `rust_decimal::Decimal` zero may.
#[derive(Clone, Copy, Debug, PartialEq, Eq, Structural)]
pub struct Amount {
    pub magnitude: u128,
    pub negative: bool,
    pub scale: u32,
}

impl Amount {
    /// The magnitude and scale are within what a decimal can hold.
    pub open spec fn wf(self) -> bool {
        self.magnitude <= MAX_MAGNITUDE && self.scale <= MAX_SCALE
    }

    /// The signed mantissa.
    pub open spec fn signed(self) -> int {
        if self.negative {
            -(self.magnitude as int)
        } else {
            self.magnitude as int
        }
    }

    /// The value in units of 10^-28; for a well-formed amount this is an
    /// exact integer, so values compare and add as integers.
    pub open spec fn units(self) -> int {
        self.signed() * pow10((28 - self.scale) as nat)
    }

    pub open spec fn is_zero_spec(self) -> bool {
        self.magnitude == 0
    }

    /// The amount `mantissa / 10^scale` for a non-negative mantissa.
    pub open spec fn spec_of(magnitude: nat, scale: nat) -> Amount {
        Amount { magnitude: magnitude as u128, negative: false, scale: scale as u32 }
    }

    /// A non-negative amount from its mantissa and scale, or `None` where a
    /// decimal cannot hold it.
    pub fn from_parts(magnitude: u128, negative: bool, scale: u32) -> (r: Option<Amount>)
        ensures
            r == (if magnitude <= MAX_MAGNITUDE && scale <= MAX_SCALE {
                Some(Amount { magnitude, negative, scale })
            } else {
                None
            }),
    {
        if magnitude <= MAX_MAGNITUDE && scale <= MAX_SCALE {
            Some(Amount { magnitude, negative, scale })
        } else {
            None
        }
    }

    /// `magnitude / 10^scale`, non-negative.
    pub fn new(magnitude: u64, scale: u32) -> (r: Amount)
        requires
            scale <= MAX_SCALE,
        ensures
            r == Amount::spec_of(magnitude as nat, scale as nat),
            r.wf(),
    {
        Amount { magnitude: magnitude as u128, negative: false, scale }
    }

    /// Zero, as `Decimal::ZERO` is.
    pub fn zero() -> (r: Amount)
        ensures
            r == Amount::spec_of(0, 0),
            r.wf(),
            r.units() == 0,
    {
        let r = Amount { magnitude: 0, negative: false, scale: 0 };
        assert(r.units() == 0) by {
            assert(0 * pow10(28) == 0);
        }
        r
    }

    /// The integer `n` as an amount of scale zero.
    pub open spec fn of_int(n: int) -> Amount {
        Amount {
            magnitude: (if n < 0 {
                -n
            } else {
                n
            }) as u128,
            negative: n < 0,
            scale: 0,
        }
    }

    /// The integer `n`, as `Decimal::from(n)` gives it.
    pub fn from_i64(n: i64) -> (r: Amount)
        ensures
            r == Amount::of_int(n as int),
            r.wf(),
            r.scale == 0,
            r.signed() == n as int,
    {
        let magnitude: u128 = if n < 0 {
            (0i128 - (n as i128)) as u128
        } else {
            n as u128
        };
        Amount { magnitude, negative: n < 0, scale: 0 }
    }

    pub fn is_zero(&self) -> (r: bool)
        ensures
            r == (self.magnitude == 0),
    {
        self.magnitude == 0
    }
}

/// Powers of ten are positive.
pub proof fn lemma_pow10_positive(n: nat)
    ensures
        pow10(n) > 0,
    decreases n,
{
    if n > 0 {
        lemma_pow10_positive((n - 1) as nat);
    }
}

/// The powers of ten up to 10^28.
pub proof fn lemma_pow10_table()
    ensures
        pow10(0) == 1,
        pow10(1) == 10,
        pow10(2) == 100,
        pow10(3) == 1000,
        pow10(26) == 100000000000000000000000000,
        pow10(27) == 1000000000000000000000000000,
        pow10(28) == 10000000000000000000000000000,
{
    reveal_with_fuel(pow10, 29);
}

/// 10^(a + b) = 10^a * 10^b.
pub proof fn lemma_pow10_add(a: nat, b: nat)
    ensures
        pow10(a + b) == pow10(a) * pow10(b),
    decreases a,
{
    if a > 0 {
        let a1 = (a - 1) as nat;
        lemma_pow10_add(a1, b);
        assert(a + b == (a1 + b) + 1);
        assert(pow10(a + b) == 10 * pow10(a1 + b));
        assert(pow10(a) == 10 * pow10(a1));
        let x = pow10(a1);
        let y = pow10(b);
        assert(10 * (x * y) == (10 * x) * y) by (nonlinear_arith);
    } else {
        assert(pow10(a) == 1);
        assert(1 * pow10(b) == pow10(b));
    }
}

// ---------------------------------------------------------------------
// Results of rust_decimal's operations.

/// What `Decimal::from_str` gives for a text: the decimal taken apart, or
/// the text (`Display`) of the error it reports.
pub uninterp spec fn decimal_parse_result(text: Seq<char>) -> Result<Amount, Seq<char>>;

/// The decimal a text parses to, if any.
pub open spec fn decimal_from_str(text: Seq<char>) -> Option<Amount> {
    match decimal_parse_result(text) {
        Ok(a) => Some(a),
        Err(_) => None,
    }
}

/// The message for a text that does not parse; empty where it parses.
pub open spec fn decimal_from_str_error(text: Seq<char>) -> Seq<char> {
    match decimal_parse_result(text) {
        Ok(_) => Seq::empty(),
        Err(e) => e,
    }
}

/// What `Decimal::checked_add` gives.
pub uninterp spec fn decimal_checked_add(a: Amount, b: Amount) -> Option<Amount>;

/// What `Decimal::checked_sub` gives.
pub uninterp spec fn decimal_checked_sub(a: Amount, b: Amount) -> Option<Amount>;

/// What `Decimal::checked_mul` gives.
pub uninterp spec fn decimal_checked_mul(a: Amount, b: Amount) -> Option<Amount>;

/// What `Decimal::checked_div` gives.
pub uninterp spec fn decimal_checked_div(a: Amount, b: Amount) -> Option<Amount>;

/// The larger of two amounts' scales.
pub open spec fn max_scale(a: Amount, b: Amount) -> u32 {
    if a.scale >= b.scale {
        a.scale
    } else {
        b.scale
    }
}

/// The exact sum of two amounts fits in 96 bits at the larger of their
/// scales.
pub open spec fn add_fits(a: Amount, b: Amount) -> bool {
    let s = if a.scale >= b.scale { a.scale } else { b.scale };
    let sum = a.units() + b.units();
    -(MAX_MAGNITUDE as int) * pow10((28 - s) as nat) <= sum <= (MAX_MAGNITUDE as int) * pow10(
        (28 - s) as nat,
    )
}

/// The exact difference of two amounts fits in 96 bits at the larger of
/// their scales.
pub open spec fn sub_fits(a: Amount, b: Amount) -> bool {
    let s = if a.scale >= b.scale { a.scale } else { b.scale };
    let diff = a.units() - b.units();
    -(MAX_MAGNITUDE as int) * pow10((28 - s) as nat) <= diff <= (MAX_MAGNITUDE as int) * pow10(
        (28 - s) as nat,
    )
}

/// The exact product of two amounts fits in 96 bits at the sum of their
/// scales.
pub open spec fn mul_fits(a: Amount, b: Amount) -> bool {
    a.scale + b.scale <= 28 && a.magnitude * b.magnitude <= MAX_MAGNITUDE
}

/// `round_dp(dp)`: round half to even at `dp` decimal places; amounts with
/// no more than `dp` places are kept as they are.
pub open spec fn rounded(a: Amount, dp: nat) -> Amount {
    if a.scale <= dp {
        a
    } else {
        let p = pow10((a.scale - dp) as nat);
        let q = a.magnitude as nat / p;
        let rem = a.magnitude as nat % p;
        let up = 2 * rem > p || (2 * rem == p && q % 2 == 1);
        let m = if up {
            q + 1
        } else {
            q
        };
        Amount {
            magnitude: m as u128,
            negative: a.negative && (a.magnitude == 0 || m != 0),
            scale: dp as u32,
        }
    }
}

/// Round half to even at two places, on a value in units of 10^-28.
pub open spec fn rounded_hundredths_units(u: int) -> int {
    let d = pow10(26) as int;
    let q = u / d;
    let rem = u % d;
    if 2 * rem > d || (2 * rem == d && q % 2 == 1) {
        (q + 1) * d
    } else {
        q * d
    }
}

/// Rounding a non-negative amount to two places gives a value that depends
/// on its value alone, not on how many places it is written with.
pub proof fn lemma_rounded_hundredths(x: Amount)
    requires
        x.wf(),
        x.signed() >= 0,
    ensures
        rounded(x, 2).units() == rounded_hundredths_units(x.units()),
{
    lemma_pow10_table();
    let d = pow10(26) as int;
    let u = x.units();
    let m = x.magnitude as int;
    assert(x.signed() == m);
    if x.scale <= 2 {
        let e = (2 - x.scale) as nat;
        lemma_pow10_add(26, e);
        assert(26 + e == (28 - x.scale) as nat);
        lemma_pow10_positive(e);
        let pe = pow10(e) as int;
        assert(u == m * (d * pe));
        assert(u == (m * pe) * d + 0) by (nonlinear_arith)
            requires
                u == m * (d * pe),
        ;
        vstd::arithmetic::div_mod::lemma_fundamental_div_mod_converse(u, d, m * pe, 0);
        assert(rounded(x, 2) == x);
    } else {
        let k = (x.scale - 2) as nat;
        let e = (28 - x.scale) as nat;
        lemma_pow10_add(e, k);
        assert(e + k == 26);
        lemma_pow10_positive(e);
        lemma_pow10_positive(k);
        let pe = pow10(e) as int;
        let pk = pow10(k) as int;
        assert(d == pe * pk);
        let q = m / pk;
        let rem = m % pk;
        vstd::arithmetic::div_mod::lemma_fundamental_div_mod(m, pk);
        assert(m == pk * q + rem);
        assert(0 <= rem < pk);
        assert(u == m * pe);
        assert(u == q * d + rem * pe && 0 <= rem * pe < d) by (nonlinear_arith)
            requires
                u == m * pe,
                m == pk * q + rem,
                d == pe * pk,
                0 <= rem < pk,
                pe > 0,
        ;
        vstd::arithmetic::div_mod::lemma_fundamental_div_mod_converse(u, d, q, rem * pe);
        assert((2 * (rem * pe) > d) == (2 * rem > pk)) by (nonlinear_arith)
            requires
                d == pe * pk,
                pe > 0,
        ;
        assert((2 * (rem * pe) == d) == (2 * rem == pk)) by (nonlinear_arith)
            requires
                d == pe * pk,
                pe > 0,
        ;
        assert(q <= m) by (nonlinear_arith)
            requires
                m == pk * q + rem,
                pk > 0,
                0 <= rem,
                m >= 0,
        ;
        assert(pk >= 10) by {
            reveal_with_fuel(pow10, 2);
            lemma_pow10_positive((k - 1) as nat);
        }
        assert(q + 1 <= MAX_MAGNITUDE) by (nonlinear_arith)
            requires
                m == pk * q + rem,
                pk >= 10,
                0 <= rem,
                m <= MAX_MAGNITUDE,
        ;
        let up = 2 * rem > pk || (2 * rem == pk && q % 2 == 1);
        let mm = if up {
            q + 1
        } else {
            q
        };
        assert(rounded(x, 2).magnitude == mm);
        assert(rounded(x, 2).scale == 2);
        if x.negative {
            assert(m == 0);
            assert(q == 0) by (nonlinear_arith)
                requires
                    m == pk * q + rem,
                    pk > 0,
                    0 <= rem,
                    q >= 0,
                    m == 0,
            ;
        }
        assert(rounded(x, 2).signed() == mm);
        assert(rounded(x, 2).units() == mm * d);
    }
}

/// An amount of non-negative value has a non-negative mantissa.
pub proof fn lemma_signed_of_units(x: Amount)
    requires
        x.wf(),
        x.units() >= 0,
    ensures
        x.signed() >= 0,
{
    lemma_pow10_positive((28 - x.scale) as nat);
    let pe = pow10((28 - x.scale) as nat) as int;
    let sg = x.signed();
    assert(sg >= 0) by (nonlinear_arith)
        requires
            sg * pe >= 0,
            pe > 0,
    ;
}

/// Rounding to two places never reverses the order of non-negative values.
pub proof fn lemma_rounded_hundredths_monotone(u1: int, u2: int)
    requires
        0 <= u1 <= u2,
    ensures
        0 <= rounded_hundredths_units(u1) <= rounded_hundredths_units(u2),
{
    lemma_pow10_table();
    let d = pow10(26) as int;
    let q1 = u1 / d;
    let q2 = u2 / d;
    let r1 = u1 % d;
    let r2 = u2 % d;
    assert(u1 == q1 * d + r1 && 0 <= r1 < d);
    assert(u2 == q2 * d + r2 && 0 <= r2 < d);
    assert(0 <= q1 <= q2);
    if q1 < q2 {
        assert((q1 + 1) * d <= q2 * d) by (nonlinear_arith)
            requires
                q1 + 1 <= q2,
                d > 0,
        ;
    } else {
        assert(r1 <= r2);
    }
}

/// How a decimal prints: sign, whole part (at least `0`), then the point
/// and exactly `scale` fractional digits when the scale is not zero.
pub open spec fn amount_text(a: Amount) -> Seq<char> {
    let d = crate::text::digits_of(a.magnitude as nat);
    let s = a.scale as nat;
    let p = if d.len() < s {
        Seq::new((s - d.len()) as nat, |i: int| '0') + d
    } else {
        d
    };
    let whole = p.take(p.len() - s);
    let frac = p.skip(p.len() - s);
    let body = if s == 0 {
        if d.len() == 0 {
            seq!['0']
        } else {
            d
        }
    } else {
        (if whole.len() == 0 {
            seq!['0']
        } else {
            whole
        }) + seq!['.'] + frac
    };
    if a.negative {
        seq!['-'] + body
    } else {
        body
    }
}

// ---------------------------------------------------------------------
// Wrappers around rust_decimal.

/// `Decimal::from_str`: the named result, the decimal taken apart or the
/// error's text; what it accepts is left to `rust_decimal`.
#[verifier::external_body]
fn decimal_parse(text: &str) -> (r: Result<Amount, String>)
    ensures
        r is Ok ==> decimal_parse_result(text@) == Ok::<Amount, Seq<char>>(r->Ok_0) && r->Ok_0.wf(),
        r is Err ==> decimal_parse_result(text@) == Err::<Amount, Seq<char>>(r->Err_0@),
{
    match Decimal::from_str(text) {
        Ok(d) => Ok(Amount { magnitude: d.mantissa().unsigned_abs(), negative: d.is_sign_negative(), scale: d.scale() }),
        Err(e) => Err(e.to_string()),
    }
}

/// `Display` of a decimal rebuilt from its parts; it prints as
/// [`amount_text`] says, and `Decimal::from_str` reads that text back as the
/// same value (at most 28 places and a mantissa below 2^96 parse exactly).
#[verifier::external_body]
fn decimal_display(a: &Amount) -> (r: String)
    requires
        a.wf(),
    ensures
        r@ == amount_text(*a),
        decimal_parse_result(r@) is Ok,
        decimal_parse_result(r@)->Ok_0.units() == a.units(),
        decimal_parse_result(r@)->Ok_0.scale == a.scale,
{
    let mut d = Decimal::from_i128_with_scale(a.magnitude as i128, a.scale);
    d.set_sign_negative(a.negative);
    d.to_string()
}

/// `Decimal < Decimal`: decimals are ordered by value.
#[verifier::external_body]
fn decimal_less(a: &Amount, b: &Amount) -> (r: bool)
    requires
        a.wf(),
        b.wf(),
    ensures
        r == (a.units() < b.units()),
{
    let mut x = Decimal::from_i128_with_scale(a.magnitude as i128, a.scale);
    x.set_sign_negative(a.negative);
    let mut y = Decimal::from_i128_with_scale(b.magnitude as i128, b.scale);
    y.set_sign_negative(b.negative);
    x < y
}

/// `Decimal::checked_add`: exact where the sum fits, `None` on overflow.
#[verifier::external_body]
fn decimal_add(a: &Amount, b: &Amount) -> (r: Option<Amount>)
    requires
        a.wf(),
        b.wf(),
    ensures
        r == decimal_checked_add(*a, *b),
        r matches Some(x) ==> x.wf(),
        add_fits(*a, *b) ==> r is Some && r.unwrap().units() == a.units() + b.units(),
        add_fits(*a, *b) ==> r.unwrap().scale <= max_scale(*a, *b),
{
    let mut x = Decimal::from_i128_with_scale(a.magnitude as i128, a.scale);
    x.set_sign_negative(a.negative);
    let mut y = Decimal::from_i128_with_scale(b.magnitude as i128, b.scale);
    y.set_sign_negative(b.negative);
    match x.checked_add(y) {
        Some(d) => Some(Amount { magnitude: d.mantissa().unsigned_abs(), negative: d.is_sign_negative(), scale: d.scale() }),
        None => None,
    }
}

/// `Decimal::checked_sub`: exact where the difference fits, `None` on
/// overflow.
#[verifier::external_body]
fn decimal_sub(a: &Amount, b: &Amount) -> (r: Option<Amount>)
    requires
        a.wf(),
        b.wf(),
    ensures
        r == decimal_checked_sub(*a, *b),
        r matches Some(x) ==> x.wf(),
        sub_fits(*a, *b) ==> r is Some && r.unwrap().units() == a.units() - b.units(),
        sub_fits(*a, *b) ==> r.unwrap().scale <= max_scale(*a, *b),
{
    let mut x = Decimal::from_i128_with_scale(a.magnitude as i128, a.scale);
    x.set_sign_negative(a.negative);
    let mut y = Decimal::from_i128_with_scale(b.magnitude as i128, b.scale);
    y.set_sign_negative(b.negative);
    match x.checked_sub(y) {
        Some(d) => Some(Amount { magnitude: d.mantissa().unsigned_abs(), negative: d.is_sign_negative(), scale: d.scale() }),
        None => None,
    }
}

/// `Decimal::checked_mul`: zero when a factor is zero, exact where the
/// product fits at the summed scale.
#[verifier::external_body]
fn decimal_mul(a: &Amount, b: &Amount) -> (r: Option<Amount>)
    requires
        a.wf(),
        b.wf(),
    ensures
        r == decimal_checked_mul(*a, *b),
        r matches Some(x) ==> x.wf(),
        (a.magnitude == 0 || b.magnitude == 0) ==> r == Some(Amount::spec_of(0, 0)),
        mul_fits(*a, *b) ==> r is Some && r.unwrap().units() * pow10(28) == a.units()
            * b.units(),
{
    let mut x = Decimal::from_i128_with_scale(a.magnitude as i128, a.scale);
    x.set_sign_negative(a.negative);
    let mut y = Decimal::from_i128_with_scale(b.magnitude as i128, b.scale);
    y.set_sign_negative(b.negative);
    match x.checked_mul(y) {
        Some(d) => Some(Amount { magnitude: d.mantissa().unsigned_abs(), negative: d.is_sign_negative(), scale: d.scale() }),
        None => None,
    }
}

/// `Decimal::checked_div`: the named quotient; `None` for a zero divisor
/// or on overflow.
#[verifier::external_body]
fn decimal_div(a: &Amount, b: &Amount) -> (r: Option<Amount>)
    requires
        a.wf(),
        b.wf(),
    ensures
        r == decimal_checked_div(*a, *b),
        r matches Some(x) ==> x.wf(),
        b.magnitude == 0 ==> r is None,
{
    let mut x = Decimal::from_i128_with_scale(a.magnitude as i128, a.scale);
    x.set_sign_negative(a.negative);
    let mut y = Decimal::from_i128_with_scale(b.magnitude as i128, b.scale);
    y.set_sign_negative(b.negative);
    match x.checked_div(y) {
        Some(d) => Some(Amount { magnitude: d.mantissa().unsigned_abs(), negative: d.is_sign_negative(), scale: d.scale() }),
        None => None,
    }
}

/// `Decimal::round_dp`: round half to even at `dp` places.
#[verifier::external_body]
fn decimal_round_dp(a: &Amount, dp: u32) -> (r: Amount)
    requires
        a.wf(),
    ensures
        r == rounded(*a, dp as nat),
{
    let mut x = Decimal::from_i128_with_scale(a.magnitude as i128, a.scale);
    x.set_sign_negative(a.negative);
    let d = x.round_dp(dp);
    Amount { magnitude: d.mantissa().unsigned_abs(), negative: d.is_sign_negative(), scale: d.scale() }
}

// ---------------------------------------------------------------------
// Verified operations on amounts.

impl Amount {
    /// Parses a decimal text as `Decimal::from_str` does.
    pub fn parse(text: &str) -> (r: Option<Amount>)
        ensures
            r == decimal_from_str(text@),
            r matches Some(a) ==> a.wf(),
    {
        match decimal_parse(text) {
            Ok(a) => Some(a),
            Err(_) => None,
        }
    }

    /// The message `Decimal::from_str` gives for a text it refuses.
    pub fn parse_error_text(text: &str) -> (r: String)
        ensures
            r@ == decimal_from_str_error(text@),
    {
        match decimal_parse(text) {
            Ok(_) => String::new(),
            Err(e) => e,
        }
    }

    /// The printed form, as `Decimal`'s `to_string` writes it.
    pub fn to_text(&self) -> (r: String)
        requires
            self.wf(),
        ensures
            r@ == amount_text(*self),
            decimal_from_str(r@) is Some,
            decimal_from_str(r@)->0.units() == self.units(),
            decimal_from_str(r@)->0.scale == self.scale,
    {
        decimal_display(self)
    }

    /// `self < other` by value.
    pub fn less_than(&self, other: &Amount) -> (r: bool)
        requires
            self.wf(),
            other.wf(),
        ensures
            r == (self.units() < other.units()),
    {
        decimal_less(self, other)
    }

    /// `self + other`, or `None` where the decimal sum overflows.
    pub fn checked_add(&self, other: &Amount) -> (r: Option<Amount>)
        requires
            self.wf(),
            other.wf(),
        ensures
            r == decimal_checked_add(*self, *other),
            r matches Some(x) ==> x.wf(),
            add_fits(*self, *other) ==> r is Some && r.unwrap().units() == self.units()
                + other.units(),
            add_fits(*self, *other) ==> r.unwrap().scale <= max_scale(*self, *other),
    {
        decimal_add(self, other)
    }

    /// `self - other`, or `None` where the decimal difference overflows.
    pub fn checked_sub(&self, other: &Amount) -> (r: Option<Amount>)
        requires
            self.wf(),
            other.wf(),
        ensures
            r == decimal_checked_sub(*self, *other),
            r matches Some(x) ==> x.wf(),
            sub_fits(*self, *other) ==> r is Some && r.unwrap().units() == self.units()
                - other.units(),
            sub_fits(*self, *other) ==> r.unwrap().scale <= max_scale(*self, *other),
    {
        decimal_sub(self, other)
    }

    /// `self * other`, or `None` where the decimal product overflows.
    pub fn checked_mul(&self, other: &Amount) -> (r: Option<Amount>)
        requires
            self.wf(),
            other.wf(),
        ensures
            r == decimal_checked_mul(*self, *other),
            r matches Some(x) ==> x.wf(),
            (self.magnitude == 0 || other.magnitude == 0) ==> r == Some(Amount::spec_of(0, 0)),
            mul_fits(*self, *other) ==> r is Some && r.unwrap().units() * pow10(28)
                == self.units() * other.units(),
    {
        decimal_mul(self, other)
    }

    /// `self / other`, or `None` for a zero divisor or on overflow.
    pub fn checked_div(&self, other: &Amount) -> (r: Option<Amount>)
        requires
            self.wf(),
            other.wf(),
        ensures
            r == decimal_checked_div(*self, *other),
            r matches Some(x) ==> x.wf(),
            other.magnitude == 0 ==> r is None,
    {
        decimal_div(self, other)
    }

    /// Rounds half to even at `dp` decimal places.
    pub fn round_dp(&self, dp: u32) -> (r: Amount)
        requires
            self.wf(),
        ensures
            r == rounded(*self, dp as nat),
    {
        decimal_round_dp(self, dp)
    }
}

} // verus!
