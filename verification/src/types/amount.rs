//! Decimal amounts of money.
//!
//! An [`Amount`] holds what a `rust_decimal::Decimal` holds: a signed
//! mantissa of at most 96 bits and a scale, the number of digits after the
//! decimal point. Sums and differences are computed by `rust_decimal`, which
//! also picks the scale of the result; this module accepts such a result only
//! after checking that it is exact.

use rust_decimal::Decimal;
use vstd::arithmetic::div_mod::lemma_fundamental_div_mod;
use vstd::prelude::*;
use vstd::std_specs::cmp::PartialEqSpecImpl;

verus! {

/// The largest magnitude of a mantissa, `2^96 - 1`.
pub const MAX_MANTISSA: i128 = 79_228_162_514_264_337_593_543_950_335;

/// The largest scale.
pub const MAX_SCALE: u32 = 28;

/// `10^e`.
pub open spec fn pow10(e: nat) -> int
    decreases e,
{
    if e == 0 {
        1
    } else {
        10 * pow10((e - 1) as nat)
    }
}

/// `10^(a + b) == 10^a * 10^b`.
pub proof fn lemma_pow10_adds(a: nat, b: nat)
    ensures
        pow10(a + b) == pow10(a) * pow10(b),
    decreases a,
{
    if a > 0 {
        lemma_pow10_adds((a - 1) as nat, b);
        assert(10 * (pow10((a - 1) as nat) * pow10(b)) == (10 * pow10((a - 1) as nat)) * pow10(b))
            by (nonlinear_arith);
    }
}

/// Powers of ten are positive and grow with the exponent.
pub proof fn lemma_pow10_increases(a: nat, b: nat)
    requires
        a <= b,
    ensures
        0 < pow10(a) <= pow10(b),
    decreases b,
{
    if b == 0 {
    } else if a < b {
        lemma_pow10_increases(a, (b - 1) as nat);
    } else {
        lemma_pow10_increases((a - 1) as nat, (b - 1) as nat);
    }
}

/// The value of `10^28`, the number of smallest units in one whole.
pub proof fn lemma_pow10_max()
    ensures
        pow10(28) == 10_000_000_000_000_000_000_000_000_000int,
{
    reveal_with_fuel(pow10, 29);
}

/// `10^n` for a scale `n`.
fn ten_to(n: u32) -> (r: u128)
    requires
        n <= MAX_SCALE,
    ensures
        r == pow10(n as nat),
{
    let mut r: u128 = 1;
    let mut i: u32 = 0;
    while i < n
        invariant
            i <= n <= MAX_SCALE,
            r == pow10(i as nat),
        decreases n - i,
    {
        proof {
            lemma_pow10_increases((i + 1) as nat, 28);
            lemma_pow10_max();
        }
        r = r * 10;
        i = i + 1;
    }
    r
}

/// A decimal number `mantissa / 10^scale`.
#[derive(Clone, Copy, Debug)]
pub struct Amount {
    mantissa: i128,
    scale: u32,
}

impl Amount {
    #[verifier::type_invariant]
    spec fn representable(self) -> bool {
        &&& -MAX_MANTISSA <= self.mantissa <= MAX_MANTISSA
        &&& self.scale <= MAX_SCALE
    }

    /// The mantissa.
    pub closed spec fn spec_mantissa(&self) -> i128 {
        self.mantissa
    }

    /// The number of digits after the decimal point.
    pub closed spec fn spec_scale(&self) -> u32 {
        self.scale
    }

    /// The number as a count of its smallest units, `10^-28`: two amounts
    /// stand for the same number exactly when their values are equal.
    pub open spec fn value(self) -> int {
        self.mantissa() * pow10((MAX_SCALE - self.scale()) as nat)
    }

    /// Whether the number is zero or more.
    pub open spec fn is_non_negative(self) -> bool {
        self.mantissa() >= 0
    }

    /// The amount `num / 10^scale`.
    pub fn new(num: i64, scale: u32) -> (r: Amount)
        requires
            scale <= MAX_SCALE,
        ensures
            r.mantissa() == num,
            r.scale() == scale,
    {
        Amount { mantissa: num as i128, scale }
    }

    /// The amount `num / 10^scale`, where a mantissa of 96 bits can hold `num`
    /// and `scale` is at most 28.
    pub fn try_from_i128_with_scale(num: i128, scale: u32) -> (r: Option<Amount>)
        ensures
            r is Some <==> -MAX_MANTISSA <= num <= MAX_MANTISSA && scale <= MAX_SCALE,
            r matches Some(a) ==> a.mantissa() == num && a.scale() == scale,
    {
        if -MAX_MANTISSA <= num && num <= MAX_MANTISSA && scale <= MAX_SCALE {
            Some(Amount { mantissa: num, scale })
        } else {
            None
        }
    }

    /// Zero, with no digits after the point.
    pub closed spec fn spec_zero() -> Amount {
        Amount { mantissa: 0, scale: 0 }
    }

    /// Zero, with no digits after the point.
    #[verifier::when_used_as_spec(spec_zero)]
    pub fn zero() -> (r: Amount)
        ensures
            r == Amount::spec_zero(),
            r.mantissa() == 0,
            r.scale() == 0,
    {
        Amount { mantissa: 0, scale: 0 }
    }

    /// Zero has the mantissa, the scale and the value 0.
    pub proof fn lemma_zero()
        ensures
            Amount::zero().mantissa() == 0,
            Amount::zero().scale() == 0,
            Amount::zero().value() == 0,
    {
    }

    /// A number is zero or more exactly when its value is.
    pub proof fn lemma_sign(self)
        ensures
            self.is_non_negative() <==> self.value() >= 0,
    {
        let weight = pow10((MAX_SCALE - self.scale()) as nat);
        lemma_pow10_increases(0, (MAX_SCALE - self.scale()) as nat);
        assert(self.mantissa() >= 0 ==> self.mantissa() * weight >= 0) by (nonlinear_arith)
            requires
                weight > 0,
        ;
        assert(self.mantissa() < 0 ==> self.mantissa() * weight < 0) by (nonlinear_arith)
            requires
                weight > 0,
        ;
    }

    /// The mantissa.
    #[verifier::when_used_as_spec(spec_mantissa)]
    pub fn mantissa(&self) -> (r: i128)
        ensures
            r == self.spec_mantissa(),
    {
        self.mantissa
    }

    /// The number of digits after the decimal point.
    #[verifier::when_used_as_spec(spec_scale)]
    pub fn scale(&self) -> (r: u32)
        ensures
            r == self.spec_scale(),
    {
        self.scale
    }

    /// The whole part of the number and its fractional part, the latter in
    /// units of `10^-28`. Both carry the sign of the number.
    fn parts(self) -> (p: (i128, i128))
        ensures
            self.value() == p.0 * pow10(28) + p.1,
            -MAX_MANTISSA <= p.0 <= MAX_MANTISSA,
            -pow10(28) < p.1 < pow10(28),
            (p.0 >= 0 && p.1 >= 0) || (p.0 <= 0 && p.1 <= 0),
    {
        proof {
            use_type_invariant(&self);
        }
        let unit: u128 = ten_to(self.scale);
        let weight: u128 = ten_to(MAX_SCALE - self.scale);
        let negative: bool = self.mantissa < 0;
        let magnitude: u128 = if negative {
            (-self.mantissa) as u128
        } else {
            self.mantissa as u128
        };
        proof {
            lemma_pow10_increases(0, self.scale as nat);
            lemma_pow10_increases(0, (28 - self.scale) as nat);
        }
        let whole: u128 = magnitude / unit;
        let rest: u128 = magnitude % unit;
        proof {
            let s = self.scale as nat;
            lemma_pow10_adds(s, (28 - s) as nat);
            lemma_pow10_max();
            lemma_fundamental_div_mod(magnitude as int, unit as int);
            assert(rest * weight <= (unit - 1) * weight) by (nonlinear_arith)
                requires
                    rest <= unit - 1,
                    weight >= 0,
            ;
            assert((unit - 1) * weight == unit * weight - weight) by (nonlinear_arith);
            assert(magnitude * weight == whole * (unit * weight) + rest * weight)
                by (nonlinear_arith)
                requires
                    magnitude == unit * whole + rest,
            ;
            assert(whole <= magnitude) by (nonlinear_arith)
                requires
                    magnitude == unit * whole + rest,
                    unit >= 1,
                    whole >= 0,
                    rest >= 0,
            ;
            assert((-(magnitude as int)) * weight == -(magnitude * weight)) by (nonlinear_arith);
        }
        let fraction: u128 = rest * weight;
        if negative {
            (-(whole as i128), -(fraction as i128))
        } else {
            (whole as i128, fraction as i128)
        }
    }

    /// Whether `self` is exactly the sum of `a` and `b`.
    pub fn is_sum_of(self, a: Amount, b: Amount) -> (r: bool)
        ensures
            r == (self.value() == a.value() + b.value()),
    {
        let (sw, sf) = self.parts();
        let (aw, af) = a.parts();
        let (bw, bf) = b.parts();
        proof {
            lemma_pow10_max();
        }
        // sw * 10^28 + sf == (aw + bw) * 10^28 + af + bf, where the
        // fractional parts can make up for less than three wholes.
        let wholes: i128 = aw + bw - sw;
        let fractions: i128 = sf - af - bf;
        -2 <= wholes && wholes <= 2 && wholes * 10_000_000_000_000_000_000_000_000_000 == fractions
    }

    /// Whether `self` is exactly `a` less `b`.
    pub fn is_difference_of(self, a: Amount, b: Amount) -> (r: bool)
        ensures
            r == (self.value() == a.value() - b.value()),
    {
        a.is_sum_of(self, b)
    }

    /// Whether the number is less than `other`.
    pub fn lt(self, other: Amount) -> (r: bool)
        ensures
            r == (self.value() < other.value()),
    {
        let (sw, sf) = self.parts();
        let (ow, of) = other.parts();
        proof {
            lemma_pow10_max();
        }
        sw < ow || (sw == ow && sf < of)
    }

    /// `candidate` where it is exactly the sum of `a` and `b`.
    pub open spec fn accepted_sum(candidate: Option<Amount>, a: Amount, b: Amount) -> Option<
        Amount,
    > {
        match candidate {
            Some(c) => if c.value() == a.value() + b.value() {
                Some(c)
            } else {
                None
            },
            None => None,
        }
    }

    /// `candidate` where it is exactly `a` less `b`.
    pub open spec fn accepted_difference(
        candidate: Option<Amount>,
        a: Amount,
        b: Amount,
    ) -> Option<Amount> {
        match candidate {
            Some(c) => if c.value() == a.value() - b.value() {
                Some(c)
            } else {
                None
            },
            None => None,
        }
    }

    /// The sum of two amounts as `rust_decimal` represents it, where that is
    /// exact.
    pub open spec fn exact_sum(a: Amount, b: Amount) -> Option<Amount> {
        Self::accepted_sum(decimal_sum(a, b), a, b)
    }

    /// The difference of two amounts as `rust_decimal` represents it, where
    /// that is exact.
    pub open spec fn exact_difference(a: Amount, b: Amount) -> Option<Amount> {
        Self::accepted_difference(decimal_difference(a, b), a, b)
    }

    /// Takes a sum computed elsewhere only if it is exact.
    pub fn accept_sum(candidate: Option<Amount>, a: Amount, b: Amount) -> (r: Option<Amount>)
        ensures
            r == Self::accepted_sum(candidate, a, b),
    {
        match candidate {
            Some(c) => if c.is_sum_of(a, b) {
                Some(c)
            } else {
                None
            },
            None => None,
        }
    }

    /// Takes a difference computed elsewhere only if it is exact.
    pub fn accept_difference(candidate: Option<Amount>, a: Amount, b: Amount) -> (r: Option<
        Amount,
    >)
        ensures
            r == Self::accepted_difference(candidate, a, b),
    {
        match candidate {
            Some(c) => if c.is_difference_of(a, b) {
                Some(c)
            } else {
                None
            },
            None => None,
        }
    }

    /// `self + other`, or `None` where no decimal is exactly that sum.
    pub fn checked_add(self, other: Amount) -> (r: Option<Amount>)
        ensures
            r == Self::exact_sum(self, other),
            r matches Some(s) ==> s.value() == self.value() + other.value(),
    {
        proof {
            use_type_invariant(&self);
            use_type_invariant(&other);
        }
        Self::accept_sum(decimal_checked_add(self, other), self, other)
    }

    /// `self - other`, or `None` where no decimal is exactly that difference.
    pub fn checked_sub(self, other: Amount) -> (r: Option<Amount>)
        ensures
            r == Self::exact_difference(self, other),
            r matches Some(d) ==> d.value() == self.value() - other.value(),
    {
        proof {
            use_type_invariant(&self);
            use_type_invariant(&other);
        }
        Self::accept_difference(decimal_checked_sub(self, other), self, other)
    }
}

impl PartialEq for Amount {
    fn eq(&self, other: &Amount) -> (r: bool) {
        let (sw, sf) = self.parts();
        let (ow, of) = other.parts();
        proof {
            lemma_pow10_max();
        }
        sw == ow && sf == of
    }
}

impl PartialEqSpecImpl for Amount {
    open spec fn obeys_eq_spec() -> bool {
        true
    }

    /// Two amounts are equal when they stand for the same number, whatever
    /// their scales.
    open spec fn eq_spec(&self, other: &Amount) -> bool {
        self.value() == other.value()
    }
}

/// What `Decimal::checked_add` returns for the decimals that `a` and `b` hold.
pub uninterp spec fn decimal_sum(a: Amount, b: Amount) -> Option<Amount>;

/// What `Decimal::checked_sub` returns for the decimals that `a` and `b` hold.
pub uninterp spec fn decimal_difference(a: Amount, b: Amount) -> Option<Amount>;

/// `rust_decimal::Decimal::checked_add` on the decimals with the mantissas
/// and scales of `a` and `b`, the result given by its mantissa and scale.
///
/// Trusted: the result depends on the two decimals alone, and is a decimal,
/// so within 96 bits and 28 digits after the point. Nothing is claimed of
/// which decimal it is: `rust_decimal` rounds a sum that does not fit its 96
/// bits where it can, and returns `None` where it cannot. The arguments are
/// within the range outside of which `Decimal::from_i128_with_scale` panics.
#[verifier::external_body]
fn decimal_checked_add(a: Amount, b: Amount) -> (r: Option<Amount>)
    requires
        a.representable(),
        b.representable(),
    ensures
        r == decimal_sum(a, b),
        r matches Some(sum) ==> sum.representable(),
{
    let x = Decimal::from_i128_with_scale(a.mantissa, a.scale);
    let y = Decimal::from_i128_with_scale(b.mantissa, b.scale);
    match x.checked_add(y) {
        Some(d) => Some(Amount { mantissa: d.mantissa(), scale: d.scale() }),
        None => None,
    }
}

/// `rust_decimal::Decimal::checked_sub` on the decimals with the mantissas
/// and scales of `a` and `b`, the result given by its mantissa and scale.
///
/// Trusted: the result depends on the two decimals alone, and is a decimal,
/// so within 96 bits and 28 digits after the point. Nothing is claimed of
/// which decimal it is. The arguments are within the range outside of which
/// `Decimal::from_i128_with_scale` panics.
#[verifier::external_body]
fn decimal_checked_sub(a: Amount, b: Amount) -> (r: Option<Amount>)
    requires
        a.representable(),
        b.representable(),
    ensures
        r == decimal_difference(a, b),
        r matches Some(difference) ==> difference.representable(),
{
    let x = Decimal::from_i128_with_scale(a.mantissa, a.scale);
    let y = Decimal::from_i128_with_scale(b.mantissa, b.scale);
    match x.checked_sub(y) {
        Some(d) => Some(Amount { mantissa: d.mantissa(), scale: d.scale() }),
        None => None,
    }
}

} // verus!
