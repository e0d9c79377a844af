use vstd::prelude::*;

verus! {

/// Numerator of log10(2), rounded down to 28 decimal places.
pub const LOG10_2_NUM: u128 = 3010299956639811952137388947;

/// Denominator that goes with `LOG10_2_NUM`.
pub const LOG10_2_DEN: u128 = 10000000000000000000000000000;

/// The largest digit count whose bit count fits in a `u32`.
pub const MAX_DIGITS: u32 = 1292913986;

/// `floor(bits * log10(2))`, with log10(2) taken as `LOG10_2_NUM / LOG10_2_DEN`.
///
/// The rational is within 1e-28 of log10(2); for every `u32` bit count the
/// product stays more than 1e-11 away from an integer, so the floor is the one
/// that the exact constant gives.
pub open spec fn digits_of_bits(bits: nat) -> nat {
    ((bits * LOG10_2_NUM) / (LOG10_2_DEN as int)) as nat
}

/// `ceil(digits * log2(10))`, with log2(10) taken as `LOG10_2_DEN / LOG10_2_NUM`.
pub open spec fn bits_of_digits(digits: nat) -> nat {
    ((digits * LOG10_2_DEN + (LOG10_2_NUM - 1)) / (LOG10_2_NUM as int)) as nat
}

/// The number of whole decimal digits that `bits` binary digits hold.
pub fn bits_to_digits(bits: u32) -> (r: u32)
    ensures
        r == digits_of_bits(bits as nat),
{
    proof {
        lemma_digits_of_bits_bounded(bits as nat);
    }
    let r = (bits as u128 * LOG10_2_NUM) / LOG10_2_DEN;
    r as u32
}

/// The number of binary digits needed to hold `digits` decimal digits.
pub fn digits_to_bits(digits: u32) -> (r: u32)
    requires
        digits <= MAX_DIGITS,
    ensures
        r == bits_of_digits(digits as nat),
{
    proof {
        lemma_bits_of_digits_bounded(digits as nat);
    }
    let r = (digits as u128 * LOG10_2_DEN + (LOG10_2_NUM - 1)) / LOG10_2_NUM;
    r as u32
}

/// `d * (x / d) <= x < d * (x / d) + d` for a positive divisor.
proof fn lemma_div_bounds(x: int, d: int)
    requires
        x >= 0,
        d > 0,
    ensures
        d * (x / d) <= x < d * (x / d) + d,
{
    vstd::arithmetic::div_mod::lemma_fundamental_div_mod(x, d);
    vstd::arithmetic::div_mod::lemma_mod_pos_bound(x, d);
}

/// `digits_of_bits` read as the inequalities that define a floor.
proof fn lemma_digits_of_bits_facts(bits: nat)
    ensures
        LOG10_2_DEN * digits_of_bits(bits) <= bits * LOG10_2_NUM,
        bits * LOG10_2_NUM < LOG10_2_DEN * digits_of_bits(bits) + LOG10_2_DEN,
{
    lemma_div_bounds((bits * LOG10_2_NUM) as int, LOG10_2_DEN as int);
}

/// `bits_of_digits` read as the inequalities that define a ceiling.
proof fn lemma_bits_of_digits_facts(digits: nat)
    ensures
        digits * LOG10_2_DEN <= LOG10_2_NUM * bits_of_digits(digits),
        LOG10_2_NUM * bits_of_digits(digits) < digits * LOG10_2_DEN + LOG10_2_NUM,
{
    lemma_div_bounds((digits * LOG10_2_DEN + (LOG10_2_NUM - 1)) as int, LOG10_2_NUM as int);
}

proof fn lemma_digits_of_bits_bounded(bits: nat)
    requires
        bits <= u32::MAX,
    ensures
        bits * LOG10_2_NUM <= u128::MAX,
        digits_of_bits(bits) <= bits,
{
    assert(bits * LOG10_2_NUM <= u32::MAX * LOG10_2_NUM) by (nonlinear_arith)
        requires
            bits <= u32::MAX,
    ;
    lemma_digits_of_bits_facts(bits);
    let r = digits_of_bits(bits);
    assert(r <= bits) by (nonlinear_arith)
        requires
            LOG10_2_DEN * r <= bits * LOG10_2_NUM,
            LOG10_2_NUM < LOG10_2_DEN,
    ;
}

proof fn lemma_bits_of_digits_bounded(digits: nat)
    requires
        digits <= MAX_DIGITS,
    ensures
        digits * LOG10_2_DEN + (LOG10_2_NUM - 1) <= u128::MAX,
        bits_of_digits(digits) <= u32::MAX,
{
    assert(digits * LOG10_2_DEN <= MAX_DIGITS * LOG10_2_DEN) by (nonlinear_arith)
        requires
            digits <= MAX_DIGITS,
    ;
    lemma_bits_of_digits_facts(digits);
    let b = bits_of_digits(digits);
    assert(MAX_DIGITS * LOG10_2_DEN + LOG10_2_NUM <= (u32::MAX + 1) * LOG10_2_NUM);
    assert(b <= u32::MAX) by (nonlinear_arith)
        requires
            LOG10_2_NUM * b < digits * LOG10_2_DEN + LOG10_2_NUM,
            digits * LOG10_2_DEN <= MAX_DIGITS * LOG10_2_DEN,
            MAX_DIGITS * LOG10_2_DEN + LOG10_2_NUM <= (u32::MAX + 1) * LOG10_2_NUM,
            LOG10_2_NUM > 0,
    ;
}

/// Converting a digit count to bits and back gives the same digit count:
/// the ceiling on the way up is undone exactly by the floor on the way down.
pub proof fn lemma_digits_round_trip(digits: nat)
    ensures
        digits_of_bits(bits_of_digits(digits)) == digits,
{
    let b = bits_of_digits(digits);
    lemma_bits_of_digits_facts(digits);
    lemma_digits_of_bits_facts(b);
    let r = digits_of_bits(b);
    assert(r == digits) by (nonlinear_arith)
        requires
            digits * LOG10_2_DEN <= LOG10_2_NUM * b,
            LOG10_2_NUM * b < digits * LOG10_2_DEN + LOG10_2_NUM,
            LOG10_2_DEN * r <= b * LOG10_2_NUM,
            b * LOG10_2_NUM < LOG10_2_DEN * r + LOG10_2_DEN,
            0 < LOG10_2_NUM < LOG10_2_DEN,
    ;
}

/// Converting a bit count to digits and back never gives more bits than it
/// started with: the floor on the way down loses at most a fraction of a digit.
pub proof fn lemma_bits_round_trip(bits: nat)
    ensures
        bits_of_digits(digits_of_bits(bits)) <= bits,
        digits_of_bits(bits_of_digits(digits_of_bits(bits))) == digits_of_bits(bits),
{
    let r = digits_of_bits(bits);
    lemma_digits_of_bits_facts(bits);
    lemma_bits_of_digits_facts(r);
    let t = bits_of_digits(r);
    assert(t <= bits) by (nonlinear_arith)
        requires
            LOG10_2_DEN * r <= bits * LOG10_2_NUM,
            LOG10_2_NUM * t < r * LOG10_2_DEN + LOG10_2_NUM,
            LOG10_2_NUM > 0,
    ;
    lemma_digits_round_trip(r);
}

/// A precision: the number of bits of mantissa that a value is allocated with.
///
/// The engine has its own bounds (at least one bit, at most an engine-defined
/// maximum); those are checked where a value is allocated, not here, so that a
/// precision can also stand for a digit count to print.
#[derive(Clone, Copy, PartialEq, Eq, Debug, Structural)]
pub struct Precision(u32);

impl View for Precision {
    type V = nat;

    /// The bit count.
    closed spec fn view(&self) -> nat {
        self.0 as nat
    }
}

impl Precision {
    /// The precision of `bits` binary digits.
    pub fn from_bits(bits: u32) -> (r: Precision)
        ensures
            r@ == bits,
    {
        Precision(bits)
    }

    /// The precision that holds `digits` decimal digits.
    pub fn from_digits(digits: u32) -> (r: Precision)
        requires
            digits <= MAX_DIGITS,
        ensures
            r@ == bits_of_digits(digits as nat),
    {
        Precision(digits_to_bits(digits))
    }

    /// The bit count.
    pub fn bits(self) -> (r: u32)
        ensures
            r == self@,
    {
        self.0
    }

    /// The number of whole decimal digits that this precision holds.
    pub fn digits(self) -> (r: u32)
        ensures
            r == digits_of_bits(self@),
    {
        bits_to_digits(self.0)
    }
}

/// Integers that can be read as a precision, either as a bit count or as a
/// decimal digit count.
pub trait ToPrecision: Sized {
    /// The integer's value.
    spec fn count(self) -> int;

    /// The precision of `self` bits.
    fn bits(self) -> (r: Precision)
        requires
            0 <= self.count() <= u32::MAX,
        ensures
            r@ == self.count(),
    ;

    /// The precision that holds `self` decimal digits.
    fn digits(self) -> (r: Precision)
        requires
            0 <= self.count() <= MAX_DIGITS,
        ensures
            r@ == bits_of_digits(self.count() as nat),
    ;
}

impl ToPrecision for u32 {
    open spec fn count(self) -> int {
        self as int
    }

    fn bits(self) -> (r: Precision) {
        Precision::from_bits(self)
    }

    fn digits(self) -> (r: Precision) {
        Precision::from_digits(self)
    }
}

impl ToPrecision for i32 {
    open spec fn count(self) -> int {
        self as int
    }

    fn bits(self) -> (r: Precision) {
        Precision::from_bits(self as u32)
    }

    fn digits(self) -> (r: Precision) {
        Precision::from_digits(self as u32)
    }
}

impl ToPrecision for usize {
    open spec fn count(self) -> int {
        self as int
    }

    fn bits(self) -> (r: Precision) {
        Precision::from_bits(self as u32)
    }

    fn digits(self) -> (r: Precision) {
        Precision::from_digits(self as u32)
    }
}

} // verus!
