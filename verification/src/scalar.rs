//! Single-precision numbers as bit patterns: one sign bit, eight exponent
//! bits, twenty-three fraction bits.
use vstd::arithmetic::power2::{
    lemma2_to64, lemma_pow2_adds, lemma_pow2_pos, lemma_pow2_strictly_increases, lemma_pow2_unfold,
    pow2,
};
use vstd::prelude::*;
use vstd::std_specs::cmp::PartialEqSpecImpl;

verus! {

/// The sign bit of an encoding.
pub const SIGN_BIT: u32 = 0x8000_0000;

/// Every bit of an encoding but the sign bit.
pub const MAGNITUDE_MASK: u32 = 0x7fff_ffff;

/// The magnitude bits of infinity; larger magnitudes encode no number.
pub const INFINITY_BITS: u32 = 0x7f80_0000;

/// The encoding of the number one.
pub const ONE_BITS: u32 = 0x3f80_0000;

/// The encoding of the number minus one.
pub const NEG_ONE_BITS: u32 = 0xbf80_0000;

/// A single-precision number, held as its IEEE-754 encoding.
#[derive(Clone, Copy, Debug)]
pub struct Scalar {
    pub bits: u32,
}

/// The number one, counted in units of 2^-149.
pub open spec fn one_in_units() -> int {
    pow2(149) as int
}

/// What an encoding stands for. The two zeros stand for the same number, and
/// every NaN for none.
pub enum Number {
    /// No number at all.
    NotANumber,
    /// Less than every real number.
    MinusInfinity,
    /// A real number, counted in units of 2^-149.
    Finite(int),
    /// More than every real number.
    PlusInfinity,
}

impl Number {
    /// The number with the opposite sign.
    pub open spec fn negated(self) -> Number {
        match self {
            Number::NotANumber => Number::NotANumber,
            Number::MinusInfinity => Number::PlusInfinity,
            Number::Finite(v) => Number::Finite(-v),
            Number::PlusInfinity => Number::MinusInfinity,
        }
    }

    /// The absolute value.
    pub open spec fn absolute(self) -> Number {
        match self {
            Number::NotANumber => Number::NotANumber,
            Number::MinusInfinity => Number::PlusInfinity,
            Number::Finite(v) => Number::Finite(if v < 0 { -v } else { v }),
            Number::PlusInfinity => Number::PlusInfinity,
        }
    }

    /// Equality of numbers; nothing equals what is no number.
    pub open spec fn equal(self, other: Number) -> bool {
        self != Number::NotANumber && self == other
    }

    /// Strict order of numbers; what is no number is below and above nothing.
    pub open spec fn less(self, other: Number) -> bool {
        match (self, other) {
            (Number::Finite(a), Number::Finite(b)) => a < b,
            (Number::MinusInfinity, Number::Finite(_)) => true,
            (Number::MinusInfinity, Number::PlusInfinity) => true,
            (Number::Finite(_), Number::PlusInfinity) => true,
            _ => false,
        }
    }

    /// The number limited to the interval from minus one to one; what is no
    /// number is taken to one.
    pub open spec fn clamped_to_unit(self) -> Number {
        match self {
            Number::NotANumber => Number::Finite(one_in_units()),
            Number::MinusInfinity => Number::Finite(-one_in_units()),
            Number::Finite(v) => Number::Finite(
                if v > one_in_units() {
                    one_in_units()
                } else if v < -one_in_units() {
                    -one_in_units()
                } else {
                    v
                },
            ),
            Number::PlusInfinity => Number::Finite(one_in_units()),
        }
    }
}

impl View for Scalar {
    type V = Number;

    open spec fn view(&self) -> Number {
        if self.nan() {
            Number::NotANumber
        } else if self.infinite() {
            if self.negative() {
                Number::MinusInfinity
            } else {
                Number::PlusInfinity
            }
        } else {
            Number::Finite(self.scaled())
        }
    }
}

impl Scalar {
    /// Whether the sign bit is set.
    pub open spec fn negative(self) -> bool {
        self.bits >= 0x8000_0000
    }

    /// The encoding without its sign bit.
    pub open spec fn magnitude(self) -> int {
        self.bits as int % 0x8000_0000
    }

    /// The biased exponent, from 0 to 255.
    pub open spec fn exponent(self) -> int {
        self.magnitude() / 0x80_0000
    }

    /// The twenty-three fraction bits.
    pub open spec fn fraction(self) -> int {
        self.magnitude() % 0x80_0000
    }

    /// Whether the encoding stands for no number at all.
    pub open spec fn nan(self) -> bool {
        self.magnitude() > 0x7f80_0000
    }

    /// Whether the encoding stands for plus or minus infinity.
    pub open spec fn infinite(self) -> bool {
        self.magnitude() == 0x7f80_0000
    }

    /// Whether the encoding stands for a real number.
    pub open spec fn finite(self) -> bool {
        self.magnitude() < 0x7f80_0000
    }

    /// Whether the encoding stands for zero, of either sign.
    pub open spec fn vanishes(self) -> bool {
        self.magnitude() == 0
    }

    /// The absolute value of a finite number, counted in units of 2^-149.
    pub open spec fn scaled_magnitude(self) -> int {
        if self.exponent() == 0 {
            self.fraction()
        } else {
            (0x80_0000 + self.fraction()) * pow2((self.exponent() - 1) as nat)
        }
    }

    /// The value of a finite number, counted in units of 2^-149.
    pub open spec fn scaled(self) -> int {
        if self.negative() {
            -self.scaled_magnitude()
        } else {
            self.scaled_magnitude()
        }
    }

    /// The place of a number on the extended number line: the magnitude bits
    /// with the sign applied. Both zeros share the place 0, and the
    /// infinities lie beyond every finite number.
    pub open spec fn place(self) -> int {
        if self.negative() {
            -self.magnitude()
        } else {
            self.magnitude()
        }
    }

    /// Equality of two numbers: neither is a NaN, and they lie at the same
    /// place. The two zeros are equal; a NaN equals nothing, itself included.
    pub open spec fn same_number(self, other: Scalar) -> bool {
        !self.nan() && !other.nan() && self.place() == other.place()
    }

    /// Strict order of two numbers; false whenever one of them is a NaN.
    pub open spec fn below(self, other: Scalar) -> bool {
        !self.nan() && !other.nan() && self.place() < other.place()
    }

    /// The encoding with the sign bit flipped.
    pub open spec fn negated(self) -> Scalar {
        if self.negative() {
            Scalar { bits: (self.bits - 0x8000_0000) as u32 }
        } else {
            Scalar { bits: (self.bits + 0x8000_0000) as u32 }
        }
    }

    /// The encoding with the sign bit cleared.
    pub open spec fn absolute(self) -> Scalar {
        Scalar { bits: self.magnitude() as u32 }
    }

    /// The encoding of zero with a clear sign bit, for use in contracts.
    pub open spec fn nought() -> Scalar {
        Scalar { bits: 0 }
    }

    /// The encoding of one, for use in contracts.
    pub open spec fn unit() -> Scalar {
        Scalar { bits: 0x3f80_0000 }
    }

    /// The encoding of minus one, for use in contracts.
    pub open spec fn minus_unit() -> Scalar {
        Scalar { bits: 0xbf80_0000 }
    }

    /// The number limited to the interval from minus one to one; a NaN is
    /// taken to one.
    pub open spec fn clamped_to_unit(self) -> Scalar {
        if self.nan() || Self::unit().below(self) {
            Self::unit()
        } else if self.below(Self::minus_unit()) {
            Self::minus_unit()
        } else {
            self
        }
    }

    /// Wraps an encoding.
    pub fn from_bits(bits: u32) -> (r: Scalar)
        ensures
            r.bits == bits,
    {
        Scalar { bits }
    }

    /// Hands the encoding back.
    pub fn to_bits(self) -> (r: u32)
        ensures
            r == self.bits,
    {
        self.bits
    }

    /// The number zero, with a clear sign bit.
    pub fn zero() -> (r: Scalar)
        ensures
            r == Self::nought(),
            r@ == Number::Finite(0),
    {
        Scalar { bits: 0 }
    }

    /// The number one.
    pub fn one() -> (r: Scalar)
        ensures
            r == Self::unit(),
            r@ == Number::Finite(one_in_units()),
    {
        proof {
            lemma_one_scaled();
        }
        Scalar { bits: ONE_BITS }
    }

    /// The number minus one.
    pub fn minus_one() -> (r: Scalar)
        ensures
            r == Self::minus_unit(),
            r@ == Number::Finite(-one_in_units()),
    {
        proof {
            lemma_one_scaled();
        }
        Scalar { bits: NEG_ONE_BITS }
    }

    /// Whether the sign bit is set.
    pub fn is_negative(self) -> (r: bool)
        ensures
            r == self.negative(),
    {
        self.bits >= SIGN_BIT
    }

    /// Whether the encoding is a NaN.
    pub fn is_nan(self) -> (r: bool)
        ensures
            r == self.nan(),
            r == (self@ == Number::NotANumber),
    {
        let bits: u32 = self.bits;
        assert(bits & 0x7fff_ffff == bits % 0x8000_0000) by (bit_vector);
        (bits & MAGNITUDE_MASK) > INFINITY_BITS
    }

    /// Whether the number is zero, of either sign.
    pub fn is_zero(self) -> (r: bool)
        ensures
            r == self.vanishes(),
            r == (self@ == Number::Finite(0)),
    {
        let bits: u32 = self.bits;
        assert(bits & 0x7fff_ffff == bits % 0x8000_0000) by (bit_vector);
        proof {
            lemma_zero_by_value(self);
        }
        (bits & MAGNITUDE_MASK) == 0
    }

    /// The number with its sign flipped. A NaN stays a NaN.
    pub fn neg(self) -> (r: Scalar)
        ensures
            r == self.negated(),
            r@ == self@.negated(),
    {
        proof {
            lemma_negated_view(self);
        }
        let bits: u32 = self.bits;
        assert(bits ^ 0x8000_0000 == if bits >= 0x8000_0000 {
            (bits - 0x8000_0000) as u32
        } else {
            (bits + 0x8000_0000) as u32
        }) by (bit_vector);
        Scalar { bits: bits ^ SIGN_BIT }
    }

    /// The absolute value: the number with its sign bit cleared.
    pub fn abs(self) -> (r: Scalar)
        ensures
            r == self.absolute(),
            r@ == self@.absolute(),
    {
        proof {
            lemma_absolute_view(self);
        }
        let bits: u32 = self.bits;
        assert(bits & 0x7fff_ffff == bits % 0x8000_0000) by (bit_vector);
        Scalar { bits: bits & MAGNITUDE_MASK }
    }

    /// Whether this number is strictly less than the other.
    pub fn less_than(self, other: Scalar) -> (r: bool)
        ensures
            r == self.below(other),
            r == self@.less(other@),
    {
        proof {
            lemma_comparisons_by_view(self, other);
        }
        if self.is_nan() || other.is_nan() {
            return false;
        }
        let a: u32 = self.abs().bits;
        let b: u32 = other.abs().bits;
        if self.is_negative() {
            if other.is_negative() {
                b < a
            } else {
                a != 0 || b != 0
            }
        } else {
            !other.is_negative() && a < b
        }
    }

    /// The number limited to the interval from minus one to one.
    pub fn clamp_unit(self) -> (r: Scalar)
        ensures
            r == self.clamped_to_unit(),
            r@ == self@.clamped_to_unit(),
    {
        proof {
            lemma_clamped_to_unit_view(self);
        }
        let one = Scalar { bits: ONE_BITS };
        let minus_one = Scalar { bits: NEG_ONE_BITS };
        if self.is_nan() || one.less_than(self) {
            one
        } else if self.less_than(minus_one) {
            minus_one
        } else {
            self
        }
    }
}

impl PartialEq for Scalar {
    fn eq(&self, other: &Scalar) -> (r: bool) {
        proof {
            lemma_comparisons_by_view(*self, *other);
        }
        if self.is_nan() || other.is_nan() {
            false
        } else {
            let a: u32 = self.abs().bits;
            let b: u32 = other.abs().bits;
            a == b && (a == 0 || self.is_negative() == other.is_negative())
        }
    }
}

impl PartialEqSpecImpl for Scalar {
    open spec fn obeys_eq_spec() -> bool {
        true
    }

    open spec fn eq_spec(&self, other: &Scalar) -> bool {
        self@.equal(other@)
    }
}

/// The number one is 2^149 units of 2^-149.
pub proof fn lemma_one_scaled()
    ensures
        Scalar::unit().finite(),
        Scalar::unit().scaled() == one_in_units(),
        Scalar::minus_unit().finite(),
        Scalar::minus_unit().scaled() == -one_in_units(),
{
    lemma2_to64();
    lemma_pow2_adds(23, 126);
    let one = Scalar::unit();
    assert(one.exponent() == 127);
    assert(one.fraction() == 0);
    let minus_one = Scalar::minus_unit();
    assert(minus_one.exponent() == 127);
    assert(minus_one.fraction() == 0);
}

/// The units of 2^-149 that a magnitude below infinity stands for.
pub open spec fn magnitude_value(m: int) -> int {
    if m / 0x80_0000 == 0 {
        m % 0x80_0000
    } else {
        (0x80_0000 + m % 0x80_0000) * pow2((m / 0x80_0000 - 1) as nat)
    }
}

/// A larger magnitude stands for a larger absolute value.
pub proof fn lemma_magnitude_value_increases(m1: int, m2: int)
    requires
        0 <= m1 < m2,
    ensures
        0 <= magnitude_value(m1) < magnitude_value(m2),
{
    let e1 = m1 / 0x80_0000;
    let f1 = m1 % 0x80_0000;
    let e2 = m2 / 0x80_0000;
    let f2 = m2 % 0x80_0000;
    assert(0 <= e1 <= e2);
    if e1 == 0 {
        if e2 != 0 {
            let upper_power = pow2((e2 - 1) as nat);
            lemma_pow2_pos((e2 - 1) as nat);
            assert(0x80_0000 <= (0x80_0000 + f2) * upper_power) by (nonlinear_arith)
                requires
                    0 <= f2,
                    1 <= upper_power,
            ;
        }
    } else {
        let lower_power = pow2((e1 - 1) as nat);
        let upper_power = pow2((e2 - 1) as nat);
        lemma_pow2_pos((e1 - 1) as nat);
        if e1 == e2 {
            assert((0x80_0000 + f1) * lower_power < (0x80_0000 + f2) * lower_power) by (nonlinear_arith)
                requires
                    0 <= f1 < f2,
                    1 <= lower_power,
            ;
        } else {
            lemma_pow2_unfold(e1 as nat);
            if e1 < e2 - 1 {
                lemma_pow2_strictly_increases(e1 as nat, (e2 - 1) as nat);
            }
            assert(2 * lower_power <= upper_power);
            assert((0x80_0000 + f1) * lower_power < (0x80_0000 + f2) * upper_power) by (nonlinear_arith)
                requires
                    0 <= f1 < 0x80_0000,
                    0 <= f2,
                    1 <= lower_power,
                    2 * lower_power <= upper_power,
            ;
        }
        assert(0 <= (0x80_0000 + f1) * lower_power) by (nonlinear_arith)
            requires
                0 <= f1,
                1 <= lower_power,
        ;
    }
}

/// The place of a finite number orders as its value does: of two finite
/// numbers, one lies at a lower place exactly when its value is smaller, and
/// they share a place exactly when their values agree.
pub proof fn lemma_place_orders_values(a: Scalar, b: Scalar)
    requires
        a.finite(),
        b.finite(),
    ensures
        a.place() < b.place() <==> a.scaled() < b.scaled(),
        a.place() == b.place() <==> a.scaled() == b.scaled(),
        a.same_number(b) <==> a.scaled() == b.scaled(),
        a.below(b) <==> a.scaled() < b.scaled(),
{
    let ma = a.magnitude();
    let mb = b.magnitude();
    assert(a.scaled_magnitude() == magnitude_value(ma));
    assert(b.scaled_magnitude() == magnitude_value(mb));
    assert(magnitude_value(0) == 0);
    if ma < mb {
        lemma_magnitude_value_increases(ma, mb);
    } else if mb < ma {
        lemma_magnitude_value_increases(mb, ma);
    }
    if 0 < ma {
        lemma_magnitude_value_increases(0, ma);
    }
    if 0 < mb {
        lemma_magnitude_value_increases(0, mb);
    }
}

/// The comparisons on encodings are the comparisons of the numbers they
/// stand for.
pub proof fn lemma_comparisons_by_view(a: Scalar, b: Scalar)
    ensures
        a.same_number(b) <==> a@.equal(b@),
        a.below(b) <==> a@.less(b@),
{
    if a.finite() && b.finite() {
        lemma_place_orders_values(a, b);
    }
}

/// An encoding is a zero exactly when it stands for the number 0.
pub proof fn lemma_zero_by_value(a: Scalar)
    ensures
        a.vanishes() <==> a@ == Number::Finite(0),
{
    if a.finite() {
        lemma_place_orders_values(a, Scalar::nought());
    }
}

/// Flipping the sign bit negates the number.
pub proof fn lemma_negated_view(a: Scalar)
    ensures
        a.negated()@ == a@.negated(),
{
    let r = a.negated();
    assert(r.magnitude() == a.magnitude());
    assert(r.negative() == !a.negative());
}

/// Clearing the sign bit gives the absolute value of the number.
pub proof fn lemma_absolute_view(a: Scalar)
    ensures
        a.absolute()@ == a@.absolute(),
{
    let r = a.absolute();
    assert(r.magnitude() == a.magnitude());
    assert(!r.negative());
    if a.finite() {
        lemma_place_orders_values(Scalar::nought(), r);
    }
}

/// Clamping an encoding clamps the number it stands for.
pub proof fn lemma_clamped_to_unit_view(a: Scalar)
    ensures
        a.clamped_to_unit()@ == a@.clamped_to_unit(),
{
    lemma_one_scaled();
    lemma_pow2_pos(149);
    if a.finite() {
        lemma_place_orders_values(Scalar::unit(), a);
        lemma_place_orders_values(a, Scalar::minus_unit());
    }
}

/// Flipping the sign twice gives the encoding back, bit for bit.
pub proof fn lemma_negated_twice(a: Scalar)
    ensures
        a.negated().negated() == a,
{
}

/// A number and its negation have the same absolute value.
pub proof fn lemma_absolute_of_negated(a: Scalar)
    ensures
        a.negated().absolute() == a.absolute(),
{
}

/// Negation turns the order round: `a` is below `b` exactly when the
/// negation of `b` is below that of `a`. Equality is kept.
pub proof fn lemma_negated_reverses_order(a: Scalar, b: Scalar)
    ensures
        a.below(b) <==> b.negated().below(a.negated()),
        a.same_number(b) <==> a.negated().same_number(b.negated()),
{
}

/// Equality of numbers is symmetric and transitive, and holds of every
/// number with itself; a NaN alone is unequal to itself.
pub proof fn lemma_same_number_is_partial_equivalence(a: Scalar, b: Scalar, c: Scalar)
    ensures
        a.same_number(a) <==> !a.nan(),
        a.same_number(b) <==> b.same_number(a),
        a.same_number(b) && b.same_number(c) ==> a.same_number(c),
{
}

/// The strict order is irreflexive and transitive, and of two numbers that
/// are no NaN exactly one of three holds: below, equal, above.
pub proof fn lemma_below_is_strict_order(a: Scalar, b: Scalar, c: Scalar)
    ensures
        !a.below(a),
        a.below(b) && b.below(c) ==> a.below(c),
        !a.nan() && !b.nan() ==> (a.below(b) || a.same_number(b) || b.below(a)),
        !(a.below(b) && b.below(a)),
        !(a.below(b) && a.same_number(b)),
{
}

/// Clamping to the unit interval changes nothing on a number that already
/// lies in it, and clamping twice is clamping once.
pub proof fn lemma_clamped_to_unit_settles(a: Scalar)
    ensures
        !a.nan() && !a.below(Scalar::minus_unit()) && !Scalar::unit().below(a)
            ==> a.clamped_to_unit() == a,
        a.clamped_to_unit().clamped_to_unit() == a.clamped_to_unit(),
{
}

} // verus!
