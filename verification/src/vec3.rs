//! Vectors of three single-precision components.
use crate::scalar::{
    lemma_absolute_of_negated, lemma_comparisons_by_view, lemma_negated_reverses_order,
    one_in_units, Number, Scalar,
};
use vstd::prelude::*;
use vstd::std_specs::cmp::PartialEqSpecImpl;

verus! {

/// A vector of three single-precision numbers.
#[derive(Clone, Copy, Debug)]
pub struct Vec3 {
    pub x: Scalar,
    pub y: Scalar,
    pub z: Scalar,
}

impl View for Vec3 {
    type V = (Number, Number, Number);

    /// The numbers that the components stand for.
    open spec fn view(&self) -> (Number, Number, Number) {
        (self.x@, self.y@, self.z@)
    }
}

impl Vec3 {
    /// The vector (0, -1, 0).
    pub fn down() -> (r: Vec3)
        ensures
            r.x == Scalar::nought(),
            r@.0 == Number::Finite(0),
            r.y == Scalar::minus_unit(),
            r@.1 == Number::Finite(-one_in_units()),
            r.z == Scalar::nought(),
            r@.2 == Number::Finite(0),
    {
        Vec3 { x: Scalar::zero(), y: Scalar::minus_one(), z: Scalar::zero() }
    }

    /// The vector (0, 1, 0).
    pub fn up() -> (r: Vec3)
        ensures
            r.x == Scalar::nought(),
            r@.0 == Number::Finite(0),
            r.y == Scalar::unit(),
            r@.1 == Number::Finite(one_in_units()),
            r.z == Scalar::nought(),
            r@.2 == Number::Finite(0),
    {
        Vec3 { x: Scalar::zero(), y: Scalar::one(), z: Scalar::zero() }
    }

    /// The vector (1, 0, 0).
    pub fn right() -> (r: Vec3)
        ensures
            r.x == Scalar::unit(),
            r@.0 == Number::Finite(one_in_units()),
            r.y == Scalar::nought(),
            r@.1 == Number::Finite(0),
            r.z == Scalar::nought(),
            r@.2 == Number::Finite(0),
    {
        Vec3 { x: Scalar::one(), y: Scalar::zero(), z: Scalar::zero() }
    }

    /// The vector (-1, 0, 0).
    pub fn left() -> (r: Vec3)
        ensures
            r.x == Scalar::minus_unit(),
            r@.0 == Number::Finite(-one_in_units()),
            r.y == Scalar::nought(),
            r@.1 == Number::Finite(0),
            r.z == Scalar::nought(),
            r@.2 == Number::Finite(0),
    {
        Vec3 { x: Scalar::minus_one(), y: Scalar::zero(), z: Scalar::zero() }
    }

    /// The vector (0, 0, 1).
    pub fn forward() -> (r: Vec3)
        ensures
            r.x == Scalar::nought(),
            r@.0 == Number::Finite(0),
            r.y == Scalar::nought(),
            r@.1 == Number::Finite(0),
            r.z == Scalar::unit(),
            r@.2 == Number::Finite(one_in_units()),
    {
        Vec3 { x: Scalar::zero(), y: Scalar::zero(), z: Scalar::one() }
    }

    /// The vector (0, 0, -1).
    pub fn back() -> (r: Vec3)
        ensures
            r.x == Scalar::nought(),
            r@.0 == Number::Finite(0),
            r.y == Scalar::nought(),
            r@.1 == Number::Finite(0),
            r.z == Scalar::minus_unit(),
            r@.2 == Number::Finite(-one_in_units()),
    {
        Vec3 { x: Scalar::zero(), y: Scalar::zero(), z: Scalar::minus_one() }
    }

    /// The vector (1, 1, 1).
    pub fn one() -> (r: Vec3)
        ensures
            r.x == Scalar::unit(),
            r@.0 == Number::Finite(one_in_units()),
            r.y == Scalar::unit(),
            r@.1 == Number::Finite(one_in_units()),
            r.z == Scalar::unit(),
            r@.2 == Number::Finite(one_in_units()),
    {
        Vec3 { x: Scalar::one(), y: Scalar::one(), z: Scalar::one() }
    }

    /// The vector (0, 0, 0).
    pub fn zero() -> (r: Vec3)
        ensures
            r.x == Scalar::nought(),
            r@.0 == Number::Finite(0),
            r.y == Scalar::nought(),
            r@.1 == Number::Finite(0),
            r.z == Scalar::nought(),
            r@.2 == Number::Finite(0),
    {
        Vec3 { x: Scalar::zero(), y: Scalar::zero(), z: Scalar::zero() }
    }

    /// All three components with the sign flipped.
    pub open spec fn negated(self) -> Vec3 {
        Vec3 { x: self.x.negated(), y: self.y.negated(), z: self.z.negated() }
    }

    /// Strict equality: the components are equal as numbers, one by one.
    pub open spec fn same_vector(self, other: Vec3) -> bool {
        &&& self.x.same_number(other.x)
        &&& self.y.same_number(other.y)
        &&& self.z.same_number(other.z)
    }

    /// Whether a component is a NaN.
    pub open spec fn has_nan(self) -> bool {
        self.x.nan() || self.y.nan() || self.z.nan()
    }

    /// Whether the absolute value of every component is strictly below
    /// `epsilon`.
    pub open spec fn all_within(self, epsilon: Scalar) -> bool {
        &&& self.x.absolute().below(epsilon)
        &&& self.y.absolute().below(epsilon)
        &&& self.z.absolute().below(epsilon)
    }

    /// A vector of the three components given.
    pub fn new(x: Scalar, y: Scalar, z: Scalar) -> (r: Vec3)
        ensures
            r.x == x,
            r.y == y,
            r.z == z,
    {
        Vec3 { x, y, z }
    }

    /// Overwrites all three components.
    pub fn set(&mut self, x: Scalar, y: Scalar, z: Scalar)
        ensures
            final(self).x == x,
            final(self).y == y,
            final(self).z == z,
    {
        self.x = x;
        self.y = y;
        self.z = z;
    }

    /// The vector with all three components sign-flipped.
    pub fn neg(self) -> (r: Vec3)
        ensures
            r == self.negated(),
            r@.0 == self@.0.negated(),
            r@.1 == self@.1.negated(),
            r@.2 == self@.2.negated(),
    {
        Vec3 { x: self.x.neg(), y: self.y.neg(), z: self.z.neg() }
    }

    /// Whether every component lies strictly within `epsilon` of zero. Applied
    /// to the difference of two vectors, this is their approximate equality.
    /// A NaN, in a component or as `epsilon`, gives `false`.
    pub fn within(&self, epsilon: Scalar) -> (r: bool)
        ensures
            r == self.all_within(epsilon),
            r == (self@.0.absolute().less(epsilon@) && self@.1.absolute().less(epsilon@)
                && self@.2.absolute().less(epsilon@)),
    {
        self.x.abs().less_than(epsilon) && self.y.abs().less_than(epsilon)
            && self.z.abs().less_than(epsilon)
    }
}

impl PartialEq for Vec3 {
    fn eq(&self, other: &Vec3) -> (r: bool) {
        proof {
            lemma_vec3_same_vector_by_view(*self, *other);
        }
        self.x == other.x && self.y == other.y && self.z == other.z
    }
}

impl PartialEqSpecImpl for Vec3 {
    open spec fn obeys_eq_spec() -> bool {
        true
    }

    open spec fn eq_spec(&self, other: &Vec3) -> bool {
        self.same_vector(*other)
    }
}

/// Strict equality of encodings is equality of the numbers they stand for,
/// none of which may be a NaN.
pub proof fn lemma_vec3_same_vector_by_view(a: Vec3, b: Vec3)
    ensures
        a.same_vector(b) <==> a@ == b@ && !a.has_nan(),
        a.same_vector(b) <==> a@.0.equal(b@.0) && a@.1.equal(b@.1) && a@.2.equal(b@.2),
{
    lemma_comparisons_by_view(a.x, b.x);
    lemma_comparisons_by_view(a.y, b.y);
    lemma_comparisons_by_view(a.z, b.z);
}

/// Negating a vector twice gives it back, bit for bit.
pub proof fn lemma_vec3_negated_twice(a: Vec3)
    ensures
        a.negated().negated() == a,
{
}

/// Strict equality is symmetric and transitive; a vector equals itself
/// exactly when no component is a NaN.
pub proof fn lemma_vec3_same_vector_is_partial_equivalence(a: Vec3, b: Vec3, c: Vec3)
    ensures
        a.same_vector(a) <==> !a.has_nan(),
        a.same_vector(b) <==> b.same_vector(a),
        a.same_vector(b) && b.same_vector(c) ==> a.same_vector(c),
{
}

/// Negation keeps strict equality, and leaves unchanged which vectors lie
/// within a tolerance of zero.
pub proof fn lemma_vec3_negated_keeps_comparisons(a: Vec3, b: Vec3, epsilon: Scalar)
    ensures
        a.same_vector(b) <==> a.negated().same_vector(b.negated()),
        a.all_within(epsilon) <==> a.negated().all_within(epsilon),
{
    lemma_negated_reverses_order(a.x, b.x);
    lemma_absolute_of_negated(a.x);
    lemma_negated_reverses_order(a.y, b.y);
    lemma_absolute_of_negated(a.y);
    lemma_negated_reverses_order(a.z, b.z);
    lemma_absolute_of_negated(a.z);
}

} // verus!
