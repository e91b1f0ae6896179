//! Vectors of two single-precision components.
use crate::scalar::{
    lemma_absolute_of_negated, lemma_comparisons_by_view, lemma_negated_reverses_order,
    one_in_units, Number, Scalar,
};
use vstd::prelude::*;
use vstd::std_specs::cmp::PartialEqSpecImpl;

verus! {

/// A vector of two single-precision numbers.
#[derive(Clone, Copy, Debug)]
pub struct Vec2 {
    pub x: Scalar,
    pub y: Scalar,
}

impl View for Vec2 {
    type V = (Number, Number);

    /// The numbers that the components stand for.
    open spec fn view(&self) -> (Number, Number) {
        (self.x@, self.y@)
    }
}

impl Vec2 {
    /// The vector (0, -1).
    pub fn down() -> (r: Vec2)
        ensures
            r.x == Scalar::nought(),
            r@.0 == Number::Finite(0),
            r.y == Scalar::minus_unit(),
            r@.1 == Number::Finite(-one_in_units()),
    {
        Vec2 { x: Scalar::zero(), y: Scalar::minus_one() }
    }

    /// The vector (0, 1).
    pub fn up() -> (r: Vec2)
        ensures
            r.x == Scalar::nought(),
            r@.0 == Number::Finite(0),
            r.y == Scalar::unit(),
            r@.1 == Number::Finite(one_in_units()),
    {
        Vec2 { x: Scalar::zero(), y: Scalar::one() }
    }

    /// The vector (1, 0).
    pub fn right() -> (r: Vec2)
        ensures
            r.x == Scalar::unit(),
            r@.0 == Number::Finite(one_in_units()),
            r.y == Scalar::nought(),
            r@.1 == Number::Finite(0),
    {
        Vec2 { x: Scalar::one(), y: Scalar::zero() }
    }

    /// The vector (-1, 0).
    pub fn left() -> (r: Vec2)
        ensures
            r.x == Scalar::minus_unit(),
            r@.0 == Number::Finite(-one_in_units()),
            r.y == Scalar::nought(),
            r@.1 == Number::Finite(0),
    {
        Vec2 { x: Scalar::minus_one(), y: Scalar::zero() }
    }

    /// The vector (1, 1).
    pub fn one() -> (r: Vec2)
        ensures
            r.x == Scalar::unit(),
            r@.0 == Number::Finite(one_in_units()),
            r.y == Scalar::unit(),
            r@.1 == Number::Finite(one_in_units()),
    {
        Vec2 { x: Scalar::one(), y: Scalar::one() }
    }

    /// The vector (0, 0).
    pub fn zero() -> (r: Vec2)
        ensures
            r.x == Scalar::nought(),
            r@.0 == Number::Finite(0),
            r.y == Scalar::nought(),
            r@.1 == Number::Finite(0),
    {
        Vec2 { x: Scalar::zero(), y: Scalar::zero() }
    }

    /// Both components with the sign flipped.
    pub open spec fn negated(self) -> Vec2 {
        Vec2 { x: self.x.negated(), y: self.y.negated() }
    }

    /// Strict equality: the components are equal as numbers, one by one.
    pub open spec fn same_vector(self, other: Vec2) -> bool {
        self.x.same_number(other.x) && self.y.same_number(other.y)
    }

    /// Whether a component is a NaN.
    pub open spec fn has_nan(self) -> bool {
        self.x.nan() || self.y.nan()
    }

    /// Whether the absolute value of every component is strictly below
    /// `epsilon`.
    pub open spec fn all_within(self, epsilon: Scalar) -> bool {
        self.x.absolute().below(epsilon) && self.y.absolute().below(epsilon)
    }

    /// A vector of the two components given.
    pub fn new(x: Scalar, y: Scalar) -> (r: Vec2)
        ensures
            r.x == x,
            r.y == y,
    {
        Vec2 { x, y }
    }

    /// Overwrites both components.
    pub fn set(&mut self, x: Scalar, y: Scalar)
        ensures
            final(self).x == x,
            final(self).y == y,
    {
        self.x = x;
        self.y = y;
    }

    /// The vector with both components sign-flipped.
    pub fn neg(self) -> (r: Vec2)
        ensures
            r == self.negated(),
            r@.0 == self@.0.negated(),
            r@.1 == self@.1.negated(),
    {
        Vec2 { x: self.x.neg(), y: self.y.neg() }
    }

    /// Whether every component lies strictly within `epsilon` of zero. Applied
    /// to the difference of two vectors, this is their approximate equality.
    /// A NaN, in a component or as `epsilon`, gives `false`.
    pub fn within(&self, epsilon: Scalar) -> (r: bool)
        ensures
            r == self.all_within(epsilon),
            r == (self@.0.absolute().less(epsilon@) && self@.1.absolute().less(epsilon@)),
    {
        self.x.abs().less_than(epsilon) && self.y.abs().less_than(epsilon)
    }
}

impl PartialEq for Vec2 {
    fn eq(&self, other: &Vec2) -> (r: bool) {
        proof {
            lemma_vec2_same_vector_by_view(*self, *other);
        }
        self.x == other.x && self.y == other.y
    }
}

impl PartialEqSpecImpl for Vec2 {
    open spec fn obeys_eq_spec() -> bool {
        true
    }

    open spec fn eq_spec(&self, other: &Vec2) -> bool {
        self.same_vector(*other)
    }
}

/// Strict equality of encodings is equality of the numbers they stand for,
/// none of which may be a NaN.
pub proof fn lemma_vec2_same_vector_by_view(a: Vec2, b: Vec2)
    ensures
        a.same_vector(b) <==> a@ == b@ && !a.has_nan(),
        a.same_vector(b) <==> a@.0.equal(b@.0) && a@.1.equal(b@.1),
{
    lemma_comparisons_by_view(a.x, b.x);
    lemma_comparisons_by_view(a.y, b.y);
}

/// Negating a vector twice gives it back, bit for bit.
pub proof fn lemma_vec2_negated_twice(a: Vec2)
    ensures
        a.negated().negated() == a,
{
}

/// Strict equality is symmetric and transitive; a vector equals itself
/// exactly when no component is a NaN.
pub proof fn lemma_vec2_same_vector_is_partial_equivalence(a: Vec2, b: Vec2, c: Vec2)
    ensures
        a.same_vector(a) <==> !a.has_nan(),
        a.same_vector(b) <==> b.same_vector(a),
        a.same_vector(b) && b.same_vector(c) ==> a.same_vector(c),
{
}

/// Negation keeps strict equality, and leaves unchanged which vectors lie
/// within a tolerance of zero.
pub proof fn lemma_vec2_negated_keeps_comparisons(a: Vec2, b: Vec2, epsilon: Scalar)
    ensures
        a.same_vector(b) <==> a.negated().same_vector(b.negated()),
        a.all_within(epsilon) <==> a.negated().all_within(epsilon),
{
    lemma_negated_reverses_order(a.x, b.x);
    lemma_absolute_of_negated(a.x);
    lemma_negated_reverses_order(a.y, b.y);
    lemma_absolute_of_negated(a.y);
}

} // verus!
