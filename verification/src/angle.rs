//! The exact part of taking the angle between two vectors.
use crate::scalar::{Number, Scalar};
use vstd::prelude::*;

verus! {

/// The cosine from which the angle between two vectors is taken.
///
/// `magnitude_product` is the product of the two magnitudes and `quotient`
/// the dot product divided by it. Where the product is zero, of either sign,
/// there is no cosine and the angle is 0: the result is `None`, whatever the
/// quotient holds. Otherwise the result is the quotient limited to the
/// interval from minus one to one, so that its arc cosine exists; a NaN
/// quotient gives one, and so the angle 0.
pub fn angle_cosine(magnitude_product: Scalar, quotient: Scalar) -> (r: Option<Scalar>)
    ensures
        r is None <==> magnitude_product@ == Number::Finite(0),
        r is Some ==> r == Some(quotient.clamped_to_unit()),
        r is Some ==> r.unwrap()@ == quotient@.clamped_to_unit(),
{
    if magnitude_product.is_zero() {
        None
    } else {
        Some(quotient.clamp_unit())
    }
}

} // verus!
