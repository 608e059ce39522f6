//! How a ray meets a sphere, decided from the discriminant of the quadratic
//! and the two roots.
//!
//! For a sphere of centre `C` and radius `R` and a ray `O + t D` with `D` of
//! length one, let `L = O - C`, `b = D . L` and `c = L . L - R * R`. The
//! discriminant is `b * b - c`. The far root is `-b` plus its square root,
//! the near root `-b` minus it.

use vstd::prelude::*;
use crate::scalar::Scalar;

verus! {

/// The number of points in which the line of a ray meets a sphere.
#[derive(Clone, Copy, Debug, PartialEq, Eq, Structural)]
pub enum Contact {
    /// The line passes the sphere by: there is no root.
    Miss,
    /// The line touches the sphere: both roots are `-b`.
    Tangent,
    /// The line enters and leaves the sphere: there are two roots.
    Secant,
}

/// The contact that a discriminant stands for.
pub open spec fn contact_of(discriminant: Scalar) -> Contact {
    if discriminant.negative() {
        Contact::Miss
    } else if discriminant.null() {
        Contact::Tangent
    } else {
        Contact::Secant
    }
}

/// The root at which a ray is taken to meet a sphere: the near root, unless
/// that is negative, in which case the far root.
pub open spec fn chosen_root(far: Scalar, near: Scalar) -> Scalar {
    if near.negative() {
        far
    } else {
        near
    }
}

/// Tells from the discriminant how the line of a ray meets a sphere.
///
/// A negative discriminant is a miss and a zero one, of either sign, a
/// tangent. Every other pattern is a secant, one that is not a number too:
/// its roots are then no numbers either and are never visible.
pub fn classify(discriminant: Scalar) -> (contact: Contact)
    ensures
        contact == contact_of(discriminant),
{
    if discriminant.is_negative() {
        Contact::Miss
    } else if discriminant.is_zero() {
        Contact::Tangent
    } else {
        Contact::Secant
    }
}

/// Chooses between the two roots of a hit.
///
/// The near root is the smaller of the two and is where the ray enters the
/// sphere. Where it is negative the origin lies inside the sphere, or the
/// sphere behind the origin, and the far root is given. The result may still
/// be negative: it is for the scene's resolver to leave such a hit out.
pub fn choose_root(far: Scalar, near: Scalar) -> (root: Scalar)
    ensures
        root == chosen_root(far, near),
{
    if near.is_negative() {
        far
    } else {
        near
    }
}

/// Of two roots with `near <= far`, the chosen one is the smallest that is
/// not negative, where there is one. It is greater than zero exactly when the
/// far root is and the near root is not zero.
pub proof fn lemma_chosen_root_visibility(far: Scalar, near: Scalar)
    requires
        far.is_number(),
        near.is_number(),
        near.rank() <= far.rank(),
    ensures
        chosen_root(far, near).positive() <==> (far.positive() && !near.null()),
        !near.negative() ==> chosen_root(far, near) == near,
        near.negative() ==> chosen_root(far, near) == far,
{
}

} // verus!
