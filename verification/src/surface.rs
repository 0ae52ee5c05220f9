//! Which root of a ray's intersection with a surface counts.
//!
//! The renderer solves the equations; the policies here say which of the
//! solutions is the intersection, from the signs that the solution shows.

use vstd::prelude::*;

verus! {

/// The sign of the discriminant of a ray's quadratic against a sphere.
#[derive(Clone, Copy, Debug, PartialEq, Eq, Structural)]
pub enum Discriminant {
    /// The ray passes the sphere by.
    Negative,
    /// The ray grazes the sphere.
    Zero,
    /// The ray's line pierces the sphere twice.
    Positive,
}

/// The intersection of a ray with a sphere.
#[derive(Clone, Copy, Debug, PartialEq, Eq, Structural)]
pub enum SphereHit {
    /// No intersection ahead of the ray's origin.
    Miss,
    /// The single root of a grazing ray.
    Tangent,
    /// The smaller of the two roots.
    Near,
    /// The larger of the two roots.
    Far,
}

/// The sphere policy.
///
/// A grazing ray counts only where the quadratic's leading coefficient is
/// not positive. Of two roots the smaller counts unless it lies behind the
/// origin, then the larger unless it lies behind the origin too.
pub open spec fn sphere_policy(
    discriminant: Discriminant,
    leading_positive: bool,
    near_behind: bool,
    far_behind: bool,
) -> SphereHit {
    match discriminant {
        Discriminant::Negative => SphereHit::Miss,
        Discriminant::Zero => if leading_positive {
            SphereHit::Miss
        } else {
            SphereHit::Tangent
        },
        Discriminant::Positive => if !near_behind {
            SphereHit::Near
        } else if !far_behind {
            SphereHit::Far
        } else {
            SphereHit::Miss
        },
    }
}

/// Chooses the intersection of a ray with a sphere.
///
/// `leading_positive` says whether the quadratic's leading coefficient, the
/// direction's squared length, is positive; `near_behind` and `far_behind`
/// say whether the smaller and the larger root are negative, and are read
/// only where the discriminant is positive.
pub fn sphere_hit(
    discriminant: Discriminant,
    leading_positive: bool,
    near_behind: bool,
    far_behind: bool,
) -> (hit: SphereHit)
    ensures
        hit == sphere_policy(discriminant, leading_positive, near_behind, far_behind),
        discriminant == Discriminant::Zero ==> hit == SphereHit::Miss || hit == SphereHit::Tangent,
{
    match discriminant {
        Discriminant::Negative => SphereHit::Miss,
        Discriminant::Zero => {
            if leading_positive {
                SphereHit::Miss
            } else {
                SphereHit::Tangent
            }
        },
        Discriminant::Positive => {
            if !near_behind {
                SphereHit::Near
            } else if !far_behind {
                SphereHit::Far
            } else {
                SphereHit::Miss
            }
        },
    }
}

/// Tells whether a ray meets a plane ahead of its origin.
///
/// With `numerator` the signed distance of the origin from the plane and
/// `denominator` the direction's component along the normal, the root is
/// their quotient. A ray parallel to the plane has none, and a quotient of
/// opposite signs lies behind the origin.
pub fn plane_hit(denominator_zero: bool, denominator_negative: bool, numerator_negative: bool) -> (hit:
    bool)
    ensures
        hit <==> !denominator_zero && (denominator_negative <==> numerator_negative),
        denominator_zero ==> !hit,
{
    !denominator_zero && denominator_negative == numerator_negative
}

/// A grazing ray never yields one of two distinct roots: it misses, or it
/// yields the single tangent point.
pub proof fn lemma_tangent_has_no_pair(leading_positive: bool, near_behind: bool, far_behind: bool)
    ensures
        sphere_policy(Discriminant::Zero, leading_positive, near_behind, far_behind)
            != SphereHit::Near,
        sphere_policy(Discriminant::Zero, leading_positive, near_behind, far_behind)
            != SphereHit::Far,
{
}

} // verus!
