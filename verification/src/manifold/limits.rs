//! The fixed numbers of the geometry rules, kept exact.
//!
//! Each is a fraction of small integers. Whoever computes with machine
//! numbers divides the numerator by the denominator.

use crate::math::Ratio;
use vstd::prelude::*;

verus! {

/// Radius from which a point of the Poincare disk counts as on the rim:
/// ninety-nine hundredths.
pub open spec fn disk_rim_value() -> Ratio {
    Ratio { numer: 99, denom: 100 }
}

/// Radius from which a point of the Poincare disk counts as on the rim.
/// From here on distances are infinite, world coordinates are pulled back
/// to this radius, and geodesics fall back to straight lines.
#[verifier::when_used_as_spec(disk_rim_value)]
pub fn disk_rim() -> (r: Ratio)
    ensures
        r == disk_rim_value(),
{
    Ratio { numer: 99, denom: 100 }
}

/// Radius to which wrapping pulls a point that has reached the rim:
/// ninety-eight hundredths.
pub open spec fn disk_wrap_value() -> Ratio {
    Ratio { numer: 98, denom: 100 }
}

/// Radius to which wrapping pulls a point that has reached the rim.
#[verifier::when_used_as_spec(disk_wrap_value)]
pub fn disk_wrap() -> (r: Ratio)
    ensures
        r == disk_wrap_value(),
{
    Ratio { numer: 98, denom: 100 }
}

/// Radius below which a point of the Poincare disk counts as at the
/// centre: one hundredth.
pub open spec fn disk_centre_value() -> Ratio {
    Ratio { numer: 1, denom: 100 }
}

/// Radius below which a point of the Poincare disk counts as at the centre.
/// A geodesic that ends there is a straight line.
#[verifier::when_used_as_spec(disk_centre_value)]
pub fn disk_centre() -> (r: Ratio)
    ensures
        r == disk_centre_value(),
{
    Ratio { numer: 1, denom: 100 }
}

/// Least denominator of the conformal factor of the Poincare disk: one
/// hundredth.
pub open spec fn conformal_floor_value() -> Ratio {
    Ratio { numer: 1, denom: 100 }
}

/// Least denominator of the conformal factor of the Poincare disk. The
/// factor is two over one minus the squared radius, and the denominator is
/// never taken below this floor, so the factor stays finite at the rim.
#[verifier::when_used_as_spec(conformal_floor_value)]
pub fn conformal_floor() -> (r: Ratio)
    ensures
        r == conformal_floor_value(),
{
    Ratio { numer: 1, denom: 100 }
}

/// Scale of the correction that one segment of a path adds to a vector
/// that is carried along it: one hundredth.
pub open spec fn transport_step_value() -> Ratio {
    Ratio { numer: 1, denom: 100 }
}

/// Scale of the correction that one segment of a path adds to a vector
/// that is carried along it. Transport is approximate by design; a smaller
/// step follows the curvature more closely.
#[verifier::when_used_as_spec(transport_step_value)]
pub fn transport_step() -> (r: Ratio)
    ensures
        r == transport_step_value(),
{
    Ratio { numer: 1, denom: 100 }
}

/// Step of one sweep of the relaxation solver: one tenth.
pub open spec fn learning_rate_value() -> Ratio {
    Ratio { numer: 1, denom: 10 }
}

/// Step of one sweep of the relaxation solver.
#[verifier::when_used_as_spec(learning_rate_value)]
pub fn learning_rate() -> (r: Ratio)
    ensures
        r == learning_rate_value(),
{
    Ratio { numer: 1, denom: 10 }
}

/// Angle, in radians, below which two points of the sphere are joined by a
/// straight blend: one thousandth.
pub open spec fn small_angle_value() -> Ratio {
    Ratio { numer: 1, denom: 1000 }
}

/// Angle, in radians, below which two points of the sphere are joined by a
/// straight blend instead of an arc.
#[verifier::when_used_as_spec(small_angle_value)]
pub fn small_angle() -> (r: Ratio)
    ensures
        r == small_angle_value(),
{
    Ratio { numer: 1, denom: 1000 }
}

/// Size below which the inner product of a ray's direction and a portal's
/// normal counts as zero: one millionth.
pub open spec fn parallel_epsilon_value() -> Ratio {
    Ratio { numer: 1, denom: 1000000 }
}

/// Size below which the inner product of a ray's direction and a portal's
/// normal counts as zero, so that the ray runs parallel to the portal and
/// does not meet it.
#[verifier::when_used_as_spec(parallel_epsilon_value)]
pub fn parallel_epsilon() -> (r: Ratio)
    ensures
        r == parallel_epsilon_value(),
{
    Ratio { numer: 1, denom: 1000000 }
}

/// The radii of the Poincare disk stand in order: the centre region ends
/// before the radius that wrapping pulls to, which lies inside the rim,
/// which lies inside the disk. So a point that was wrapped is in the
/// chart and is not wrapped again. The floor of the conformal factor is
/// positive, and with it the factor is two hundred at most.
pub proof fn lemma_disk_limits()
    ensures
        (Ratio { numer: 0, denom: 1 }).lt(disk_centre()),
        disk_centre().lt(disk_wrap()),
        disk_wrap().lt(disk_rim()),
        disk_rim().lt(Ratio { numer: 1, denom: 1 }),
        conformal_floor().signum() == 1,
        2 * conformal_floor().denom == 200 * conformal_floor().numer,
        disk_rim().wf() && disk_wrap().wf() && disk_centre().wf() && conformal_floor().wf(),
        transport_step().wf() && learning_rate().wf() && small_angle().wf()
            && parallel_epsilon().wf(),
{
}

} // verus!
