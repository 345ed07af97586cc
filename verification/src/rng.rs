//! The randomness boundary: a uniform serve angle drawn at each ball reset.

use vstd::prelude::*;
use rand::Rng;

verus! {

/// Relies on rand::thread_rng and rand::Rng::gen_range: a sample that lies
/// within the given inclusive range, which here is never empty. Nothing more
/// is assumed of the draw.
#[verifier::external_body]
pub(crate) fn random_angle_unit() -> (r: i64)
    ensures
        -crate::sim::ANGLE_UNIT <= r <= crate::sim::ANGLE_UNIT,
{
    let mut rng = rand::thread_rng();
    rng.gen_range(-crate::sim::ANGLE_UNIT..=crate::sim::ANGLE_UNIT)
}

} // verus!
