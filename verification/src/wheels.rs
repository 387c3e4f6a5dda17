//! The sign conventions of a wheel that rolls along a guide without
//! slipping.
use crate::scalar::Scalar;
use crate::scalar::PI_BITS;
use vstd::prelude::*;

verus! {

/// The arc length on the wheel that meets the guide's arc length `s`: `s`
/// itself for a wheel that rolls inside, `-s` for one that rolls outside and
/// so turns the other way round.
pub fn wheel_arc_length(inside: bool, s: Scalar) -> (r: Scalar)
    ensures
        r == (if inside {
            s
        } else {
            s.negated()
        }),
{
    if inside {
        s
    } else {
        s.neg()
    }
}

/// The turn that is added to the wheel's rotation once the two normals are
/// aligned: none for a wheel that rolls inside, half a turn for one that
/// rolls outside, whose outward face must look at the guide.
pub fn contact_turn(inside: bool) -> (r: Scalar)
    ensures
        r.bits == (if inside {
            0
        } else {
            PI_BITS
        }),
{
    if inside {
        Scalar::zero()
    } else {
        Scalar::pi()
    }
}

} // verus!
