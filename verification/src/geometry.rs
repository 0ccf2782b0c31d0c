//! The decisions of the geometry: whether a ray meets a sphere, and whether a
//! ray that enters a transparent sphere is thrown back.
//!
//! The decisions compare scalars that the caller has worked out from the ray
//! and the sphere. What they return is known exactly for every scalar type
//! whose ordering and whose conversion from small integers follow their
//! specifications.

use crate::objects::lawful;
use vstd::prelude::*;
use vstd::std_specs::cmp::PartialOrdIs;
use vstd::std_specs::convert::FromSpec;

verus! {

/// Whether a ray meets a sphere. With `offset` the vector from the start of
/// the ray to the centre of the sphere, `offset_sq` is the square of its
/// length, `radius_sq` the square of the radius, `along` the length of the
/// part of `offset` that lies along the ray, and `aside_sq` the square of the
/// length of the part that lies across it.
///
/// The ray meets the sphere if it starts outside of it, the sphere lies ahead
/// of it, and it passes the centre at no more than the radius.
pub open spec fn crosses<T: PartialOrd + From<u8>>(
    offset_sq: T,
    radius_sq: T,
    along: T,
    aside_sq: T,
) -> bool {
    &&& !offset_sq.is_le(&radius_sq)
    &&& !along.is_le(&T::from_spec(0u8))
    &&& aside_sq.is_le(&radius_sq)
}

/// Whether a ray meets a sphere; the arguments are those of `crosses`.
pub fn meets<T: PartialOrd + From<u8>>(offset_sq: &T, radius_sq: &T, along: &T, aside_sq: &T) -> (b:
    bool)
    ensures
        lawful::<T>() ==> b == crosses(*offset_sq, *radius_sq, *along, *aside_sq),
{
    let zero = T::from(0u8);
    if *offset_sq <= *radius_sq || *along <= zero {
        false
    } else {
        *aside_sq <= *radius_sq
    }
}

/// A ray that starts inside a sphere, or on it, never meets that sphere,
/// whatever its direction.
pub proof fn inside_never_meets<T: PartialOrd + From<u8>>(
    offset_sq: T,
    radius_sq: T,
    along: T,
    aside_sq: T,
)
    requires
        offset_sq.is_le(&radius_sq),
    ensures
        !crosses(offset_sq, radius_sq, along, aside_sq),
{
}

/// A ray never meets a sphere that lies behind it.
pub proof fn behind_never_meets<T: PartialOrd + From<u8>>(
    offset_sq: T,
    radius_sq: T,
    along: T,
    aside_sq: T,
)
    requires
        along.is_le(&T::from_spec(0u8)),
    ensures
        !crosses(offset_sq, radius_sq, along, aside_sq),
{
}

/// Whether a ray that falls on a transparent sphere is thrown back instead of
/// passing through: it is when the sine of the angle of refraction would be
/// one or more.
pub open spec fn thrown_back<T: PartialOrd + From<u8>>(sine: T) -> bool {
    sine.is_ge(&T::from_spec(1u8))
}

/// Whether a ray that falls on a transparent sphere is thrown back instead of
/// passing through, given the sine that the angle of refraction would have.
pub fn reflects_totally<T: PartialOrd + From<u8>>(sine: &T) -> (b: bool)
    ensures
        lawful::<T>() ==> b == thrown_back(*sine),
{
    let one = T::from(1u8);
    *sine >= one
}

} // verus!
