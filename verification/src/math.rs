//! Three-component state vectors whose components are IEEE-754 doubles
//! carried as bit patterns.

use vstd::prelude::*;
use crate::fbits::{
    f64_add, f64_sub, fadd, fsub, same_float_value, spec_fneg, F64_ZERO,
};

verus! {

/// A 3-vector of IEEE-754 doubles, each carried as its 64-bit encoding.
#[derive(Clone, Copy, Debug, PartialEq, Eq, Structural)]
pub struct Vector3 {
    pub x: u64,
    pub y: u64,
    pub z: u64,
}

/// The componentwise IEEE-754 sum of two vectors.
pub open spec fn spec_vadd(a: Vector3, b: Vector3) -> Vector3 {
    Vector3 { x: fadd(a.x, b.x), y: fadd(a.y, b.y), z: fadd(a.z, b.z) }
}

/// The componentwise IEEE-754 difference of two vectors.
pub open spec fn spec_vsub(a: Vector3, b: Vector3) -> Vector3 {
    Vector3 { x: fsub(a.x, b.x), y: fsub(a.y, b.y), z: fsub(a.z, b.z) }
}

/// The componentwise IEEE-754 negation of a vector.
pub open spec fn spec_vneg(a: Vector3) -> Vector3 {
    Vector3 { x: spec_fneg(a.x), y: spec_fneg(a.y), z: spec_fneg(a.z) }
}

/// Componentwise value equality: each pair of components encodes the same
/// number (or both are NaN).
pub open spec fn vec_same_value(a: Vector3, b: Vector3) -> bool {
    same_float_value(a.x, b.x) && same_float_value(a.y, b.y) && same_float_value(a.z, b.z)
}

/// The zero vector: every component is `+0.0`.
pub open spec fn spec_zero_vec() -> Vector3 {
    Vector3 { x: F64_ZERO, y: F64_ZERO, z: F64_ZERO }
}

impl Vector3 {
    /// The zero vector: every component is `+0.0`.
    pub fn zeros() -> (r: Vector3)
        ensures
            r == spec_zero_vec(),
    {
        Vector3 { x: F64_ZERO, y: F64_ZERO, z: F64_ZERO }
    }
}

/// Componentwise IEEE-754 addition.
pub fn vadd(a: &Vector3, b: &Vector3) -> (r: Vector3)
    ensures
        r == spec_vadd(*a, *b),
{
    Vector3 { x: f64_add(a.x, b.x), y: f64_add(a.y, b.y), z: f64_add(a.z, b.z) }
}

/// Componentwise IEEE-754 subtraction. The second clause records that the
/// swapped difference encodes, component by component, exactly the
/// negated values of this one.
pub fn vsub(a: &Vector3, b: &Vector3) -> (r: Vector3)
    ensures
        r == spec_vsub(*a, *b),
        vec_same_value(spec_vsub(*b, *a), spec_vneg(r)),
{
    Vector3 { x: f64_sub(a.x, b.x), y: f64_sub(a.y, b.y), z: f64_sub(a.z, b.z) }
}

} // verus!
