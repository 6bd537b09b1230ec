//! Three-component vectors of binary32 scalars.

use vstd::prelude::*;

use crate::scalar;
use crate::scalar::add_bits;
use crate::scalar::div_bits;
use crate::scalar::mul_bits;
use crate::scalar::neg_bits;
use crate::scalar::sqrt_bits;
use crate::scalar::sub_bits;

verus! {

/// A three-component vector. Each component holds the `u32` bit pattern of
/// an IEEE-754 binary32 value; any pattern, including infinities and NaNs,
/// is accepted.
#[derive(Debug, Clone, Copy, PartialEq, Eq, Structural)]
pub struct Vector3D {
    pub x: u32,
    pub y: u32,
    pub z: u32,
}

impl Vector3D {
    /// The component at position 0, 1 or 2 (x, y or z).
    pub open spec fn spec_index(self, i: int) -> u32 {
        if i == 0 {
            self.x
        } else if i == 1 {
            self.y
        } else {
            self.z
        }
    }

    /// Componentwise binary32 sum.
    pub open spec fn spec_add(self, other: Vector3D) -> Vector3D {
        Vector3D {
            x: add_bits(self.x, other.x),
            y: add_bits(self.y, other.y),
            z: add_bits(self.z, other.z),
        }
    }

    /// Componentwise binary32 difference.
    pub open spec fn spec_sub(self, other: Vector3D) -> Vector3D {
        Vector3D {
            x: sub_bits(self.x, other.x),
            y: sub_bits(self.y, other.y),
            z: sub_bits(self.z, other.z),
        }
    }

    /// Componentwise binary32 negation (sign-bit flip).
    pub open spec fn spec_neg(self) -> Vector3D {
        Vector3D { x: neg_bits(self.x), y: neg_bits(self.y), z: neg_bits(self.z) }
    }

    /// Componentwise binary32 scaling by a scalar.
    pub open spec fn spec_mul(self, rhs: u32) -> Vector3D {
        Vector3D { x: mul_bits(self.x, rhs), y: mul_bits(self.y, rhs), z: mul_bits(self.z, rhs) }
    }

    /// Componentwise binary32 division by a scalar.
    pub open spec fn spec_div(self, rhs: u32) -> Vector3D {
        Vector3D { x: div_bits(self.x, rhs), y: div_bits(self.y, rhs), z: div_bits(self.z, rhs) }
    }

    /// The binary32 sum x*x + y*y + z*z, multiplied and summed left to
    /// right exactly as `magnitude` computes it.
    pub open spec fn spec_norm_squared(self) -> u32 {
        add_bits(add_bits(mul_bits(self.x, self.x), mul_bits(self.y, self.y)), mul_bits(self.z, self.z))
    }

    /// The binary32 Euclidean norm: the square root of `spec_norm_squared`.
    pub open spec fn spec_magnitude(self) -> u32 {
        sqrt_bits(self.spec_norm_squared())
    }

    /// Construct a vector from three component bit patterns; no validation,
    /// every pattern is accepted.
    pub fn new(x: u32, y: u32, z: u32) -> (v: Vector3D)
        ensures
            v == (Vector3D { x, y, z }),
    {
        Vector3D { x, y, z }
    }

    /// Componentwise sum; the operands are borrowed and reusable.
    pub fn add(&self, other: &Vector3D) -> (r: Vector3D)
        ensures
            r == self.spec_add(*other),
    {
        Vector3D {
            x: scalar::scalar_add(self.x, other.x),
            y: scalar::scalar_add(self.y, other.y),
            z: scalar::scalar_add(self.z, other.z),
        }
    }

    /// Componentwise difference; consumes both operands.
    pub fn sub(self, other: Vector3D) -> (r: Vector3D)
        ensures
            r == self.spec_sub(other),
    {
        Vector3D {
            x: scalar::scalar_sub(self.x, other.x),
            y: scalar::scalar_sub(self.y, other.y),
            z: scalar::scalar_sub(self.z, other.z),
        }
    }

    /// Componentwise negation; consumes the operand.
    pub fn neg(self) -> (r: Vector3D)
        ensures
            r == self.spec_neg(),
    {
        Vector3D {
            x: scalar::scalar_neg(self.x),
            y: scalar::scalar_neg(self.y),
            z: scalar::scalar_neg(self.z),
        }
    }

    /// Componentwise scaling; the vector is borrowed and reusable.
    pub fn mul(&self, rhs: u32) -> (r: Vector3D)
        ensures
            r == self.spec_mul(rhs),
    {
        Vector3D {
            x: scalar::scalar_mul(self.x, rhs),
            y: scalar::scalar_mul(self.y, rhs),
            z: scalar::scalar_mul(self.z, rhs),
        }
    }

    /// Componentwise division; the vector is borrowed and reusable.
    /// Division by a zero pattern follows IEEE-754 and yields infinity or
    /// NaN patterns, never an error.
    pub fn div(&self, rhs: u32) -> (r: Vector3D)
        ensures
            r == self.spec_div(rhs),
    {
        Vector3D {
            x: scalar::scalar_div(self.x, rhs),
            y: scalar::scalar_div(self.y, rhs),
            z: scalar::scalar_div(self.z, rhs),
        }
    }

    /// In-place componentwise scaling.
    pub fn mul_assign(&mut self, rhs: u32)
        ensures
            *final(self) == old(self).spec_mul(rhs),
    {
        self.x = scalar::scalar_mul(self.x, rhs);
        self.y = scalar::scalar_mul(self.y, rhs);
        self.z = scalar::scalar_mul(self.z, rhs);
    }

    /// In-place componentwise division; division by a zero pattern follows
    /// IEEE-754, as in `div`.
    pub fn div_assign(&mut self, rhs: u32)
        ensures
            *final(self) == old(self).spec_div(rhs),
    {
        self.x = scalar::scalar_div(self.x, rhs);
        self.y = scalar::scalar_div(self.y, rhs);
        self.z = scalar::scalar_div(self.z, rhs);
    }

    /// Read the component at position 0, 1 or 2; any other position is
    /// outside this function's contract.
    pub fn index(&self, i: usize) -> (r: u32)
        requires
            i < 3,
        ensures
            r == self.spec_index(i as int),
    {
        if i == 0 {
            self.x
        } else if i == 1 {
            self.y
        } else {
            self.z
        }
    }

    /// Write the component at position 0, 1 or 2, leaving the other two
    /// unchanged; any other position is outside this function's contract.
    pub fn set(&mut self, i: usize, value: u32)
        requires
            i < 3,
        ensures
            final(self).spec_index(i as int) == value,
            forall|j: int| 0 <= j < 3 && j != i ==> final(self).spec_index(j) == old(self).spec_index(j),
    {
        if i == 0 {
            self.x = value;
        } else if i == 1 {
            self.y = value;
        } else {
            self.z = value;
        }
    }

    /// The Euclidean norm sqrt(x*x + y*y + z*z), with the squares summed
    /// left to right in binary32 arithmetic.
    pub fn magnitude(&self) -> (r: u32)
        ensures
            r == self.spec_magnitude(),
    {
        let xx = scalar::scalar_mul(self.x, self.x);
        let yy = scalar::scalar_mul(self.y, self.y);
        let zz = scalar::scalar_mul(self.z, self.z);
        scalar::scalar_sqrt(scalar::scalar_add(scalar::scalar_add(xx, yy), zz))
    }

    /// The vector divided componentwise by its own magnitude. For a zero
    /// vector the divisions follow IEEE-754 and yield NaN patterns; there
    /// is no special guard.
    pub fn normalize(&self) -> (r: Vector3D)
        ensures
            r == self.spec_div(self.spec_magnitude()),
    {
        let m = self.magnitude();
        self.div(m)
    }
}

/// Negating a vector twice restores it exactly: each component's sign bit
/// is flipped and flipped back, and no other bit moves.
pub proof fn lemma_neg_involutive(v: Vector3D)
    ensures
        v.spec_neg().spec_neg() == v,
{
    scalar::lemma_neg_bits_involutive(v.x);
    scalar::lemma_neg_bits_involutive(v.y);
    scalar::lemma_neg_bits_involutive(v.z);
}

} // verus!
