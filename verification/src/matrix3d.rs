//! 3x3 matrices of binary32 scalars, stored column-major and addressed in
//! row-column order.

use vstd::prelude::*;

use crate::scalar;
use crate::scalar::add_bits;
use crate::scalar::mul_bits;
use crate::vector3d::Vector3D;

verus! {

/// A 3x3 matrix. The nine scalars are stored as three columns of three
/// components each (column-major layout); the logical entry at `(row, col)`
/// is component `row` of column `col`, so the layout is invisible to the
/// row-column accessors.
#[derive(Debug, Clone, Copy, PartialEq, Eq, Structural)]
pub struct Matrix3D {
    pub c0: Vector3D,
    pub c1: Vector3D,
    pub c2: Vector3D,
}

/// The binary32 dot product of row `row` of `a` with column `col` of `b`,
/// multiplied and summed left to right exactly as `mul` computes it:
/// (a(row,0)*b(0,col) + a(row,1)*b(1,col)) + a(row,2)*b(2,col).
pub open spec fn product_entry(a: Matrix3D, b: Matrix3D, row: int, col: int) -> u32 {
    add_bits(
        add_bits(
            mul_bits(a.spec_entry(row, 0), b.spec_entry(0, col)),
            mul_bits(a.spec_entry(row, 1), b.spec_entry(1, col)),
        ),
        mul_bits(a.spec_entry(row, 2), b.spec_entry(2, col)),
    )
}

impl Matrix3D {
    /// The column at position 0, 1 or 2, as a vector.
    pub open spec fn spec_column(self, j: int) -> Vector3D {
        if j == 0 {
            self.c0
        } else if j == 1 {
            self.c1
        } else {
            self.c2
        }
    }

    /// The logical entry at `(row, col)`: component `row` of column `col`.
    pub open spec fn spec_entry(self, row: int, col: int) -> u32 {
        self.spec_column(col).spec_index(row)
    }

    /// Construct a matrix from nine scalars given in row-major reading
    /// order (`n01` is row 0, column 1); they are repacked into the
    /// column-major storage, so entry `(r, c)` is `nrc`.
    pub fn new(
        n00: u32,
        n01: u32,
        n02: u32,
        n10: u32,
        n11: u32,
        n12: u32,
        n20: u32,
        n21: u32,
        n22: u32,
    ) -> (m: Matrix3D)
        ensures
            m.spec_entry(0, 0) == n00,
            m.spec_entry(0, 1) == n01,
            m.spec_entry(0, 2) == n02,
            m.spec_entry(1, 0) == n10,
            m.spec_entry(1, 1) == n11,
            m.spec_entry(1, 2) == n12,
            m.spec_entry(2, 0) == n20,
            m.spec_entry(2, 1) == n21,
            m.spec_entry(2, 2) == n22,
            m.spec_column(0) == (Vector3D { x: n00, y: n10, z: n20 }),
            m.spec_column(1) == (Vector3D { x: n01, y: n11, z: n21 }),
            m.spec_column(2) == (Vector3D { x: n02, y: n12, z: n22 }),
    {
        Matrix3D {
            c0: Vector3D { x: n00, y: n10, z: n20 },
            c1: Vector3D { x: n01, y: n11, z: n21 },
            c2: Vector3D { x: n02, y: n12, z: n22 },
        }
    }

    /// Construct the matrix whose columns are the three given vectors, in
    /// order.
    pub fn from_vectors(v1: &Vector3D, v2: &Vector3D, v3: &Vector3D) -> (m: Matrix3D)
        ensures
            m.spec_column(0) == *v1,
            m.spec_column(1) == *v2,
            m.spec_column(2) == *v3,
    {
        Matrix3D { c0: *v1, c1: *v2, c2: *v3 }
    }

    /// Read the logical entry at `(row, col)`, both in 0..3; any other
    /// pair is outside this function's contract.
    pub fn get(&self, row: usize, col: usize) -> (r: u32)
        requires
            row < 3,
            col < 3,
        ensures
            r == self.spec_entry(row as int, col as int),
    {
        self.column_ref(col).index(row)
    }

    /// Write the logical entry at `(row, col)`, both in 0..3, leaving the
    /// other eight entries unchanged; any other pair is outside this
    /// function's contract.
    pub fn set(&mut self, row: usize, col: usize, value: u32)
        requires
            row < 3,
            col < 3,
        ensures
            final(self).spec_entry(row as int, col as int) == value,
            forall|r: int, c: int|
                0 <= r < 3 && 0 <= c < 3 && !(r == row && c == col)
                    ==> final(self).spec_entry(r, c) == old(self).spec_entry(r, c),
    {
        if col == 0 {
            self.c0.set(row, value);
        } else if col == 1 {
            self.c1.set(row, value);
        } else {
            self.c2.set(row, value);
        }
    }

    /// Read the column at position 0, 1 or 2 as a vector (a copy of the
    /// three column slots); any other position is outside this function's
    /// contract.
    pub fn column(&self, j: usize) -> (r: Vector3D)
        requires
            j < 3,
        ensures
            r == self.spec_column(j as int),
    {
        *self.column_ref(j)
    }

    /// Replace the column at position 0, 1 or 2 with the given vector,
    /// leaving the other two columns unchanged; any other position is
    /// outside this function's contract. Writes through a column read back
    /// by `column` must go through this function: the pair replaces the
    /// in-place column view of an unchecked layout.
    pub fn set_column(&mut self, j: usize, v: Vector3D)
        requires
            j < 3,
        ensures
            final(self).spec_column(j as int) == v,
            forall|k: int| 0 <= k < 3 && k != j ==> final(self).spec_column(k) == old(self).spec_column(k),
    {
        if j == 0 {
            self.c0 = v;
        } else if j == 1 {
            self.c1 = v;
        } else {
            self.c2 = v;
        }
    }

    /// Borrow the column at position 0, 1 or 2.
    fn column_ref(&self, j: usize) -> (r: &Vector3D)
        requires
            j < 3,
        ensures
            *r == self.spec_column(j as int),
    {
        if j == 0 {
            &self.c0
        } else if j == 1 {
            &self.c1
        } else {
            &self.c2
        }
    }

    /// The matrix product: entry `(row, col)` of the result is the binary32
    /// dot product of row `row` of `self` with column `col` of `rhs`,
    /// multiplied and summed left to right. Consumes both operands. Not
    /// commutative in general.
    pub fn mul(self, rhs: Matrix3D) -> (m: Matrix3D)
        ensures
            forall|r: int, c: int|
                0 <= r < 3 && 0 <= c < 3 ==> m.spec_entry(r, c) == product_entry(self, rhs, r, c),
    {
        Matrix3D::new(
            Matrix3D::dot(&self, &rhs, 0, 0),
            Matrix3D::dot(&self, &rhs, 0, 1),
            Matrix3D::dot(&self, &rhs, 0, 2),
            Matrix3D::dot(&self, &rhs, 1, 0),
            Matrix3D::dot(&self, &rhs, 1, 1),
            Matrix3D::dot(&self, &rhs, 1, 2),
            Matrix3D::dot(&self, &rhs, 2, 0),
            Matrix3D::dot(&self, &rhs, 2, 1),
            Matrix3D::dot(&self, &rhs, 2, 2),
        )
    }

    /// The binary32 dot product of row `row` of `a` with column `col` of
    /// `b`, multiplied and summed left to right.
    fn dot(a: &Matrix3D, b: &Matrix3D, row: usize, col: usize) -> (r: u32)
        requires
            row < 3,
            col < 3,
        ensures
            r == product_entry(*a, *b, row as int, col as int),
    {
        let p0 = scalar::scalar_mul(a.get(row, 0), b.get(0, col));
        let p1 = scalar::scalar_mul(a.get(row, 1), b.get(1, col));
        let p2 = scalar::scalar_mul(a.get(row, 2), b.get(2, col));
        scalar::scalar_add(scalar::scalar_add(p0, p1), p2)
    }
}

/// The layout invariant, read through the public model: the entry at
/// `(row, col)` is always component `row` of the vector that `spec_column`
/// yields for column `col`, so a read through either accessor sees a write
/// made through the other.
pub proof fn lemma_entry_column_agree(m: Matrix3D, row: int, col: int)
    ensures
        m.spec_entry(row, col) == m.spec_column(col).spec_index(row),
{
}

} // verus!
