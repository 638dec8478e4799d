use crate::scalar::{exact, one, zero};
use crate::vec::{Vec3, Vec4};
use num_traits::Float;
use vstd::prelude::*;

verus! {

/// Matrix of three rows of four components.
#[derive(Debug, Clone, Copy)]
pub struct Mat3x4<F> {
    pub r0: Vec4<F>,
    pub r1: Vec4<F>,
    pub r2: Vec4<F>,
}

impl<F: Float> Mat3x4<F> {
    /// Row `i`: `r0` for 0, `r1` for 1, `r2` otherwise.
    pub open spec fn spec_row(self, i: int) -> Vec4<F> {
        if i == 0 {
            self.r0
        } else if i == 1 {
            self.r1
        } else {
            self.r2
        }
    }

    /// Column `j`: component `j` of each row.
    pub open spec fn spec_column(self, j: int) -> Vec3<F> {
        Vec3 { x: self.r0.spec_get(j), y: self.r1.spec_get(j), z: self.r2.spec_get(j) }
    }

    /// Creates new matrix from rows.
    pub fn new(r0: Vec4<F>, r1: Vec4<F>, r2: Vec4<F>) -> (r: Self)
        ensures
            r == (Mat3x4 { r0, r1, r2 }),
    {
        Self { r0, r1, r2 }
    }

    /// Returns row `I`, for `I < 3`.
    pub fn row<const I: usize>(&self) -> (r: Vec4<F>)
        requires
            I < 3,
        ensures
            r == self.spec_row(I as int),
    {
        if I == 0 {
            self.r0
        } else if I == 1 {
            self.r1
        } else {
            self.r2
        }
    }

    /// Replaces row `I`, for `I < 3`, keeping the others.
    pub fn set_row<const I: usize>(&mut self, row: Vec4<F>)
        requires
            I < 3,
        ensures
            final(self).spec_row(I as int) == row,
            forall|i: int|
                0 <= i < 3 && i != I ==> #[trigger] final(self).spec_row(i) == old(self).spec_row(
                    i,
                ),
    {
        if I == 0 {
            self.r0 = row;
        } else if I == 1 {
            self.r1 = row;
        } else {
            self.r2 = row;
        }
    }

    /// Returns column `I`, for `I < 4`.
    pub fn column<const I: usize>(&self) -> (r: Vec3<F>)
        requires
            I < 4,
        ensures
            r == self.spec_column(I as int),
    {
        if I == 0 {
            Vec3::new(self.r0.x, self.r1.x, self.r2.x)
        } else if I == 1 {
            Vec3::new(self.r0.y, self.r1.y, self.r2.y)
        } else if I == 2 {
            Vec3::new(self.r0.z, self.r1.z, self.r2.z)
        } else {
            Vec3::new(self.r0.w, self.r1.w, self.r2.w)
        }
    }

    /// Replaces column `I`, for `I < 4`: component `I` of each row takes the
    /// matching component of `column`.
    pub fn set_column<const I: usize>(&mut self, column: Vec3<F>)
        requires
            I < 4,
        ensures
            final(self).r0 == old(self).r0.spec_set(I as int, column.x),
            final(self).r1 == old(self).r1.spec_set(I as int, column.y),
            final(self).r2 == old(self).r2.spec_set(I as int, column.z),
    {
        if I == 0 {
            self.r0.x = column.x;
            self.r1.x = column.y;
            self.r2.x = column.z;
        } else if I == 1 {
            self.r0.y = column.x;
            self.r1.y = column.y;
            self.r2.y = column.z;
        } else if I == 2 {
            self.r0.z = column.x;
            self.r1.z = column.y;
            self.r2.z = column.z;
        } else {
            self.r0.w = column.x;
            self.r1.w = column.y;
            self.r2.w = column.z;
        }
    }

    /// Creates new identity matrix: ones on the diagonal, zeros elsewhere.
    pub fn identity() -> (r: Self)
        ensures
            r.r1.y == r.r0.x && r.r2.z == r.r0.x,
            r.r0.z == r.r0.y && r.r0.w == r.r0.y,
            r.r1.x == r.r0.y && r.r1.z == r.r0.y && r.r1.w == r.r0.y,
            r.r2.x == r.r0.y && r.r2.y == r.r0.y && r.r2.w == r.r0.y,
    {
        let (o, z) = (one(), zero());
        Self {
            r0: Vec4::new(o, z, z, z),
            r1: Vec4::new(z, o, z, z),
            r2: Vec4::new(z, z, o, z),
        }
    }
}

impl<F: Float> Vec4<F> {
    /// Multiplies the row vector by the matrix: component `i` of the result is
    /// the dot product of `self` with row `i`.
    pub fn mul_mat(self, rhs: Mat3x4<F>) -> (r: Vec3<F>)
        ensures
            exact::<F>() ==> r == (Vec3 {
                x: self.spec_dot(rhs.r0),
                y: self.spec_dot(rhs.r1),
                z: self.spec_dot(rhs.r2),
            }),
    {
        Vec3 { x: self.dot(rhs.r0), y: self.dot(rhs.r1), z: self.dot(rhs.r2) }
    }
}

} // verus!
