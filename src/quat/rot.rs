use crate::scalar::{
    atan2, cos, diff, exact, minus, one, over, plus, prod, quot, sin, sqrt, sum, times, zero,
};
use crate::vec::Vec3;
use num_traits::Float;
use vstd::prelude::*;

verus! {

/// Quaternion with a vector part `v` and a scalar part `w`.
///
/// A quaternion whose squared norm is one represents a rotation in 3D.
#[derive(Debug, PartialEq, Default, Clone, Copy)]
pub struct Quat<F> {
    /// Vector part.
    pub v: Vec3<F>,
    /// Scalar part.
    pub w: F,
}

impl<F: Float> Quat<F> {
    /// The quaternion with vector part `v` and scalar part `w`.
    pub open spec fn pure(v: Vec3<F>, w: F) -> Self {
        Quat { v, w }
    }

    /// The Hamilton product `self · o`.
    pub open spec fn spec_product(self, o: Self) -> Self {
        let (a, w, b, ow) = (self.v, self.w, o.v, o.w);
        Quat {
            v: Vec3 {
                x: diff(sum(sum(prod(w, b.x), prod(a.x, ow)), prod(a.y, b.z)), prod(a.z, b.y)),
                y: sum(sum(diff(prod(w, b.y), prod(a.x, b.z)), prod(a.y, ow)), prod(a.z, b.x)),
                z: sum(diff(sum(prod(w, b.z), prod(a.x, b.y)), prod(a.y, b.x)), prod(a.z, ow)),
            },
            w: diff(diff(diff(prod(w, ow), prod(a.x, b.x)), prod(a.y, b.y)), prod(a.z, b.z)),
        }
    }

    /// The conjugate: the vector part negated.
    pub open spec fn spec_conjugate(self) -> Self {
        Quat { v: self.v.spec_neg(), w: self.w }
    }

    /// The squared norm `|v|² + w²`.
    pub open spec fn spec_sqrt_norm(self) -> F {
        sum(self.v.spec_dot(self.v), prod(self.w, self.w))
    }

    /// Componentwise sum.
    pub open spec fn spec_add(self, o: Self) -> Self {
        Quat { v: self.v.spec_add(o.v), w: sum(self.w, o.w) }
    }

    /// Componentwise difference.
    pub open spec fn spec_sub(self, o: Self) -> Self {
        Quat { v: self.v.spec_sub(o.v), w: diff(self.w, o.w) }
    }

    /// Every component multiplied by `f`.
    pub open spec fn spec_mul(self, f: F) -> Self {
        Quat { v: self.v.spec_mul(f), w: prod(self.w, f) }
    }

    /// Every component divided by `f`.
    pub open spec fn spec_div(self, f: F) -> Self {
        Quat { v: self.v.spec_div(f), w: quot(self.w, f) }
    }

    /// The reciprocal: the conjugate divided by the squared norm.
    pub open spec fn spec_reciprocal(self) -> Self {
        self.spec_conjugate().spec_div(self.spec_sqrt_norm())
    }

    /// `r` is the vector part of `self · (p, z) · self⁻¹` for some scalar part
    /// `z` of the embedded vector (the scalar type's zero, which no
    /// specification names).
    pub open spec fn rotates_to(self, p: Vec3<F>, r: Vec3<F>) -> bool {
        exists|z: F|
            {
                let inner = self.spec_product(#[trigger] Self::pure(p, z));
                r == inner.spec_product(self.spec_reciprocal()).v
            }
    }

    /// The vector part is `axis`, divided by some length and multiplied by
    /// some factor: the quaternion turns about `axis`.
    pub open spec fn turns_about(self, axis: Vec3<F>) -> bool {
        exists|l: F, s: F| self.v == #[trigger] axis.spec_div(l).spec_mul(s)
    }

    /// Creates new quaternion.
    pub fn new(v: Vec3<F>, w: F) -> (r: Self)
        ensures
            r == (Quat { v, w }),
    {
        Self { v, w }
    }

    /// Creates new quaternion with `v` as vector part and zero as scalar part.
    pub fn new_vector(v: Vec3<F>) -> (r: Self)
        ensures
            r.v == v,
    {
        Self { v, w: zero() }
    }

    /// Creates new quaternion that represents a rotation around `axis` by
    /// `angle` radians: `(axis / |axis| · sin(angle / 2), cos(angle / 2))`.
    /// The axis need not be normalized.
    pub fn new_axis_rotation(axis: Vec3<F>, angle: F) -> (r: Self)
        ensures
            exact::<F>() ==> r.turns_about(axis),
    {
        let o = one();
        let half = over(angle, plus(o, o));
        let n = axis.normalized();
        let s = sin(half);
        let r = Self { v: n.mul(s), w: cos(half) };
        assert(exact::<F>() ==> exists|l: F| n == #[trigger] axis.spec_div(l));
        proof {
            if exact::<F>() {
                let l = choose|l: F| n == #[trigger] axis.spec_div(l);
                assert(r.v == axis.spec_div(l).spec_mul(s));
            }
        }
        r
    }

    /// Creates new quaternion that represents the rotation that moves vector
    /// `from` to vector `to`: about `from × to`, by the angle between them.
    /// Parallel or opposite vectors give no axis and non-finite components.
    pub fn new_dst_rotation(from: Vec3<F>, to: Vec3<F>) -> (r: Self)
        ensures
            exact::<F>() ==> r.turns_about(from.spec_cross(to)),
    {
        let normal = from.cross(to);
        let angle = to.angle_to(from);
        Self::new_axis_rotation(normal, angle)
    }

    /// Recovers the axis-angle representation of the quaternion:
    /// `(v / |v|, 2 · atan2(|v|, w))`. The identity rotation gives no axis.
    pub fn into_axis_angle(self) -> (r: (Vec3<F>, F))
        ensures
            exact::<F>() ==> exists|l: F| r.0 == #[trigger] self.v.spec_div(l),
    {
        let a = atan2(self.v.magnitude(), self.w);
        (self.v.normalized(), times(a, plus(one(), one())))
    }

    /// Rotates vector `v` by this quaternion: the vector part of
    /// `self · (v, 0) · self⁻¹`.
    pub fn rotate(&self, v: Vec3<F>) -> (r: Vec3<F>)
        ensures
            exact::<F>() ==> self.rotates_to(v, r),
    {
        let p = Self::new_vector(v);
        let r = self.product(p).product(self.reciprocal()).v;
        assert(exact::<F>() ==> p == Self::pure(v, p.w));
        r
    }

    /// Creates new zero quaternion.
    pub fn zero() -> (r: Self)
        ensures
            r.v == Vec3::splat(r.w),
    {
        let z = zero();
        Self { w: z, v: Vec3 { x: z, y: z, z } }
    }

    /// Creates new identity quaternion: zero vector part, scalar part one.
    pub fn identity() -> (r: Self)
        ensures
            r.v == Vec3::splat(r.v.x),
    {
        Self { w: one(), v: Vec3::zero() }
    }

    /// Creates new quaternion from its four components.
    pub fn from_parts(x: F, y: F, z: F, w: F) -> (r: Self)
        ensures
            r == (Quat { v: Vec3 { x, y, z }, w }),
    {
        Self { v: Vec3 { x, y, z }, w }
    }

    /// Computes the conjugate of the quaternion.
    pub fn conjugate(&self) -> (r: Self)
        ensures
            exact::<F>() ==> r == self.spec_conjugate(),
    {
        Self { v: self.v.neg(), w: self.w }
    }

    /// Computes the norm of the quaternion: the square root of
    /// [`Quat::sqrt_norm`].
    pub fn norm(&self) -> F {
        sqrt(self.sqrt_norm())
    }

    /// Computes the squared norm of the quaternion.
    pub fn sqrt_norm(&self) -> (r: F)
        ensures
            exact::<F>() ==> r == self.spec_sqrt_norm(),
    {
        plus(self.v.sqrt_magnitude(), times(self.w, self.w))
    }

    /// Returns the quaternion divided by its norm.
    pub fn normalize(&self) -> (r: Self)
        ensures
            exact::<F>() ==> exists|l: F| r == #[trigger] self.spec_div(l),
    {
        let l = self.norm();
        self.div(l)
    }

    /// Computes the reciprocal of the quaternion: its conjugate divided by its
    /// squared norm. The zero quaternion gives non-finite components.
    pub fn reciprocal(&self) -> (r: Self)
        ensures
            exact::<F>() ==> r == self.spec_reciprocal(),
    {
        self.conjugate().div(self.sqrt_norm())
    }

    /// Combines two rotations, applying `self` first and `other` second: the
    /// product `other · self`.
    pub fn combine(self, other: Self) -> (r: Self)
        ensures
            exact::<F>() ==> r == other.spec_product(self),
    {
        other.product(self)
    }

    /// Computes the Hamilton product `self · other`.
    pub fn product(&self, other: Self) -> (r: Self)
        ensures
            exact::<F>() ==> r == self.spec_product(other),
    {
        let (a, b) = (self.v, other.v);
        Self {
            v: Vec3 {
                x: minus(
                    plus(plus(times(self.w, b.x), times(a.x, other.w)), times(a.y, b.z)),
                    times(a.z, b.y),
                ),
                y: plus(
                    plus(minus(times(self.w, b.y), times(a.x, b.z)), times(a.y, other.w)),
                    times(a.z, b.x),
                ),
                z: plus(
                    minus(plus(times(self.w, b.z), times(a.x, b.y)), times(a.y, b.x)),
                    times(a.z, other.w),
                ),
            },
            w: minus(
                minus(minus(times(self.w, other.w), times(a.x, b.x)), times(a.y, b.y)),
                times(a.z, b.z),
            ),
        }
    }

    /// Componentwise sum.
    pub fn add(self, rhs: Self) -> (r: Self)
        ensures
            exact::<F>() ==> r == self.spec_add(rhs),
    {
        Self { v: self.v.add(rhs.v), w: plus(self.w, rhs.w) }
    }

    /// Adds `rhs` in place.
    pub fn add_assign(&mut self, rhs: Self)
        ensures
            exact::<F>() ==> *final(self) == old(self).spec_add(rhs),
    {
        *self = self.add(rhs);
    }

    /// Componentwise difference.
    pub fn sub(self, rhs: Self) -> (r: Self)
        ensures
            exact::<F>() ==> r == self.spec_sub(rhs),
    {
        Self { v: self.v.sub(rhs.v), w: minus(self.w, rhs.w) }
    }

    /// Subtracts `rhs` in place.
    pub fn sub_assign(&mut self, rhs: Self)
        ensures
            exact::<F>() ==> *final(self) == old(self).spec_sub(rhs),
    {
        *self = self.sub(rhs);
    }

    /// Multiplies every component by `rhs`.
    pub fn mul(self, rhs: F) -> (r: Self)
        ensures
            exact::<F>() ==> r == self.spec_mul(rhs),
    {
        Self { v: self.v.mul(rhs), w: times(self.w, rhs) }
    }

    /// Multiplies every component by `rhs` in place.
    pub fn mul_assign(&mut self, rhs: F)
        ensures
            exact::<F>() ==> *final(self) == old(self).spec_mul(rhs),
    {
        *self = self.mul(rhs);
    }

    /// Divides every component by `rhs`.
    pub fn div(self, rhs: F) -> (r: Self)
        ensures
            exact::<F>() ==> r == self.spec_div(rhs),
    {
        Self { v: self.v.div(rhs), w: over(self.w, rhs) }
    }

    /// Divides every component by `rhs` in place.
    pub fn div_assign(&mut self, rhs: F)
        ensures
            exact::<F>() ==> *final(self) == old(self).spec_div(rhs),
    {
        *self = self.div(rhs);
    }
}

} // verus!
