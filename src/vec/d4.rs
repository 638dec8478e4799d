use crate::scalar::{
    acos, clamp_unit, diff, exact, minus, negate, one, opp, over, plus, prod, quot, sqrt, sum,
    times, zero,
};
use crate::vec::{Vec2, Vec3};
use num_traits::Float;
use vstd::prelude::*;

verus! {

/// 4D Euclidean vector with X, Y, Z and W components.
#[derive(Debug, PartialEq, Default, Clone, Copy, PartialOrd)]
pub struct Vec4<F> {
    pub x: F,
    pub y: F,
    pub z: F,
    pub w: F,
}

impl<F: Float> Vec4<F> {
    /// Extends a 3D vector with a W component.
    pub fn from_vec3(v: Vec3<F>, w: F) -> (r: Self)
        ensures
            r == (Vec4 { x: v.x, y: v.y, z: v.z, w }),
    {
        Self { x: v.x, y: v.y, z: v.z, w }
    }

    /// Creates new vector from two 2D vectors: `xy` gives X and Y, `zw` gives Z and W.
    pub fn from_vec2(xy: Vec2<F>, zw: Vec2<F>) -> (r: Self)
        ensures
            r == (Vec4 { x: xy.x, y: xy.y, z: zw.x, w: zw.y }),
    {
        Self { x: xy.x, y: xy.y, z: zw.x, w: zw.y }
    }

    /// Componentwise sum.
    pub open spec fn spec_add(self, o: Self) -> Self {
        Vec4 { x: sum(self.x, o.x), y: sum(self.y, o.y), z: sum(self.z, o.z), w: sum(self.w, o.w) }
    }

    /// Componentwise difference.
    pub open spec fn spec_sub(self, o: Self) -> Self {
        Vec4 {
            x: diff(self.x, o.x),
            y: diff(self.y, o.y),
            z: diff(self.z, o.z),
            w: diff(self.w, o.w),
        }
    }

    /// Every component multiplied by `f`.
    pub open spec fn spec_mul(self, f: F) -> Self {
        Vec4 { x: prod(self.x, f), y: prod(self.y, f), z: prod(self.z, f), w: prod(self.w, f) }
    }

    /// Every component divided by `f`.
    pub open spec fn spec_div(self, f: F) -> Self {
        Vec4 { x: quot(self.x, f), y: quot(self.y, f), z: quot(self.z, f), w: quot(self.w, f) }
    }

    /// Every component negated.
    pub open spec fn spec_neg(self) -> Self {
        Vec4 { x: opp(self.x), y: opp(self.y), z: opp(self.z), w: opp(self.w) }
    }

    /// The sum of the componentwise products, summed from the left.
    pub open spec fn spec_dot(self, o: Self) -> F {
        sum(sum(sum(prod(self.x, o.x), prod(self.y, o.y)), prod(self.z, o.z)), prod(self.w, o.w))
    }

    /// The interpolation `self + (o - self)·(1 - t)`, given `1 - t`.
    pub open spec fn spec_lerp(self, o: Self, one_minus_t: F) -> Self {
        self.spec_add(o.spec_sub(self).spec_mul(one_minus_t))
    }

    /// Creates new vector.
    pub fn new(x: F, y: F, z: F, w: F) -> (r: Self)
        ensures
            r == (Vec4 { x, y, z, w }),
    {
        Self { x, y, z, w }
    }

    /// Splits the vector into its components.
    pub fn split(&self) -> (r: (F, F, F, F))
        ensures
            r == (self.x, self.y, self.z, self.w),
    {
        (self.x, self.y, self.z, self.w)
    }

    /// Combines a tuple into a vector.
    pub fn combine(xyzw: (F, F, F, F)) -> (r: Self)
        ensures
            r == (Vec4 { x: xyzw.0, y: xyzw.1, z: xyzw.2, w: xyzw.3 }),
    {
        Self { x: xyzw.0, y: xyzw.1, z: xyzw.2, w: xyzw.3 }
    }

    /// Splits the vector into its parts along the basis vectors `i`, `j`, `k`, `l`:
    /// part `i` keeps component `i` and holds zero elsewhere.
    pub fn into_basis(self) -> (r: (Self, Self, Self, Self))
        ensures
            r.0.x == self.x,
            r.1.y == self.y,
            r.2.z == self.z,
            r.3.w == self.w,
            r.0.z == r.0.y,
            r.0.w == r.0.y,
            r.1.x == r.0.y,
            r.1.z == r.0.y,
            r.1.w == r.0.y,
            r.2.x == r.0.y,
            r.2.y == r.0.y,
            r.2.w == r.0.y,
            r.3.x == r.0.y,
            r.3.y == r.0.y,
            r.3.z == r.0.y,
    {
        let z = zero();
        (
            Self { x: self.x, y: z, z, w: z },
            Self { x: z, y: self.y, z, w: z },
            Self { x: z, y: z, z: self.z, w: z },
            Self { x: z, y: z, z, w: self.w },
        )
    }

    /// Computes the dot product of two vectors.
    pub fn dot(&self, other: Self) -> (r: F)
        ensures
            exact::<F>() ==> r == self.spec_dot(other),
    {
        plus(
            plus(plus(times(self.x, other.x), times(self.y, other.y)), times(self.z, other.z)),
            times(self.w, other.w),
        )
    }

    /// Computes the dot product of the normalized copies of two vectors.
    pub fn dot_normalized(&self, other: Self) -> (r: F)
        ensures
            exact::<F>() ==> exists|l: F, m: F|
                r == #[trigger] self.spec_div(l).spec_dot(#[trigger] other.spec_div(m)),
    {
        let a = self.normalized();
        let b = other.normalized();
        a.dot(b)
    }

    /// Computes the angle between two vectors, in `[0, π]`: the arc cosine of
    /// [`Vec4::dot_normalized`], clamped into `[-1, 1]` first.
    pub fn angle_to(&self, other: Self) -> F {
        acos(clamp_unit(self.dot_normalized(other)))
    }

    /// Computes the distance between two vectors: the magnitude of `other - self`.
    pub fn distance_to(&self, other: Self) -> F {
        other.sub(*self).magnitude()
    }

    /// Scales all of the components by `factor`.
    pub fn scale(&mut self, factor: F)
        ensures
            exact::<F>() ==> *final(self) == old(self).spec_mul(factor),
    {
        self.x = times(self.x, factor);
        self.y = times(self.y, factor);
        self.z = times(self.z, factor);
        self.w = times(self.w, factor);
    }

    /// Computes the magnitude of the vector: the square root of
    /// [`Vec4::sqrt_magnitude`].
    pub fn magnitude(&self) -> F {
        sqrt(self.sqrt_magnitude())
    }

    /// Computes the squared magnitude of the vector.
    pub fn sqrt_magnitude(&self) -> (r: F)
        ensures
            exact::<F>() ==> r == self.spec_dot(*self),
    {
        plus(
            plus(plus(times(self.x, self.x), times(self.y, self.y)), times(self.z, self.z)),
            times(self.w, self.w),
        )
    }

    /// Returns the vector divided by its magnitude. A zero vector gives
    /// non-finite components.
    pub fn normalized(&self) -> (r: Self)
        ensures
            exact::<F>() ==> exists|l: F| r == #[trigger] self.spec_div(l),
    {
        let l = self.magnitude();
        let r = Self {
            x: over(self.x, l),
            y: over(self.y, l),
            z: over(self.z, l),
            w: over(self.w, l),
        };
        assert(exact::<F>() ==> r == self.spec_div(l));
        r
    }

    /// Divides the vector by its magnitude in place.
    pub fn normalize(&mut self)
        ensures
            exact::<F>() ==> exists|l: F| *final(self) == #[trigger] old(self).spec_div(l),
    {
        let l = self.magnitude();
        let ghost before = *self;
        self.x = over(self.x, l);
        self.y = over(self.y, l);
        self.z = over(self.z, l);
        self.w = over(self.w, l);
        assert(exact::<F>() ==> *self == before.spec_div(l));
    }

    /// Interpolates between `self` and `other` as `self + (other - self)·(1 - t)`:
    /// `t = 0` gives `other` and `t = 1` gives `self`.
    pub fn lerp(&self, other: Self, t: F) -> (r: Self)
        ensures
            exact::<F>() ==> exists|o: F| r == #[trigger] self.spec_lerp(other, diff(o, t)),
    {
        let s = minus(one(), t);
        let r = self.add(other.sub(*self).mul(s));
        assert(exact::<F>() ==> r == self.spec_lerp(other, s));
        r
    }

    /// Componentwise sum.
    pub fn add(self, rhs: Self) -> (r: Self)
        ensures
            exact::<F>() ==> r == self.spec_add(rhs),
    {
        Self {
            x: plus(self.x, rhs.x),
            y: plus(self.y, rhs.y),
            z: plus(self.z, rhs.z),
            w: plus(self.w, rhs.w),
        }
    }

    /// Adds `rhs` in place.
    pub fn add_assign(&mut self, rhs: Self)
        ensures
            exact::<F>() ==> *final(self) == old(self).spec_add(rhs),
    {
        *self = self.add(rhs);
    }

    /// Componentwise difference.
    pub fn sub(self, rhs: Self) -> (r: Self)
        ensures
            exact::<F>() ==> r == self.spec_sub(rhs),
    {
        Self {
            x: minus(self.x, rhs.x),
            y: minus(self.y, rhs.y),
            z: minus(self.z, rhs.z),
            w: minus(self.w, rhs.w),
        }
    }

    /// Subtracts `rhs` in place.
    pub fn sub_assign(&mut self, rhs: Self)
        ensures
            exact::<F>() ==> *final(self) == old(self).spec_sub(rhs),
    {
        *self = self.sub(rhs);
    }

    /// Multiplies every component by `rhs`.
    pub fn mul(self, rhs: F) -> (r: Self)
        ensures
            exact::<F>() ==> r == self.spec_mul(rhs),
    {
        Self {
            x: times(self.x, rhs),
            y: times(self.y, rhs),
            z: times(self.z, rhs),
            w: times(self.w, rhs),
        }
    }

    /// Multiplies every component by `rhs` in place.
    pub fn mul_assign(&mut self, rhs: F)
        ensures
            exact::<F>() ==> *final(self) == old(self).spec_mul(rhs),
    {
        *self = self.mul(rhs);
    }

    /// Divides every component by `rhs`.
    pub fn div(self, rhs: F) -> (r: Self)
        ensures
            exact::<F>() ==> r == self.spec_div(rhs),
    {
        Self {
            x: over(self.x, rhs),
            y: over(self.y, rhs),
            z: over(self.z, rhs),
            w: over(self.w, rhs),
        }
    }

    /// Divides every component by `rhs` in place.
    pub fn div_assign(&mut self, rhs: F)
        ensures
            exact::<F>() ==> *final(self) == old(self).spec_div(rhs),
    {
        *self = self.div(rhs);
    }

    /// Negates every component.
    pub fn neg(self) -> (r: Self)
        ensures
            exact::<F>() ==> r == self.spec_neg(),
    {
        Self { x: negate(self.x), y: negate(self.y), z: negate(self.z), w: negate(self.w) }
    }

}

} // verus!
