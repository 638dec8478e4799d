use crate::scalar::{
    acos, clamp_unit, diff, exact, minus, negate, one, opp, over, plus, prod, quot, sqrt, sum,
    times, zero,
};
use crate::vec::Vec2;
use num_traits::Float;
use vstd::prelude::*;

verus! {

/// 3D Euclidean vector with X, Y and Z components.
#[derive(Debug, PartialEq, Default, Clone, Copy, PartialOrd)]
pub struct Vec3<F> {
    pub x: F,
    pub y: F,
    pub z: F,
}

impl<F: Float> Vec3<F> {
    /// Componentwise sum.
    pub open spec fn spec_add(self, o: Self) -> Self {
        Vec3 { x: sum(self.x, o.x), y: sum(self.y, o.y), z: sum(self.z, o.z) }
    }

    /// Componentwise difference.
    pub open spec fn spec_sub(self, o: Self) -> Self {
        Vec3 { x: diff(self.x, o.x), y: diff(self.y, o.y), z: diff(self.z, o.z) }
    }

    /// Every component multiplied by `f`.
    pub open spec fn spec_mul(self, f: F) -> Self {
        Vec3 { x: prod(self.x, f), y: prod(self.y, f), z: prod(self.z, f) }
    }

    /// Every component divided by `f`.
    pub open spec fn spec_div(self, f: F) -> Self {
        Vec3 { x: quot(self.x, f), y: quot(self.y, f), z: quot(self.z, f) }
    }

    /// Every component negated.
    pub open spec fn spec_neg(self) -> Self {
        Vec3 { x: opp(self.x), y: opp(self.y), z: opp(self.z) }
    }

    /// `x·ox + y·oy + z·oz`, summed from the left.
    pub open spec fn spec_dot(self, o: Self) -> F {
        sum(sum(prod(self.x, o.x), prod(self.y, o.y)), prod(self.z, o.z))
    }

    /// The right-handed cross product.
    pub open spec fn spec_cross(self, o: Self) -> Self {
        Vec3 {
            x: diff(prod(self.y, o.z), prod(self.z, o.y)),
            y: diff(prod(self.z, o.x), prod(self.x, o.z)),
            z: diff(prod(self.x, o.y), prod(self.y, o.x)),
        }
    }

    /// The interpolation `self + (o - self)·(1 - t)`, given `1 - t`.
    pub open spec fn spec_lerp(self, o: Self, one_minus_t: F) -> Self {
        self.spec_add(o.spec_sub(self).spec_mul(one_minus_t))
    }

    /// The vector whose three components are `c`.
    pub open spec fn splat(c: F) -> Self {
        Vec3 { x: c, y: c, z: c }
    }

    /// Rotation axis for yaw: `+Z`.
    pub fn yaw() -> (r: Self)
        ensures
            r.x == r.y,
    {
        let z = zero();
        Self { x: z, y: z, z: one() }
    }

    /// Rotation axis for pitch: `-Y`.
    pub fn pitch() -> (r: Self)
        ensures
            r.x == r.z,
    {
        let z = zero();
        Self { x: z, y: negate(one()), z }
    }

    /// Rotation axis for roll: `+X`.
    pub fn roll() -> (r: Self)
        ensures
            r.y == r.z,
    {
        let z = zero();
        Self { x: one(), y: z, z }
    }

    /// The vector `(1, 1, 1)`.
    pub fn one() -> (r: Self)
        ensures
            r == Self::splat(r.x),
    {
        let o = one();
        Self { x: o, y: o, z: o }
    }

    /// The zero vector.
    pub fn zero() -> (r: Self)
        ensures
            r == Self::splat(r.x),
    {
        let z = zero();
        Self { x: z, y: z, z }
    }

    /// The vector `(0, 0, 1)`.
    pub fn top() -> (r: Self)
        ensures
            r.x == r.y,
    {
        let z = zero();
        Self { x: z, y: z, z: one() }
    }

    /// The vector `(0, 0, -1)`, the negation of [`Vec3::top`].
    pub fn bottom() -> (r: Self)
        ensures
            r.x == r.y,
    {
        let z = zero();
        Self { x: z, y: z, z: negate(one()) }
    }

    /// The vector `(0, -1, 0)`.
    pub fn right() -> (r: Self)
        ensures
            r.x == r.z,
    {
        let z = zero();
        Self { x: z, y: negate(one()), z }
    }

    /// The vector `(0, 1, 0)`.
    pub fn left() -> (r: Self)
        ensures
            r.x == r.z,
    {
        let z = zero();
        Self { x: z, y: one(), z }
    }

    /// The vector `(1, 0, 0)`.
    pub fn forward() -> (r: Self)
        ensures
            r.y == r.z,
    {
        let z = zero();
        Self { x: one(), y: z, z }
    }

    /// The vector `(-1, 0, 0)`.
    pub fn back() -> (r: Self)
        ensures
            r.y == r.z,
    {
        let z = zero();
        Self { x: negate(one()), y: z, z }
    }

    /// Creates new vector.
    pub fn new(x: F, y: F, z: F) -> (r: Self)
        ensures
            r == (Vec3 { x, y, z }),
    {
        Self { x, y, z }
    }

    /// Reduces the vector to its X and Y components.
    pub fn reduce(self) -> (r: Vec2<F>)
        ensures
            r == (Vec2 { x: self.x, y: self.y }),
    {
        Vec2::new(self.x, self.y)
    }

    /// Extends a 2D vector with a Z component.
    pub fn from_vec2(v: Vec2<F>, z: F) -> (r: Self)
        ensures
            r == (Vec3 { x: v.x, y: v.y, z }),
    {
        Self { x: v.x, y: v.y, z }
    }

    /// Splits the vector into its X, Y and Z components.
    pub fn split(&self) -> (r: (F, F, F))
        ensures
            r == (self.x, self.y, self.z),
    {
        (self.x, self.y, self.z)
    }

    /// Combines a tuple into a vector.
    pub fn combine(xyz: (F, F, F)) -> (r: Self)
        ensures
            r == (Vec3 { x: xyz.0, y: xyz.1, z: xyz.2 }),
    {
        Self { x: xyz.0, y: xyz.1, z: xyz.2 }
    }

    /// Splits the vector into its parts along the basis vectors `i`, `j`, `k`.
    pub fn into_basis(self) -> (r: (Self, Self, Self))
        ensures
            r.0.x == self.x && r.1.y == self.y && r.2.z == self.z,
            r.0.y == r.0.z && r.0.y == r.1.x && r.1.x == r.1.z,
            r.1.z == r.2.x && r.2.x == r.2.y,
    {
        let z = zero();
        (
            Self { x: self.x, y: z, z },
            Self { x: z, y: self.y, z },
            Self { x: z, y: z, z: self.z },
        )
    }

    /// Computes the dot product of two vectors.
    pub fn dot(&self, other: Self) -> (r: F)
        ensures
            exact::<F>() ==> r == self.spec_dot(other),
    {
        plus(plus(times(self.x, other.x), times(self.y, other.y)), times(self.z, other.z))
    }

    /// Computes the dot product of the normalized copies of two vectors.
    pub fn dot_normalized(&self, other: Self) -> (r: F)
        ensures
            exact::<F>() ==> exists|l: F, m: F|
                r == #[trigger] self.spec_div(l).spec_dot(#[trigger] other.spec_div(m)),
    {
        let a = self.normalized();
        let b = other.normalized();
        a.dot(b)
    }

    /// Computes the distance between two vectors: the magnitude of `other - self`.
    pub fn distance_to(&self, other: Self) -> F {
        other.sub(*self).magnitude()
    }

    /// Scales all of the components by `factor`.
    pub fn scale(&mut self, factor: F)
        ensures
            exact::<F>() ==> *final(self) == old(self).spec_mul(factor),
    {
        self.x = times(self.x, factor);
        self.y = times(self.y, factor);
        self.z = times(self.z, factor);
    }

    /// Computes the magnitude of the vector: the square root of
    /// [`Vec3::sqrt_magnitude`].
    pub fn magnitude(&self) -> F {
        sqrt(self.sqrt_magnitude())
    }

    /// Computes the squared magnitude of the vector.
    pub fn sqrt_magnitude(&self) -> (r: F)
        ensures
            exact::<F>() ==> r == self.spec_dot(*self),
    {
        plus(plus(times(self.x, self.x), times(self.y, self.y)), times(self.z, self.z))
    }

    /// Returns the vector divided by its magnitude. A zero vector gives
    /// non-finite components.
    pub fn normalized(&self) -> (r: Self)
        ensures
            exact::<F>() ==> exists|l: F| r == #[trigger] self.spec_div(l),
    {
        let l = self.magnitude();
        let r = Self { x: over(self.x, l), y: over(self.y, l), z: over(self.z, l) };
        assert(exact::<F>() ==> r == self.spec_div(l));
        r
    }

    /// Divides the vector by its magnitude in place.
    pub fn normalize(&mut self)
        ensures
            exact::<F>() ==> exists|l: F| *final(self) == #[trigger] old(self).spec_div(l),
    {
        let l = self.magnitude();
        let ghost before = *self;
        self.x = over(self.x, l);
        self.y = over(self.y, l);
        self.z = over(self.z, l);
        assert(exact::<F>() ==> *self == before.spec_div(l));
    }

    /// Computes the angle between two vectors, in `[0, π]`: the arc cosine of
    /// [`Vec3::dot_normalized`], clamped into `[-1, 1]` first.
    pub fn angle_to(&self, other: Self) -> F {
        acos(clamp_unit(self.dot_normalized(other)))
    }

    /// Interpolates between `self` and `other` as `self + (other - self)·(1 - t)`:
    /// `t = 0` gives `other` and `t = 1` gives `self`.
    pub fn lerp(&self, other: Self, t: F) -> (r: Self)
        ensures
            exact::<F>() ==> exists|o: F| r == #[trigger] self.spec_lerp(other, diff(o, t)),
    {
        let s = minus(one(), t);
        let r = self.add(other.sub(*self).mul(s));
        assert(exact::<F>() ==> r == self.spec_lerp(other, s));
        r
    }

    /// Computes the right-handed cross product of two vectors.
    pub fn cross(&self, other: Self) -> (r: Self)
        ensures
            exact::<F>() ==> r == self.spec_cross(other),
    {
        Self::new(
            minus(times(self.y, other.z), times(self.z, other.y)),
            minus(times(self.z, other.x), times(self.x, other.z)),
            minus(times(self.x, other.y), times(self.y, other.x)),
        )
    }

    /// Computes the scalar triple product `self · (former × latter)`.
    pub fn triple(&self, former: Self, latter: Self) -> (r: F)
        ensures
            exact::<F>() ==> r == self.spec_dot(former.spec_cross(latter)),
    {
        self.dot(former.cross(latter))
    }

    /// Computes the volume of the cuboid whose diagonal is the vector.
    pub fn cuboid_volume(&self) -> (r: F)
        ensures
            exact::<F>() ==> r == prod(prod(self.x, self.y), self.z),
    {
        times(times(self.x, self.y), self.z)
    }

    /// Componentwise sum.
    pub fn add(self, rhs: Self) -> (r: Self)
        ensures
            exact::<F>() ==> r == self.spec_add(rhs),
    {
        Self { x: plus(self.x, rhs.x), y: plus(self.y, rhs.y), z: plus(self.z, rhs.z) }
    }

    /// Adds `rhs` in place.
    pub fn add_assign(&mut self, rhs: Self)
        ensures
            exact::<F>() ==> *final(self) == old(self).spec_add(rhs),
    {
        *self = self.add(rhs);
    }

    /// Componentwise difference.
    pub fn sub(self, rhs: Self) -> (r: Self)
        ensures
            exact::<F>() ==> r == self.spec_sub(rhs),
    {
        Self { x: minus(self.x, rhs.x), y: minus(self.y, rhs.y), z: minus(self.z, rhs.z) }
    }

    /// Subtracts `rhs` in place.
    pub fn sub_assign(&mut self, rhs: Self)
        ensures
            exact::<F>() ==> *final(self) == old(self).spec_sub(rhs),
    {
        *self = self.sub(rhs);
    }

    /// Multiplies every component by `rhs`.
    pub fn mul(self, rhs: F) -> (r: Self)
        ensures
            exact::<F>() ==> r == self.spec_mul(rhs),
    {
        Self { x: times(self.x, rhs), y: times(self.y, rhs), z: times(self.z, rhs) }
    }

    /// Multiplies every component by `rhs` in place.
    pub fn mul_assign(&mut self, rhs: F)
        ensures
            exact::<F>() ==> *final(self) == old(self).spec_mul(rhs),
    {
        *self = self.mul(rhs);
    }

    /// Divides every component by `rhs`.
    pub fn div(self, rhs: F) -> (r: Self)
        ensures
            exact::<F>() ==> r == self.spec_div(rhs),
    {
        Self { x: over(self.x, rhs), y: over(self.y, rhs), z: over(self.z, rhs) }
    }

    /// Divides every component by `rhs` in place.
    pub fn div_assign(&mut self, rhs: F)
        ensures
            exact::<F>() ==> *final(self) == old(self).spec_div(rhs),
    {
        *self = self.div(rhs);
    }

    /// Negates every component.
    pub fn neg(self) -> (r: Self)
        ensures
            exact::<F>() ==> r == self.spec_neg(),
    {
        Self { x: negate(self.x), y: negate(self.y), z: negate(self.z) }
    }
}

} // verus!
