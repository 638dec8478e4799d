use crate::scalar::{at_most, exact, is_at_most, one, ordered, over, plus, prod, zero};
use crate::vec::Vec3;
use num_traits::Float;
use vstd::prelude::*;

verus! {

/// Axis aligned bounding box in 3D.
#[derive(Debug, PartialEq, Default, Clone, Copy)]
pub struct Aabb3<F> {
    pub min: Vec3<F>,
    pub max: Vec3<F>,
}

impl<F: Float> Aabb3<F> {
    /// The box with `min` and `max` swapped.
    pub open spec fn spec_inverted(self) -> Self {
        Aabb3 { min: self.max, max: self.min }
    }

    /// On every axis, the lower bound is at most the upper bound.
    pub open spec fn spec_is_right(self) -> bool {
        &&& at_most(self.min.x, self.max.x)
        &&& at_most(self.min.y, self.max.y)
        &&& at_most(self.min.z, self.max.z)
    }

    /// On every axis, `p` lies between the bounds, both included.
    pub open spec fn spec_is_inside(self, p: Vec3<F>) -> bool {
        &&& at_most(self.min.x, p.x) && at_most(p.x, self.max.x)
        &&& at_most(self.min.y, p.y) && at_most(p.y, self.max.y)
        &&& at_most(self.min.z, p.z) && at_most(p.z, self.max.z)
    }

    /// `min` plus the extent `max - min`, kept on the axes of `keep` and
    /// replaced by `z` on the others.
    pub open spec fn spec_offset(self, z: F, keep_x: bool, keep_y: bool, keep_z: bool) -> Vec3<F> {
        let d = self.max.spec_sub(self.min);
        self.min.spec_add(
            Vec3 {
                x: if keep_x { d.x } else { z },
                y: if keep_y { d.y } else { z },
                z: if keep_z { d.z } else { z },
            },
        )
    }

    /// The eight corners, X varying fastest, then Y, then Z; `z` is the
    /// scalar zero.
    pub open spec fn spec_corners(self, z: F) -> Seq<Vec3<F>> {
        seq![
            self.min,
            self.spec_offset(z, true, false, false),
            self.spec_offset(z, false, true, false),
            self.spec_offset(z, true, true, false),
            self.spec_offset(z, false, false, true),
            self.spec_offset(z, true, false, true),
            self.spec_offset(z, false, true, true),
            self.spec_offset(z, true, true, true),
        ]
    }

    /// Creates new [`Aabb3`] with `min` and `max` vectors.
    pub fn new(min: Vec3<F>, max: Vec3<F>) -> (r: Self)
        ensures
            r == (Aabb3 { min, max }),
    {
        Self { min, max }
    }

    /// Checks that `min` is at most `max` on every axis.
    pub fn is_right(&self) -> (r: bool)
        ensures
            ordered::<F>() ==> (r <==> self.spec_is_right()),
    {
        is_at_most(self.min.x, self.max.x) && is_at_most(self.min.y, self.max.y) && is_at_most(
            self.min.z,
            self.max.z,
        )
    }

    /// Inverts the box in place, swapping `min` and `max`.
    pub fn invert(&mut self)
        ensures
            *final(self) == old(self).spec_inverted(),
    {
        let m = self.min;
        self.min = self.max;
        self.max = m;
    }

    /// Returns a copy of the box with `min` and `max` swapped.
    pub fn inverted(&self) -> (r: Self)
        ensures
            r == self.spec_inverted(),
    {
        Self { min: self.max, max: self.min }
    }

    /// Checks that the point lies inside the box, bounds included, on every
    /// axis.
    pub fn is_inside(&self, vec: Vec3<F>) -> (r: bool)
        ensures
            ordered::<F>() ==> (r <==> self.spec_is_inside(vec)),
    {
        is_at_most(self.min.x, vec.x) && is_at_most(vec.x, self.max.x) && is_at_most(
            self.min.y,
            vec.y,
        ) && is_at_most(vec.y, self.max.y) && is_at_most(self.min.z, vec.z) && is_at_most(
            vec.z,
            self.max.z,
        )
    }

    /// Checks that the point lies outside the box: the negation of
    /// [`Aabb3::is_inside`].
    pub fn is_outside(&self, vec: Vec3<F>) -> (r: bool)
        ensures
            ordered::<F>() ==> (r <==> !self.spec_is_inside(vec)),
    {
        !self.is_inside(vec)
    }

    /// Computes the center of the box: `min.lerp(max, 1 / 2)`.
    pub fn center(&self) -> (r: Vec3<F>)
        ensures
            exact::<F>() ==> exists|s: F| r == #[trigger] self.min.spec_lerp(self.max, s),
    {
        let o = one();
        self.min.lerp(self.max, over(o, plus(o, o)))
    }

    /// Returns the eight corners of the box, X varying fastest, then Y, then Z.
    pub fn corners(&self) -> (r: [Vec3<F>; 8])
        ensures
            exact::<F>() ==> exists|z: F| r@ == #[trigger] self.spec_corners(z),
    {
        let d = self.max.sub(self.min);
        let z = zero();
        let r = [
            self.min,
            self.min.add(Vec3::new(d.x, z, z)),
            self.min.add(Vec3::new(z, d.y, z)),
            self.min.add(Vec3::new(d.x, d.y, z)),
            self.min.add(Vec3::new(z, z, d.z)),
            self.min.add(Vec3::new(d.x, z, d.z)),
            self.min.add(Vec3::new(z, d.y, d.z)),
            self.min.add(Vec3::new(d.x, d.y, d.z)),
        ];
        assert(exact::<F>() ==> r@ =~= self.spec_corners(z));
        r
    }

    /// Computes the volume of the box: the product of its three extents.
    pub fn volume(&self) -> (r: F)
        ensures
            exact::<F>() ==> r == prod(
                prod(self.max.spec_sub(self.min).x, self.max.spec_sub(self.min).y),
                self.max.spec_sub(self.min).z,
            ),
    {
        self.max.sub(self.min).cuboid_volume()
    }
}

/// Inverting a box twice gives the box back.
pub proof fn inverted_twice<F: Float>(b: Aabb3<F>)
    ensures
        b.spec_inverted().spec_inverted() == b,
{
}

} // verus!
