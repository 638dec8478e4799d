//! Axis aligned bounding boxes.
mod d3;
pub use d3::Aabb3;

use crate::scalar::{at_most, is_at_most, ordered};
use crate::vec::Vector;
use core::marker::PhantomData;
use num_traits::Float;
use vstd::prelude::*;

verus! {

/// Axis aligned bounding box over any vector type with the [`Vector`]
/// capability.
#[derive(Debug, PartialEq)]
pub struct Aabb<F, V> {
    pub min: V,
    pub max: V,
    /// Marks the scalar type; holds no data.
    pub scalar: PhantomData<F>,
}

impl<F: Float, V: Vector<F>> Aabb<F, V> {
    /// The box with `min` and `max` swapped.
    pub open spec fn spec_inverted(self) -> Self {
        Aabb { min: self.max, max: self.min, ..self }
    }

    /// On every axis, the lower bound is at most the upper bound.
    pub open spec fn spec_is_right(self) -> bool {
        forall|i: int| 0 <= i < V::SIZE ==> at_most(#[trigger] self.min.coord(i), self.max.coord(i))
    }

    /// On axis `i`, `p` lies between the bounds, both included.
    pub open spec fn spans(self, i: int, p: V) -> bool {
        at_most(self.min.coord(i), p.coord(i)) && at_most(p.coord(i), self.max.coord(i))
    }

    /// On every axis, `p` lies between the bounds, both included.
    pub open spec fn spec_is_inside(self, p: V) -> bool {
        forall|i: int| 0 <= i < V::SIZE ==> #[trigger] self.spans(i, p)
    }

    /// Creates new axis aligned bounding box.
    pub fn new(min: V, max: V) -> (r: Self)
        ensures
            r.min == min,
            r.max == max,
    {
        Self { scalar: PhantomData, min, max }
    }

    /// Inverts the bounding box in place, swapping `min` and `max`.
    pub fn invert(&mut self)
        ensures
            *final(self) == old(self).spec_inverted(),
            final(self).min == old(self).max,
            final(self).max == old(self).min,
    {
        let m = self.min;
        self.min = self.max;
        self.max = m;
    }

    /// Returns the inverted copy of the bounding box.
    pub fn inverted(&self) -> (r: Self)
        ensures
            r == self.spec_inverted(),
            r.min == self.max,
            r.max == self.min,
    {
        Self { min: self.max, max: self.min, scalar: PhantomData }
    }

    /// Checks that `min` is at most `max` on every axis.
    pub fn is_right(&self) -> (r: bool)
        ensures
            ordered::<F>() ==> (r <==> self.spec_is_right()),
    {
        let mut i: usize = 0;
        while i < V::SIZE
            invariant
                ordered::<F>() ==> forall|j: int|
                    0 <= j < i ==> at_most(#[trigger] self.min.coord(j), self.max.coord(j)),
            decreases V::SIZE - i,
        {
            if !is_at_most(self.min.get(i), self.max.get(i)) {
                return false;
            }
            i = i + 1;
        }
        true
    }

    /// Checks that the point lies inside the bounding box, bounds included.
    pub fn is_inside(&self, v: V) -> (r: bool)
        ensures
            ordered::<F>() ==> (r <==> self.spec_is_inside(v)),
    {
        let mut i: usize = 0;
        while i < V::SIZE
            invariant
                ordered::<F>() ==> forall|j: int| 0 <= j < i ==> #[trigger] self.spans(j, v),
            decreases V::SIZE - i,
        {
            let p = v.get(i);
            if !is_at_most(self.min.get(i), p) {
                assert(ordered::<F>() ==> !self.spans(i as int, v));
                return false;
            }
            if !is_at_most(p, self.max.get(i)) {
                assert(ordered::<F>() ==> !self.spans(i as int, v));
                return false;
            }
            assert(ordered::<F>() ==> self.spans(i as int, v));
            i = i + 1;
        }
        true
    }
}

/// Inverting a box twice gives the box back.
pub proof fn inverted_twice<F: Float, V: Vector<F>>(b: Aabb<F, V>)
    ensures
        b.spec_inverted().spec_inverted() == b,
{
}

} // verus!
