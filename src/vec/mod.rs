//! Euclidean vectors and the dimension-generic vector capability.
mod d2;
mod d3;
mod d4;
mod index;
pub use d2::Vec2;
pub use d3::Vec3;
pub use d4::Vec4;

use vstd::prelude::*;

verus! {

/// Access to the components of a fixed-size vector by an index known at
/// compile time.
pub trait VectorConst<F>: Sized {
    /// The number of components.
    const SIZE: usize;

    /// Component `i`, for `0 <= i < SIZE`.
    spec fn component(&self, i: int) -> F;

    /// Returns component `I`.
    fn get<const I: usize>(&self) -> (r: F)
        requires
            I < Self::SIZE,
        ensures
            r == self.component(I as int),
    ;

    /// Replaces component `I` with `v`, keeping the others.
    fn set<const I: usize>(&mut self, v: F)
        requires
            I < Self::SIZE,
        ensures
            forall|j: int|
                0 <= j < Self::SIZE ==> #[trigger] final(self).component(j) == if j == I {
                    v
                } else {
                    old(self).component(j)
                },
    ;
}

/// Access to the components of a fixed-size vector by a run-time index: the
/// capability that lets [`crate::aabb::Aabb`] work in any dimension.
pub trait Vector<F>: Copy {
    /// The number of components.
    const SIZE: usize;

    /// Component `i`, for `0 <= i < SIZE`.
    spec fn coord(&self, i: int) -> F;

    /// Returns component `i`.
    fn get(&self, i: usize) -> (r: F)
        requires
            i < Self::SIZE,
        ensures
            r == self.coord(i as int),
    ;

    /// Replaces component `i` with `v`, keeping the others.
    fn set(&mut self, i: usize, v: F)
        requires
            i < Self::SIZE,
        ensures
            forall|j: int|
                0 <= j < Self::SIZE ==> #[trigger] final(self).coord(j) == if j == i {
                    v
                } else {
                    old(self).coord(j)
                },
    ;
}

} // verus!
