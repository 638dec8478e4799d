use crate::quat::Quat;
use crate::scalar::exact;
use crate::vec::Vec3;
use num_traits::Float;
use vstd::prelude::*;

verus! {

/// A rotation paired with a translation.
#[derive(Debug, Clone, Copy)]
pub struct QuatT<F> {
    /// Quaternion rotation.
    pub q: Quat<F>,
    /// Translation vector.
    pub t: Vec3<F>,
}

impl<F: Float> QuatT<F> {
    /// Creates new [`QuatT`] from a rotation quaternion and a translation vector.
    pub fn new(rotation: Quat<F>, translation: Vec3<F>) -> (r: Self)
        ensures
            r == (QuatT { q: rotation, t: translation }),
    {
        Self { q: rotation, t: translation }
    }

    /// Creates new [`QuatT`] with the identity rotation and zero translation.
    pub fn identity() -> (r: Self)
        ensures
            r.q.v == Vec3::splat(r.q.v.x),
            r.t == Vec3::splat(r.t.x),
    {
        Self { q: Quat::identity(), t: Vec3::zero() }
    }

    /// Applies the rotation and then the translation to `vector`.
    pub fn apply(&self, vector: Vec3<F>) -> (r: Vec3<F>)
        ensures
            exact::<F>() ==> exists|p: Vec3<F>|
                #[trigger] self.q.rotates_to(vector, p) && r == p.spec_add(self.t),
    {
        let p = self.q.rotate(vector);
        p.add(self.t)
    }

    /// Applies the translation and then the rotation to `vector`.
    pub fn apply_reverse(&self, vector: Vec3<F>) -> (r: Vec3<F>)
        ensures
            exact::<F>() ==> self.q.rotates_to(vector.spec_add(self.t), r),
    {
        self.q.rotate(vector.add(self.t))
    }
}

} // verus!
