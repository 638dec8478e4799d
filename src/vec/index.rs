use crate::vec::{Vec2, Vec3, Vec4, Vector, VectorConst};
use vstd::prelude::*;

verus! {

impl<F: Copy> Vec2<F> {
    /// Component `i`: X for 0, Y otherwise.
    pub open spec fn spec_get(self, i: int) -> F {
        if i == 0 {
            self.x
        } else {
            self.y
        }
    }

    /// The vector with component `i` replaced by `v`.
    pub open spec fn spec_set(self, i: int, v: F) -> Self {
        if i == 0 {
            Vec2 { x: v, ..self }
        } else {
            Vec2 { y: v, ..self }
        }
    }

    fn get_at(&self, i: usize) -> (r: F)
        requires
            i < 2,
        ensures
            r == self.spec_get(i as int),
    {
        if i == 0 {
            self.x
        } else {
            self.y
        }
    }

    fn set_at(&mut self, i: usize, v: F)
        requires
            i < 2,
        ensures
            *final(self) == old(self).spec_set(i as int, v),
    {
        if i == 0 {
            self.x = v;
        } else {
            self.y = v;
        }
    }
}

impl<F: Copy> Vec3<F> {
    /// Component `i`: X for 0, Y for 1, Z otherwise.
    pub open spec fn spec_get(self, i: int) -> F {
        if i == 0 {
            self.x
        } else if i == 1 {
            self.y
        } else {
            self.z
        }
    }

    /// The vector with component `i` replaced by `v`.
    pub open spec fn spec_set(self, i: int, v: F) -> Self {
        if i == 0 {
            Vec3 { x: v, ..self }
        } else if i == 1 {
            Vec3 { y: v, ..self }
        } else {
            Vec3 { z: v, ..self }
        }
    }

    fn get_at(&self, i: usize) -> (r: F)
        requires
            i < 3,
        ensures
            r == self.spec_get(i as int),
    {
        if i == 0 {
            self.x
        } else if i == 1 {
            self.y
        } else {
            self.z
        }
    }

    fn set_at(&mut self, i: usize, v: F)
        requires
            i < 3,
        ensures
            *final(self) == old(self).spec_set(i as int, v),
    {
        if i == 0 {
            self.x = v;
        } else if i == 1 {
            self.y = v;
        } else {
            self.z = v;
        }
    }
}

impl<F: Copy> Vec4<F> {
    /// Component `i`: X for 0, Y for 1, Z for 2, W otherwise.
    pub open spec fn spec_get(self, i: int) -> F {
        if i == 0 {
            self.x
        } else if i == 1 {
            self.y
        } else if i == 2 {
            self.z
        } else {
            self.w
        }
    }

    /// The vector with component `i` replaced by `v`.
    pub open spec fn spec_set(self, i: int, v: F) -> Self {
        if i == 0 {
            Vec4 { x: v, ..self }
        } else if i == 1 {
            Vec4 { y: v, ..self }
        } else if i == 2 {
            Vec4 { z: v, ..self }
        } else {
            Vec4 { w: v, ..self }
        }
    }

    fn get_at(&self, i: usize) -> (r: F)
        requires
            i < 4,
        ensures
            r == self.spec_get(i as int),
    {
        if i == 0 {
            self.x
        } else if i == 1 {
            self.y
        } else if i == 2 {
            self.z
        } else {
            self.w
        }
    }

    fn set_at(&mut self, i: usize, v: F)
        requires
            i < 4,
        ensures
            *final(self) == old(self).spec_set(i as int, v),
    {
        if i == 0 {
            self.x = v;
        } else if i == 1 {
            self.y = v;
        } else if i == 2 {
            self.z = v;
        } else {
            self.w = v;
        }
    }
}

impl<F: Copy> Vector<F> for Vec2<F> {
    const SIZE: usize = 2;

    open spec fn coord(&self, i: int) -> F {
        self.spec_get(i)
    }

    fn get(&self, i: usize) -> (r: F) {
        self.get_at(i)
    }

    fn set(&mut self, i: usize, v: F) {
        self.set_at(i, v);
    }
}

impl<F: Copy> Vector<F> for Vec3<F> {
    const SIZE: usize = 3;

    open spec fn coord(&self, i: int) -> F {
        self.spec_get(i)
    }

    fn get(&self, i: usize) -> (r: F) {
        self.get_at(i)
    }

    fn set(&mut self, i: usize, v: F) {
        self.set_at(i, v);
    }
}

impl<F: Copy> Vector<F> for Vec4<F> {
    const SIZE: usize = 4;

    open spec fn coord(&self, i: int) -> F {
        self.spec_get(i)
    }

    fn get(&self, i: usize) -> (r: F) {
        self.get_at(i)
    }

    fn set(&mut self, i: usize, v: F) {
        self.set_at(i, v);
    }
}

impl<F: Copy> VectorConst<F> for Vec2<F> {
    const SIZE: usize = 2;

    open spec fn component(&self, i: int) -> F {
        self.spec_get(i)
    }

    fn get<const I: usize>(&self) -> (r: F) {
        self.get_at(I)
    }

    fn set<const I: usize>(&mut self, v: F) {
        self.set_at(I, v);
    }
}

impl<F: Copy> VectorConst<F> for Vec3<F> {
    const SIZE: usize = 3;

    open spec fn component(&self, i: int) -> F {
        self.spec_get(i)
    }

    fn get<const I: usize>(&self) -> (r: F) {
        self.get_at(I)
    }

    fn set<const I: usize>(&mut self, v: F) {
        self.set_at(I, v);
    }
}

impl<F: Copy> VectorConst<F> for Vec4<F> {
    const SIZE: usize = 4;

    open spec fn component(&self, i: int) -> F {
        self.spec_get(i)
    }

    fn get<const I: usize>(&self) -> (r: F) {
        self.get_at(I)
    }

    fn set<const I: usize>(&mut self, v: F) {
        self.set_at(I, v);
    }
}

} // verus!
