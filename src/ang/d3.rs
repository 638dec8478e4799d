use crate::quat::Quat;
use crate::scalar::exact;
use crate::vec::Vec3;
use num_traits::Float;
use vstd::prelude::*;

verus! {

/// Rotation angles in a right-handed coordinate system where `+X` points
/// forward, `-Y` right and `+Z` up.
#[derive(Debug, PartialEq, Default, Clone, Copy)]
pub struct Ang3<F> {
    /// Rotation around +Z.
    pub yaw: F,
    /// Rotation around -Y.
    pub pitch: F,
    /// Rotation around +X.
    pub roll: F,
}

impl<F: Float> Ang3<F> {
    /// Creates new rotation.
    pub fn new(yaw: F, pitch: F, roll: F) -> (r: Self)
        ensures
            r == (Ang3 { yaw, pitch, roll }),
    {
        Self { yaw, pitch, roll }
    }

    /// Creates the quaternion of this rotation, applying yaw, then pitch,
    /// then roll: `c · (b · a)`, where `a` turns about the Z axis, `b` about
    /// the Y axis and `c` about the X axis.
    pub fn into_rotation(self) -> (r: Quat<F>)
        ensures
            exact::<F>() ==> exists|a: Quat<F>, b: Quat<F>, c: Quat<F>|
                {
                    &&& r == #[trigger] c.spec_product(b.spec_product(a))
                    &&& a.v.x == a.v.y
                    &&& b.v.x == b.v.z
                    &&& c.v.y == c.v.z
                },
    {
        let ya = Vec3::yaw();
        let pa = Vec3::pitch();
        let ra = Vec3::roll();
        let a = Quat::new_axis_rotation(ya, self.yaw);
        let b = Quat::new_axis_rotation(pa, self.pitch);
        let c = Quat::new_axis_rotation(ra, self.roll);
        let r = a.combine(b).combine(c);
        proof {
            if exact::<F>() {
                let (la, sa) = choose|l: F, s: F| a.v == #[trigger] ya.spec_div(l).spec_mul(s);
                let (lb, sb) = choose|l: F, s: F| b.v == #[trigger] pa.spec_div(l).spec_mul(s);
                let (lc, sc) = choose|l: F, s: F| c.v == #[trigger] ra.spec_div(l).spec_mul(s);
                assert(r == c.spec_product(b.spec_product(a)));
            }
        }
        r
    }
}

impl<F: Copy> From<Vec3<F>> for Ang3<F> {
    fn from(v: Vec3<F>) -> (r: Self) {
        Self { yaw: v.x, pitch: v.y, roll: v.z }
    }
}

impl<F: Copy> vstd::std_specs::convert::FromSpecImpl<Vec3<F>> for Ang3<F> {
    open spec fn obeys_from_spec() -> bool {
        true
    }

    open spec fn from_spec(v: Vec3<F>) -> Self {
        Ang3 { yaw: v.x, pitch: v.y, roll: v.z }
    }
}

} // verus!
