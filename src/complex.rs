use crate::scalar::{
    diff, exact, minus, negate, one, opp, over, plus, prod, quot, sum, times,
};
use crate::vec::Vec2;
use num_traits::Float;
use vstd::prelude::*;

verus! {

/// Complex number with real and imaginary parts.
#[derive(Debug, PartialEq, Default, Clone, Copy)]
pub struct Complex<F> {
    pub real: F,
    pub imag: F,
}

impl<F: Float> Complex<F> {
    /// The product `(a + bi)(c + di) = (ac - bd) + (ad + bc)i`.
    pub open spec fn spec_product(self, o: Self) -> Self {
        Complex {
            real: diff(prod(self.real, o.real), prod(self.imag, o.imag)),
            imag: sum(prod(self.real, o.imag), prod(self.imag, o.real)),
        }
    }

    /// The squared modulus `re² + im²`.
    pub open spec fn spec_norm(self) -> F {
        sum(prod(self.real, self.real), prod(self.imag, self.imag))
    }

    /// The conjugate divided by the squared modulus.
    pub open spec fn spec_reciprocal(self) -> Self {
        Complex {
            real: quot(self.real, self.spec_norm()),
            imag: quot(opp(self.imag), self.spec_norm()),
        }
    }

    /// Componentwise sum.
    pub open spec fn spec_add(self, o: Self) -> Self {
        Complex { real: sum(self.real, o.real), imag: sum(self.imag, o.imag) }
    }

    /// Componentwise difference.
    pub open spec fn spec_sub(self, o: Self) -> Self {
        Complex { real: diff(self.real, o.real), imag: diff(self.imag, o.imag) }
    }

    /// Both parts multiplied by `f`.
    pub open spec fn spec_mul(self, f: F) -> Self {
        Complex { real: prod(self.real, f), imag: prod(self.imag, f) }
    }

    /// Both parts divided by `f`.
    pub open spec fn spec_div(self, f: F) -> Self {
        Complex { real: quot(self.real, f), imag: quot(self.imag, f) }
    }

    /// Creates new complex number.
    pub fn new(re: F, im: F) -> (r: Self)
        ensures
            r == (Complex { real: re, imag: im }),
    {
        Self { real: re, imag: im }
    }

    /// Computes the reciprocal: the conjugate divided by the squared modulus.
    /// Zero gives non-finite parts.
    pub fn reciprocal(&self) -> (r: Self)
        ensures
            exact::<F>() ==> r == self.spec_reciprocal(),
    {
        let n = plus(times(self.real, self.real), times(self.imag, self.imag));
        Self { real: over(self.real, n), imag: over(negate(self.imag), n) }
    }

    /// Computes the conjugate.
    pub fn conjugate(&self) -> (r: Self)
        ensures
            exact::<F>() ==> r == (Complex { real: self.real, imag: opp(self.imag) }),
    {
        Self { real: self.real, imag: negate(self.imag) }
    }

    /// Squares the number: `(re² - im²) + (2 · re · im)i`.
    pub fn pow2(&self) -> (r: Self)
        ensures
            exact::<F>() ==> exists|two: F|
                r == (Complex {
                    real: diff(prod(self.real, self.real), prod(self.imag, self.imag)),
                    imag: #[trigger] prod(prod(two, self.real), self.imag),
                }),
    {
        let o = one();
        let two = plus(o, o);
        Self {
            real: minus(times(self.real, self.real), times(self.imag, self.imag)),
            imag: times(times(two, self.real), self.imag),
        }
    }

    /// Componentwise sum.
    pub fn add(self, rhs: Self) -> (r: Self)
        ensures
            exact::<F>() ==> r == self.spec_add(rhs),
    {
        Self { real: plus(self.real, rhs.real), imag: plus(self.imag, rhs.imag) }
    }

    /// Adds `rhs` in place.
    pub fn add_assign(&mut self, rhs: Self)
        ensures
            exact::<F>() ==> *final(self) == old(self).spec_add(rhs),
    {
        *self = self.add(rhs);
    }

    /// Componentwise difference.
    pub fn sub(self, rhs: Self) -> (r: Self)
        ensures
            exact::<F>() ==> r == self.spec_sub(rhs),
    {
        Self { real: minus(self.real, rhs.real), imag: minus(self.imag, rhs.imag) }
    }

    /// Subtracts `rhs` in place.
    pub fn sub_assign(&mut self, rhs: Self)
        ensures
            exact::<F>() ==> *final(self) == old(self).spec_sub(rhs),
    {
        *self = self.sub(rhs);
    }

    /// Multiplies both parts by `rhs`.
    pub fn mul(self, rhs: F) -> (r: Self)
        ensures
            exact::<F>() ==> r == self.spec_mul(rhs),
    {
        Self { real: times(self.real, rhs), imag: times(self.imag, rhs) }
    }

    /// Multiplies both parts by `rhs` in place.
    pub fn mul_assign(&mut self, rhs: F)
        ensures
            exact::<F>() ==> *final(self) == old(self).spec_mul(rhs),
    {
        *self = self.mul(rhs);
    }

    /// Computes the complex product `self · rhs`.
    pub fn product(self, rhs: Self) -> (r: Self)
        ensures
            exact::<F>() ==> r == self.spec_product(rhs),
    {
        Self {
            real: minus(times(self.real, rhs.real), times(self.imag, rhs.imag)),
            imag: plus(times(self.real, rhs.imag), times(self.imag, rhs.real)),
        }
    }

    /// Multiplies by `rhs` in place; both parts are computed from the value
    /// before the call.
    pub fn product_assign(&mut self, rhs: Self)
        ensures
            exact::<F>() ==> *final(self) == old(self).spec_product(rhs),
    {
        *self = self.product(rhs);
    }

    /// Divides both parts by `rhs`.
    pub fn div(self, rhs: F) -> (r: Self)
        ensures
            exact::<F>() ==> r == self.spec_div(rhs),
    {
        Self { real: over(self.real, rhs), imag: over(self.imag, rhs) }
    }

    /// Divides both parts by `rhs` in place.
    pub fn div_assign(&mut self, rhs: F)
        ensures
            exact::<F>() ==> *final(self) == old(self).spec_div(rhs),
    {
        *self = self.div(rhs);
    }

    /// Negates both parts.
    pub fn neg(self) -> (r: Self)
        ensures
            exact::<F>() ==> r == (Complex { real: opp(self.real), imag: opp(self.imag) }),
    {
        Self { real: negate(self.real), imag: negate(self.imag) }
    }
}

impl<F: Copy> From<Vec2<F>> for Complex<F> {
    fn from(v: Vec2<F>) -> (r: Self) {
        Self { real: v.x, imag: v.y }
    }
}

impl<F: Copy> vstd::std_specs::convert::FromSpecImpl<Vec2<F>> for Complex<F> {
    open spec fn obeys_from_spec() -> bool {
        true
    }

    open spec fn from_spec(v: Vec2<F>) -> Self {
        Complex { real: v.x, imag: v.y }
    }
}

impl<F: Copy> From<Complex<F>> for Vec2<F> {
    fn from(c: Complex<F>) -> (r: Self) {
        Vec2 { x: c.real, y: c.imag }
    }
}

impl<F: Copy> vstd::std_specs::convert::FromSpecImpl<Complex<F>> for Vec2<F> {
    open spec fn obeys_from_spec() -> bool {
        true
    }

    open spec fn from_spec(c: Complex<F>) -> Self {
        Vec2 { x: c.real, y: c.imag }
    }
}

} // verus!
