//! The scalar contract: every other type of the crate is generic over a
//! floating-point type `F: num_traits::Float`.
//!
//! Arithmetic and comparisons are described through the specification that
//! vstd attaches to the std operator traits (`add_spec`, `partial_cmp_spec`,
//! ...). vstd leaves it open whether a given type obeys those specifications
//! (`obeys_add_spec` and friends), so every exact statement of this crate is
//! made under [`exact`] or [`ordered`]. Constants and transcendental functions
//! (`zero`, `one`, `sqrt`, `sin`, `cos`, `acos`, `atan2`) have no counterpart
//! in vstd: what they return is left unstated.
use num_traits::Float;
use vstd::prelude::*;
use vstd::std_specs::cmp::PartialOrdSpec;
use vstd::std_specs::ops::{AddSpec, DivSpec, MulSpec, NegSpec, SubSpec};

verus! {

/// `a + b` as `F`'s `Add` specifies it.
pub open spec fn sum<F: Float>(a: F, b: F) -> F {
    a.add_spec(b)
}

/// `a - b` as `F`'s `Sub` specifies it.
pub open spec fn diff<F: Float>(a: F, b: F) -> F {
    a.sub_spec(b)
}

/// `a * b` as `F`'s `Mul` specifies it.
pub open spec fn prod<F: Float>(a: F, b: F) -> F {
    a.mul_spec(b)
}

/// `a / b` as `F`'s `Div` specifies it.
pub open spec fn quot<F: Float>(a: F, b: F) -> F {
    a.div_spec(b)
}

/// `-a` as `F`'s `Neg` specifies it.
pub open spec fn opp<F: Float>(a: F) -> F {
    a.neg_spec()
}

/// `F`'s five arithmetic operators follow their vstd specifications.
pub open spec fn exact<F: Float>() -> bool {
    &&& F::obeys_add_spec()
    &&& F::obeys_sub_spec()
    &&& F::obeys_mul_spec()
    &&& F::obeys_div_spec()
    &&& F::obeys_neg_spec()
}

/// `F`'s `partial_cmp` follows its vstd specification.
pub open spec fn ordered<F: Float>() -> bool {
    F::obeys_partial_cmp_spec()
}

/// `a > b`.
pub open spec fn greater<F: Float>(a: F, b: F) -> bool {
    a.partial_cmp_spec(&b) == Some(core::cmp::Ordering::Greater)
}

/// `a <= b`.
pub open spec fn at_most<F: Float>(a: F, b: F) -> bool {
    a.partial_cmp_spec(&b) matches Some(core::cmp::Ordering::Less | core::cmp::Ordering::Equal)
}

/// Relies on `Add::add`, a supertrait method of `num_traits::Float`.
#[verifier::external_body]
pub(crate) fn plus<F: Float>(a: F, b: F) -> (r: F)
    ensures
        F::obeys_add_spec() ==> r == sum(a, b),
{
    a + b
}

/// Relies on `Sub::sub`, a supertrait method of `num_traits::Float`.
#[verifier::external_body]
pub(crate) fn minus<F: Float>(a: F, b: F) -> (r: F)
    ensures
        F::obeys_sub_spec() ==> r == diff(a, b),
{
    a - b
}

/// Relies on `Mul::mul`, a supertrait method of `num_traits::Float`.
#[verifier::external_body]
pub(crate) fn times<F: Float>(a: F, b: F) -> (r: F)
    ensures
        F::obeys_mul_spec() ==> r == prod(a, b),
{
    a * b
}

/// Relies on `Div::div`, a supertrait method of `num_traits::Float`.
#[verifier::external_body]
pub(crate) fn over<F: Float>(a: F, b: F) -> (r: F)
    ensures
        F::obeys_div_spec() ==> r == quot(a, b),
{
    a / b
}

/// Relies on `Neg::neg`, a supertrait method of `num_traits::Float`.
#[verifier::external_body]
pub(crate) fn negate<F: Float>(a: F) -> (r: F)
    ensures
        F::obeys_neg_spec() ==> r == opp(a),
{
    -a
}

/// Relies on `PartialOrd::gt`, a supertrait method of `num_traits::Float`.
#[verifier::external_body]
pub(crate) fn is_greater<F: Float>(a: F, b: F) -> (r: bool)
    ensures
        F::obeys_partial_cmp_spec() ==> (r <==> greater(a, b)),
{
    a > b
}

/// Relies on `PartialOrd::le`, a supertrait method of `num_traits::Float`.
#[verifier::external_body]
pub(crate) fn is_at_most<F: Float>(a: F, b: F) -> (r: bool)
    ensures
        F::obeys_partial_cmp_spec() ==> (r <==> at_most(a, b)),
{
    a <= b
}

/// `d` brought into `[-1, 1]`, the domain of `acos`: rounding can push a
/// cosine computed from normalized vectors just outside it.
pub(crate) fn clamp_unit<F: Float>(d: F) -> F {
    let o = one();
    let m = negate(o);
    if is_greater(d, o) {
        o
    } else if is_greater(m, d) {
        m
    } else {
        d
    }
}

/// Relies on `num_traits::Zero::zero`, the additive identity.
#[verifier::external_body]
pub(crate) fn zero<F: Float>() -> F {
    F::zero()
}

/// Relies on `num_traits::One::one`, the multiplicative identity.
#[verifier::external_body]
pub(crate) fn one<F: Float>() -> F {
    F::one()
}

/// Relies on `num_traits::Float::sqrt`.
#[verifier::external_body]
pub(crate) fn sqrt<F: Float>(a: F) -> F {
    a.sqrt()
}

/// Relies on `num_traits::Float::sin`.
#[verifier::external_body]
pub(crate) fn sin<F: Float>(a: F) -> F {
    a.sin()
}

/// Relies on `num_traits::Float::cos`.
#[verifier::external_body]
pub(crate) fn cos<F: Float>(a: F) -> F {
    a.cos()
}

/// Relies on `num_traits::Float::acos`.
#[verifier::external_body]
pub(crate) fn acos<F: Float>(a: F) -> F {
    a.acos()
}

/// Relies on `num_traits::Float::atan2`: the angle of the point `(x, y)`.
#[verifier::external_body]
pub(crate) fn atan2<F: Float>(y: F, x: F) -> F {
    y.atan2(x)
}

} // verus!
