//! What the impl blocks mean: one generic wrapper with the operations that
//! they give, written out by hand. Each operator is the inner type's own: it
//! is defined on two wrappers exactly where the inner operator is defined on
//! their values, and gives the wrapper of what the inner operator gives.

use core::ops::{Add, Div, Mul, Rem, Sub};
use vstd::prelude::*;
use vstd::std_specs::convert::FromSpec;
use vstd::std_specs::ops::{AddSpec, DivSpec, MulSpec, RemSpec, SubSpec};

verus! {

/// A wrapper around one value.
#[derive(Clone, Copy, Debug, PartialEq, Eq)]
pub struct Newtype<T>(pub T);

impl<T> Newtype<T> {
    /// The wrapper that `new` and `from` make of a value.
    pub open spec fn wrapping(value: T) -> Self {
        Newtype(value)
    }

    /// The value that `inner` lends.
    pub open spec fn inner_value(self) -> T {
        self.0
    }

    /// Wraps `value`.
    pub fn new(value: T) -> (made: Self)
        ensures
            made == Self::wrapping(value),
    {
        Newtype(value)
    }

    /// Lends the wrapped value.
    pub fn inner(&self) -> (lent: &T)
        ensures
            *lent == self.inner_value(),
    {
        &self.0
    }
}

impl<T> From<T> for Newtype<T> {
    fn from(value: T) -> (made: Self) {
        Newtype(value)
    }
}

impl<T> vstd::std_specs::convert::FromSpecImpl<T> for Newtype<T> {
    open spec fn obeys_from_spec() -> bool {
        true
    }

    open spec fn from_spec(value: T) -> Self {
        Self::wrapping(value)
    }
}

impl<T: Add<Output = T>> Add for Newtype<T> {
    type Output = Self;

    /// `self + rhs`: the wrapper of the inner values' sum.
    fn add(self, rhs: Self) -> (out: Self) {
        Newtype(self.0 + rhs.0)
    }
}

impl<T: Add<Output = T>> vstd::std_specs::ops::AddSpecImpl for Newtype<T> {
    open spec fn obeys_add_spec() -> bool {
        T::obeys_add_spec()
    }

    open spec fn add_req(self, rhs: Self) -> bool {
        self.0.add_req(rhs.0)
    }

    open spec fn add_spec(self, rhs: Self) -> Self {
        Newtype(self.0.add_spec(rhs.0))
    }
}

impl<T: Sub<Output = T>> Sub for Newtype<T> {
    type Output = Self;

    /// `self - rhs`: the wrapper of the inner values' difference.
    fn sub(self, rhs: Self) -> (out: Self) {
        Newtype(self.0 - rhs.0)
    }
}

impl<T: Sub<Output = T>> vstd::std_specs::ops::SubSpecImpl for Newtype<T> {
    open spec fn obeys_sub_spec() -> bool {
        T::obeys_sub_spec()
    }

    open spec fn sub_req(self, rhs: Self) -> bool {
        self.0.sub_req(rhs.0)
    }

    open spec fn sub_spec(self, rhs: Self) -> Self {
        Newtype(self.0.sub_spec(rhs.0))
    }
}

impl<T: Mul<Output = T>> Mul for Newtype<T> {
    type Output = Self;

    /// `self * rhs`: the wrapper of the inner values' product.
    fn mul(self, rhs: Self) -> (out: Self) {
        Newtype(self.0 * rhs.0)
    }
}

impl<T: Mul<Output = T>> vstd::std_specs::ops::MulSpecImpl for Newtype<T> {
    open spec fn obeys_mul_spec() -> bool {
        T::obeys_mul_spec()
    }

    open spec fn mul_req(self, rhs: Self) -> bool {
        self.0.mul_req(rhs.0)
    }

    open spec fn mul_spec(self, rhs: Self) -> Self {
        Newtype(self.0.mul_spec(rhs.0))
    }
}

impl<T: Div<Output = T>> Div for Newtype<T> {
    type Output = Self;

    /// `self / rhs`: the wrapper of the inner values' quotient.
    fn div(self, rhs: Self) -> (out: Self) {
        Newtype(self.0 / rhs.0)
    }
}

impl<T: Div<Output = T>> vstd::std_specs::ops::DivSpecImpl for Newtype<T> {
    open spec fn obeys_div_spec() -> bool {
        T::obeys_div_spec()
    }

    open spec fn div_req(self, rhs: Self) -> bool {
        self.0.div_req(rhs.0)
    }

    open spec fn div_spec(self, rhs: Self) -> Self {
        Newtype(self.0.div_spec(rhs.0))
    }
}

impl<T: Rem<Output = T>> Rem for Newtype<T> {
    type Output = Self;

    /// `self % rhs`: the wrapper of the inner values' remainder.
    fn rem(self, rhs: Self) -> (out: Self) {
        Newtype(self.0 % rhs.0)
    }
}

impl<T: Rem<Output = T>> vstd::std_specs::ops::RemSpecImpl for Newtype<T> {
    open spec fn obeys_rem_spec() -> bool {
        T::obeys_rem_spec()
    }

    open spec fn rem_req(self, rhs: Self) -> bool {
        self.0.rem_req(rhs.0)
    }

    open spec fn rem_spec(self, rhs: Self) -> Self {
        Newtype(self.0.rem_spec(rhs.0))
    }
}

impl<T: Mul<Output = T>> Mul<T> for Newtype<T> {
    type Output = Self;

    /// `self * rhs` for a bare inner value `rhs`.
    fn mul(self, rhs: T) -> (out: Self) {
        Newtype(self.0 * rhs)
    }
}

impl<T: Mul<Output = T>> vstd::std_specs::ops::MulSpecImpl<T> for Newtype<T> {
    open spec fn obeys_mul_spec() -> bool {
        T::obeys_mul_spec()
    }

    open spec fn mul_req(self, rhs: T) -> bool {
        self.0.mul_req(rhs)
    }

    open spec fn mul_spec(self, rhs: T) -> Self {
        Newtype(self.0.mul_spec(rhs))
    }
}

impl<T: Div<Output = T>> Div<T> for Newtype<T> {
    type Output = Self;

    /// `self / rhs` for a bare inner value `rhs`.
    fn div(self, rhs: T) -> (out: Self) {
        Newtype(self.0 / rhs)
    }
}

impl<T: Div<Output = T>> vstd::std_specs::ops::DivSpecImpl<T> for Newtype<T> {
    open spec fn obeys_div_spec() -> bool {
        T::obeys_div_spec()
    }

    open spec fn div_req(self, rhs: T) -> bool {
        self.0.div_req(rhs)
    }

    open spec fn div_spec(self, rhs: T) -> Self {
        Newtype(self.0.div_spec(rhs))
    }
}

impl<T: Rem<Output = T>> Rem<T> for Newtype<T> {
    type Output = Self;

    /// `self % rhs` for a bare inner value `rhs`.
    fn rem(self, rhs: T) -> (out: Self) {
        Newtype(self.0 % rhs)
    }
}

impl<T: Rem<Output = T>> vstd::std_specs::ops::RemSpecImpl<T> for Newtype<T> {
    open spec fn obeys_rem_spec() -> bool {
        T::obeys_rem_spec()
    }

    open spec fn rem_req(self, rhs: T) -> bool {
        self.0.rem_req(rhs)
    }

    open spec fn rem_spec(self, rhs: T) -> Self {
        Newtype(self.0.rem_spec(rhs))
    }
}

/// The in-place operators. The impl blocks hand the right-hand value to the
/// inner type's own in-place operator. On the inner types whose operators are
/// specified, the integers, that stores what the value-returning operator
/// gives on the current value, and this is how the methods here are stated
/// and written; so they ask for an inner type that is `Copy`.
impl<T: Copy> Newtype<T> {
    /// `self += rhs`.
    pub fn add_assign(&mut self, rhs: Self) where T: Add<Output = T>
        requires
            (*old(self)).add_req(rhs),
        ensures
            T::obeys_add_spec() ==> *final(self) == (*old(self)).add_spec(rhs),
    {
        self.0 = self.0 + rhs.0;
    }

    /// `self -= rhs`.
    pub fn sub_assign(&mut self, rhs: Self) where T: Sub<Output = T>
        requires
            (*old(self)).sub_req(rhs),
        ensures
            T::obeys_sub_spec() ==> *final(self) == (*old(self)).sub_spec(rhs),
    {
        self.0 = self.0 - rhs.0;
    }

    /// `self *= rhs`.
    pub fn mul_assign(&mut self, rhs: Self) where T: Mul<Output = T>
        requires
            (*old(self)).mul_req(rhs),
        ensures
            T::obeys_mul_spec() ==> *final(self) == (*old(self)).mul_spec(rhs),
    {
        self.0 = self.0 * rhs.0;
    }

    /// `self /= rhs`.
    pub fn div_assign(&mut self, rhs: Self) where T: Div<Output = T>
        requires
            (*old(self)).div_req(rhs),
        ensures
            T::obeys_div_spec() ==> *final(self) == (*old(self)).div_spec(rhs),
    {
        self.0 = self.0 / rhs.0;
    }

    /// `self %= rhs`.
    pub fn rem_assign(&mut self, rhs: Self) where T: Rem<Output = T>
        requires
            (*old(self)).rem_req(rhs),
        ensures
            T::obeys_rem_spec() ==> *final(self) == (*old(self)).rem_spec(rhs),
    {
        self.0 = self.0 % rhs.0;
    }

    /// `self *= rhs` for a bare inner value `rhs`.
    pub fn mul_assign_scalar(&mut self, rhs: T) where T: Mul<Output = T>
        requires
            (*old(self)).mul_req(rhs),
        ensures
            T::obeys_mul_spec() ==> *final(self) == (*old(self)).mul_spec(rhs),
    {
        self.0 = self.0 * rhs;
    }

    /// `self /= rhs` for a bare inner value `rhs`.
    pub fn div_assign_scalar(&mut self, rhs: T) where T: Div<Output = T>
        requires
            (*old(self)).div_req(rhs),
        ensures
            T::obeys_div_spec() ==> *final(self) == (*old(self)).div_spec(rhs),
    {
        self.0 = self.0 / rhs;
    }

    /// `self %= rhs` for a bare inner value `rhs`.
    pub fn rem_assign_scalar(&mut self, rhs: T) where T: Rem<Output = T>
        requires
            (*old(self)).rem_req(rhs),
        ensures
            T::obeys_rem_spec() ==> *final(self) == (*old(self)).rem_spec(rhs),
    {
        self.0 = self.0 % rhs;
    }

}

/// A wrapper made by `new` is the wrapper written out around the same value,
/// and two such wrappers are equal exactly where their values are.
pub proof fn lemma_constructor_fidelity<T>(a: T, b: T)
    ensures
        Newtype::wrapping(a) == Newtype(a),
        (Newtype::wrapping(a) == Newtype::wrapping(b)) == (a == b),
{
}

/// Reading the inner value of a fresh wrapper gives the value back, and
/// converting a value wraps it.
pub proof fn lemma_accessor_and_conversion_fidelity<T>(a: T)
    ensures
        Newtype::wrapping(a).inner_value() == a,
        <Newtype<T> as FromSpec<T>>::from_spec(a) == Newtype(a),
        <Newtype<T> as FromSpec<T>>::from_spec(a).inner_value() == a,
{
}

/// The wrapper's operator is the inner type's: it is defined on the wrappers
/// of `a` and `b` exactly where the inner operator is defined on `a` and `b`,
/// and gives the wrapper of the inner operator's result.
pub proof fn lemma_operator_delegation<T>(a: T, b: T) where
    T: Add<Output = T> + Sub<Output = T> + Mul<Output = T> + Div<Output = T> + Rem<Output = T>,
    ensures
        Newtype(a).add_req(Newtype(b)) == a.add_req(b),
        Newtype(a).add_spec(Newtype(b)) == Newtype(a.add_spec(b)),
        Newtype(a).sub_req(Newtype(b)) == a.sub_req(b),
        Newtype(a).sub_spec(Newtype(b)) == Newtype(a.sub_spec(b)),
        Newtype(a).mul_req(Newtype(b)) == a.mul_req(b),
        Newtype(a).mul_spec(Newtype(b)) == Newtype(a.mul_spec(b)),
        Newtype(a).div_req(Newtype(b)) == a.div_req(b),
        Newtype(a).div_spec(Newtype(b)) == Newtype(a.div_spec(b)),
        Newtype(a).rem_req(Newtype(b)) == a.rem_req(b),
        Newtype(a).rem_spec(Newtype(b)) == Newtype(a.rem_spec(b)),
{
}

/// A bare inner value `s` on the right-hand side: the operator is defined
/// exactly where the inner operator is defined on `a` and `s`, and gives the
/// wrapper of the inner operator's result, which is what the wrapper of `s`
/// would give there.
pub proof fn lemma_scalar_operand<T>(a: T, s: T) where
    T: Mul<Output = T> + Div<Output = T> + Rem<Output = T>,
    ensures
        Newtype(a).mul_req(s) == a.mul_req(s),
        Newtype(a).mul_spec(s) == Newtype(a.mul_spec(s)),
        Newtype(a).mul_spec(s) == Newtype(a).mul_spec(Newtype(s)),
        Newtype(a).div_req(s) == a.div_req(s),
        Newtype(a).div_spec(s) == Newtype(a.div_spec(s)),
        Newtype(a).div_spec(s) == Newtype(a).div_spec(Newtype(s)),
        Newtype(a).rem_req(s) == a.rem_req(s),
        Newtype(a).rem_spec(s) == Newtype(a.rem_spec(s)),
        Newtype(a).rem_spec(s) == Newtype(a).rem_spec(Newtype(s)),
{
}

/// On `u32` the operators are the machine's: addition, subtraction and
/// multiplication are defined where the result is in range, division and
/// remainder where the divisor is not zero.
pub proof fn lemma_operators_on_u32(a: u32, b: u32)
    ensures
        Newtype(a).add_req(Newtype(b)) == (a + b <= u32::MAX),
        Newtype(a).sub_req(Newtype(b)) == (b <= a),
        Newtype(a).mul_req(Newtype(b)) == (a * b <= u32::MAX),
        Newtype(a).div_req(Newtype(b)) == (b != 0),
        Newtype(a).rem_req(Newtype(b)) == (b != 0),
        a + b <= u32::MAX ==> Newtype(a).add_spec(Newtype(b)).0 == a + b,
        b <= a ==> Newtype(a).sub_spec(Newtype(b)).0 == a - b,
        a * b <= u32::MAX ==> Newtype(a).mul_spec(Newtype(b)).0 == a * b,
        b != 0 ==> Newtype(a).div_spec(Newtype(b)).0 == a / b,
        b != 0 ==> Newtype(a).rem_spec(Newtype(b)).0 == a % b,
{
}

} // verus!
